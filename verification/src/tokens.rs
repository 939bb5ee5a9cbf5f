//! The three bearer-token kinds of the Basic Display surface.
//!
//! A short-lived and a long-lived user token each convert into the generic
//! [`UserAccessToken`] that the reading endpoints consume; the reverse
//! conversion is never implicit.  The documented lifetimes are informational
//! only — nothing here enforces them.

use vstd::prelude::*;

verus! {

/// Documented lifetime of a long-lived user token, in seconds.
pub const LONG_LIVED_USER_ACCESS_TOKEN_LIFETIME_SECS: u64 = 3600 * 24 * 60;

/// Documented lifetime of a short-lived user token, in seconds.
pub const SHORT_LIVED_USER_ACCESS_TOKEN_LIFETIME_SECS: u64 = 3600;

/// A short-lived user token, as the OAuth exchange hands it out.
#[derive(Debug, Clone, PartialEq, Eq)]
pub struct ShortLivedUserAccessToken {
    token: String,
}

/// A long-lived user token, obtained by exchanging a short-lived one.
#[derive(Debug, Clone, PartialEq, Eq)]
pub struct LongLivedUserAccessToken {
    token: String,
}

/// Any user token: what the reading endpoints take.
#[derive(Debug, Clone, PartialEq, Eq)]
pub struct UserAccessToken {
    token: String,
}

impl ShortLivedUserAccessToken {
    /// The characters of the token.
    pub closed spec fn view(&self) -> Seq<char> {
        self.token@
    }

    pub fn new(token: String) -> (r: Self)
        ensures
            r@ == token@,
    {
        ShortLivedUserAccessToken { token }
    }

    pub fn inner(&self) -> (r: &String)
        ensures
            r@ == self@,
    {
        &self.token
    }

    pub fn into_inner(self) -> (r: String)
        ensures
            r@ == self@,
    {
        self.token
    }
}

impl LongLivedUserAccessToken {
    /// The characters of the token.
    pub closed spec fn view(&self) -> Seq<char> {
        self.token@
    }

    pub fn new(token: String) -> (r: Self)
        ensures
            r@ == token@,
    {
        LongLivedUserAccessToken { token }
    }

    pub fn inner(&self) -> (r: &String)
        ensures
            r@ == self@,
    {
        &self.token
    }

    pub fn into_inner(self) -> (r: String)
        ensures
            r@ == self@,
    {
        self.token
    }
}

impl UserAccessToken {
    /// The characters of the token.
    pub closed spec fn view(&self) -> Seq<char> {
        self.token@
    }

    pub fn new(token: String) -> (r: Self)
        ensures
            r@ == token@,
    {
        UserAccessToken { token }
    }

    pub fn inner(&self) -> (r: &String)
        ensures
            r@ == self@,
    {
        &self.token
    }

    pub fn into_inner(self) -> (r: String)
        ensures
            r@ == self@,
    {
        self.token
    }
}

impl From<ShortLivedUserAccessToken> for UserAccessToken {
    fn from(t: ShortLivedUserAccessToken) -> (r: Self)
        ensures
            r@ == t@,
    {
        UserAccessToken { token: t.token }
    }
}

impl vstd::std_specs::convert::FromSpecImpl<ShortLivedUserAccessToken> for UserAccessToken {
    closed spec fn obeys_from_spec() -> bool {
        true
    }

    closed spec fn from_spec(t: ShortLivedUserAccessToken) -> Self {
        UserAccessToken { token: t.token }
    }
}

impl From<LongLivedUserAccessToken> for UserAccessToken {
    fn from(t: LongLivedUserAccessToken) -> (r: Self)
        ensures
            r@ == t@,
    {
        UserAccessToken { token: t.token }
    }
}

impl vstd::std_specs::convert::FromSpecImpl<LongLivedUserAccessToken> for UserAccessToken {
    closed spec fn obeys_from_spec() -> bool {
        true
    }

    closed spec fn from_spec(t: LongLivedUserAccessToken) -> Self {
        UserAccessToken { token: t.token }
    }
}

} // verus!
