//! Cursor-based pagination, as the listing endpoints return it.

use vstd::prelude::*;

verus! {

use crate::jsonval::{JsonData, json_of, jget, jfield_opt_str, get_field, value_is_object,
    field_opt_string};

/// The `before` / `after` cursor pair of a page.
#[derive(Debug, Clone)]
pub struct PagingCursors {
    pub before: Option<String>,
    pub after: Option<String>,
}

/// Ghost image of [`PagingCursors`].
pub struct PagingCursorsView {
    pub before: Option<Seq<char>>,
    pub after: Option<Seq<char>>,
}

impl View for PagingCursors {
    type V = PagingCursorsView;

    open spec fn view(&self) -> PagingCursorsView {
        PagingCursorsView { before: self.before.deep_view(), after: self.after.deep_view() }
    }
}

/// One page's worth of position: the cursors plus the optional previous and
/// next page URLs.
#[derive(Debug, Clone)]
pub struct Paging {
    pub cursors: PagingCursors,
    pub previous: Option<String>,
    pub next: Option<String>,
}

/// Ghost image of [`Paging`].
pub struct PagingView {
    pub cursors: PagingCursorsView,
    pub previous: Option<Seq<char>>,
    pub next: Option<Seq<char>>,
}

impl View for Paging {
    type V = PagingView;

    open spec fn view(&self) -> PagingView {
        PagingView {
            cursors: self.cursors@,
            previous: self.previous.deep_view(),
            next: self.next.deep_view(),
        }
    }
}

/// The cursor to ask the next page with: the `after` cursor, but only when a
/// next page exists.
pub open spec fn next_cursor_spec(p: PagingView) -> Option<Seq<char>> {
    if p.next is Some {
        p.cursors.after
    } else {
        None
    }
}

impl Paging {
    /// The cursor for the next page, when the response says one exists.
    pub fn next_cursor(&self) -> (r: Option<String>)
        ensures
            match r {
                Some(s) => next_cursor_spec(self@) == Some(s@),
                None => next_cursor_spec(self@) is None,
            },
    {
        if self.next.is_some() {
            match &self.cursors.after {
                Some(after) => Some(after.clone()),
                None => None,
            }
        } else {
            None
        }
    }
}

/// How a cursor pair decodes: both members optional.
pub open spec fn dec_cursors(j: JsonData) -> Option<PagingCursorsView> {
    if !(j is Obj) {
        None
    } else {
        match jfield_opt_str(j, "before"@) {
            None => None,
            Some(before) => match jfield_opt_str(j, "after"@) {
                None => None,
                Some(after) => Some(PagingCursorsView { before, after }),
            },
        }
    }
}

/// How a paging node decodes: `cursors` is required, the page URLs are
/// optional.
pub open spec fn dec_paging(j: JsonData) -> Option<PagingView> {
    if !(j is Obj) {
        None
    } else {
        match jget(j, "cursors"@) {
            None => None,
            Some(c) => match dec_cursors(c) {
                None => None,
                Some(cursors) => match jfield_opt_str(j, "previous"@) {
                    None => None,
                    Some(previous) => match jfield_opt_str(j, "next"@) {
                        None => None,
                        Some(next) => Some(PagingView { cursors, previous, next }),
                    },
                },
            },
        }
    }
}

/// Decodes a cursor pair.
pub fn decode_cursors(v: &serde_json::Value) -> (r: Option<PagingCursors>)
    ensures
        match r {
            Some(c) => dec_cursors(json_of(*v)) == Some(c@),
            None => dec_cursors(json_of(*v)) is None,
        },
{
    if !value_is_object(v) {
        return None;
    }
    let before = match field_opt_string(v, "before") {
        Some(x) => x,
        None => {
            return None;
        },
    };
    let after = match field_opt_string(v, "after") {
        Some(x) => x,
        None => {
            return None;
        },
    };
    Some(PagingCursors { before, after })
}

/// Decodes a paging node.
pub fn decode_paging(v: &serde_json::Value) -> (r: Option<Paging>)
    ensures
        match r {
            Some(p) => dec_paging(json_of(*v)) == Some(p@),
            None => dec_paging(json_of(*v)) is None,
        },
{
    if !value_is_object(v) {
        return None;
    }
    let cursors = match get_field(v, "cursors") {
        None => {
            return None;
        },
        Some(c) => match decode_cursors(c) {
            Some(c) => c,
            None => {
                return None;
            },
        },
    };
    let previous = match field_opt_string(v, "previous") {
        Some(x) => x,
        None => {
            return None;
        },
    };
    let next = match field_opt_string(v, "next") {
        Some(x) => x,
        None => {
            return None;
        },
    };
    Some(Paging { cursors, previous, next })
}

} // verus!
