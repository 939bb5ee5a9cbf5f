//! Percent-encoding of query values, and the byte buffer that requests are
//! rendered into.
//!
//! Two encodings are used, mirroring the two ways the upstream URLs are
//! assembled.  Query pairs appended through the generic builder follow the
//! `application/x-www-form-urlencoded` byte serializer: `*`, `-`, `.`, `_`
//! and alphanumerics pass through, a space becomes `+`, and every other byte
//! becomes `%XX`.  The pre-encoded `fields` value instead keeps
//! alphanumerics, `_`, `.`, `(` and `)`, and percent-encodes everything else
//! (so a space becomes `%20`, not `+`).

use vstd::prelude::*;

verus! {

use vstd::string::StringSliceAdditionalSpecFns;
use vstd::utf8::{encode_utf8, valid_utf8};
use crate::bytestr::{lemma_ascii_bytes_valid, push_i64_dec, push_u64_dec, string_from_utf8,
    i64_dec_bytes, u64_dec_bytes};

/// Uppercase hexadecimal digit for `d`.
pub open spec fn hex_digit(d: nat) -> u8
    recommends
        d < 16,
{
    if d < 10 {
        (0x30 + d) as u8
    } else {
        (0x41 + (d - 10)) as u8
    }
}

/// `%XX` with uppercase hex digits, as all the encoders here emit it.
pub open spec fn pct_byte(b: u8) -> Seq<u8> {
    seq![0x25u8, hex_digit(b as nat / 16), hex_digit(b as nat % 16)]
}

/// Bytes the `application/x-www-form-urlencoded` serializer passes through:
/// `*`, `-`, `.`, digits, letters and `_`.
pub open spec fn form_unchanged(b: u8) -> bool {
    ||| b == 0x2a
    ||| b == 0x2d
    ||| b == 0x2e
    ||| 0x30 <= b <= 0x39
    ||| 0x41 <= b <= 0x5a
    ||| b == 0x5f
    ||| 0x61 <= b <= 0x7a
}

/// One byte under form-urlencoding: kept, `+` for a space, else `%XX`.
pub open spec fn form_byte(b: u8) -> Seq<u8> {
    if form_unchanged(b) {
        seq![b]
    } else if b == 0x20 {
        seq![0x2bu8]
    } else {
        pct_byte(b)
    }
}

/// Form-urlencoding of a whole byte sequence.
pub open spec fn form_enc(s: Seq<u8>) -> Seq<u8>
    decreases s.len(),
{
    if s.len() == 0 {
        Seq::empty()
    } else {
        form_enc(s.drop_last()) + form_byte(s.last())
    }
}

/// Bytes the pre-encoded `fields` value keeps: alphanumerics, `_`, `.`,
/// `(` and `)`.
pub open spec fn fields_unchanged(b: u8) -> bool {
    ||| 0x30 <= b <= 0x39
    ||| 0x41 <= b <= 0x5a
    ||| 0x61 <= b <= 0x7a
    ||| b == 0x5f
    ||| b == 0x2e
    ||| b == 0x28
    ||| b == 0x29
}

/// One byte under the `fields` percent-encoding.
pub open spec fn fields_byte(b: u8) -> Seq<u8> {
    if fields_unchanged(b) {
        seq![b]
    } else {
        pct_byte(b)
    }
}

/// The `fields` percent-encoding of a whole byte sequence.
pub open spec fn fields_enc(s: Seq<u8>) -> Seq<u8>
    decreases s.len(),
{
    if s.len() == 0 {
        Seq::empty()
    } else {
        fields_enc(s.drop_last()) + fields_byte(s.last())
    }
}

/// Every byte either encoding emits is ASCII.
pub proof fn lemma_form_enc_ascii(s: Seq<u8>)
    ensures
        forall|i: int| 0 <= i < form_enc(s).len() ==> form_enc(s)[i] < 0x80,
    decreases s.len(),
{
    if s.len() > 0 {
        lemma_form_enc_ascii(s.drop_last());
        let pre = form_enc(s.drop_last());
        let e = form_byte(s.last());
        assert(forall|i: int| 0 <= i < e.len() ==> e[i] < 0x80);
        assert forall|i: int| 0 <= i < form_enc(s).len() implies form_enc(s)[i] < 0x80 by {
            if i < pre.len() {
                assert(form_enc(s)[i] == pre[i]);
            } else {
                assert(form_enc(s)[i] == e[i - pre.len()]);
            }
        }
    }
}

/// Every byte the `fields` encoding emits is ASCII.
pub proof fn lemma_fields_enc_ascii(s: Seq<u8>)
    ensures
        forall|i: int| 0 <= i < fields_enc(s).len() ==> fields_enc(s)[i] < 0x80,
    decreases s.len(),
{
    if s.len() > 0 {
        lemma_fields_enc_ascii(s.drop_last());
        let pre = fields_enc(s.drop_last());
        let e = fields_byte(s.last());
        assert(forall|i: int| 0 <= i < e.len() ==> e[i] < 0x80);
        assert forall|i: int| 0 <= i < fields_enc(s).len() implies fields_enc(s)[i] < 0x80 by {
            if i < pre.len() {
                assert(fields_enc(s)[i] == pre[i]);
            } else {
                assert(fields_enc(s)[i] == e[i - pre.len()]);
            }
        }
    }
}

/// An encoded query value can never break the pair structure of a URL: the
/// form-urlencoding emits no raw `&`, `=`, `?` or `#`, so appending an
/// encoded value after `key=` always leaves every other pair intact.
pub proof fn lemma_form_enc_reserved_free(s: Seq<u8>)
    ensures
        forall|i: int|
            0 <= i < form_enc(s).len() ==> form_enc(s)[i] != 0x26 && form_enc(s)[i] != 0x3d
                && form_enc(s)[i] != 0x3f && form_enc(s)[i] != 0x23,
    decreases s.len(),
{
    if s.len() > 0 {
        lemma_form_enc_reserved_free(s.drop_last());
        let pre = form_enc(s.drop_last());
        let e = form_byte(s.last());
        assert(forall|i: int|
            0 <= i < e.len() ==> e[i] != 0x26 && e[i] != 0x3d && e[i] != 0x3f && e[i] != 0x23);
        assert forall|i: int|
            0 <= i < form_enc(s).len() implies form_enc(s)[i] != 0x26 && form_enc(s)[i] != 0x3d
                && form_enc(s)[i] != 0x3f && form_enc(s)[i] != 0x23 by {
            if i < pre.len() {
                assert(form_enc(s)[i] == pre[i]);
            } else {
                assert(form_enc(s)[i] == e[i - pre.len()]);
            }
        }
    }
}

/// The `fields` percent-encoding emits no raw `&`, `=`, `?` or `#` either.
pub proof fn lemma_fields_enc_reserved_free(s: Seq<u8>)
    ensures
        forall|i: int|
            0 <= i < fields_enc(s).len() ==> fields_enc(s)[i] != 0x26 && fields_enc(s)[i] != 0x3d
                && fields_enc(s)[i] != 0x3f && fields_enc(s)[i] != 0x23,
    decreases s.len(),
{
    if s.len() > 0 {
        lemma_fields_enc_reserved_free(s.drop_last());
        let pre = fields_enc(s.drop_last());
        let e = fields_byte(s.last());
        assert(forall|i: int|
            0 <= i < e.len() ==> e[i] != 0x26 && e[i] != 0x3d && e[i] != 0x3f && e[i] != 0x23);
        assert forall|i: int|
            0 <= i < fields_enc(s).len() implies fields_enc(s)[i] != 0x26 && fields_enc(s)[i]
                != 0x3d && fields_enc(s)[i] != 0x3f && fields_enc(s)[i] != 0x23 by {
            if i < pre.len() {
                assert(fields_enc(s)[i] == pre[i]);
            } else {
                assert(fields_enc(s)[i] == e[i - pre.len()]);
            }
        }
    }
}

/// Decimal digits are ASCII.
pub proof fn lemma_dec_bytes_ascii(n: nat)
    ensures
        forall|i: int| 0 <= i < u64_dec_bytes(n).len() ==> u64_dec_bytes(n)[i] < 0x80,
    decreases n,
{
    if n >= 10 {
        lemma_dec_bytes_ascii(n / 10);
        let pre = u64_dec_bytes(n / 10);
        assert forall|i: int|
            0 <= i < u64_dec_bytes(n).len() implies u64_dec_bytes(n)[i] < 0x80 by {
            if i < pre.len() {
                assert(u64_dec_bytes(n)[i] == pre[i]);
            } else {
                assert(u64_dec_bytes(n)[i] == crate::bytestr::digit_byte(n % 10));
            }
        }
    }
}

/// The path's version segment: the override when one was given, else the
/// library default.
pub open spec fn version_segment(v: Option<Seq<char>>) -> Seq<char> {
    match v {
        Some(x) => x,
        None => "v15.0"@,
    }
}

/// A byte buffer that always holds valid UTF-8; requests and structured
/// query values are rendered into one.
pub struct Utf8Buf {
    buf: Vec<u8>,
}

impl Utf8Buf {
    /// The bytes rendered so far.
    pub closed spec fn view(&self) -> Seq<u8> {
        self.buf@
    }

    /// The buffer always holds valid UTF-8.
    pub closed spec fn wf(&self) -> bool {
        valid_utf8(self.buf@)
    }

    pub fn new() -> (r: Utf8Buf)
        ensures
            r@ == Seq::<u8>::empty(),
            r.wf(),
    {
        let r = Utf8Buf { buf: Vec::new() };
        proof {
            lemma_ascii_bytes_valid(Seq::<u8>::empty());
        }
        r
    }

    /// Appends a string verbatim.
    pub fn push_lit(&mut self, s: &str)
        requires
            old(self).wf(),
        ensures
            final(self)@ == old(self)@ + s.spec_bytes(),
            final(self).wf(),
    {
        let b = s.as_bytes();
        let mut i: usize = 0;
        while i < b.len()
            invariant
                0 <= i <= b@.len(),
                self.buf@ == old(self).buf@ + b@.subrange(0, i as int),
                b@ == s.spec_bytes(),
            decreases b@.len() - i,
        {
            self.buf.push(b[i]);
            assert(self.buf@ =~= old(self).buf@ + b@.subrange(0, i + 1 as int));
            i = i + 1;
        }
        proof {
            assert(b@.subrange(0, b@.len() as int) =~= b@);
            vstd::utf8::encode_utf8_valid_utf8(s@);
            vstd::utf8::valid_utf8_concat(old(self).buf@, b@);
        }
    }

    /// Appends the decimal digits of `n`.
    pub fn push_u64(&mut self, n: u64)
        requires
            old(self).wf(),
        ensures
            final(self)@ == old(self)@ + u64_dec_bytes(n as nat),
            final(self).wf(),
    {
        push_u64_dec(&mut self.buf, n);
        proof {
            lemma_dec_bytes_ascii(n as nat);
            lemma_ascii_bytes_valid(u64_dec_bytes(n as nat));
            vstd::utf8::valid_utf8_concat(old(self).buf@, u64_dec_bytes(n as nat));
        }
    }

    /// Appends the decimal form of `n`, minus sign included.
    pub fn push_i64(&mut self, n: i64)
        requires
            old(self).wf(),
        ensures
            final(self)@ == old(self)@ + i64_dec_bytes(n as int),
            final(self).wf(),
    {
        push_i64_dec(&mut self.buf, n);
        proof {
            lemma_dec_bytes_ascii(if n < 0 {
                (-(n as int)) as nat
            } else {
                n as nat
            });
            assert forall|i: int|
                0 <= i < i64_dec_bytes(n as int).len() implies i64_dec_bytes(n as int)[i]
                < 0x80 by {}
            lemma_ascii_bytes_valid(i64_dec_bytes(n as int));
            vstd::utf8::valid_utf8_concat(old(self).buf@, i64_dec_bytes(n as int));
        }
    }

    /// Appends a query value under form-urlencoding.
    #[verifier::loop_isolation(false)]
    pub fn push_form(&mut self, s: &str)
        requires
            old(self).wf(),
        ensures
            final(self)@ == old(self)@ + form_enc(s.spec_bytes()),
            final(self).wf(),
    {
        let b = s.as_bytes();
        let mut i: usize = 0;
        while i < b.len()
            invariant
                0 <= i <= b@.len(),
                self.buf@ == old(self).buf@ + form_enc(b@.subrange(0, i as int)),
            decreases b@.len() - i,
        {
            let c = b[i];
            if c == 0x2a || c == 0x2d || c == 0x2e || (0x30 <= c && c <= 0x39) || (0x41 <= c
                && c <= 0x5a) || c == 0x5f || (0x61 <= c && c <= 0x7a) {
                self.buf.push(c);
            } else if c == 0x20 {
                self.buf.push(0x2b);
            } else {
                self.buf.push(0x25);
                self.buf.push(hex_digit_exec(c / 16));
                self.buf.push(hex_digit_exec(c % 16));
            }
            proof {
                let p2 = b@.subrange(0, i + 1);
                assert(p2.drop_last() =~= b@.subrange(0, i as int));
                assert(p2.last() == c);
                assert(self.buf@ =~= old(self).buf@ + form_enc(p2));
            }
            i = i + 1;
        }
        proof {
            assert(b@.subrange(0, b@.len() as int) =~= b@);
            lemma_form_enc_ascii(b@);
            lemma_ascii_bytes_valid(form_enc(b@));
            vstd::utf8::valid_utf8_concat(old(self).buf@, form_enc(b@));
        }
    }

    /// Appends raw bytes as a query value under form-urlencoding.
    #[verifier::loop_isolation(false)]
    pub fn push_form_bytes(&mut self, b: &[u8])
        requires
            old(self).wf(),
        ensures
            final(self)@ == old(self)@ + form_enc(b@),
            final(self).wf(),
    {
        let mut i: usize = 0;
        while i < b.len()
            invariant
                0 <= i <= b@.len(),
                self.buf@ == old(self).buf@ + form_enc(b@.subrange(0, i as int)),
            decreases b@.len() - i,
        {
            let c = b[i];
            if c == 0x2a || c == 0x2d || c == 0x2e || (0x30 <= c && c <= 0x39) || (0x41 <= c
                && c <= 0x5a) || c == 0x5f || (0x61 <= c && c <= 0x7a) {
                self.buf.push(c);
            } else if c == 0x20 {
                self.buf.push(0x2b);
            } else {
                self.buf.push(0x25);
                self.buf.push(hex_digit_exec(c / 16));
                self.buf.push(hex_digit_exec(c % 16));
            }
            proof {
                let p2 = b@.subrange(0, i + 1);
                assert(p2.drop_last() =~= b@.subrange(0, i as int));
                assert(p2.last() == c);
                assert(self.buf@ =~= old(self).buf@ + form_enc(p2));
            }
            i = i + 1;
        }
        proof {
            assert(b@.subrange(0, b@.len() as int) =~= b@);
            lemma_form_enc_ascii(b@);
            lemma_ascii_bytes_valid(form_enc(b@));
            vstd::utf8::valid_utf8_concat(old(self).buf@, form_enc(b@));
        }
    }

    /// Appends a `fields` value under its percent-encoding.
    #[verifier::loop_isolation(false)]
    pub fn push_fields(&mut self, s: &str)
        requires
            old(self).wf(),
        ensures
            final(self)@ == old(self)@ + fields_enc(s.spec_bytes()),
            final(self).wf(),
    {
        let b = s.as_bytes();
        let mut i: usize = 0;
        while i < b.len()
            invariant
                0 <= i <= b@.len(),
                self.buf@ == old(self).buf@ + fields_enc(b@.subrange(0, i as int)),
            decreases b@.len() - i,
        {
            let c = b[i];
            if (0x30 <= c && c <= 0x39) || (0x41 <= c && c <= 0x5a) || (0x61 <= c && c <= 0x7a)
                || c == 0x5f || c == 0x2e || c == 0x28 || c == 0x29 {
                self.buf.push(c);
            } else {
                self.buf.push(0x25);
                self.buf.push(hex_digit_exec(c / 16));
                self.buf.push(hex_digit_exec(c % 16));
            }
            proof {
                let p2 = b@.subrange(0, i + 1);
                assert(p2.drop_last() =~= b@.subrange(0, i as int));
                assert(p2.last() == c);
                assert(self.buf@ =~= old(self).buf@ + fields_enc(p2));
            }
            i = i + 1;
        }
        proof {
            assert(b@.subrange(0, b@.len() as int) =~= b@);
            lemma_fields_enc_ascii(b@);
            lemma_ascii_bytes_valid(fields_enc(b@));
            vstd::utf8::valid_utf8_concat(old(self).buf@, fields_enc(b@));
        }
    }

    /// Finishes the buffer as a `String` holding exactly these bytes.
    pub fn into_string(self) -> (r: String)
        requires
            self.wf(),
        ensures
            encode_utf8(r@) == self@,
    {
        let r = crate::bytestr::string_from_utf8(self.buf);
        match r {
            Some(s) => s,
            None => {
                proof {
                    assert(false);
                }
                String::new()
            },
        }
    }
}

/// Uppercase hexadecimal digit of `d`.
fn hex_digit_exec(d: u8) -> (r: u8)
    requires
        d < 16,
    ensures
        r == hex_digit(d as nat),
{
    if d < 10 {
        0x30 + d
    } else {
        0x41 + (d - 10)
    }
}

} // verus!
