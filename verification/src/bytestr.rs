//! Byte-level string helpers: decimal formatting and parsing, ASCII case
//! folding, substring search, and conversion of ASCII byte buffers to
//! `String`.  Request rendering and response classification are specified
//! over byte sequences; these are the shared primitives.

use vstd::prelude::*;

verus! {

use vstd::string::StringSliceAdditionalSpecFns;
use vstd::utf8::{decode_utf8, encode_utf8, valid_utf8};

/// The ASCII byte for the decimal digit `d`.
pub open spec fn digit_byte(d: nat) -> u8
    recommends
        d < 10,
{
    (0x30 + d) as u8
}

/// The shortest decimal representation of `n`, as ASCII bytes.
pub open spec fn u64_dec_bytes(n: nat) -> Seq<u8>
    decreases n,
{
    if n < 10 {
        seq![digit_byte(n)]
    } else {
        u64_dec_bytes(n / 10).push(digit_byte(n % 10))
    }
}

/// The decimal representation of a signed value: a minus sign when negative.
pub open spec fn i64_dec_bytes(n: int) -> Seq<u8>
    recommends
        i64::MIN <= n <= i64::MAX,
{
    if n < 0 {
        seq![0x2du8] + u64_dec_bytes((-n) as nat)
    } else {
        u64_dec_bytes(n as nat)
    }
}

/// Appends the decimal digits of `n` to `buf`.
pub fn push_u64_dec(buf: &mut Vec<u8>, n: u64)
    ensures
        final(buf)@ == old(buf)@ + u64_dec_bytes(n as nat),
    decreases n,
{
    if n < 10 {
        buf.push(0x30 + (n as u8));
        assert(buf@ =~= old(buf)@ + u64_dec_bytes(n as nat));
    } else {
        push_u64_dec(buf, n / 10);
        buf.push(0x30 + ((n % 10) as u8));
        assert(buf@ =~= old(buf)@ + u64_dec_bytes(n as nat));
    }
}

/// Appends the decimal form of a signed value, minus sign included.
pub fn push_i64_dec(buf: &mut Vec<u8>, n: i64)
    ensures
        final(buf)@ == old(buf)@ + i64_dec_bytes(n as int),
{
    if n < 0 {
        buf.push(0x2d);
        let m: u64 = if n == i64::MIN {
            9223372036854775808u64
        } else {
            (-n) as u64
        };
        assert(m == -(n as int));
        push_u64_dec(buf, m);
        assert(buf@ =~= old(buf)@ + i64_dec_bytes(n as int));
    } else {
        push_u64_dec(buf, n as u64);
    }
}

/// True when `b` is an ASCII decimal digit.
pub open spec fn is_digit_byte(b: u8) -> bool {
    0x30 <= b <= 0x39
}

/// The numeric value of a sequence of decimal digits, most significant first.
pub open spec fn digits_value(s: Seq<u8>) -> nat
    decreases s.len(),
{
    if s.len() == 0 {
        0
    } else {
        digits_value(s.drop_last()) * 10 + ((s.last() - 0x30) as nat)
    }
}

/// True when every byte of `s` is a decimal digit.
pub open spec fn all_digits(s: Seq<u8>) -> bool {
    forall|i: int| 0 <= i < s.len() ==> is_digit_byte(s[i])
}

/// What `u64::from_str` accepts: an optional leading `+`, then at least one
/// decimal digit, with a value that fits in a `u64`.
pub open spec fn parse_u64_spec(s: Seq<u8>) -> Option<u64> {
    let digits = if s.len() > 0 && s[0] == 0x2bu8 {
        s.drop_first()
    } else {
        s
    };
    if digits.len() > 0 && all_digits(digits) && digits_value(digits) <= u64::MAX {
        Some(digits_value(digits) as u64)
    } else {
        None
    }
}

/// Parses an unsigned decimal number as `u64::from_str` does: an optional
/// leading `+`, then decimal digits; overflow is rejected.
#[verifier::loop_isolation(false)]
pub fn parse_u64(s: &[u8]) -> (r: Option<u64>)
    ensures
        r == parse_u64_spec(s@),
{
    let ghost digits_g: Seq<u8> = if s@.len() > 0 && s@[0] == 0x2bu8 {
        s@.drop_first()
    } else {
        s@
    };
    let start: usize = if s.len() > 0 && s[0] == 0x2bu8 {
        1
    } else {
        0
    };
    assert(digits_g =~= s@.subrange(start as int, s@.len() as int));
    if s.len() == start {
        return None;
    }
    let mut acc: u64 = 0;
    let mut i: usize = start;
    while i < s.len()
        invariant
            start <= i <= s@.len(),
            digits_g =~= s@.subrange(start as int, s@.len() as int),
            forall|j: int| start <= j < i ==> is_digit_byte(s@[j]),
            acc == digits_value(s@.subrange(start as int, i as int)),
            digits_value(s@.subrange(start as int, i as int)) <= u64::MAX,
        decreases s@.len() - i,
    {
        let b = s[i];
        if b < 0x30 || b > 0x39 {
            proof {
                let j = i - start;
                assert(0 <= j < digits_g.len() && !is_digit_byte(digits_g[j]));
                assert(!all_digits(digits_g));
                assert(parse_u64_spec(s@) is None);
            }
            return None;
        }
        let d: u64 = (b - 0x30) as u64;
        let ghost prefix = s@.subrange(start as int, i as int);
        let ghost prefix2 = s@.subrange(start as int, i + 1 as int);
        assert(prefix2.drop_last() =~= prefix);
        assert(prefix2.last() == b);
        if acc > 0x1999999999999999u64 || (acc == 0x1999999999999999u64 && d > 5) {
            // the next digit would push the value past u64::MAX
            proof {
                assert(digits_value(prefix2) > u64::MAX);
                lemma_digits_value_monotone(digits_g, i + 1 - start);
                assert(digits_g.subrange(0, i + 1 - start) =~= prefix2);
                assert(digits_value(digits_g) > u64::MAX);
                assert(parse_u64_spec(s@) is None);
            }
            return None;
        }
        acc = acc * 10 + d;
        i = i + 1;
    }
    proof {
        assert(s@.subrange(start as int, i as int) =~= digits_g);
        assert(all_digits(digits_g));
        assert(parse_u64_spec(s@) == Some(acc));
    }
    Some(acc)
}

/// A digit string's value only grows as more digits are appended.
proof fn lemma_digits_value_monotone(s: Seq<u8>, n: int)
    requires
        0 <= n <= s.len(),
    ensures
        digits_value(s) >= digits_value(s.subrange(0, n)),
    decreases s.len() - n,
{
    if n < s.len() {
        lemma_digits_value_monotone(s, n + 1);
        let a = s.subrange(0, n + 1);
        assert(a.drop_last() =~= s.subrange(0, n));
        assert(digits_value(a) >= digits_value(s.subrange(0, n)));
    } else {
        assert(s.subrange(0, n) =~= s);
    }
}

/// Parsing the decimal form of `n` gives back `n`.
pub proof fn lemma_parse_u64_dec_bytes(n: u64)
    ensures
        parse_u64_spec(u64_dec_bytes(n as nat)) == Some(n),
{
    lemma_u64_dec_bytes_digits(n as nat);
    lemma_digits_value_dec_bytes(n as nat);
    let s = u64_dec_bytes(n as nat);
    assert(is_digit_byte(s[0]));
    assert(s[0] != 0x2bu8);
    assert(all_digits(s));
}

/// Every byte of a decimal rendering is a digit, and the sequence is nonempty.
proof fn lemma_u64_dec_bytes_digits(n: nat)
    ensures
        u64_dec_bytes(n).len() > 0,
        forall|i: int| 0 <= i < u64_dec_bytes(n).len() ==> is_digit_byte(u64_dec_bytes(n)[i]),
    decreases n,
{
    if n >= 10 {
        lemma_u64_dec_bytes_digits(n / 10);
    }
}

/// The value of the decimal rendering of `n` is `n`.
proof fn lemma_digits_value_dec_bytes(n: nat)
    ensures
        digits_value(u64_dec_bytes(n)) == n,
    decreases n,
{
    if n < 10 {
        assert(u64_dec_bytes(n) =~= seq![digit_byte(n)]);
        assert(u64_dec_bytes(n).drop_last() =~= Seq::<u8>::empty());
        assert(digits_value(Seq::<u8>::empty()) == 0);
        assert(u64_dec_bytes(n).last() == digit_byte(n));
        assert(digit_byte(n) == 0x30 + n);
        assert(digits_value(u64_dec_bytes(n)) == 0 * 10 + ((digit_byte(n) - 0x30) as nat));
    } else {
        lemma_digits_value_dec_bytes(n / 10);
        assert(u64_dec_bytes(n).drop_last() =~= u64_dec_bytes(n / 10));
        assert(u64_dec_bytes(n).last() == digit_byte(n % 10));
        assert(digit_byte(n % 10) == 0x30 + n % 10);
        assert(digits_value(u64_dec_bytes(n)) == (n / 10) * 10 + n % 10);
        vstd::arithmetic::div_mod::lemma_fundamental_div_mod(n as int, 10);
    }
}

/// ASCII case folding of one byte: `A`..`Z` map to `a`..`z`.
pub open spec fn lower_byte(b: u8) -> u8 {
    if 0x41 <= b <= 0x5a {
        (b + 0x20) as u8
    } else {
        b
    }
}

/// ASCII case folding of a byte sequence.  Bytes outside `A`..`Z` are kept,
/// so multi-byte UTF-8 sequences pass through unchanged.
pub open spec fn lower_bytes(s: Seq<u8>) -> Seq<u8> {
    s.map(|_i: int, b: u8| lower_byte(b))
}

/// Returns the ASCII-lowercased copy of `s`.
#[verifier::loop_isolation(false)]
pub fn to_lower_bytes(s: &[u8]) -> (r: Vec<u8>)
    ensures
        r@ == lower_bytes(s@),
{
    let mut out: Vec<u8> = Vec::new();
    let mut i: usize = 0;
    while i < s.len()
        invariant
            0 <= i <= s@.len(),
            out@ =~= lower_bytes(s@.subrange(0, i as int)),
        decreases s@.len() - i,
    {
        let b = s[i];
        if 0x41 <= b && b <= 0x5a {
            out.push(b + 0x20);
        } else {
            out.push(b);
        }
        assert(out@ =~= lower_bytes(s@.subrange(0, i + 1 as int)));
        i = i + 1;
    }
    assert(s@.subrange(0, s@.len() as int) =~= s@);
    out
}

/// True when `needle` occurs as a contiguous run inside `hay`.
pub open spec fn contains_bytes(hay: Seq<u8>, needle: Seq<u8>) -> bool {
    exists|i: int|
        0 <= i && i + needle.len() <= hay.len() && #[trigger] hay.subrange(i, i + needle.len())
            =~= needle
}

/// Naive substring search over bytes.
#[verifier::loop_isolation(false)]
pub fn find_bytes(hay: &[u8], needle: &[u8]) -> (r: bool)
    ensures
        r == contains_bytes(hay@, needle@),
{
    let hl: usize = hay.len();
    let nl: usize = needle.len();
    if nl > hl {
        assert(!contains_bytes(hay@, needle@));
        return false;
    }
    let mut i: usize = 0;
    while i <= hl - nl
        invariant
            hl == hay@.len(),
            nl == needle@.len(),
            nl <= hl,
            0 <= i <= hl - nl + 1,
            forall|k: int|
                0 <= k < i ==> #[trigger] hay@.subrange(k, k + needle@.len()) !~= needle@,
        decreases hl - nl - i + 1,
    {
        let mut j: usize = 0;
        let mut matched: bool = true;
        while j < nl
            invariant
                hl == hay@.len(),
                nl == needle@.len(),
                0 <= j <= nl,
                i + nl <= hl,
                matched <==> (forall|k: int| 0 <= k < j ==> hay@[i + k] == needle@[k]),
            decreases nl - j,
        {
            if hay[i + j] != needle[j] {
                matched = false;
                j = nl;
            } else {
                j = j + 1;
            }
        }
        if matched {
            assert(hay@.subrange(i as int, i + needle@.len()) =~= needle@);
            return true;
        }
        assert(hay@.subrange(i as int, i + needle@.len()) !~= needle@);
        i = i + 1;
    }
    assert forall|k: int| 0 <= k && k + needle@.len() <= hay@.len() implies #[trigger] hay@
        .subrange(k, k + needle@.len()) !~= needle@ by {
        assert(k < i);
    }
    false
}

/// True when the ASCII-lowercased `hay` contains `needle` (itself already
/// lowercase).  This is the case-insensitive match the error classifiers use.
pub open spec fn contains_lower(hay: Seq<u8>, needle: Seq<u8>) -> bool {
    contains_bytes(lower_bytes(hay), needle)
}

/// Case-insensitive containment of an ASCII pattern in a UTF-8 string.
pub fn contains_bytes_lower(hay: &str, needle: &[u8]) -> (r: bool)
    ensures
        r == contains_lower(hay.spec_bytes(), needle@),
{
    let hb = hay.as_bytes();
    let lowered = to_lower_bytes(hb);
    find_bytes(lowered.as_slice(), needle)
}

/// Byte-wise equality of two strings; equal bytes mean equal views.
#[verifier::loop_isolation(false)]
pub fn str_eq(a: &str, b: &str) -> (r: bool)
    ensures
        r <==> a@ == b@,
{
    let ab = a.as_bytes();
    let bb = b.as_bytes();
    let mut eq: bool = true;
    if ab.len() != bb.len() {
        eq = false;
    } else {
        let mut i: usize = 0;
        while i < ab.len()
            invariant
                0 <= i <= ab@.len(),
                ab@.len() == bb@.len(),
                ab@ == a.spec_bytes(),
                bb@ == b.spec_bytes(),
                eq <==> (forall|k: int| 0 <= k < i ==> ab@[k] == bb@[k]),
            decreases ab@.len() - i,
        {
            if ab[i] != bb[i] {
                eq = false;
                i = ab.len();
            } else {
                i = i + 1;
            }
        }
    }
    proof {
        if eq {
            assert(a.spec_bytes() =~= b.spec_bytes());
            vstd::utf8::encode_utf8_decode_utf8(a@);
            vstd::utf8::encode_utf8_decode_utf8(b@);
            assert(a@ == b@);
        } else {
            if a@ == b@ {
                assert(a.spec_bytes() =~= b.spec_bytes());
            }
        }
    }
    eq
}

/// Appends a string's bytes to a byte buffer.
#[verifier::loop_isolation(false)]
pub fn push_str_bytes(buf: &mut Vec<u8>, s: &str)
    ensures
        final(buf)@ == old(buf)@ + s.spec_bytes(),
{
    let b = s.as_bytes();
    let mut i: usize = 0;
    while i < b.len()
        invariant
            0 <= i <= b@.len(),
            buf@ == old(buf)@ + b@.subrange(0, i as int),
        decreases b@.len() - i,
    {
        buf.push(b[i]);
        assert(buf@ =~= old(buf)@ + b@.subrange(0, i + 1));
        i = i + 1;
    }
    assert(b@.subrange(0, b@.len() as int) =~= b@);
}

/// Returns a copy of the bytes.
#[verifier::loop_isolation(false)]
pub fn copy_bytes(s: &[u8]) -> (r: Vec<u8>)
    ensures
        r@ == s@,
{
    let mut out: Vec<u8> = Vec::new();
    let mut i: usize = 0;
    while i < s.len()
        invariant
            0 <= i <= s@.len(),
            out@ =~= s@.subrange(0, i as int),
        decreases s@.len() - i,
    {
        out.push(s[i]);
        assert(out@ =~= s@.subrange(0, i + 1));
        i = i + 1;
    }
    assert(out@ =~= s@);
    out
}

/// Relies on `String::from_utf8`: when the bytes are valid UTF-8 it returns
/// the string they encode.
#[verifier::external_body]
pub fn string_from_utf8(v: Vec<u8>) -> (r: Option<String>)
    ensures
        valid_utf8(v@) ==> {
            &&& r is Some
            &&& encode_utf8(r.unwrap()@) == v@
            &&& r.unwrap()@ == decode_utf8(v@)
        },
{
    String::from_utf8(v).ok()
}

/// The decimal form of `n`, as a `String`.
pub fn u64_to_string(n: u64) -> (r: String)
    ensures
        encode_utf8(r@) == u64_dec_bytes(n as nat),
{
    let mut buf: Vec<u8> = Vec::new();
    push_u64_dec(&mut buf, n);
    proof {
        crate::urlenc::lemma_dec_bytes_ascii(n as nat);
        assert(buf@ =~= u64_dec_bytes(n as nat));
        lemma_ascii_bytes_valid(buf@);
    }
    match string_from_utf8(buf) {
        Some(s) => s,
        None => {
            proof {
                assert(false);
            }
            String::new()
        },
    }
}

/// Every byte below `0x80` encodes itself, so an all-ASCII buffer is valid
/// UTF-8.
pub proof fn lemma_ascii_bytes_valid(s: Seq<u8>)
    requires
        forall|i: int| 0 <= i < s.len() ==> s[i] < 0x80,
    ensures
        valid_utf8(s),
    decreases s.len(),
{
    if s.len() > 0 {
        let b0 = s[0];
        assert(vstd::utf8::is_leading_byte_width_1(b0));
        assert(vstd::utf8::valid_first_scalar(s));
        assert(vstd::utf8::pop_first_scalar(s) =~= s.drop_first());
        lemma_ascii_bytes_valid(s.drop_first());
    }
}

} // verus!
