//! The clock, invite-code generation and byte-bounded truncation.

use vstd::prelude::*;
use vstd::string::StringSliceAdditionalSpecFns;
use vstd::utf8::{
    encode_utf8, encode_utf8_valid_utf8, is_char_boundary, is_char_boundary_start_end_of_seq,
    valid_utf8,
};

verus! {

/// Shortest length of a generated invite code.
pub const CODE_MIN_LEN: usize = 7;

/// Longest length of a generated invite code.
pub const CODE_MAX_LEN: usize = 17;

/// Number of characters in the invite-code alphabet.
pub const CODE_ABC_LEN: usize = 62;

/// The `i`-th character of the invite-code alphabet: `a..z`, then `A..Z`, then `0..9`.
pub open spec fn code_abc(i: int) -> char {
    if i < 26 {
        (('a' as int) + i) as char
    } else if i < 52 {
        (('A' as int) + (i - 26)) as char
    } else {
        (('0' as int) + (i - 52)) as char
    }
}

pub open spec fn is_code_char(c: char) -> bool {
    exists|i: int| 0 <= i < CODE_ABC_LEN && #[trigger] code_abc(i) == c
}

/// A well-formed invite code: 7 to 17 characters of the alphabet.
pub open spec fn is_invite_code(s: Seq<char>) -> bool {
    &&& CODE_MIN_LEN <= s.len() <= CODE_MAX_LEN
    &&& forall|k: int| 0 <= k < s.len() ==> is_code_char(#[trigger] s[k])
}

/// Relies on std's `SystemTime::now`: the seconds since the Unix epoch that
/// the system clock reports, 0 for a clock before the epoch. The platform
/// keeps those seconds in a signed 64-bit count, so they are never negative.
#[verifier::external_body]
pub fn now() -> (r: i64)
    ensures
        r >= 0,
{
    std::time::SystemTime::now().duration_since(std::time::UNIX_EPOCH).unwrap_or_default().as_secs() as i64
}

/// Relies on rand's `Rng::random_range` on the thread-local generator of `rand::rng`:
/// a value of the inclusive range, which must not be empty.
#[verifier::external_body]
fn random_between(lo: usize, hi: usize) -> (r: usize)
    requires
        lo <= hi,
    ensures
        lo <= r <= hi,
{
    rand::Rng::random_range(&mut rand::rng(), lo..=hi)
}

/// Relies on std's `String::push`: appends one character.
#[verifier::external_body]
pub(crate) fn push_char(s: &mut String, c: char)
    ensures
        final(s)@ == old(s)@.push(c),
{
    s.push(c)
}

/// Relies on std's `String::truncate`: keeps the first `len` bytes, which end on a
/// character boundary.
#[verifier::external_body]
fn truncate_bytes(s: &mut String, len: usize)
    requires
        is_char_boundary(encode_utf8(old(s)@), len as int),
    ensures
        encode_utf8(final(s)@) == encode_utf8(old(s)@).subrange(0, len as int),
{
    s.truncate(len)
}

/// The character of alphabet index `i`.
fn code_char(i: usize) -> (c: char)
    requires
        i < CODE_ABC_LEN,
    ensures
        c == code_abc(i as int),
{
    let b: u8 = if i < 26 {
        97 + i as u8
    } else if i < 52 {
        65 + (i - 26) as u8
    } else {
        48 + (i - 52) as u8
    };
    assert(b as int == (if i < 26 {
        ('a' as int) + i
    } else if i < 52 {
        ('A' as int) + (i - 26)
    } else {
        ('0' as int) + (i - 52)
    }));
    b as char
}

/// The invite code of length `len` whose characters are the alphabet
/// entries at positions `picks`.
pub fn invite_code_of(len: usize, picks: &Vec<usize>) -> (r: String)
    requires
        CODE_MIN_LEN <= len <= CODE_MAX_LEN,
        picks@.len() == len,
        forall|i: int| 0 <= i < len ==> picks@[i] < CODE_ABC_LEN,
    ensures
        r@ == Seq::new(len as nat, |i: int| code_abc(picks@[i] as int)),
        is_invite_code(r@),
{
    let mut out = String::new();
    let mut n: usize = 0;
    while n < len
        invariant
            n <= len,
            picks@.len() == len,
            forall|i: int| 0 <= i < len ==> picks@[i] < CODE_ABC_LEN,
            out@ == Seq::new(n as nat, |i: int| code_abc(picks@[i] as int)),
        decreases len - n,
    {
        let c = code_char(picks[n]);
        push_char(&mut out, c);
        n = n + 1;
        assert(out@ =~= Seq::new(n as nat, |i: int| code_abc(picks@[i] as int)));
    }
    assert forall|k: int| 0 <= k < out@.len() implies is_code_char(#[trigger] out@[k]) by {
        assert(code_abc(picks@[k] as int) == out@[k]);
    }
    out
}

/// A fresh random invite code: a random length of 7 to 17, each character
/// drawn from the alphabet.
pub fn random_code() -> (r: String)
    ensures
        is_invite_code(r@),
{
    let len = random_between(CODE_MIN_LEN, CODE_MAX_LEN);
    let mut picks: Vec<usize> = Vec::new();
    while picks.len() < len
        invariant
            picks@.len() <= len,
            forall|i: int| 0 <= i < picks@.len() ==> picks@[i] < CODE_ABC_LEN,
        decreases len - picks@.len(),
    {
        picks.push(random_between(0, CODE_ABC_LEN - 1));
    }
    invite_code_of(len, &picks)
}

/// Shortens `value` to at most `len` bytes, cutting at the last character
/// boundary that does not lie past `len`.
pub fn cut_off(value: &mut String, len: usize)
    ensures
        exists|idx: int|
            0 <= idx <= len && is_char_boundary(encode_utf8(old(value)@), idx) && (forall|j: int|
                idx < j <= len ==> !is_char_boundary(encode_utf8(old(value)@), j))
                && encode_utf8(final(value)@) == encode_utf8(old(value)@).subrange(0, idx),
{
    let ghost bytes = encode_utf8(value@);
    proof {
        encode_utf8_valid_utf8(value@);
        is_char_boundary_start_end_of_seq(bytes);
    }
    let mut idx = len;
    loop
        invariant
            value@ == old(value)@,
            bytes == encode_utf8(value@),
            valid_utf8(bytes),
            idx <= len,
            is_char_boundary(bytes, 0),
            forall|j: int| idx < j <= len ==> !is_char_boundary(bytes, j),
        ensures
            value@ == old(value)@,
            idx <= len,
            is_char_boundary(bytes, idx as int),
            forall|j: int| idx < j <= len ==> !is_char_boundary(bytes, j),
        decreases idx,
    {
        let text = value.as_str();
        if text.is_char_boundary(idx) {
            assert(text.spec_bytes() == bytes);
            break;
        }
        idx = idx - 1;
    }
    truncate_bytes(value, idx);
}

} // verus!
