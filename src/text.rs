//! Text helpers: searching, splitting, escaping and number formats.

use vstd::prelude::*;
use crate::utils::push_char;

verus! {

/// The characters of a string, as a vector.
pub fn chars_of(s: &str) -> (v: Vec<char>)
    ensures
        v@ == s@,
{
    let mut v: Vec<char> = Vec::new();
    for c in it: s.chars()
        invariant
            v@ == it.seq().subrange(0, it.index() as int),
            it.seq() == s@,
    {
        v.push(c);
    }
    v
}

/// A string holding `v[lo..hi]`.
pub fn string_of(v: &Vec<char>, lo: usize, hi: usize) -> (r: String)
    requires
        lo <= hi <= v.len(),
    ensures
        r@ == v@.subrange(lo as int, hi as int),
{
    let mut r = String::new();
    let mut i = lo;
    while i < hi
        invariant
            lo <= i <= hi <= v.len(),
            r@ == v@.subrange(lo as int, i as int),
        decreases hi - i,
    {
        push_char(&mut r, v[i]);
        assert(v@.subrange(lo as int, i + 1) == v@.subrange(lo as int, i as int).push(v@[i as int]));
        i = i + 1;
    }
    r
}

/// The first index in `from..to` that holds `c`, or `to` when none does.
pub open spec fn next_index(s: Seq<char>, c: char, from: int, to: int) -> int
    decreases to - from,
{
    if from >= to {
        to
    } else if s[from] == c {
        from
    } else {
        next_index(s, c, from + 1, to)
    }
}

pub proof fn lemma_next_index_bounds(s: Seq<char>, c: char, from: int, to: int)
    requires
        from <= to,
    ensures
        from <= next_index(s, c, from, to) <= to,
    decreases to - from,
{
    if from < to && s[from] != c {
        lemma_next_index_bounds(s, c, from + 1, to);
    }
}

/// Finds `c` in `v[from..to]`.
pub fn find_char(v: &Vec<char>, c: char, from: usize, to: usize) -> (r: usize)
    requires
        from <= to <= v.len(),
    ensures
        r == next_index(v@, c, from as int, to as int),
        from <= r <= to,
{
    proof {
        lemma_next_index_bounds(v@, c, from as int, to as int);
    }
    let mut i = from;
    while i < to
        invariant
            from <= i <= to <= v.len(),
            next_index(v@, c, i as int, to as int) == next_index(v@, c, from as int, to as int),
        decreases to - i,
    {
        if v[i] == c {
            return i;
        }
        i = i + 1;
    }
    i
}

/// The first index from `i` on where `pat` occurs in `s`.
pub open spec fn find_seq(s: Seq<char>, pat: Seq<char>, i: int) -> Option<int>
    decreases s.len() + 1 - i,
{
    if i < 0 || i + pat.len() > s.len() {
        None
    } else if s.subrange(i, i + pat.len()) == pat {
        Some(i)
    } else {
        find_seq(s, pat, i + 1)
    }
}

pub proof fn lemma_find_seq_bounds(s: Seq<char>, pat: Seq<char>, i: int)
    ensures
        find_seq(s, pat, i) matches Some(k) ==> i <= k && k + pat.len() <= s.len(),
    decreases s.len() + 1 - i,
{
    if !(i < 0 || i + pat.len() > s.len()) && s.subrange(i, i + pat.len()) != pat {
        lemma_find_seq_bounds(s, pat, i + 1);
    }
}

/// Whether `pat` occurs in `v` at index `i`.
fn occurs_at(v: &Vec<char>, pat: &Vec<char>, i: usize) -> (r: bool)
    requires
        i + pat.len() <= v.len(),
    ensures
        r == (v@.subrange(i as int, i + pat.len()) == pat@),
{
    let mut k: usize = 0;
    while k < pat.len()
        invariant
            k <= pat.len(),
            i + pat.len() <= v.len(),
            forall|j: int| 0 <= j < k ==> v@[i + j] == pat@[j],
        decreases pat.len() - k,
    {
        if v[i + k] != pat[k] {
            assert(v@.subrange(i as int, i + pat.len())[k as int] != pat@[k as int]);
            return false;
        }
        k = k + 1;
    }
    assert(v@.subrange(i as int, i + pat.len()) =~= pat@);
    true
}

/// Whether `s` begins with `p`.
pub fn starts_with(s: &str, p: &str) -> (r: bool)
    ensures
        r == (p@.len() <= s@.len() && s@.subrange(0, p@.len() as int) == p@),
{
    let v = chars_of(s);
    let w = chars_of(p);
    if w.len() > v.len() {
        return false;
    }
    occurs_at(&v, &w, 0)
}

/// Finds the first occurrence of `pat` in `v`.
pub fn find_first(v: &Vec<char>, pat: &Vec<char>) -> (r: Option<usize>)
    ensures
        r matches Some(k) ==> find_seq(v@, pat@, 0) == Some(k as int),
        r is None ==> find_seq(v@, pat@, 0) is None,
{
    if pat.len() > v.len() {
        return None;
    }
    let last = v.len() - pat.len();
    let mut i: usize = 0;
    loop
        invariant
            pat.len() <= v.len(),
            last == v.len() - pat.len(),
            i <= last,
            find_seq(v@, pat@, i as int) == find_seq(v@, pat@, 0),
        decreases last - i,
    {
        if occurs_at(v, pat, i) {
            return Some(i);
        }
        if i == last {
            assert(find_seq(v@, pat@, i + 1) is None);
            return None;
        }
        i = i + 1;
    }
}

/// HTML text with `&`, `<` and `>` written as entities.
pub open spec fn escaped(s: Seq<char>) -> Seq<char>
    decreases s.len(),
{
    if s.len() == 0 {
        seq![]
    } else {
        escaped(s.drop_last()) + escape_char(s.last())
    }
}

pub open spec fn escape_char(c: char) -> Seq<char> {
    if c == '&' {
        seq!['&', 'a', 'm', 'p', ';']
    } else if c == '<' {
        seq!['&', 'l', 't', ';']
    } else if c == '>' {
        seq!['&', 'g', 't', ';']
    } else {
        seq![c]
    }
}

fn push_seq(out: &mut String, a: char, b: char, c: char, d: char)
    ensures
        final(out)@ == old(out)@ + seq![a, b, c, d],
{
    push_char(out, a);
    push_char(out, b);
    push_char(out, c);
    push_char(out, d);
    assert(final(out)@ =~= old(out)@ + seq![a, b, c, d]);
}

/// Escapes text for the chat's HTML parse mode.
pub fn escape(s: &str) -> (r: String)
    ensures
        r@ == escaped(s@),
{
    let v = chars_of(s);
    let mut out = String::new();
    let mut i: usize = 0;
    while i < v.len()
        invariant
            i <= v.len(),
            v@ == s@,
            out@ == escaped(v@.subrange(0, i as int)),
        decreases v.len() - i,
    {
        let c = v[i];
        let ghost before = out@;
        if c == '&' {
            push_char(&mut out, '&');
            push_seq(&mut out, 'a', 'm', 'p', ';');
        } else if c == '<' {
            push_seq(&mut out, '&', 'l', 't', ';');
        } else if c == '>' {
            push_seq(&mut out, '&', 'g', 't', ';');
        } else {
            push_char(&mut out, c);
        }
        assert(out@ =~= before + escape_char(c));
        assert(v@.subrange(0, i + 1).drop_last() =~= v@.subrange(0, i as int));
        i = i + 1;
    }
    assert(v@.subrange(0, v.len() as int) =~= v@);
    out
}

/// The decimal digit for `d` in `0..10`.
pub open spec fn digit(d: int) -> char {
    (('0' as int) + d) as char
}

/// The decimal digits of a natural number, without leading zeros.
pub open spec fn nat_text(n: nat) -> Seq<char>
    decreases n,
{
    if n < 10 {
        seq![digit(n as int)]
    } else {
        nat_text(n / 10).push(digit((n % 10) as int))
    }
}

/// How `Display` writes an integer: its digits, led by `-` when negative.
pub open spec fn int_text_of(n: int) -> Seq<char> {
    if n < 0 {
        seq!['-'] + nat_text((-n) as nat)
    } else {
        nat_text(n as nat)
    }
}

/// Relies on std's `ToString` through the `Display` of `i64`: decimal digits,
/// led by `-` when negative.
#[verifier::external_body]
pub(crate) fn int_text(n: i64) -> (r: String)
    ensures
        r@ == int_text_of(n as int),
{
    n.to_string()
}

/// Appends `b` to `a`.
pub fn append(a: &mut String, b: &str)
    ensures
        final(a)@ == old(a)@ + b@,
{
    a.append(b);
}

} // verus!

verus! {

pub open spec fn is_digit(c: char) -> bool {
    '0' <= c <= '9'
}

pub open spec fn all_digits(s: Seq<char>) -> bool {
    forall|i: int| 0 <= i < s.len() ==> is_digit(#[trigger] s[i])
}

/// The value of a run of decimal digits.
pub open spec fn digits_value(s: Seq<char>) -> int
    decreases s.len(),
{
    if s.len() == 0 {
        0
    } else {
        digits_value(s.drop_last()) * 10 + (s.last() as int - '0' as int)
    }
}

/// The integer that text spells the way `FromStr` reads integers: an
/// optional `+` or `-`, then at least one decimal digit.
pub open spec fn int_value(s: Seq<char>) -> Option<int> {
    if s.len() > 0 && (s[0] == '-' || s[0] == '+') {
        let d = s.drop_first();
        if d.len() > 0 && all_digits(d) {
            Some(if s[0] == '-' { -digits_value(d) } else { digits_value(d) })
        } else {
            None
        }
    } else if s.len() > 0 && all_digits(s) {
        Some(digits_value(s))
    } else {
        None
    }
}

/// What `str::parse::<i64>` gives: the value, if the text spells one that fits.
pub open spec fn parsed_i64(s: Seq<char>) -> Option<i64> {
    match int_value(s) {
        Some(v) => if i64::MIN <= v <= i64::MAX {
            Some(v as i64)
        } else {
            None
        },
        None => None,
    }
}

/// What `str::parse::<u64>` gives: no `-` sign is accepted, and the value must fit.
pub open spec fn parsed_u64(s: Seq<char>) -> Option<u64> {
    if s.len() > 0 && s[0] == '-' {
        None
    } else {
        match int_value(s) {
            Some(v) => if 0 <= v <= u64::MAX {
                Some(v as u64)
            } else {
                None
            },
            None => None,
        }
    }
}

/// Relies on std's `FromStr` for `i64`: an optional sign and decimal digits,
/// refused when the value does not fit.
#[verifier::external_body]
pub(crate) fn parse_i64(s: &str) -> (r: Option<i64>)
    ensures
        r == parsed_i64(s@),
{
    s.parse::<i64>().ok()
}

/// Relies on std's `FromStr` for `u64`: an optional `+` and decimal digits,
/// refused when the value does not fit.
#[verifier::external_body]
pub(crate) fn parse_u64(s: &str) -> (r: Option<u64>)
    ensures
        r == parsed_u64(s@),
{
    s.parse::<u64>().ok()
}

/// The non-empty lines of `s` from index `i` on, split at `\n`.
pub open spec fn lines_from(s: Seq<char>, i: int) -> Seq<Seq<char>>
    decreases s.len() + 1 - i,
    via lines_from_decreases
{
    if i < 0 || i > s.len() {
        seq![]
    } else {
        let end = next_index(s, '\n', i, s.len() as int);
        let rest = if end >= s.len() {
            seq![]
        } else {
            lines_from(s, end + 1)
        };
        if end > i {
            seq![s.subrange(i, end)] + rest
        } else {
            rest
        }
    }
}

#[via_fn]
proof fn lines_from_decreases(s: Seq<char>, i: int) {
    if 0 <= i <= s.len() {
        lemma_next_index_bounds(s, '\n', i, s.len() as int);
    }
}

/// The non-empty lines of a text.
pub fn lines(s: &str) -> (r: Vec<String>)
    ensures
        r@.map_values(|l: String| l@) == lines_from(s@, 0),
{
    let v = chars_of(s);
    let mut out: Vec<String> = Vec::new();
    let mut i: usize = 0;
    loop
        invariant_except_break
            out@.map_values(|l: String| l@) + lines_from(v@, i as int) == lines_from(v@, 0),
        invariant
            i <= v.len(),
            v@ == s@,
        ensures
            out@.map_values(|l: String| l@) == lines_from(v@, 0),
        decreases v.len() + 1 - i,
    {
        let end = find_char(&v, '\n', i, v.len());
        let ghost before = out@.map_values(|l: String| l@);
        if end > i {
            let line = string_of(&v, i, end);
            out.push(line);
            assert(out@.map_values(|l: String| l@) =~= before.push(v@.subrange(i as int, end as int)));
        }
        if end >= v.len() {
            assert(before + lines_from(v@, i as int) =~= out@.map_values(|l: String| l@));
            break;
        }
        assert(before + lines_from(v@, i as int) =~= out@.map_values(|l: String| l@) + lines_from(v@, end + 1));
        i = end + 1;
    }
    out
}

} // verus!
