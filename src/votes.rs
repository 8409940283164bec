//! Vote counters: display percentages and the down-vote share.

use vstd::prelude::*;

verus! {

/// Total votes above which a relay may be disabled.
pub const RELAY_VOTE_FLOOR: i64 = 100;

/// Total votes above which a tunnel config may be deleted.
pub const TUNNEL_VOTE_FLOOR: i64 = 25;

/// Vote counters that can be read as percentages: none negative, and their
/// sum fits.
pub open spec fn counts_ok(up: i64, dn: i64) -> bool {
    up >= 0 && dn >= 0 && up + dn <= i64::MAX
}

/// The display percentage of one direction: `100 / (total / votes)`, and 0
/// when that direction has no votes.
pub open spec fn pct_of(total: int, votes: int) -> int {
    if votes > 0 {
        100int / (total / votes)
    } else {
        0
    }
}

/// More than 60% of all votes are down votes.
pub open spec fn mostly_down(up: int, dn: int) -> bool {
    dn * 100 > 60 * (up + dn)
}

/// Whether a vote kind counts as an up vote: any kind that is not negative.
pub open spec fn is_up(kind: i8) -> bool {
    kind >= 0
}

/// Counters after one vote of `kind`.
pub open spec fn counted(up: i64, dn: i64, kind: i8) -> (i64, i64) {
    if is_up(kind) {
        ((up + 1) as i64, dn)
    } else {
        (up, (dn + 1) as i64)
    }
}

/// The display percentage of `votes` out of `total`.
pub fn pct(total: i64, votes: i64) -> (r: u8)
    requires
        0 <= votes <= total,
    ensures
        r == pct_of(total as int, votes as int),
{
    if votes > 0 {
        let q = total / votes;
        assert(q >= 1) by (nonlinear_arith)
            requires
                0 < votes <= total,
                q == total / votes,
        ;
        (100 / q) as u8
    } else {
        0
    }
}

/// Up and down percentages for display.
pub fn up_dn_pct(up: i64, dn: i64) -> (r: (u8, u8))
    requires
        counts_ok(up, dn),
    ensures
        r.0 == pct_of(up + dn, up as int),
        r.1 == pct_of(up + dn, dn as int),
{
    let total = up + dn;
    (pct(total, up), pct(total, dn))
}

/// Whether more than 60% of the votes are down votes.
pub fn is_mostly_down(up: i64, dn: i64) -> (r: bool)
    requires
        counts_ok(up, dn),
    ensures
        r == mostly_down(up as int, dn as int),
{
    (dn as i128) * 100 > 60 * ((up as i128) + (dn as i128))
}

/// Counts one vote.
pub fn count_vote(up: i64, dn: i64, kind: i8) -> (r: (i64, i64))
    requires
        counts_ok(up, dn),
        up + dn < i64::MAX,
    ensures
        r == counted(up, dn, kind),
        counts_ok(r.0, r.1),
{
    if kind >= 0 {
        (up + 1, dn)
    } else {
        (up, dn + 1)
    }
}

} // verus!
