//! Relays: reading them from links and moderating them by vote.

use vstd::prelude::*;
use crate::error::Worm;
use crate::text::{append, chars_of, find_char, find_first, find_seq, lemma_next_index_bounds, next_index, string_of};
use crate::votes::{count_vote, counted, counts_ok, is_mostly_down, mostly_down, pct_of, RELAY_VOTE_FLOOR};

verus! {

/// A shared relay (a chat-platform proxy).
#[derive(Debug)]
pub struct Proxy {
    pub id: i64,
    pub port: String,
    pub server: String,
    pub secret: String,
    pub up_votes: i64,
    pub dn_votes: i64,
    pub disabled: bool,
}

/// Server, port and secret, as text.
pub type Params = (Seq<char>, Seq<char>, Seq<char>);

/// The text that introduces a relay link's parameters.
pub open spec fn marker() -> Seq<char> {
    "t.me/proxy?"@
}

/// The parameters after reading the `key=value` pair in `s[lo..hi]`: a known
/// key replaces its field; a pair without `=` or with another key changes nothing.
pub open spec fn read_pair(s: Seq<char>, lo: int, hi: int, acc: Params) -> Params {
    let e = next_index(s, '=', lo, hi);
    if e >= hi {
        acc
    } else {
        let key = s.subrange(lo, e);
        let val = s.subrange(e + 1, hi);
        if key == "server"@ {
            (val, acc.1, acc.2)
        } else if key == "port"@ {
            (acc.0, val, acc.2)
        } else if key == "secret"@ {
            (acc.0, acc.1, val)
        } else {
            acc
        }
    }
}

/// Reads the `&`-separated pairs of `s` from index `i` on, each later pair
/// overriding an earlier one of the same key.
pub open spec fn read_pairs(s: Seq<char>, i: int, acc: Params) -> Params
    decreases s.len() + 1 - i,
    via read_pairs_decreases
{
    if i < 0 || i > s.len() {
        acc
    } else {
        let end = next_index(s, '&', i, s.len() as int);
        let acc2 = read_pair(s, i, end, acc);
        if end >= s.len() {
            acc2
        } else {
            read_pairs(s, end + 1, acc2)
        }
    }
}

#[via_fn]
proof fn read_pairs_decreases(s: Seq<char>, i: int, acc: Params) {
    if 0 <= i <= s.len() {
        lemma_next_index_bounds(s, '&', i, s.len() as int);
    }
}

/// The relay a link describes: the parameters after the first
/// `t.me/proxy?`, all three present and non-empty.
pub open spec fn link_params(link: Seq<char>) -> Option<Params> {
    match find_seq(link, marker(), 0) {
        None => None,
        Some(k) => {
            let p = read_pairs(link, k + marker().len(), (Seq::empty(), Seq::empty(), Seq::empty()));
            if p.0.len() == 0 || p.1.len() == 0 || p.2.len() == 0 {
                None
            } else {
                Some(p)
            }
        },
    }
}

/// The link that opens a relay in the chat client.
pub open spec fn proxy_url(server: Seq<char>, port: Seq<char>, secret: Seq<char>) -> Seq<char> {
    "https://t.me/proxy?server="@ + server + "&port="@ + port + "&secret="@ + secret
}

/// The relay after one vote, before its record is written back: the vote
/// is counted, and once more than 100 votes are in, a relay with more than
/// 60% down votes is disabled.
pub open spec fn relay_voted(p: Proxy, kind: i8) -> Proxy {
    let c = counted(p.up_votes, p.dn_votes, kind);
    Proxy {
        up_votes: c.0,
        dn_votes: c.1,
        disabled: p.disabled || (c.0 + c.1 > RELAY_VOTE_FLOOR && mostly_down(c.0 as int, c.1 as int)),
        ..p
    }
}

impl Proxy {
    /// Vote counters that can be read and counted on.
    pub open spec fn wf(&self) -> bool {
        counts_ok(self.up_votes, self.dn_votes)
    }

    /// Up and down percentages for display, 0 for a direction without votes.
    pub fn up_dn_pct(&self) -> (r: (u8, u8))
        requires
            self.wf(),
        ensures
            r.0 == pct_of(self.up_votes + self.dn_votes, self.up_votes as int),
            r.1 == pct_of(self.up_votes + self.dn_votes, self.dn_votes as int),
    {
        crate::votes::up_dn_pct(self.up_votes, self.dn_votes)
    }

    /// The link that opens this relay.
    pub fn url(&self) -> (r: String)
        ensures
            r@ == proxy_url(self.server@, self.port@, self.secret@),
    {
        let mut r = "https://t.me/proxy?server=".to_owned();
        append(&mut r, self.server.as_str());
        append(&mut r, "&port=");
        append(&mut r, self.port.as_str());
        append(&mut r, "&secret=");
        append(&mut r, self.secret.as_str());
        r
    }

    /// Reads a relay from its link; a new relay has id 0, no votes and is enabled.
    pub fn from_link(link: &str) -> (r: Option<Proxy>)
        ensures
            r is None <==> link_params(link@) is None,
            r matches Some(p) ==> link_params(link@) == Some((p.server@, p.port@, p.secret@)) && p.id == 0
                && p.up_votes == 0 && p.dn_votes == 0 && !p.disabled,
    {
        let v = chars_of(link);
        let pat = chars_of("t.me/proxy?");
        let k = match find_first(&v, &pat) {
            None => return None,
            Some(k) => k,
        };
        proof {
            crate::text::lemma_find_seq_bounds(v@, pat@, 0);
            assert(find_seq(v@, pat@, 0) == Some(k as int));
            assert(k + pat@.len() <= v@.len());
        }
        let n = v.len();
        let m = pat.len();
        assert(k + m <= n);
        let base = k + m;
        let server_key = "server".to_owned();
        let port_key = "port".to_owned();
        let secret_key = "secret".to_owned();
        let mut server = String::new();
        let mut port = String::new();
        let mut secret = String::new();
        let ghost init: Params = (Seq::empty(), Seq::empty(), Seq::empty());
        let mut i = base;
        loop
            invariant
                base <= i <= v.len(),
                v@ == link@,
                server_key@ == "server"@,
                port_key@ == "port"@,
                secret_key@ == "secret"@,
                read_pairs(v@, i as int, (server@, port@, secret@)) == read_pairs(v@, base as int, init),
            ensures
                read_pairs(v@, base as int, init) == (server@, port@, secret@),
            decreases v.len() + 1 - i,
        {
            let end = find_char(&v, '&', i, v.len());
            let e = find_char(&v, '=', i, end);
            if e < end {
                let key = string_of(&v, i, e);
                let val = string_of(&v, e + 1, end);
                if key == server_key {
                    server = val;
                } else if key == port_key {
                    port = val;
                } else if key == secret_key {
                    secret = val;
                }
            }
            if end >= v.len() {
                break;
            }
            i = end + 1;
        }
        if server.as_str().is_empty() || port.as_str().is_empty() || secret.as_str().is_empty() {
            return None;
        }
        Some(Proxy { id: 0, port, server, secret, up_votes: 0, dn_votes: 0, disabled: false })
    }

    /// Counts the vote of an account on this relay. `voted` tells whether
    /// the account already had a vote row here: then the vote is refused
    /// with `AlreadyExists` and nothing changes. Otherwise the vote is
    /// counted and the disabling rule applied.
    pub fn vote_add(&mut self, voted: bool, kind: i8) -> (r: Result<(), Worm>)
        requires
            !voted ==> old(self).wf() && old(self).up_votes + old(self).dn_votes < i64::MAX,
        ensures
            voted ==> r == Err::<(), Worm>(Worm::AlreadyExists) && *final(self) == *old(self),
            !voted ==> r is Ok && *final(self) == relay_voted(*old(self), kind),
            !voted ==> final(self).wf(),
    {
        if voted {
            return Err(Worm::AlreadyExists);
        }
        let (up, dn) = count_vote(self.up_votes, self.dn_votes, kind);
        self.up_votes = up;
        self.dn_votes = dn;
        if up + dn > RELAY_VOTE_FLOOR && is_mostly_down(up, dn) {
            self.disabled = true;
        }
        Ok(())
    }
}

/// One vote attempt on a relay against the vote rows, as `(account,
/// relay)` pairs: an account that has a row is refused (`false`) and
/// nothing changes; otherwise its row is added and the vote counted.
pub open spec fn relay_vote(rows: Set<(i64, i64)>, account: i64, p: Proxy, kind: i8) -> (Set<(i64, i64)>, Proxy, bool) {
    if rows.contains((account, p.id)) {
        (rows, p, false)
    } else {
        (rows.insert((account, p.id)), relay_voted(p, kind), true)
    }
}

/// An account votes at most once on a relay: after one attempt the pair has
/// its row, so a second attempt is refused and changes neither the rows nor
/// the counters.
pub proof fn lemma_one_vote_per_pair(rows: Set<(i64, i64)>, account: i64, p: Proxy, first: i8, second: i8)
    ensures
        ({
            let (rows1, p1, _) = relay_vote(rows, account, p, first);
            let (rows2, p2, accepted) = relay_vote(rows1, account, p1, second);
            &&& rows1.contains((account, p.id))
            &&& !accepted
            &&& rows2 == rows1
            &&& p2 == p1
        }),
{
}

/// Once more than 100 votes are in, a relay with more than 60% down votes is
/// disabled; with at most 100 votes its `disabled` flag is left as it was.
pub proof fn lemma_relay_threshold(p: Proxy, kind: i8)
    requires
        p.wf(),
        p.up_votes + p.dn_votes < i64::MAX,
    ensures
        ({
            let q = relay_voted(p, kind);
            &&& q.up_votes + q.dn_votes > RELAY_VOTE_FLOOR && mostly_down(q.up_votes as int, q.dn_votes as int)
                ==> q.disabled
            &&& q.up_votes + q.dn_votes <= RELAY_VOTE_FLOOR ==> q.disabled == p.disabled
            &&& q.up_votes + q.dn_votes == p.up_votes + p.dn_votes + 1
        }),
{
}

} // verus!
