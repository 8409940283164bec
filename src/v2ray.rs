//! Tunnel configs: reading them from pasted lines and moderating them by vote.

use vstd::prelude::*;
use crate::error::Worm;
use crate::text::{chars_of, string_of};
use crate::votes::{count_vote, counted, counts_ok, is_mostly_down, mostly_down, pct_of, TUNNEL_VOTE_FLOOR};

verus! {

/// Longest label taken from a link that is not a URL.
pub const LABEL_MAX_CHARS: usize = 32;

/// A shared tunnel config.
#[derive(Debug)]
pub struct V2ray {
    pub id: i64,
    pub label: String,
    pub link: String,
    pub up_votes: i64,
    pub dn_votes: i64,
    pub disabled: bool,
}

/// What the store must do with a tunnel config after a vote.
#[derive(Debug, Clone, Copy, PartialEq, Eq)]
pub enum Moderation {
    /// Write the record back with its new counters.
    Keep,
    /// Delete the record.
    Delete,
}

/// Whether the URL parser accepts the text.
pub uninterp spec fn url_parses(s: Seq<char>) -> bool;

/// The host the URL parser reads from the text, if it has one.
pub uninterp spec fn url_host(s: Seq<char>) -> Option<Seq<char>>;

/// Relies on reqwest's `Url::from_str` (the URL parser) and `Url::host_str`:
/// `None` when the text is no URL, else the host, if any.
#[verifier::external_body]
pub(crate) fn parse_url(s: &str) -> (r: Option<Option<String>>)
    ensures
        r is Some == url_parses(s@),
        r matches Some(h) ==> (h is Some == url_host(s@) is Some),
        r matches Some(h) ==> (h matches Some(x) ==> url_host(s@) == Some(x@)),
{
    match <reqwest::Url as std::str::FromStr>::from_str(s) {
        Ok(u) => Some(u.host_str().map(|h| h.to_string())),
        Err(_) => None,
    }
}

/// Whitespace as `char::is_whitespace` defines it (Unicode `White_Space`).
pub open spec fn is_ws(c: char) -> bool {
    let u = c as u32;
    (0x9 <= u <= 0xd) || u == 0x20 || u == 0x85 || u == 0xa0 || u == 0x1680 || (0x2000 <= u <= 0x200a)
        || u == 0x2028 || u == 0x2029 || u == 0x202f || u == 0x205f || u == 0x3000
}

pub open spec fn trim_start_of(s: Seq<char>) -> Seq<char>
    decreases s.len(),
{
    if s.len() > 0 && is_ws(s[0]) {
        trim_start_of(s.drop_first())
    } else {
        s
    }
}

pub open spec fn trim_end_of(s: Seq<char>) -> Seq<char>
    decreases s.len(),
{
    if s.len() > 0 && is_ws(s.last()) {
        trim_end_of(s.drop_last())
    } else {
        s
    }
}

/// The text without leading and trailing whitespace.
pub open spec fn trimmed(s: Seq<char>) -> Seq<char> {
    trim_end_of(trim_start_of(s))
}

/// Relies on std's `str::trim`: removes leading and trailing whitespace.
#[verifier::external_body]
pub(crate) fn trim_text(s: &str) -> (r: &str)
    ensures
        r@ == trimmed(s@),
{
    s.trim()
}

/// The label of a tunnel config read from `link` (already trimmed), given
/// what the URL parser made of it: the host of a URL (`<no host>` for a URL
/// without one), else the first 32 characters of the link.
pub open spec fn label_of(link: Seq<char>, parsed: Option<Option<Seq<char>>>) -> Seq<char> {
    match parsed {
        Some(Some(h)) => h,
        Some(None) => "<no host>"@,
        None => if link.len() <= LABEL_MAX_CHARS {
            link
        } else {
            link.subrange(0, LABEL_MAX_CHARS as int)
        },
    }
}

pub open spec fn host_view(parsed: Option<Option<String>>) -> Option<Option<Seq<char>>> {
    match parsed {
        Some(Some(h)) => Some(Some(h@)),
        Some(None) => Some(None),
        None => None,
    }
}

/// The tunnel config after one vote: counters updated, and `Delete` once
/// more than 25 votes are in with more than 60% of them down.
pub open spec fn tunnel_voted(v: V2ray, kind: i8) -> (V2ray, Moderation) {
    let c = counted(v.up_votes, v.dn_votes, kind);
    (
        V2ray { up_votes: c.0, dn_votes: c.1, ..v },
        if c.0 + c.1 > TUNNEL_VOTE_FLOOR && mostly_down(c.0 as int, c.1 as int) {
            Moderation::Delete
        } else {
            Moderation::Keep
        },
    )
}

impl V2ray {
    /// Vote counters that can be read and counted on.
    pub open spec fn wf(&self) -> bool {
        counts_ok(self.up_votes, self.dn_votes)
    }

    /// Up and down percentages for display, 0 for a direction without votes.
    pub fn up_dn_pct(&self) -> (r: (u8, u8))
        requires
            self.wf(),
        ensures
            r.0 == pct_of(self.up_votes + self.dn_votes, self.up_votes as int),
            r.1 == pct_of(self.up_votes + self.dn_votes, self.dn_votes as int),
    {
        crate::votes::up_dn_pct(self.up_votes, self.dn_votes)
    }

    /// A new tunnel config for a trimmed, non-empty `link`, labelled from
    /// what the URL parser made of it.
    pub fn from_parts(link: &str, parsed: Option<Option<String>>) -> (r: V2ray)
        ensures
            r.label@ == label_of(link@, host_view(parsed)),
            r.link@ == link@,
            r.id == 0 && r.up_votes == 0 && r.dn_votes == 0 && !r.disabled,
    {
        let label = match parsed {
            Some(Some(h)) => h,
            Some(None) => "<no host>".to_owned(),
            None => {
                let v = chars_of(link);
                let end = if v.len() <= LABEL_MAX_CHARS {
                    v.len()
                } else {
                    LABEL_MAX_CHARS
                };
                let r = string_of(&v, 0, end);
                assert(v@.subrange(0, v.len() as int) =~= v@);
                r
            },
        };
        V2ray { id: 0, label, link: link.to_owned(), up_votes: 0, dn_votes: 0, disabled: false }
    }

    /// Reads a tunnel config from a pasted line: `None` when nothing but
    /// whitespace is there.
    pub fn from_link(link: &str) -> (r: Option<V2ray>)
        ensures
            r is None <==> trimmed(link@).len() == 0,
            r matches Some(v) ==> v.id == 0 && v.up_votes == 0 && v.dn_votes == 0 && !v.disabled,
            r matches Some(v) ==> v.link@ == trimmed(link@) && (url_parses(trimmed(link@)) ==> v.label@ == (
            match url_host(trimmed(link@)) {
                Some(h) => h,
                None => "<no host>"@,
            })) && (!url_parses(trimmed(link@)) ==> v.label@ == label_of(trimmed(link@), None)),
    {
        let t = trim_text(link);
        if t.is_empty() {
            return None;
        }
        let parsed = parse_url(t);
        Some(V2ray::from_parts(t, parsed))
    }

    /// Counts the vote of an account on this config. `voted` tells whether the
    /// account already had a vote row here: then the vote is refused with
    /// `AlreadyExists` and nothing changes. Otherwise the vote is counted and
    /// the deletion rule applied.
    pub fn vote_add(&mut self, voted: bool, kind: i8) -> (r: Result<Moderation, Worm>)
        requires
            !voted ==> old(self).wf() && old(self).up_votes + old(self).dn_votes < i64::MAX,
        ensures
            voted ==> r == Err::<Moderation, Worm>(Worm::AlreadyExists) && *final(self) == *old(self),
            !voted ==> r == Ok::<Moderation, Worm>(tunnel_voted(*old(self), kind).1) && *final(self) == tunnel_voted(
                *old(self),
                kind,
            ).0,
            !voted ==> final(self).wf(),
    {
        if voted {
            return Err(Worm::AlreadyExists);
        }
        let (up, dn) = count_vote(self.up_votes, self.dn_votes, kind);
        self.up_votes = up;
        self.dn_votes = dn;
        if up + dn > TUNNEL_VOTE_FLOOR && is_mostly_down(up, dn) {
            Ok(Moderation::Delete)
        } else {
            Ok(Moderation::Keep)
        }
    }
}

/// With more than 25 votes of which more than 60% are down, the vote that
/// brings a tunnel config there deletes it, while a relay at the same count
/// is still there (voting never deletes a relay) and keeps its flag.
pub proof fn lemma_tunnel_deleted_relay_kept(v: V2ray, p: crate::proxy::Proxy, kind: i8)
    requires
        v.wf(),
        v.up_votes + v.dn_votes < i64::MAX,
        counted(v.up_votes, v.dn_votes, kind).0 + counted(v.up_votes, v.dn_votes, kind).1 > TUNNEL_VOTE_FLOOR,
        mostly_down(counted(v.up_votes, v.dn_votes, kind).0 as int, counted(v.up_votes, v.dn_votes, kind).1 as int),
        p.up_votes == v.up_votes && p.dn_votes == v.dn_votes,
        v.up_votes + v.dn_votes + 1 <= crate::votes::RELAY_VOTE_FLOOR,
    ensures
        tunnel_voted(v, kind).1 == Moderation::Delete,
        crate::proxy::relay_voted(p, kind).disabled == p.disabled,
{
}

} // verus!
