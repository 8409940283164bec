//! The broadcast loop as a state machine: the runner fetches pages and
//! delivers, the machine counts and says whom to mark blocked.

use vstd::prelude::*;

verus! {

/// Accounts fetched per page.
pub const PAGE_SIZE: u64 = 100;

/// Seconds to pause between two pages.
pub const SEND_ALL_SLEEP_SECS: u64 = 10;

/// Number of successful deliveries among the outcomes.
pub open spec fn successes(s: Seq<bool>) -> nat
    decreases s.len(),
{
    if s.len() == 0 {
        0
    } else {
        successes(s.drop_last()) + if s.last() {
            1nat
        } else {
            0nat
        }
    }
}

/// Number of failed deliveries among the outcomes.
pub open spec fn failures(s: Seq<bool>) -> nat
    decreases s.len(),
{
    if s.len() == 0 {
        0
    } else {
        failures(s.drop_last()) + if s.last() {
            0nat
        } else {
            1nat
        }
    }
}

pub proof fn lemma_outcomes_split(s: Seq<bool>)
    ensures
        successes(s) + failures(s) == s.len(),
    decreases s.len(),
{
    if s.len() > 0 {
        lemma_outcomes_split(s.drop_last());
    }
}

/// All outcomes of a run, page after page.
pub open spec fn flatten(pages: Seq<Seq<bool>>) -> Seq<bool>
    decreases pages.len(),
{
    if pages.len() == 0 {
        seq![]
    } else {
        flatten(pages.drop_last()) + pages.last()
    }
}

/// The running success counter after the given pages.
pub open spec fn sent_after(pages: Seq<Seq<bool>>) -> nat
    decreases pages.len(),
{
    if pages.len() == 0 {
        0
    } else {
        sent_after(pages.drop_last()) + successes(pages.last())
    }
}

/// What the loop asks of its runner next.
#[derive(Debug, Clone, Copy, PartialEq, Eq, Structural)]
pub enum Step {
    /// fetch the next page of non-blocked accounts, in account order, after
    /// this account (from the first one for `None`), and deliver to each
    Fetch(Option<i64>),
    /// report the final counter and stop
    Finish(u64),
}

/// The state of one broadcast run.
#[derive(Debug, Clone, Copy, PartialEq, Eq, Structural)]
pub struct Broadcast {
    /// the last account of the pages done so far
    pub after: Option<i64>,
    pub sent: u64,
    pub done: bool,
}

impl Broadcast {
    /// A run that has sent nothing yet and starts at the first account.
    pub fn new() -> (r: Broadcast)
        ensures
            r == (Broadcast { after: None, sent: 0, done: false }),
    {
        Broadcast { after: None, sent: 0, done: false }
    }

    /// The next thing to do: fetch the current page, or, once the loop has
    /// stopped, report the counter.
    pub fn next_step(&self) -> (r: Step)
        ensures
            self.done ==> r == Step::Finish(self.sent),
            !self.done ==> r == Step::Fetch(self.after),
    {
        if self.done {
            Step::Finish(self.sent)
        } else {
            Step::Fetch(self.after)
        }
    }

    /// The page could not be fetched: the loop stops.
    pub fn fetch_failed(&mut self)
        ensures
            *final(self) == (Broadcast { done: true, ..*old(self) }),
    {
        self.done = true;
    }

    /// Takes the delivery outcomes of the page just fetched, one per account,
    /// and the page's last account. An empty page stops the loop. Otherwise
    /// the successes are counted, the next page starts after `last`, and the
    /// positions of the failed deliveries are returned: those accounts are to
    /// be marked blocked.
    pub fn page_done(&mut self, results: &Vec<bool>, last: i64) -> (blocked: Vec<usize>)
        requires
            !old(self).done,
            old(self).sent + results.len() <= u64::MAX,
        ensures
            results.len() == 0 ==> *final(self) == (Broadcast { done: true, ..*old(self) }),
            results.len() > 0 ==> *final(self) == (Broadcast {
                after: Some(last),
                sent: (old(self).sent + successes(results@)) as u64,
                done: false,
            }),
            blocked@.len() == failures(results@),
            forall|k: int| 0 <= k < blocked@.len() ==> blocked@[k] < results@.len() && !results@[blocked@[k] as int],
            forall|i: int| 0 <= i < results@.len() && !results@[i] ==> blocked@.contains(i as usize),
            forall|a: int, b: int| 0 <= a < b < blocked@.len() ==> blocked@[a] < blocked@[b],
    {
        let mut blocked: Vec<usize> = Vec::new();
        if results.len() == 0 {
            self.done = true;
            return blocked;
        }
        let mut ok: u64 = 0;
        let mut i: usize = 0;
        while i < results.len()
            invariant
                i <= results.len(),
                ok == successes(results@.subrange(0, i as int)),
                blocked@.len() == failures(results@.subrange(0, i as int)),
                ok + blocked@.len() == i,
                forall|k: int| 0 <= k < blocked@.len() ==> blocked@[k] < i && !results@[blocked@[k] as int],
                forall|j: int| 0 <= j < i && !results@[j] ==> blocked@.contains(j as usize),
                forall|a: int, b: int| 0 <= a < b < blocked@.len() ==> blocked@[a] < blocked@[b],
            decreases results.len() - i,
        {
            let ghost prefix = results@.subrange(0, i as int);
            let ghost before = blocked@;
            assert(results@.subrange(0, i + 1).drop_last() =~= prefix);
            if results[i] {
                ok = ok + 1;
            } else {
                blocked.push(i);
                assert(blocked@.last() == i);
            }
            i = i + 1;
            assert forall|j: int| 0 <= j < i && !results@[j] implies blocked@.contains(j as usize) by {
                if j == i - 1 {
                    assert(blocked@[blocked@.len() - 1] == j);
                } else {
                    assert(before.contains(j as usize));
                    let k = choose|k: int| 0 <= k < before.len() && before[k] == j as usize;
                    assert(blocked@[k] == j as usize);
                }
            }
        }
        assert(results@.subrange(0, results.len() as int) =~= results@);
        self.after = Some(last);
        self.sent = self.sent + ok;
        blocked
    }
}

/// Over a whole run of pages holding N accounts of which M could not be
/// reached, the final counter is N − M.
pub proof fn lemma_broadcast_count(pages: Seq<Seq<bool>>)
    ensures
        sent_after(pages) == flatten(pages).len() - failures(flatten(pages)),
        sent_after(pages) == successes(flatten(pages)),
    decreases pages.len(),
{
    if pages.len() > 0 {
        lemma_broadcast_count(pages.drop_last());
        lemma_successes_concat(flatten(pages.drop_last()), pages.last());
    }
    lemma_outcomes_split(flatten(pages));
}

pub proof fn lemma_successes_concat(a: Seq<bool>, b: Seq<bool>)
    ensures
        successes(a + b) == successes(a) + successes(b),
    decreases b.len(),
{
    if b.len() > 0 {
        lemma_successes_concat(a, b.drop_last());
        assert((a + b).drop_last() =~= a + b.drop_last());
    } else {
        assert(a + b =~= a);
    }
}

} // verus!
