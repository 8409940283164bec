//! Accounts and the points economy: identity resolution, the escalating
//! request price, timed rewards, spending and invite credits.

use vstd::prelude::*;
use crate::error::Worm;
use crate::utils::now;

verus! {

/// Seconds of inactivity after which the escalating request price resets.
pub const PRICE_STACK_RESET: i64 = 86400;

/// A registered end user.
#[derive(Debug, Clone)]
pub struct Karbar {
    pub tid: i64,
    pub fullname: String,
    /// without the leading @
    pub username: Option<String>,
    pub banned: bool,
    pub created_at: i64,
    pub updated_at: i64,
    pub points: i64,
    pub last_daily_point_at: i64,
    pub invite_code: String,
    pub blocked: bool,
    pub last_request: i64,
    pub price_stack: i64,
}

/// Activity counters over all accounts.
#[derive(Debug, Default, Clone, Copy, PartialEq, Eq)]
pub struct KarbarStats {
    pub total: i64,
    pub blocked: i64,
    pub active_5h: i64,
    pub active_7d: i64,
}

/// What identity resolution asks the caller to store.
#[derive(Debug, Clone)]
pub enum Resolution {
    /// No account existed: insert this new one, after redeeming the referral code.
    Create(Karbar),
    /// The account existed: write back its refreshed record.
    Update(Karbar),
}

/// How long is left before a timed reward, in its largest applicable unit.
#[derive(Debug, Clone, Copy, PartialEq, Eq)]
pub enum Wait {
    Hours(i64),
    Minutes(i64),
    Seconds(i64),
}

/// The outcome of a timed-reward claim.
#[derive(Debug, Clone, Copy, PartialEq, Eq)]
pub enum Reward {
    /// The reward was credited; the new balance.
    Credited(i64),
    /// Too early: nothing changed.
    TooEarly(Wait),
}

pub open spec fn wait_of(secs: int) -> Wait {
    if secs > 3600 {
        Wait::Hours((secs / 3600) as i64)
    } else if secs > 60 {
        Wait::Minutes((secs / 60) as i64)
    } else {
        Wait::Seconds(secs as i64)
    }
}

/// Splits a remaining wait into its largest applicable unit: hours above an
/// hour, minutes above a minute, else seconds (each rounded down).
pub fn wait_parts(secs: i64) -> (r: Wait)
    ensures
        r == wait_of(secs as int),
{
    if secs > 3600 {
        Wait::Hours(secs / 3600)
    } else if secs > 60 {
        Wait::Minutes(secs / 60)
    } else {
        Wait::Seconds(secs)
    }
}

/// The account that first contact creates.
pub open spec fn fresh_account(tid: i64, fullname: String, username: Option<String>, now: i64, code: String) -> Karbar {
    Karbar {
        tid,
        fullname,
        username,
        banned: false,
        created_at: now,
        updated_at: now,
        points: 0,
        last_daily_point_at: 0,
        invite_code: code,
        blocked: false,
        last_request: 0,
        price_stack: 0,
    }
}

/// The stored account after a non-banned user shows up again.
pub open spec fn refreshed(k: Karbar, fullname: String, username: Option<String>, now: i64) -> Karbar {
    Karbar { fullname, username, updated_at: now, blocked: false, ..k }
}

/// Identity resolution: a new account for a first contact, `Banned` for a
/// banned account, the refreshed record otherwise.
pub open spec fn resolved(
    existing: Option<Karbar>,
    tid: i64,
    fullname: String,
    username: Option<String>,
    now: i64,
    code: String,
) -> Result<Resolution, Worm> {
    match existing {
        None => Ok(Resolution::Create(fresh_account(tid, fullname, username, now, code))),
        Some(k) => if k.banned {
            Err(Worm::Banned)
        } else {
            Ok(Resolution::Update(refreshed(k, fullname, username, now)))
        },
    }
}

/// The inviter's record after one redemption of its code, if there is one to credit.
pub open spec fn redeemed(code: Seq<char>, inviter: Option<Karbar>, invite_points: i64) -> Option<Karbar> {
    if code.len() == 0 {
        None
    } else {
        match inviter {
            Some(k) => Some(Karbar { points: (k.points + invite_points) as i64, ..k }),
            None => None,
        }
    }
}

/// The escalated price of the `count`-th request of a window, if it fits.
pub fn escalated(base: i64, count: i64) -> (r: Option<i64>)
    ensures
        r is Some <==> fits_i64(cost_with(base as int, count as int)),
        r matches Some(c) ==> c == cost_with(base as int, count as int),
{
    let permille: i128 = if count == 1 {
        0
    } else if count == 2 {
        1
    } else if count == 3 {
        30
    } else if count == 4 {
        100
    } else if count == 5 {
        300
    } else if count == 6 {
        600
    } else if count == 7 {
        1100
    } else if count == 8 {
        1700
    } else if count == 9 {
        3000
    } else {
        (count as i128) * 1000
    };
    let ghost m = multiplier_permille(count as int);
    assert(permille == m);
    let c = base as i128;
    let p = match c.checked_mul(permille) {
        Some(p) => p,
        None => {
            proof {
                assert(c * m > i128::MAX || c * m < i128::MIN);
                assert(!fits_i64(cost_with(base as int, count as int))) by (nonlinear_arith)
                    requires
                        c * m > i128::MAX || c * m < i128::MIN,
                        -0x8000_0000_0000_0000 <= c < 0x8000_0000_0000_0000,
                        cost_with(base as int, count as int) == c + trunc_div(c * m, 1000),
                        trunc_div(c * m, 1000) == if c * m >= 0 {
                            (c * m) / 1000
                        } else {
                            -((-(c * m)) / 1000)
                        },
                ;
            }
            return None;
        },
    };
    if p < -0x1_0000_0000_0000_0000_0000 || p > 0x1_0000_0000_0000_0000_0000 {
        assert(!fits_i64(cost_with(base as int, count as int))) by (nonlinear_arith)
            requires
                p == c * m,
                p < -0x1_0000_0000_0000_0000_0000 || p > 0x1_0000_0000_0000_0000_0000,
                -0x8000_0000_0000_0000 <= c < 0x8000_0000_0000_0000,
                cost_with(base as int, count as int) == c + trunc_div(c * m, 1000),
                trunc_div(c * m, 1000) == if c * m >= 0 {
                    (c * m) / 1000
                } else {
                    -((-(c * m)) / 1000)
                },
        ;
        return None;
    }
    let added: i128 = if p >= 0 {
        p / 1000
    } else {
        -((-p) / 1000)
    };
    assert(added == trunc_div(c * m, 1000));
    if -0x1_0000_0000_0000_0000 < added && added < 0x1_0000_0000_0000_0000 {
        let total = c + added;
        if i64::MIN as i128 <= total && total <= i64::MAX as i128 {
            Some(total as i64)
        } else {
            None
        }
    } else {
        None
    }
}

/// The request count of the window after one more request at `now`.
pub open spec fn next_stack(last_request: int, stack: int, now: int) -> int {
    if last_request + PRICE_STACK_RESET < now {
        1
    } else {
        stack + 1
    }
}

/// The price multiplier of the `count`-th request of a window, in thousandths.
pub open spec fn multiplier_permille(count: int) -> int {
    if count == 1 {
        0
    } else if count == 2 {
        1
    } else if count == 3 {
        30
    } else if count == 4 {
        100
    } else if count == 5 {
        300
    } else if count == 6 {
        600
    } else if count == 7 {
        1100
    } else if count == 8 {
        1700
    } else if count == 9 {
        3000
    } else {
        count * 1000
    }
}

/// Division by a positive `d` that rounds toward zero.
pub open spec fn trunc_div(a: int, d: int) -> int {
    if a >= 0 {
        a / d
    } else {
        -((-a) / d)
    }
}

/// The price of the `count`-th request of a window: `base + trunc(base * multiplier)`.
pub open spec fn cost_with(base: int, count: int) -> int {
    base + trunc_div(base * multiplier_permille(count), 1000)
}

pub open spec fn fits_i64(x: int) -> bool {
    i64::MIN <= x <= i64::MAX
}

impl Karbar {
    /// The request count of the window is never negative.
    pub open spec fn wf(&self) -> bool {
        self.price_stack >= 0
    }

    /// Resolves an inbound user against the stored account, if any: a new
    /// account is built from the profile, a banned one is refused with
    /// `Banned`, any other one gets its display fields refreshed and its
    /// `blocked` flag cleared.
    pub fn resolve(
        existing: Option<Karbar>,
        tid: i64,
        fullname: String,
        username: Option<String>,
        now: i64,
        code: String,
    ) -> (r: Result<Resolution, Worm>)
        ensures
            r == resolved(existing, tid, fullname, username, now, code),
    {
        match existing {
            None => Ok(
                Resolution::Create(
                    Karbar {
                        tid,
                        fullname,
                        username,
                        banned: false,
                        created_at: now,
                        updated_at: now,
                        points: 0,
                        last_daily_point_at: 0,
                        invite_code: code,
                        blocked: false,
                        last_request: 0,
                        price_stack: 0,
                    },
                ),
            ),
            Some(mut k) => {
                if k.banned {
                    return Err(Worm::Banned);
                }
                k.fullname = fullname;
                k.username = username;
                k.updated_at = now;
                k.blocked = false;
                Ok(Resolution::Update(k))
            },
        }
    }

    /// Whether this account is one of the administrators.
    pub fn is_admin(&self, admins: &Vec<i64>) -> (r: bool)
        ensures
            r == admins@.contains(self.tid),
    {
        let mut i: usize = 0;
        while i < admins.len()
            invariant
                i <= admins.len(),
                forall|j: int| 0 <= j < i ==> admins@[j] != self.tid,
            decreases admins.len() - i,
        {
            if admins[i] == self.tid {
                return true;
            }
            i = i + 1;
        }
        false
    }

    /// Credits the inviter whose code a new account came with. An empty code
    /// looks nothing up and an unknown one finds no inviter: both leave
    /// everything as it is (`None`).
    pub fn invited(code: &str, inviter: Option<Karbar>, invite_points: i64) -> (r: Option<Karbar>)
        requires
            inviter matches Some(k) ==> fits_i64(k.points + invite_points),
        ensures
            r == redeemed(code@, inviter, invite_points),
    {
        if code.is_empty() {
            return None;
        }
        match inviter {
            Some(mut k) => {
                k.points = k.points + invite_points;
                Some(k)
            },
            None => None,
        }
    }

    /// The administrator `by` bans or unbans this account; nobody can ban
    /// themselves, and that attempt is refused (`false`) with nothing changed.
    pub fn toggle_ban(&mut self, by: i64) -> (r: bool)
        ensures
            r == (old(self).tid != by),
            r ==> *final(self) == (Karbar { banned: !old(self).banned, ..*old(self) }),
            !r ==> *final(self) == *old(self),
    {
        if self.tid == by {
            return false;
        }
        self.banned = !self.banned;
        true
    }

    /// Whether the balance covers `cost`.
    pub fn can_afford(&self, cost: i64) -> (r: bool)
        ensures
            r == (self.points >= cost),
    {
        self.points >= cost
    }

    /// Debits `cost` from a balance that covers it.
    pub fn spend(&mut self, cost: i64)
        requires
            old(self).points >= cost,
            fits_i64(old(self).points - cost),
        ensures
            *final(self) == (Karbar { points: (old(self).points - cost) as i64, ..*old(self) }),
    {
        self.points = self.points - cost;
    }

    /// Claims the timed reward at `now`: too early while fewer than `delay`
    /// seconds have passed since the last claim (nothing changes, the
    /// remaining wait is reported); otherwise `amount` is credited and the
    /// claim time stamped.
    pub fn claim_reward(&mut self, now: i64, delay: i64, amount: i64) -> (r: Reward)
        requires
            now - old(self).last_daily_point_at >= delay ==> fits_i64(old(self).points + amount),
            now - old(self).last_daily_point_at < delay ==> fits_i64(delay - (now - old(self).last_daily_point_at)),
        ensures
            now - old(self).last_daily_point_at < delay ==> *final(self) == *old(self) && r == Reward::TooEarly(
                wait_of(delay - (now - old(self).last_daily_point_at)),
            ),
            now - old(self).last_daily_point_at >= delay ==> *final(self) == (Karbar {
                points: (old(self).points + amount) as i64,
                last_daily_point_at: now,
                ..*old(self)
            }) && r == Reward::Credited(final(self).points),
    {
        let rem: i128 = (now as i128) - (self.last_daily_point_at as i128);
        if rem < delay as i128 {
            let wait = ((delay as i128) - rem) as i64;
            return Reward::TooEarly(wait_parts(wait));
        }
        self.points = self.points + amount;
        self.last_daily_point_at = now;
        Reward::Credited(self.points)
    }

    /// Charges one request now; see `calc_cost_at`. The window either starts
    /// over at this request or counts one more.
    pub fn calc_cost(&mut self, cost: i64) -> (r: i64)
        requires
            old(self).wf(),
            old(self).price_stack < i64::MAX,
            fits_i64(cost_with(cost as int, old(self).price_stack + 1)),
        ensures
            final(self).price_stack == next_stack(
                old(self).last_request as int,
                old(self).price_stack as int,
                final(self).last_request as int,
            ),
            final(self).price_stack == 1 || final(self).price_stack == old(self).price_stack + 1,
            final(self).wf(),
            *final(self) == (Karbar {
                price_stack: final(self).price_stack,
                last_request: final(self).last_request,
                ..*old(self)
            }),
            r == cost_with(cost as int, final(self).price_stack as int),
    {
        let t = now();
        self.calc_cost_at(cost, t)
    }

    /// Charges one request at time `now`: resets the window when the last
    /// request is older than a day, counts this request and returns
    /// its escalated price.
    pub fn calc_cost_at(&mut self, cost: i64, now: i64) -> (r: i64)
        requires
            old(self).wf(),
            fits_i64(next_stack(old(self).last_request as int, old(self).price_stack as int, now as int)),
            fits_i64(cost_with(cost as int, next_stack(old(self).last_request as int, old(self).price_stack as int, now as int))),
        ensures
            final(self).price_stack == next_stack(old(self).last_request as int, old(self).price_stack as int, now as int),
            final(self).last_request == now,
            *final(self) == (Karbar { price_stack: final(self).price_stack, last_request: now, ..*old(self) }),
            r == cost_with(cost as int, final(self).price_stack as int),
            final(self).wf(),
    {
        if (self.last_request as i128) + (PRICE_STACK_RESET as i128) < (now as i128) {
            self.price_stack = 0;
        }
        self.last_request = now;
        self.price_stack = self.price_stack + 1;
        escalated(cost, self.price_stack).unwrap()
    }

    /// `charge` for a well-formed account whose window count and price fit
    /// in an `i64`; `None`, with nothing changed, for any other.
    pub fn charge_checked(&mut self, base: i64, now: i64) -> (r: Option<crate::session::Charge>)
        ensures
            ({
                let n = next_stack(old(self).last_request as int, old(self).price_stack as int, now as int);
                if old(self).wf() && fits_i64(n) && fits_i64(cost_with(base as int, n)) {
                    &&& final(self).price_stack == n
                    &&& *final(self) == (Karbar { price_stack: n as i64, last_request: now, ..*old(self) })
                    &&& r == Some(
                        if old(self).points >= cost_with(base as int, n) {
                            crate::session::Charge::Affordable(cost_with(base as int, n) as i64)
                        } else {
                            crate::session::Charge::Insufficient(cost_with(base as int, n) as i64)
                        },
                    )
                } else {
                    r is None && *final(self) == *old(self)
                }
            }),
    {
        if self.price_stack < 0 {
            return None;
        }
        let next: i128 = if (self.last_request as i128) + (PRICE_STACK_RESET as i128) < (now as i128) {
            1
        } else {
            (self.price_stack as i128) + 1
        };
        if next > i64::MAX as i128 {
            return None;
        }
        if escalated(base, next as i64).is_none() {
            return None;
        }
        Some(self.charge(base, now))
    }
}

/// Redeeming an invite code credits its owner by exactly `invite_points`,
/// and leaves everything else of the record as it was; an empty or unknown
/// code credits nobody.
pub proof fn lemma_invite_credit(code: Seq<char>, inviter: Option<Karbar>, invite_points: i64)
    ensures
        code.len() == 0 ==> redeemed(code, inviter, invite_points) is None,
        inviter is None ==> redeemed(code, inviter, invite_points) is None,
        code.len() > 0 && inviter is Some ==> redeemed(code, inviter, invite_points) == Some(
            Karbar { points: (inviter->0.points + invite_points) as i64, ..inviter->0 },
        ),
{
}

/// Only a first contact creates an account, and only account creation
/// redeems a referral code: resolving a user who already has an account
/// never creates one again.
pub proof fn lemma_existing_never_created(
    existing: Karbar,
    tid: i64,
    fullname: String,
    username: Option<String>,
    now: i64,
    code: String,
)
    ensures
        !(resolved(Some(existing), tid, fullname, username, now, code) matches Ok(Resolution::Create(_))),
{
}

/// A request never costs less than its base: every count a well-formed
/// window reaches has a multiplier of at least zero.
pub proof fn lemma_price_not_below_base(k: Karbar, base: i64, now: i64)
    requires
        k.wf(),
        base >= 0,
    ensures
        next_stack(k.last_request as int, k.price_stack as int, now as int) >= 1,
        cost_with(base as int, next_stack(k.last_request as int, k.price_stack as int, now as int)) >= base,
{
    let n = next_stack(k.last_request as int, k.price_stack as int, now as int);
    let m = multiplier_permille(n);
    assert(m >= 0);
    assert(base * m >= 0) by (nonlinear_arith)
        requires
            base >= 0,
            m >= 0,
    ;
}

/// After more than a day without requests the window starts over: the next
/// request is the first of its window and costs exactly its base.
pub proof fn lemma_window_reset(k: Karbar, base: i64, now: i64)
    requires
        now - k.last_request > PRICE_STACK_RESET,
    ensures
        next_stack(k.last_request as int, k.price_stack as int, now as int) == 1,
        cost_with(base as int, next_stack(k.last_request as int, k.price_stack as int, now as int)) == base,
{
}

} // verus!
