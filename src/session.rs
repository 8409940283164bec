//! Decisions of the conversational flows: pricing a request, the bounded
//! pick of a resource, and reading commands and administrative input.

use vstd::prelude::*;
use crate::karbar::{cost_with, fits_i64, next_stack, Karbar};
use crate::proxy::{proxy_url, Proxy};
use crate::state::State;
use crate::text::{parse_i64, parse_u64, parsed_i64, parsed_u64};
use crate::text::{chars_of, next_index, string_of, find_char};
use crate::v2ray::{parse_url, trim_text, trimmed, url_parses};

verus! {

/// Fetches of a random resource before "none found" is reported.
pub const PICK_ATTEMPTS: u8 = 6;

/// The bounded retry of picking a deliverable resource.
#[derive(Debug, Clone, Copy, PartialEq, Eq, Structural)]
pub struct Picker {
    pub tries: u8,
}

impl Picker {
    pub fn new() -> (r: Picker)
        ensures
            r.tries == 0,
    {
        Picker { tries: 0 }
    }

    /// Asks for one more fetch: granted for the first six, refused after.
    pub fn attempt(&mut self) -> (r: bool)
        requires
            old(self).tries <= PICK_ATTEMPTS,
        ensures
            r == (old(self).tries < PICK_ATTEMPTS),
            r ==> final(self).tries == old(self).tries + 1,
            !r ==> *final(self) == *old(self),
            final(self).tries <= PICK_ATTEMPTS,
    {
        if self.tries >= PICK_ATTEMPTS {
            return false;
        }
        self.tries = self.tries + 1;
        true
    }
}

impl Proxy {
    /// Whether the relay's link is a URL the chat client can open; one that
    /// is not gets disabled by the picker.
    pub fn deliverable(&self) -> (r: bool)
        ensures
            r == url_parses(proxy_url(self.server@, self.port@, self.secret@)),
    {
        let u = self.url();
        parse_url(u.as_str()).is_some()
    }
}

/// The outcome of pricing a request.
#[derive(Debug, Clone, Copy, PartialEq, Eq, Structural)]
pub enum Charge {
    /// the balance covers this cost; debit it once the resource is delivered
    Affordable(i64),
    /// the balance does not cover this cost
    Insufficient(i64),
}

impl Karbar {
    /// Prices a request of base cost `base` at `now` (the window counts it
    /// either way) and says whether the balance covers it.
    pub fn charge(&mut self, base: i64, now: i64) -> (r: Charge)
        requires
            old(self).wf(),
            fits_i64(next_stack(old(self).last_request as int, old(self).price_stack as int, now as int)),
            fits_i64(cost_with(base as int, next_stack(old(self).last_request as int, old(self).price_stack as int, now as int))),
        ensures
            final(self).price_stack == next_stack(old(self).last_request as int, old(self).price_stack as int, now as int),
            *final(self) == (Karbar { price_stack: final(self).price_stack, last_request: now, ..*old(self) }),
            final(self).wf(),
            ({
                let c = cost_with(base as int, final(self).price_stack as int) as i64;
                if old(self).points >= c {
                    r == Charge::Affordable(c)
                } else {
                    r == Charge::Insufficient(c)
                }
            }),
    {
        let cost = self.calc_cost_at(base, now);
        if self.can_afford(cost) {
            Charge::Affordable(cost)
        } else {
            Charge::Insufficient(cost)
        }
    }
}

/// A field of the settings that an administrator sets from a number.
#[derive(Debug, Clone, Copy, PartialEq, Eq, Structural)]
pub enum SettingField {
    VipCost,
    ProxyCost,
    V2rayCost,
    InvitePoints,
    FreePoints,
    FreePointDelay,
    StarPointPrice,
    VipMaxViews,
}

/// What an administrator's message does in a state that awaits input.
#[derive(Debug, Clone)]
pub enum Input {
    /// the message has no text, which this state needs
    NoText,
    /// the text is not a number, which this state needs
    NotANumber,
    SetSetting(SettingField, i64),
    /// account, new balance
    SetKarbarPoints(i64, i64),
    /// ad, new view cap (at least -1)
    SetFlyerMaxViews(i64, i64),
    SetFlyerLink(i64, String),
    SetFlyerLabel(i64, String),
    /// the ad's label: next, its message is awaited
    FlyerLabel(String),
    /// this message is the ad with that label: store it, then await its cap
    FlyerMessage(String),
    /// lines of relay links, in the text and an attached file
    ProxyAdd,
    /// lines of tunnel configs, in the text and an attached file
    V2rayAdd,
    SetVipMsg,
    SetDonateMsg,
    FindKarbar,
    /// this message is the broadcast: ask for confirmation
    SendAll,
    /// not a state that awaits input
    Ignored,
}

pub open spec fn setting_of(s: State) -> Option<SettingField> {
    match s {
        State::AdminSetVipCost => Some(SettingField::VipCost),
        State::AdminSetProxyCost => Some(SettingField::ProxyCost),
        State::AdminSetV2rayCost => Some(SettingField::V2rayCost),
        State::AdminSetInvitPt => Some(SettingField::InvitePoints),
        State::AdminSetFreePt => Some(SettingField::FreePoints),
        State::AdminSetFreePtDelay => Some(SettingField::FreePointDelay),
        State::AdminSetStarPricePt => Some(SettingField::StarPointPrice),
        State::AdminSetVipMaxViews => Some(SettingField::VipMaxViews),
        _ => None,
    }
}

/// States whose input is one number.
pub open spec fn wants_number(s: State) -> bool {
    setting_of(s) is Some || s is AdminKarbarSetPoints || s is AdminFlyerSetMaxView
}

/// States whose input is a text.
pub open spec fn wants_text(s: State) -> bool {
    s is AdminFlyerAdd || s is AdminFlyerSetLink || s is AdminFlyerSetLabel
}

/// The reading of an administrator's message `text` in state `s`.
pub open spec fn input_of(s: State, text: Option<Seq<char>>) -> Input {
    if wants_number(s) {
        match text {
            None => Input::NoText,
            Some(t) => match parsed_i64(t) {
                None => Input::NotANumber,
                Some(v) => match s {
                    State::AdminKarbarSetPoints(kid) => Input::SetKarbarPoints(kid, v),
                    State::AdminFlyerSetMaxView(id) => Input::SetFlyerMaxViews(id, if v < -1 { -1i64 } else { v }),
                    _ => Input::SetSetting(setting_of(s)->0, v),
                },
            },
        }
    } else if wants_text(s) {
        match text {
            None => Input::NoText,
            Some(t) => match s {
                State::AdminFlyerSetLink(id) => Input::SetFlyerLink(id, t_string(t)),
                State::AdminFlyerSetLabel(id) => Input::SetFlyerLabel(id, t_string(t)),
                _ => Input::FlyerLabel(t_string(t)),
            },
        }
    } else {
        match s {
            State::AdminFlyerSendMessage { label } => Input::FlyerMessage(label),
            State::AdminProxyAdd => Input::ProxyAdd,
            State::AdminV2rayAdd => Input::V2rayAdd,
            State::AdminSetVipMsg => Input::SetVipMsg,
            State::AdminSetDonateMsg => Input::SetDonateMsg,
            State::AdminFindKarbar => Input::FindKarbar,
            State::AdminSendAll => Input::SendAll,
            _ => Input::Ignored,
        }
    }
}

/// A string whose view is `t`.
pub open spec fn t_string(t: Seq<char>) -> String {
    choose|r: String| r@ == t
}

/// Whether two readings agree, comparing texts by their characters.
pub open spec fn same_input(a: Input, b: Input) -> bool {
    match (a, b) {
        (Input::SetFlyerLink(i, x), Input::SetFlyerLink(j, y)) => i == j && x@ == y@,
        (Input::SetFlyerLabel(i, x), Input::SetFlyerLabel(j, y)) => i == j && x@ == y@,
        (Input::FlyerLabel(x), Input::FlyerLabel(y)) => x@ == y@,
        (Input::FlyerMessage(x), Input::FlyerMessage(y)) => x@ == y@,
        _ => a == b,
    }
}

/// Reads an administrator's message in the state that awaits it.
pub fn admin_input(state: &State, text: Option<&str>) -> (r: Input)
    ensures
        same_input(
            r,
            input_of(
                *state,
                match text {
                    Some(t) => Some(t@),
                    None => None,
                },
            ),
        ),
{
    let number = match state {
        State::AdminSetVipCost => Some(SettingField::VipCost),
        State::AdminSetProxyCost => Some(SettingField::ProxyCost),
        State::AdminSetV2rayCost => Some(SettingField::V2rayCost),
        State::AdminSetInvitPt => Some(SettingField::InvitePoints),
        State::AdminSetFreePt => Some(SettingField::FreePoints),
        State::AdminSetFreePtDelay => Some(SettingField::FreePointDelay),
        State::AdminSetStarPricePt => Some(SettingField::StarPointPrice),
        State::AdminSetVipMaxViews => Some(SettingField::VipMaxViews),
        _ => None,
    };
    let wants_number = number.is_some() || matches!(state, State::AdminKarbarSetPoints(_) | State::AdminFlyerSetMaxView(_));
    if wants_number {
        let t = match text {
            None => return Input::NoText,
            Some(t) => t,
        };
        let v = match parse_i64(t) {
            None => return Input::NotANumber,
            Some(v) => v,
        };
        return match state {
            State::AdminKarbarSetPoints(kid) => Input::SetKarbarPoints(*kid, v),
            State::AdminFlyerSetMaxView(id) => Input::SetFlyerMaxViews(*id, if v < -1 { -1 } else { v }),
            _ => Input::SetSetting(number.unwrap(), v),
        };
    }
    let wants_text = matches!(state, State::AdminFlyerAdd | State::AdminFlyerSetLink(_) | State::AdminFlyerSetLabel(_));
    if wants_text {
        let t = match text {
            None => return Input::NoText,
            Some(t) => t.to_owned(),
        };
        return match state {
            State::AdminFlyerSetLink(id) => Input::SetFlyerLink(*id, t),
            State::AdminFlyerSetLabel(id) => Input::SetFlyerLabel(*id, t),
            _ => Input::FlyerLabel(t),
        };
    }
    match state {
        State::AdminFlyerSendMessage { label } => Input::FlyerMessage(label.clone()),
        State::AdminProxyAdd => Input::ProxyAdd,
        State::AdminV2rayAdd => Input::V2rayAdd,
        State::AdminSetVipMsg => Input::SetVipMsg,
        State::AdminSetDonateMsg => Input::SetDonateMsg,
        State::AdminFindKarbar => Input::FindKarbar,
        State::AdminSendAll => Input::SendAll,
        _ => Input::Ignored,
    }
}

/// The `/start` parameter, `key-value`: the key before the first `-`, the
/// value after it (empty without one).
pub open spec fn start_key(r: Seq<char>) -> Seq<char> {
    r.subrange(0, next_index(r, '-', 0, r.len() as int))
}

pub open spec fn start_value(r: Seq<char>) -> Seq<char> {
    let d = next_index(r, '-', 0, r.len() as int);
    if d < r.len() {
        r.subrange(d + 1, r.len() as int)
    } else {
        seq![]
    }
}

/// What a `/start` parameter asks for.
#[derive(Debug, Clone)]
pub struct Start {
    /// the referral code to redeem, empty for none
    pub code: String,
    /// open the donation info instead of the menu
    pub donate: bool,
}

/// Reads a `/start` parameter: `inv-CODE` brings a referral code, `donate`
/// opens the donation info.
pub fn start_param(r: &str) -> (s: Start)
    ensures
        s.code@ == (if start_key(r@) == "inv"@ {
            start_value(r@)
        } else {
            seq![]
        }),
        s.donate == (start_key(r@) == "donate"@),
{
    let v = chars_of(r);
    proof {
        crate::text::lemma_next_index_bounds(v@, '-', 0, v@.len() as int);
    }
    let d = find_char(&v, '-', 0, v.len());
    let key = string_of(&v, 0, d);
    let value = if d < v.len() {
        string_of(&v, d + 1, v.len())
    } else {
        String::new()
    };
    let inv = key == "inv".to_owned();
    let donate = key == "donate".to_owned();
    Start { code: if inv { value } else { String::new() }, donate }
}

/// Whom an administrator looks for.
#[derive(Debug, Clone)]
pub enum FindQuery {
    ById(i64),
    ByUsername(String),
    Nothing,
}

pub open spec fn find_query_of(forwarded: Option<i64>, text: Option<Seq<char>>) -> Option<Result<i64, Seq<char>>> {
    match forwarded {
        Some(id) => Some(Ok(id)),
        None => match text {
            None => None,
            Some(t) => {
                let tt = trimmed(t);
                if tt.len() > 0 && tt[0] == '@' {
                    Some(Err(tt.drop_first()))
                } else {
                    match parsed_u64(tt) {
                        Some(id) => Some(Ok(id as i64)),
                        None => None,
                    }
                }
            },
        },
    }
}

/// Reads whom an administrator looks for: the sender of a forwarded
/// message, else `@username`, else a numeric id.
pub fn find_query(forwarded: Option<i64>, text: Option<&str>) -> (r: FindQuery)
    ensures
        ({
            let q = find_query_of(
                forwarded,
                match text {
                    Some(t) => Some(t@),
                    None => None,
                },
            );
            match r {
                FindQuery::ById(id) => q == Some(Ok::<i64, Seq<char>>(id)),
                FindQuery::ByUsername(u) => q == Some(Err::<i64, Seq<char>>(u@)),
                FindQuery::Nothing => q is None,
            }
        }),
{
    if let Some(id) = forwarded {
        return FindQuery::ById(id);
    }
    let t = match text {
        None => return FindQuery::Nothing,
        Some(t) => trim_text(t),
    };
    let v = chars_of(t);
    if v.len() > 0 && v[0] == '@' {
        let u = string_of(&v, 1, v.len());
        assert(u@ == v@.drop_first());
        return FindQuery::ByUsername(u);
    }
    match parse_u64(t) {
        Some(id) => FindQuery::ById(id as i64),
        None => FindQuery::Nothing,
    }
}

} // verus!
