//! Button actions, dialogue states, and the routing of inbound events.

use vstd::prelude::*;
use crate::book::{layout_view, Button};

verus! {

/// The action a button carries.
#[derive(Debug, Clone, Copy, PartialEq, Eq, Structural)]
pub enum KeyData {
    Unknown,
    Menu,
    Donate,
    GetProxy,
    GetVip,
    GetV2ray,
    MyInviteLinks,
    StarPrices,
    BuyStarPoints(u32),
    GetFreePoints,
    GetRealFreePoints,
    ProxyVote(i64, i8),
    V2rayVote(i64, i8),
    Ag(AdminGlobal),
    /// a page of the list being browsed
    BookPagination(u32),
    /// an item of the list being browsed: page, id
    BookItem(u32, i64),
    BookAdd,
    BookDeleteAll,
}

/// Administrative actions.
#[derive(Debug, Clone, Copy, PartialEq, Eq, Structural)]
pub enum AdminGlobal {
    ForceJoinList,
    KarbarFind,
    KarbarSetPoints(i64),
    KarbarBanToggle(i64),
    SendAll,
    /// forward (rather than copy), message id
    SendAllConfirm(bool, i32),
    Settings,
    ProxyList,
    ProxyDel(u32, i64),
    ProxyVotesReset(u32, i64),
    ProxyDisabledToggle(u32, i64),
    ProxyDeleteAllConfirm,
    V2rayAudoUpdate,
    V2rayList,
    V2rayDel(u32, i64),
    V2rayVotesReset(u32, i64),
    V2rayDisabledToggle(u32, i64),
    V2rayDeleteAllConfirm,
    SetFreePt,
    SetFreePtDelay,
    SetStarPricePt,
    SetInvitPt,
    SetProxyCost,
    SetV2rayCost,
    SetVipCost,
    SetVipMaxViews,
    SetVipMsg,
    SetDonateMsg,
    FlyerList,
    FlyerDel(u32, i64),
    FlyerViewsReset(u32, i64),
    FlyerDisabledToggle(u32, i64),
    FlyerSetMaxViews(u32, i64),
    FlyerSetLink(u32, i64),
    FlyerSetLabel(u32, i64),
    FlyerDelLink(u32, i64),
    FlyerDeleteAllConfirm,
}

/// The persisted dialogue state of a chat.
#[derive(Debug, Clone)]
pub enum State {
    Menu,
    AdminSendAll,
    AdminFindKarbar,
    AdminKarbarSetPoints(i64),
    AdminProxyList,
    AdminProxyAdd,
    AdminV2rayList,
    AdminV2rayAdd,
    AdminFlyerList,
    AdminFlyerAdd,
    AdminFlyerSendMessage { label: String },
    AdminFlyerSetMaxView(i64),
    AdminFlyerSetLink(i64),
    AdminFlyerSetLabel(i64),
    AdminSetStarPricePt,
    AdminSetFreePt,
    AdminSetFreePtDelay,
    AdminSetInvitPt,
    AdminSetProxyCost,
    AdminSetV2rayCost,
    AdminSetVipCost,
    AdminSetVipMsg,
    AdminSetVipMaxViews,
    AdminSetDonateMsg,
}

impl Default for State {
    /// A chat with no stored state is at the menu.
    fn default() -> (r: State)
        ensures
            r is Menu,
    {
        State::Menu
    }
}

/// The reply-keyboard commands.
pub const GET_PROXY: &'static str = "پروکسی";

pub const GET_VIP: &'static str = "کانفیگ VIP 🍓";

pub const GET_V2RAY: &'static str = "V2ray";

pub const FREE_PONT: &'static str = "امتیاز رایگان 🍅";

pub const INVITE: &'static str = "دعوت دوستان";

pub const MENU: &'static str = "منو";

pub const DONATE: &'static str = "حمایت مالی 💰";

pub const BUY_STAR_POINT: &'static str = "خرید امتیاز با استار ⭐";

/// Actions that any non-banned account may take.
pub open spec fn is_global(k: KeyData) -> bool {
    match k {
        KeyData::Menu | KeyData::Donate | KeyData::GetProxy | KeyData::GetVip | KeyData::GetV2ray
        | KeyData::MyInviteLinks | KeyData::GetFreePoints | KeyData::BuyStarPoints(_)
        | KeyData::StarPrices | KeyData::GetRealFreePoints | KeyData::ProxyVote(_, _)
        | KeyData::V2rayVote(_, _) => true,
        _ => false,
    }
}

/// Actions of a list being browsed that a relay list handles.
pub open spec fn is_proxy_list_key(k: KeyData) -> bool {
    k is BookAdd || k is BookItem || k is BookPagination
}

/// Actions of a list being browsed that the tunnel-config and ad lists handle.
pub open spec fn is_list_key(k: KeyData) -> bool {
    k is BookAdd || k is BookItem || k is BookPagination || k is BookDeleteAll
}

/// The handler layer that claims a button press.
#[derive(Debug, Clone, Copy, PartialEq, Eq, Structural)]
pub enum Layer {
    Global,
    Admin(AdminGlobal),
    ProxyList,
    V2rayList,
    FlyerList,
    /// no layer claims it: the press is dropped
    Dropped,
}

/// Dispatch of a button press: the global layer first, then, for an
/// administrator, the administrative actions, then the actions of the list
/// the administrator is browsing.
pub open spec fn layer_of(k: KeyData, is_admin: bool, state: State) -> Layer {
    if is_global(k) {
        Layer::Global
    } else if is_admin && k is Ag {
        Layer::Admin(k->Ag_0)
    } else if is_admin && state is AdminProxyList && is_proxy_list_key(k) {
        Layer::ProxyList
    } else if is_admin && state is AdminV2rayList && is_list_key(k) {
        Layer::V2rayList
    } else if is_admin && state is AdminFlyerList && is_list_key(k) {
        Layer::FlyerList
    } else {
        Layer::Dropped
    }
}

/// States in which an administrator's next message is input for a pending
/// edit rather than a keyboard command.
pub open spec fn awaits_input(s: State) -> bool {
    !(s is Menu || s is AdminProxyList || s is AdminV2rayList || s is AdminFlyerList)
}

impl State {
    pub fn awaits_input(&self) -> (r: bool)
        ensures
            r == awaits_input(*self),
    {
        match self {
            State::Menu | State::AdminProxyList | State::AdminV2rayList | State::AdminFlyerList => false,
            _ => true,
        }
    }
}

impl KeyData {
    pub fn is_global(&self) -> (r: bool)
        ensures
            r == is_global(*self),
    {
        match self {
            KeyData::Menu | KeyData::Donate | KeyData::GetProxy | KeyData::GetVip | KeyData::GetV2ray
            | KeyData::MyInviteLinks | KeyData::GetFreePoints | KeyData::BuyStarPoints(_)
            | KeyData::StarPrices | KeyData::GetRealFreePoints | KeyData::ProxyVote(_, _)
            | KeyData::V2rayVote(_, _) => true,
            _ => false,
        }
    }

    /// The layer that claims this action.
    pub fn route(&self, is_admin: bool, state: &State) -> (r: Layer)
        ensures
            r == layer_of(*self, is_admin, *state),
    {
        if self.is_global() {
            return Layer::Global;
        }
        if is_admin {
            if let KeyData::Ag(ag) = self {
                return Layer::Admin(*ag);
            }
            let list_key = matches!(self, KeyData::BookAdd | KeyData::BookItem(_, _) | KeyData::BookPagination(_));
            let delete_all = matches!(self, KeyData::BookDeleteAll);
            match state {
                State::AdminProxyList => {
                    if list_key {
                        return Layer::ProxyList;
                    }
                },
                State::AdminV2rayList => {
                    if list_key || delete_all {
                        return Layer::V2rayList;
                    }
                },
                State::AdminFlyerList => {
                    if list_key || delete_all {
                        return Layer::FlyerList;
                    }
                },
                _ => {},
            }
        }
        Layer::Dropped
    }
}

/// Whether two texts are equal.
pub fn same_text(a: &str, b: &str) -> (r: bool)
    ensures
        r == (a@ == b@),
{
    a.to_owned() == b.to_owned()
}

/// The action of a reply-keyboard command, `Unknown` for any other text.
pub open spec fn command_of(t: Seq<char>) -> KeyData {
    if t == GET_VIP@ {
        KeyData::GetVip
    } else if t == INVITE@ {
        KeyData::MyInviteLinks
    } else if t == FREE_PONT@ {
        KeyData::GetFreePoints
    } else if t == GET_V2RAY@ {
        KeyData::GetV2ray
    } else if t == GET_PROXY@ {
        KeyData::GetProxy
    } else if t == MENU@ {
        KeyData::Menu
    } else if t == DONATE@ {
        KeyData::Donate
    } else {
        KeyData::Unknown
    }
}

/// Reads a text message as a reply-keyboard command.
pub fn command(text: &str) -> (r: KeyData)
    ensures
        r == command_of(text@),
{
    if same_text(text, GET_VIP) {
        KeyData::GetVip
    } else if same_text(text, INVITE) {
        KeyData::MyInviteLinks
    } else if same_text(text, FREE_PONT) {
        KeyData::GetFreePoints
    } else if same_text(text, GET_V2RAY) {
        KeyData::GetV2ray
    } else if same_text(text, GET_PROXY) {
        KeyData::GetProxy
    } else if same_text(text, MENU) {
        KeyData::Menu
    } else if same_text(text, DONATE) {
        KeyData::Donate
    } else {
        KeyData::Unknown
    }
}

/// Who consumes a text message.
#[derive(Debug, Clone, Copy, PartialEq, Eq, Structural)]
pub enum TextRoute {
    /// the pending administrative edit of the dialogue state
    AdminInput,
    /// a reply-keyboard command (`Unknown`: none, the message is dropped)
    Command(KeyData),
}

pub open spec fn text_route_of(text: Seq<char>, is_admin: bool, state: State) -> TextRoute {
    if is_admin && awaits_input(state) {
        TextRoute::AdminInput
    } else {
        TextRoute::Command(command_of(text))
    }
}

/// Routes a text message: an administrator with a pending edit gives input
/// to it; anything else is matched against the reply-keyboard commands.
pub fn route_text(text: &str, is_admin: bool, state: &State) -> (r: TextRoute)
    ensures
        r == text_route_of(text@, is_admin, *state),
{
    if is_admin && state.awaits_input() {
        TextRoute::AdminInput
    } else {
        TextRoute::Command(command(text))
    }
}

/// The main menu: the user actions, and for an administrator the
/// administrative ones below them.
pub open spec fn menu_layout(is_admin: bool) -> Seq<Seq<(Seq<char>, KeyData)>> {
    let user = seq![
        seq![("امتیاز رایگان 🍅"@, KeyData::GetFreePoints), ("کانفیگ VIP 💎"@, KeyData::GetVip)],
        seq![("پروکسی 🛡"@, KeyData::GetProxy), ("V2RAY ⚡️"@, KeyData::GetV2ray)],
        seq![("دعوت دوستان و امتیاز گیری 🫂"@, KeyData::MyInviteLinks), ("حمایت مالی 💰"@, KeyData::Donate)],
        seq![("خرید امتیاز با استار ⭐"@, KeyData::StarPrices)]
    ];
    if is_admin {
        user + seq![
            seq![("👇 منوی ادمین 👇"@, KeyData::Unknown), ("کاربر 🔍"@, KeyData::Ag(AdminGlobal::KarbarFind))],
        seq![("جوین اجباری"@, KeyData::Ag(AdminGlobal::ForceJoinList)), ("ارسال همهگانی"@, KeyData::Ag(AdminGlobal::SendAll)), ("تنظیمات"@, KeyData::Ag(AdminGlobal::Settings))],
        seq![("لیست پروکسی"@, KeyData::Ag(AdminGlobal::ProxyList)), ("لیست v2ray"@, KeyData::Ag(AdminGlobal::V2rayList)), ("لیست تبلیغات"@, KeyData::Ag(AdminGlobal::FlyerList))]
        ]
    } else {
        user
    }
}

fn button(label: &str, key: KeyData) -> (b: Button)
    ensures
        b.label@ == label@ && b.key == key,
{
    Button { label: label.to_owned(), key }
}

/// The main menu's buttons.
pub fn menu(is_admin: bool) -> (rows: Vec<Vec<Button>>)
    ensures
        layout_view(rows@) =~~= menu_layout(is_admin),
{
    let mut rows: Vec<Vec<Button>> = Vec::new();
    rows.push(vec![button("امتیاز رایگان 🍅", KeyData::GetFreePoints), button("کانفیگ VIP 💎", KeyData::GetVip)]);
    rows.push(vec![button("پروکسی 🛡", KeyData::GetProxy), button("V2RAY ⚡️", KeyData::GetV2ray)]);
    rows.push(vec![button("دعوت دوستان و امتیاز گیری 🫂", KeyData::MyInviteLinks), button("حمایت مالی 💰", KeyData::Donate)]);
    rows.push(vec![button("خرید امتیاز با استار ⭐", KeyData::StarPrices)]);
    if is_admin {
        rows.push(vec![button("👇 منوی ادمین 👇", KeyData::Unknown), button("کاربر 🔍", KeyData::Ag(AdminGlobal::KarbarFind))]);
        rows.push(vec![button("جوین اجباری", KeyData::Ag(AdminGlobal::ForceJoinList)), button("ارسال همهگانی", KeyData::Ag(AdminGlobal::SendAll)), button("تنظیمات", KeyData::Ag(AdminGlobal::Settings))]);
        rows.push(vec![button("لیست پروکسی", KeyData::Ag(AdminGlobal::ProxyList)), button("لیست v2ray", KeyData::Ag(AdminGlobal::V2rayList)), button("لیست تبلیغات", KeyData::Ag(AdminGlobal::FlyerList))]);
    }
    rows
}

impl KeyData {
    /// The button back to the menu.
    pub fn main_menu_btn() -> (b: Button)
        ensures
            b.label@ == "💼 منو"@ && b.key == KeyData::Menu,
    {
        button("💼 منو", KeyData::Menu)
    }

    /// The button to the donation info.
    pub fn donate_btn() -> (b: Button)
        ensures
            b.label@ == "حمایت مالی 💰"@ && b.key == KeyData::Donate,
    {
        button("حمایت مالی 💰", KeyData::Donate)
    }

    /// The keyboard under most replies: menu and donation info.
    pub fn main_menu() -> (rows: Vec<Vec<Button>>)
        ensures
            layout_view(rows@) =~~= seq![seq![("💼 منو"@, KeyData::Menu), ("حمایت مالی 💰"@, KeyData::Donate)]],
    {
        vec![vec![KeyData::main_menu_btn(), KeyData::donate_btn()]]
    }
}

} // verus!
