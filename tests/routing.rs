use tonel::logger::{MasterLogger, LEVEL_DEBUG, LEVEL_INFO, LEVEL_TRACE};
use tonel::config::{bot_url, invite_url};
use tonel::session::{admin_input, find_query, start_param, FindQuery, Input, Picker, SettingField};
use tonel::state::{command, route_text, AdminGlobal, KeyData, Layer, State, TextRoute, GET_PROXY, MENU};

#[test]
fn global_actions_come_first() {
    assert_eq!(KeyData::GetProxy.route(false, &State::Menu), Layer::Global);
    assert_eq!(KeyData::ProxyVote(4, -1).route(true, &State::AdminProxyList), Layer::Global);
}

#[test]
fn admin_actions_need_an_admin() {
    let k = KeyData::Ag(AdminGlobal::ProxyDel(1, 9));
    assert_eq!(k.route(true, &State::Menu), Layer::Admin(AdminGlobal::ProxyDel(1, 9)));
    assert_eq!(k.route(false, &State::Menu), Layer::Dropped);
}

#[test]
fn list_actions_follow_the_browsed_list() {
    assert_eq!(KeyData::BookPagination(2).route(true, &State::AdminProxyList), Layer::ProxyList);
    assert_eq!(KeyData::BookDeleteAll.route(true, &State::AdminProxyList), Layer::Dropped);
    assert_eq!(KeyData::BookDeleteAll.route(true, &State::AdminV2rayList), Layer::V2rayList);
    assert_eq!(KeyData::BookItem(0, 3).route(true, &State::AdminFlyerList), Layer::FlyerList);
    assert_eq!(KeyData::BookItem(0, 3).route(false, &State::AdminFlyerList), Layer::Dropped);
    assert_eq!(KeyData::BookAdd.route(true, &State::Menu), Layer::Dropped);
    assert_eq!(KeyData::Unknown.route(true, &State::AdminFlyerList), Layer::Dropped);
}

#[test]
fn text_commands_and_admin_input() {
    assert_eq!(command(GET_PROXY), KeyData::GetProxy);
    assert_eq!(command(MENU), KeyData::Menu);
    assert_eq!(command("hello"), KeyData::Unknown);
    assert_eq!(route_text(MENU, true, &State::AdminSetVipCost), TextRoute::AdminInput);
    assert_eq!(route_text(MENU, false, &State::AdminSetVipCost), TextRoute::Command(KeyData::Menu));
    assert_eq!(route_text(MENU, true, &State::AdminProxyList), TextRoute::Command(KeyData::Menu));
}

#[test]
fn numeric_admin_input() {
    assert!(matches!(
        admin_input(&State::AdminSetVipCost, Some("250")),
        Input::SetSetting(SettingField::VipCost, 250)
    ));
    assert!(matches!(admin_input(&State::AdminSetProxyCost, Some("12a")), Input::NotANumber));
    assert!(matches!(admin_input(&State::AdminSetProxyCost, None), Input::NoText));
    assert!(matches!(
        admin_input(&State::AdminKarbarSetPoints(5), Some("-40")),
        Input::SetKarbarPoints(5, -40)
    ));
    assert!(matches!(
        admin_input(&State::AdminFlyerSetMaxView(3), Some("-9")),
        Input::SetFlyerMaxViews(3, -1)
    ));
}

#[test]
fn text_admin_input_and_chained_ad_states() {
    match admin_input(&State::AdminFlyerAdd, Some("Sponsor")) {
        Input::FlyerLabel(l) => assert_eq!(l, "Sponsor"),
        _ => panic!("expected a label"),
    }
    match admin_input(&State::AdminFlyerSendMessage { label: String::from("Sponsor") }, None) {
        Input::FlyerMessage(l) => assert_eq!(l, "Sponsor"),
        _ => panic!("expected the ad message"),
    }
    assert!(matches!(admin_input(&State::AdminSendAll, None), Input::SendAll));
    assert!(matches!(admin_input(&State::Menu, Some("x")), Input::Ignored));
}

#[test]
fn start_parameters() {
    let s = start_param("inv-abcDEF1");
    assert_eq!(s.code, "abcDEF1");
    assert!(!s.donate);
    let d = start_param("donate");
    assert_eq!(d.code, "");
    assert!(d.donate);
    let x = start_param("x");
    assert_eq!(x.code, "");
    assert!(!x.donate);
}

#[test]
fn find_queries() {
    assert!(matches!(find_query(Some(9), Some("@x")), FindQuery::ById(9)));
    assert!(matches!(find_query(None, Some("  12345 ")), FindQuery::ById(12345)));
    match find_query(None, Some(" @sara ")) {
        FindQuery::ByUsername(u) => assert_eq!(u, "sara"),
        _ => panic!("expected a username"),
    }
    assert!(matches!(find_query(None, Some("-5")), FindQuery::Nothing));
    assert!(matches!(find_query(None, None), FindQuery::Nothing));
}

#[test]
fn picker_allows_six_fetches() {
    let mut p = Picker::new();
    let mut n = 0;
    while p.attempt() {
        n += 1;
    }
    assert_eq!(n, 6);
    assert!(!p.attempt());
}

#[test]
fn deep_links() {
    assert_eq!(bot_url("tonelbot", "x"), "https://t.me/tonelbot?start=x");
    assert_eq!(invite_url("tonelbot", "abc1234"), "https://t.me/tonelbot?start=inv-abc1234");
}

#[test]
fn menus() {
    let user = tonel::state::menu(false);
    assert_eq!(user.len(), 4);
    assert_eq!(user[0][0].key, KeyData::GetFreePoints);
    assert_eq!(user[1][1].key, KeyData::GetV2ray);
    assert_eq!(user[2][1].label, "حمایت مالی 💰");
    let admin = tonel::state::menu(true);
    assert_eq!(admin.len(), 7);
    assert_eq!(admin[6][2].key, KeyData::Ag(AdminGlobal::FlyerList));
    let mm = KeyData::main_menu();
    assert_eq!(mm.len(), 1);
    assert_eq!(mm[0][0].key, KeyData::Menu);
    assert_eq!(mm[0][1].key, KeyData::Donate);
}

#[test]
fn log_filter() {
    let l = MasterLogger;
    assert!(l.enabled("tonel::session", LEVEL_INFO));
    assert!(l.enabled("tonel", LEVEL_DEBUG));
    assert!(!l.enabled("tonel", LEVEL_TRACE));
    assert!(!l.enabled("hyper_util::client", LEVEL_INFO));
    assert!(l.enabled("hyper", LEVEL_INFO));
}
