use tonel::karbar::{Karbar, Resolution, Reward, Wait};
use tonel::error::Worm;
use tonel::settings::Settings;
use tonel::session::Charge;
use tonel::utils::{cut_off, invite_code_of, random_code};
use tonel::session::SettingField;

fn account(points: i64) -> Karbar {
    Karbar {
        tid: 42,
        fullname: String::from("Sara"),
        username: Some(String::from("sara")),
        banned: false,
        created_at: 10,
        updated_at: 10,
        points,
        last_daily_point_at: 0,
        invite_code: String::from("abcDEF123"),
        blocked: false,
        last_request: 0,
        price_stack: 0,
    }
}

const NOW: i64 = 1_700_000_000;

#[test]
fn escalating_costs_of_nine_requests() {
    let mut k = account(0);
    let mut costs = Vec::new();
    for i in 0..9 {
        costs.push(k.calc_cost_at(100, NOW + i * 60));
    }
    assert_eq!(costs, vec![100, 100, 103, 110, 130, 160, 210, 270, 400]);
    assert_eq!(k.price_stack, 9);
    assert_eq!(k.last_request, NOW + 8 * 60);
}

#[test]
fn tenth_request_scales_with_count() {
    let mut k = account(0);
    for i in 0..9 {
        k.calc_cost_at(100, NOW + i);
    }
    assert_eq!(k.calc_cost_at(100, NOW + 10), 1100);
    assert_eq!(k.calc_cost_at(7, NOW + 11), 7 + 77);
}

#[test]
fn window_resets_after_a_day() {
    let mut k = account(0);
    for i in 0..5 {
        k.calc_cost_at(100, NOW + i);
    }
    let last = k.last_request;
    assert_eq!(k.calc_cost_at(100, last + 86401), 100);
    assert_eq!(k.price_stack, 1);
}

#[test]
fn window_holds_at_exactly_a_day() {
    let mut k = account(0);
    k.calc_cost_at(100, NOW);
    assert_eq!(k.calc_cost_at(100, NOW + 86400), 100);
    assert_eq!(k.price_stack, 2);
    assert_eq!(k.calc_cost_at(100, NOW + 86400), 103);
}

#[test]
fn negative_base_truncates_toward_zero() {
    let mut k = account(0);
    k.calc_cost_at(-100, NOW);
    k.calc_cost_at(-100, NOW);
    assert_eq!(k.calc_cost_at(-100, NOW), -103);
}

#[test]
fn calc_cost_uses_the_clock() {
    let mut k = account(0);
    assert_eq!(k.calc_cost(100), 100);
    assert_eq!(k.price_stack, 1);
    assert!(k.last_request > 0);
}

#[test]
fn charge_reports_insufficient_balance() {
    let mut k = account(50);
    assert_eq!(k.charge(100, NOW), Charge::Insufficient(100));
    assert_eq!(k.points, 50);
    let mut rich = account(500);
    assert_eq!(rich.charge(100, NOW), Charge::Affordable(100));
    rich.spend(100);
    assert_eq!(rich.points, 400);
}

#[test]
fn reward_too_early_then_credited() {
    let mut k = account(10);
    k.last_daily_point_at = NOW;
    assert_eq!(k.claim_reward(NOW + 100, 43200, 100), Reward::TooEarly(Wait::Hours(11)));
    assert_eq!(k.points, 10);
    assert_eq!(k.claim_reward(NOW + 43200 - 120, 43200, 100), Reward::TooEarly(Wait::Minutes(2)));
    assert_eq!(k.claim_reward(NOW + 43200 - 30, 43200, 100), Reward::TooEarly(Wait::Seconds(30)));
    assert_eq!(k.claim_reward(NOW + 43200, 43200, 100), Reward::Credited(110));
    assert_eq!(k.last_daily_point_at, NOW + 43200);
}

#[test]
fn wait_units() {
    assert_eq!(tonel::karbar::wait_parts(3601), Wait::Hours(1));
    assert_eq!(tonel::karbar::wait_parts(3600), Wait::Minutes(60));
    assert_eq!(tonel::karbar::wait_parts(61), Wait::Minutes(1));
    assert_eq!(tonel::karbar::wait_parts(60), Wait::Seconds(60));
}

#[test]
fn invite_credits_the_inviter_once() {
    let inviter = account(10);
    let credited = Karbar::invited("abcDEF123", Some(inviter), 100).unwrap();
    assert_eq!(credited.points, 110);
    assert_eq!(credited.tid, 42);
    assert!(Karbar::invited("", Some(account(10)), 100).is_none());
    assert!(Karbar::invited("unknown", None, 100).is_none());
}

#[test]
fn resolve_creates_refreshes_and_refuses() {
    let r = Karbar::resolve(None, 7, String::from("New"), None, NOW, String::from("zzzzzzz"));
    match r {
        Ok(Resolution::Create(k)) => {
            assert_eq!(k.tid, 7);
            assert_eq!(k.points, 0);
            assert_eq!(k.created_at, NOW);
            assert_eq!(k.invite_code, "zzzzzzz");
        }
        _ => panic!("expected a new account"),
    }
    let mut old = account(5);
    old.blocked = true;
    match Karbar::resolve(Some(old), 42, String::from("Sara B"), None, NOW, String::new()) {
        Ok(Resolution::Update(k)) => {
            assert!(!k.blocked);
            assert_eq!(k.fullname, "Sara B");
            assert_eq!(k.username, None);
            assert_eq!(k.updated_at, NOW);
            assert_eq!(k.points, 5);
        }
        _ => panic!("expected an update"),
    }
    let mut banned = account(5);
    banned.banned = true;
    assert!(matches!(
        Karbar::resolve(Some(banned), 42, String::new(), None, NOW, String::new()),
        Err(Worm::Banned)
    ));
}

#[test]
fn admin_membership() {
    let k = account(0);
    assert!(k.is_admin(&vec![1, 42]));
    assert!(!k.is_admin(&vec![1, 2]));
    assert!(!k.is_admin(&vec![]));
}

#[test]
fn invite_codes_are_well_formed() {
    for _ in 0..50 {
        let c = random_code();
        assert!(c.chars().count() >= 7 && c.chars().count() <= 17);
        assert!(c.chars().all(|ch| ch.is_ascii_alphanumeric()));
    }
}

#[test]
fn cut_off_respects_char_boundaries() {
    let mut s = String::from("héllo");
    cut_off(&mut s, 2);
    assert_eq!(s, "h");
    let mut t = String::from("héllo");
    cut_off(&mut t, 3);
    assert_eq!(t, "hé");
    let mut u = String::from("abc");
    cut_off(&mut u, 10);
    assert_eq!(u, "abc");
    let mut e = String::from("abc");
    cut_off(&mut e, 0);
    assert_eq!(e, "");
}

#[test]
fn settings_defaults_and_vip_cap() {
    let mut s = Settings::default();
    assert_eq!(s.invite_points, 100);
    assert_eq!(s.vip_max_views, 100);
    s.vip_msg = Some(9);
    s.vip_views = 101;
    s.settle();
    assert_eq!(s.vip_msg, None);
    assert_eq!(s.vip_views, 0);
    let mut t = Settings::default();
    t.vip_msg = Some(9);
    t.vip_views = 100;
    t.settle();
    assert_eq!(t.vip_msg, Some(9));
}

#[test]
fn channel_announcement_rate_limit() {
    let mut s = Settings::default();
    s.ch_last_sent = NOW;
    assert!(!s.announce_due(NOW + 3 * 3600 - 1));
    assert_eq!(s.ch_last_sent, NOW);
    assert!(s.announce_due(NOW + 3 * 3600));
    assert_eq!(s.ch_last_sent, NOW + 3 * 3600);
}

#[test]
fn routine_errors_are_not_reported() {
    assert!(!Worm::Blocked.reported());
    assert!(!Worm::Banned.reported());
    assert!(!Worm::MessageToDeleteNotFound.reported());
    assert!(Worm::Sqlx.reported());
    assert!(Worm::NotFound.reported());
}

#[test]
fn checked_charge_refuses_what_does_not_fit() {
    let mut k = account(0);
    k.price_stack = 20;
    k.last_request = NOW;
    assert_eq!(k.charge_checked(i64::MAX / 2, NOW), None);
    assert_eq!(k.price_stack, 20);
    assert_eq!(k.charge_checked(100, NOW), Some(Charge::Insufficient(100 + 100 * 21)));
    assert_eq!(k.price_stack, 21);
    assert_eq!(tonel::karbar::escalated(100, 3), Some(103));
    assert_eq!(tonel::karbar::escalated(i64::MAX, 2), None);
    assert_eq!(tonel::karbar::escalated(0, i64::MAX), Some(0));
}

#[test]
fn vip_views_and_star_prices() {
    let mut s = Settings::default();
    s.vip_msg = Some(4);
    s.vip_views = 99;
    s.vip_shown();
    assert_eq!(s.vip_views, 100);
    assert_eq!(s.vip_msg, Some(4));
    s.vip_shown();
    assert_eq!(s.vip_views, 0);
    assert_eq!(s.vip_msg, None);
    assert_eq!(s.star_points(10), Some(20));
    s.star_point_price = i64::MAX;
    assert_eq!(s.star_points(2), None);
}

#[test]
fn account_card() {
    let k = account(12);
    let c = k.card();
    assert!(c.starts_with("نام: Sara\nامتیاز: 12\nمسدود است: ❌"));
    assert!(c.ends_with("id: 42\nusername: sara\ninvite code: abcDEF123"));
}

#[test]
fn invite_code_from_picks() {
    assert_eq!(invite_code_of(7, &vec![0, 25, 26, 51, 52, 61, 1]), "azAZ09b");
}

#[test]
fn ban_toggle_refuses_self() {
    let mut k = account(0);
    assert!(!k.toggle_ban(42));
    assert!(!k.banned);
    assert!(k.toggle_ban(1));
    assert!(k.banned);
    assert!(k.toggle_ban(1));
    assert!(!k.banned);
}

#[test]
fn settings_fields() {
    let mut s = Settings::default();
    s.set_field(SettingField::ProxyCost, 250);
    s.set_field(SettingField::FreePointDelay, 3600);
    assert_eq!(s.proxy_cost, 250);
    assert_eq!(s.free_point_delay, 3600);
    assert_eq!(s.vip_cost, 200);
}

#[test]
fn malformed_window_is_not_charged() {
    let mut k = account(500);
    k.price_stack = -4;
    assert_eq!(k.charge_checked(100, NOW), None);
    assert_eq!(k.price_stack, -4);
    assert_eq!(k.last_request, 0);
}
