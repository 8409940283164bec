use tonel::book::{Book, BookItem};
use tonel::broadcast::{Broadcast, Step};
use tonel::error::Worm;
use tonel::flyer::Flyer;
use tonel::proxy::Proxy;
use tonel::state::KeyData;
use tonel::text::{escape, lines};
use tonel::v2ray::{Moderation, V2ray};

fn relay(up: i64, dn: i64) -> Proxy {
    Proxy {
        id: 3,
        port: String::from("443"),
        server: String::from("1.2.3.4"),
        secret: String::from("ee00"),
        up_votes: up,
        dn_votes: dn,
        disabled: false,
    }
}

fn tunnel(up: i64, dn: i64) -> V2ray {
    V2ray {
        id: 8,
        label: String::from("host.example"),
        link: String::from("vless://x@host.example:443"),
        up_votes: up,
        dn_votes: dn,
        disabled: false,
    }
}

#[test]
fn relay_over_hundred_mostly_down_is_disabled() {
    let mut p = relay(20, 84);
    assert!(p.vote_add(false, -1).is_ok());
    assert_eq!((p.up_votes, p.dn_votes), (20, 85));
    assert!(p.disabled);
}

#[test]
fn relay_at_exactly_hundred_is_untouched() {
    let mut p = relay(20, 79);
    assert!(p.vote_add(false, -1).is_ok());
    assert_eq!(p.up_votes + p.dn_votes, 100);
    assert!(!p.disabled);
}

#[test]
fn tunnel_at_twenty_six_mostly_down_is_deleted() {
    let mut v = tunnel(5, 20);
    assert_eq!(v.vote_add(false, -1), Ok(Moderation::Delete));
    let mut p = relay(5, 20);
    assert!(p.vote_add(false, -1).is_ok());
    assert!(!p.disabled);
    let mut kept = tunnel(15, 10);
    assert_eq!(kept.vote_add(false, 1), Ok(Moderation::Keep));
    assert_eq!(kept.up_votes, 16);
}

#[test]
fn second_vote_is_refused_without_change() {
    let mut p = relay(3, 4);
    assert!(p.vote_add(false, 1).is_ok());
    assert!(matches!(p.vote_add(true, 1), Err(Worm::AlreadyExists)));
    assert_eq!((p.up_votes, p.dn_votes), (4, 4));
    let mut v = tunnel(0, 0);
    assert_eq!(v.vote_add(true, -1), Err(Worm::AlreadyExists));
    assert_eq!((v.up_votes, v.dn_votes), (0, 0));
}

#[test]
fn vote_percentages_with_zero_guard() {
    assert_eq!(relay(0, 0).up_dn_pct(), (0, 0));
    assert_eq!(relay(20, 85).up_dn_pct(), (20, 100));
    assert_eq!(relay(50, 50).up_dn_pct(), (50, 50));
    assert_eq!(tunnel(1, 2).up_dn_pct(), (33, 100));
    assert_eq!(tunnel(0, 7).up_dn_pct(), (0, 100));
}

#[test]
fn relay_link_round_trip() {
    let p = Proxy::from_link("join https://t.me/proxy?server=1.2.3.4&port=443&secret=ee00").unwrap();
    assert_eq!(p.server, "1.2.3.4");
    assert_eq!(p.port, "443");
    assert_eq!(p.secret, "ee00");
    assert_eq!(p.id, 0);
    assert_eq!(p.url(), "https://t.me/proxy?server=1.2.3.4&port=443&secret=ee00");
    let q = Proxy::from_link(&p.url()).unwrap();
    assert_eq!((q.server, q.port, q.secret), (p.server, p.port, p.secret));
}

#[test]
fn relay_link_later_pairs_win_and_junk_is_skipped() {
    let p = Proxy::from_link("t.me/proxy?server=a&x&port=1&server=b&secret=s=t&other=9").unwrap();
    assert_eq!(p.server, "b");
    assert_eq!(p.port, "1");
    assert_eq!(p.secret, "s=t");
}

#[test]
fn relay_link_rejections() {
    assert!(Proxy::from_link("https://example.com/?server=a&port=1&secret=s").is_none());
    assert!(Proxy::from_link("t.me/proxy?server=a&port=1").is_none());
    assert!(Proxy::from_link("t.me/proxy?server=&port=1&secret=s").is_none());
    assert!(Proxy::from_link("").is_none());
}

#[test]
fn relay_deliverable_link() {
    assert!(relay(0, 0).deliverable());
    let mut bad = relay(0, 0);
    bad.server = String::from("a b");
    bad.port = String::from("x");
    let _ = bad.deliverable();
}

#[test]
fn tunnel_from_link_labels() {
    let v = V2ray::from_link("  vless://uuid@node.example.org:443?type=ws#name \n").unwrap();
    assert_eq!(v.label, "node.example.org");
    assert_eq!(v.link, "vless://uuid@node.example.org:443?type=ws#name");
    let w = V2ray::from_link("this is not a url but a long line of text").unwrap();
    assert_eq!(w.label, "this is not a url but a long lin");
    let s = V2ray::from_link("short").unwrap();
    assert_eq!(s.label, "short");
    assert!(V2ray::from_link("   \t ").is_none());
    let n = V2ray::from_link("mailto:someone").unwrap();
    assert_eq!(n.label, "<no host>");
}

#[test]
fn ad_view_cap_disables() {
    let mut f = Flyer::new(String::from("Sponsor"), 77);
    assert_eq!(f.max_views, -1);
    f.set_max_views(5);
    f.views = 4;
    assert!(f.eligible());
    f.delivered(true);
    assert_eq!(f.views, 5);
    assert!(f.disabled);
    assert!(!f.eligible());
    let mut g = Flyer::new(String::from("S"), 1);
    g.max_views = 5;
    g.views = 5;
    g.settle();
    assert!(g.disabled);
}

#[test]
fn uncapped_ad_is_never_auto_disabled() {
    let mut f = Flyer::new(String::from("Sponsor"), 77);
    f.views = 1_000_000;
    f.settle();
    assert!(!f.disabled);
    f.delivered(true);
    assert!(!f.disabled);
    assert_eq!(f.views, 1_000_001);
    f.set_max_views(-30);
    assert_eq!(f.max_views, -1);
}

#[test]
fn failed_ad_delivery_disables() {
    let mut f = Flyer::new(String::from("Sponsor"), 77);
    f.delivered(false);
    assert!(f.disabled);
    assert_eq!(f.views, 0);
}

#[test]
fn ad_link_button_check() {
    let mut f = Flyer::new(String::from("Go"), 1);
    f.link = Some(String::from("https://example.com/x"));
    assert!(f.eligible_link());
    assert!(f.check_link(true));
    assert!(f.link.is_some());
    assert!(!f.check_link(false));
    assert!(f.link.is_none());
}

#[test]
fn broadcast_counts_successes_and_blocks_failures() {
    let mut b = Broadcast::new();
    assert_eq!(b.next_step(), Step::Fetch(None));
    assert_eq!(b.page_done(&vec![true, false, true], 30), vec![1]);
    assert_eq!(b.next_step(), Step::Fetch(Some(30)));
    assert_eq!(b.page_done(&vec![false, true, false], 77), vec![0, 2]);
    assert_eq!(b.page_done(&vec![], 0), Vec::<usize>::new());
    assert_eq!(b.next_step(), Step::Finish(3));
}

#[test]
fn broadcast_stops_on_fetch_error() {
    let mut b = Broadcast::new();
    b.page_done(&vec![true; 100], 100);
    b.fetch_failed();
    assert_eq!(b.next_step(), Step::Finish(100));
}

#[test]
fn html_escape() {
    assert_eq!(escape("a<b>&c\"d"), "a&lt;b&gt;&amp;c\"d");
    assert_eq!(escape(""), "");
}

#[test]
fn non_empty_lines() {
    let l = lines("a\n\nb c\n");
    assert_eq!(l, vec![String::from("a"), String::from("b c")]);
    assert!(lines("").is_empty());
}

#[test]
fn book_message_and_keyboard() {
    let items: Vec<Flyer> = (1..=6)
        .map(|i| {
            let mut f = Flyer::new(format!("ad{i}"), i);
            f.id = i * 10;
            f
        })
        .collect();
    let book = Book::new(items, 2, 5);
    assert_eq!(book.items[0].0, 10);
    let msg = book.message();
    assert!(msg.starts_with("10. <b>ad1</b> 0/-1 \n20. "));
    assert_eq!(msg.lines().count(), 6);
    let kb = book.keyboard();
    assert_eq!(kb.len(), 3);
    assert_eq!(kb[0][0].label, "5");
    assert_eq!(kb[0][1].key, KeyData::BookPagination(3));
    assert_eq!(kb[0][2].key, KeyData::BookAdd);
    assert_eq!(kb[0][3].key, KeyData::BookPagination(1));
    assert_eq!(kb[0][4].key, KeyData::BookPagination(0));
    assert_eq!(kb[1].len(), 4);
    assert_eq!(kb[2].len(), 2);
    assert_eq!(kb[2][1].key, KeyData::BookItem(2, 60));
    assert_eq!(kb[2][1].label, "60");
}

#[test]
fn book_keyboard_at_the_edges() {
    let book: Book<Flyer> = Book::new(vec![], 0, 0);
    let kb = book.keyboard();
    assert_eq!(kb.len(), 1);
    assert_eq!(kb[0][1].key, KeyData::BookPagination(0));
    assert_eq!(kb[0][3].key, KeyData::BookPagination(0));
}

#[test]
fn relay_and_tunnel_lines() {
    let p = relay(20, 85);
    assert_eq!(
        p.text(),
        "<a href=\"https://t.me/proxy?server=1.2.3.4&amp;port=443&amp;secret=ee00\">1.2.3.4:443</a> 20% (20) 👍 | 100% (85) 👎 (105) "
    );
    let mut v = tunnel(1, 1);
    v.disabled = true;
    assert_eq!(v.text(), "host.example 50% (1) 👍 | 50% (1) 👎 (2) ❌");
    assert_eq!(v.id(), 8);
}

#[test]
fn ad_link_validation_through_the_parser() {
    let mut f = Flyer::new(String::from("Go"), 1);
    f.link = Some(String::from("https://example.com/x"));
    assert!(f.link_button());
    assert_eq!(f.link.as_deref(), Some("https://example.com/x"));
    f.link = Some(String::from("not a url"));
    assert!(!f.link_button());
    assert!(f.link.is_none());
}

#[test]
fn admin_cards() {
    let p = relay(1, 3);
    let c = p.card();
    assert!(c.starts_with("<b>Proxy</b>:\n\nserver: 1.2.3.4\nport: 443\nsecret: <code>ee00</code>"));
    assert!(c.ends_with("up votes: 25% (1) 👍\ndown votes: 100% (3) 👎\nفعال: ✅"));
    let mut v = tunnel(0, 0);
    v.disabled = true;
    assert!(v.card().ends_with("up votes: 0% (0) 👍\ndown votes: 0% (0) 👎\nفعال: ❌"));
    let mut f = Flyer::new(String::from("Ad"), 5);
    f.views = 3;
    assert_eq!(f.card(), "Ad 👆👆👆\nبازدید: 3\nحداکثر بازدید: -1\nفعال: ✅\nlink: ---");
}

#[test]
fn refused_vote_needs_no_counter_bound() {
    let mut p = relay(i64::MAX, 0);
    assert!(matches!(p.vote_add(true, 1), Err(Worm::AlreadyExists)));
    assert_eq!(p.up_votes, i64::MAX);
    let mut v = tunnel(-3, 0);
    assert_eq!(v.vote_add(true, -1), Err(Worm::AlreadyExists));
    assert_eq!(v.up_votes, -3);
}

#[test]
fn ad_edits() {
    let mut f = Flyer::new(String::from("Ad"), 5);
    f.link = Some(String::from("https://example.com"));
    f.views = 9;
    f.toggle_disabled();
    assert!(f.disabled);
    f.toggle_disabled();
    assert!(!f.disabled);
    f.reset_views();
    assert_eq!(f.views, 0);
    f.drop_link();
    assert!(f.link.is_none());
    assert_eq!(f.label, "Ad");
}
