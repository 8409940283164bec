//! Paginated lists of records: their message lines and their keyboards.

use vstd::prelude::*;
use crate::flyer::Flyer;
use crate::karbar::Karbar;
use crate::proxy::{proxy_url, Proxy};
use crate::state::KeyData;
use crate::text::{append, escape, escaped, int_text, int_text_of};
use crate::v2ray::V2ray;
use crate::votes::{counts_ok, pct_of, up_dn_pct};

verus! {

/// A record that can be listed in a paginated book.
pub trait BookItem {
    spec fn spec_id(&self) -> i64;

    spec fn spec_text(&self) -> Seq<char>;

    /// The record can be shown.
    spec fn showable(&self) -> bool;

    fn id(&self) -> (r: i64)
        ensures
            r == self.spec_id(),
    ;

    /// One line describing the record, in the chat's HTML.
    fn text(&self) -> (r: String)
        requires
            self.showable(),
        ensures
            r@ == self.spec_text(),
    ;
}

/// A button: its label and the action it carries.
#[derive(Debug, Clone)]
pub struct Button {
    pub label: String,
    pub key: KeyData,
}

/// The labels and actions of a keyboard.
pub open spec fn layout_view(rows: Seq<Vec<Button>>) -> Seq<Seq<(Seq<char>, KeyData)>> {
    rows.map_values(|r: Vec<Button>| r@.map_values(|b: Button| (b.label@, b.key)))
}

/// One page of a list of records, with its id and position.
pub struct Book<T: BookItem> {
    pub items: Vec<(i64, T)>,
    pub page: u32,
    pub max_page: u32,
}

/// The message of a page: one line `id. text` per record.
pub open spec fn book_text<T: BookItem>(items: Seq<(i64, T)>) -> Seq<char>
    decreases items.len(),
{
    if items.len() == 0 {
        seq![]
    } else {
        book_text(items.drop_last()) + int_text_of(items.last().0 as int) + ". "@ + items.last().1.spec_text()
            + "\n"@
    }
}

/// The page after `page`, not past the last one.
pub open spec fn next_page(page: u32, max_page: u32) -> u32 {
    if page < max_page {
        (page + 1) as u32
    } else {
        max_page
    }
}

/// The page before `page`, not before the first one.
pub open spec fn past_page(page: u32) -> u32 {
    if page > 0 {
        (page - 1) as u32
    } else {
        0
    }
}

/// Item buttons per row.
pub const ROW_LEN: usize = 4;

impl<T: BookItem> Book<T> {
    /// A page of `items`, each listed under its id.
    pub fn new(items: Vec<T>, page: u32, max_page: u32) -> (r: Book<T>)
        ensures
            r.page == page && r.max_page == max_page,
            r.items@.len() == items@.len(),
            forall|i: int| 0 <= i < items@.len() ==> #[trigger] r.items@[i] == (items@[i].spec_id(), items@[i]),
    {
        let mut out: Vec<(i64, T)> = Vec::new();
        let mut rest = items;
        let ghost all = rest@;
        while rest.len() > 0
            invariant
                out@.len() + rest@.len() == all.len(),
                rest@ == all.subrange(out@.len() as int, all.len() as int),
                forall|i: int| 0 <= i < out@.len() ==> #[trigger] out@[i] == (all[i].spec_id(), all[i]),
            decreases rest@.len(),
        {
            let item = rest.remove(0);
            let id = item.id();
            out.push((id, item));
        }
        Book { items: out, page, max_page }
    }

    /// Whether every listed record can be shown.
    pub open spec fn showable(&self) -> bool {
        forall|i: int| 0 <= i < self.items@.len() ==> (#[trigger] self.items@[i]).1.showable()
    }

    /// The page's message: one line `id. text` per record.
    pub fn message(&self) -> (r: String)
        requires
            self.showable(),
        ensures
            r@ == book_text(self.items@),
    {
        let mut out = String::new();
        let mut i: usize = 0;
        while i < self.items.len()
            invariant
                i <= self.items@.len(),
                self.showable(),
                out@ == book_text(self.items@.subrange(0, i as int)),
            decreases self.items@.len() - i,
        {
            let (id, item) = (&self.items[i].0, &self.items[i].1);
            let n = int_text(*id);
            append(&mut out, n.as_str());
            append(&mut out, ". ");
            let t = item.text();
            append(&mut out, t.as_str());
            append(&mut out, "\n");
            assert(self.items@.subrange(0, i + 1).drop_last() =~= self.items@.subrange(0, i as int));
            i = i + 1;
        }
        assert(self.items@.subrange(0, self.items@.len() as int) =~= self.items@);
        out
    }

    /// The page's buttons: first the navigation row (last page, next, add,
    /// previous, first page), then the records' ids, four to a row.
    pub fn keyboard(&self) -> (rows: Vec<Vec<Button>>)
        ensures
            rows@.len() >= 1,
            rows@[0]@.len() == 5,
            rows@[0]@[0].key == KeyData::BookPagination(self.max_page),
            rows@[0]@[0].label@ == int_text_of(self.max_page as int),
            rows@[0]@[1].key == KeyData::BookPagination(next_page(self.page, self.max_page)),
            rows@[0]@[1].label@ == int_text_of(next_page(self.page, self.max_page) as int),
            rows@[0]@[2].key == KeyData::BookAdd,
            rows@[0]@[2].label@ == "add"@,
            rows@[0]@[3].key == KeyData::BookPagination(past_page(self.page)),
            rows@[0]@[3].label@ == int_text_of(past_page(self.page) as int),
            rows@[0]@[4].key == KeyData::BookPagination(0),
            rows@[0]@[4].label@ == int_text_of(0),
            rows@.len() == 1 + (self.items@.len() + 3) / 4,
            forall|r: int| 1 <= r < rows@.len() ==> (#[trigger] rows@[r])@.len() == if self.items@.len() - (r - 1)
                * 4 >= 4 {
                4
            } else {
                self.items@.len() - (r - 1) * 4
            },
            forall|i: int|
                0 <= i < self.items@.len() ==> (#[trigger] rows@[1 + i / 4]@[i % 4]).key == KeyData::BookItem(
                    self.page,
                    self.items@[i].0,
                ) && rows@[1 + i / 4]@[i % 4].label@ == int_text_of(self.items@[i].0 as int),
    {
        let next = if self.page < self.max_page {
            self.page + 1
        } else {
            self.max_page
        };
        let past = if self.page > 0 {
            self.page - 1
        } else {
            0
        };
        let mut layout: Vec<Vec<Button>> = Vec::new();
        let mut nav: Vec<Button> = Vec::new();
        nav.push(Button { label: int_text(self.max_page as i64), key: KeyData::BookPagination(self.max_page) });
        nav.push(Button { label: int_text(next as i64), key: KeyData::BookPagination(next) });
        nav.push(Button { label: "add".to_owned(), key: KeyData::BookAdd });
        nav.push(Button { label: int_text(past as i64), key: KeyData::BookPagination(past) });
        nav.push(Button { label: int_text(0), key: KeyData::BookPagination(0) });
        layout.push(nav);
        let n = self.items.len();
        let mut start: usize = 0;
        let ghost mut r: int = 0;
        while start < n
            invariant
                n == self.items@.len(),
                start <= n,
                r >= 0,
                start < n ==> start == 4 * r,
                start == n ==> (n + 3) / 4 == r,
                layout@.len() == 1 + r,
                layout@[0]@.len() == 5,
                layout@[0]@[0].key == KeyData::BookPagination(self.max_page),
                layout@[0]@[0].label@ == int_text_of(self.max_page as int),
                layout@[0]@[1].key == KeyData::BookPagination(next_page(self.page, self.max_page)),
                layout@[0]@[1].label@ == int_text_of(next_page(self.page, self.max_page) as int),
                layout@[0]@[2].key == KeyData::BookAdd,
                layout@[0]@[2].label@ == "add"@,
                layout@[0]@[3].key == KeyData::BookPagination(past_page(self.page)),
                layout@[0]@[3].label@ == int_text_of(past_page(self.page) as int),
                layout@[0]@[4].key == KeyData::BookPagination(0),
                layout@[0]@[4].label@ == int_text_of(0),
                forall|q: int| 1 <= q < layout@.len() ==> (#[trigger] layout@[q])@.len() == if n - (q - 1) * 4 >= 4 {
                    4
                } else {
                    n - (q - 1) * 4
                },
                forall|i: int|
                    0 <= i < start ==> (#[trigger] layout@[1 + i / 4]@[i % 4]).key == KeyData::BookItem(
                        self.page,
                        self.items@[i].0,
                    ) && layout@[1 + i / 4]@[i % 4].label@ == int_text_of(self.items@[i].0 as int),
            decreases n - start,
        {
            let end = if n - start >= 4 {
                start + 4
            } else {
                n
            };
            let mut row: Vec<Button> = Vec::new();
            let mut j = start;
            while j < end
                invariant
                    start <= j <= end <= n,
                    n == self.items@.len(),
                    row@.len() == j - start,
                    forall|k: int|
                        0 <= k < j - start ==> (#[trigger] row@[k]).key == KeyData::BookItem(
                            self.page,
                            self.items@[start + k].0,
                        ) && row@[k].label@ == int_text_of(self.items@[start + k].0 as int),
                decreases end - j,
            {
                let id = self.items[j].0;
                row.push(Button { label: int_text(id), key: KeyData::BookItem(self.page, id) });
                j = j + 1;
            }
            let ghost before = layout@;
            layout.push(row);
            assert forall|i: int| 0 <= i < end implies (#[trigger] layout@[1 + i / 4]@[i % 4]).key
                == KeyData::BookItem(self.page, self.items@[i].0) && layout@[1 + i / 4]@[i % 4].label@
                == int_text_of(self.items@[i].0 as int) by {
                if i >= start {
                    assert(i / 4 == r && i % 4 == i - start) by (nonlinear_arith)
                        requires
                            start == 4 * r,
                            start <= i < start + 4,
                    ;
                } else {
                    assert(i / 4 < r && 0 <= i / 4) by (nonlinear_arith)
                        requires
                            start == 4 * r,
                            0 <= i < start,
                    ;
                    assert(layout@[1 + i / 4] == before[1 + i / 4]);
                }
            }
            proof {
                if end < n {
                    assert(end == 4 * (r + 1));
                } else {
                    assert((n + 3) / 4 == r + 1) by (nonlinear_arith)
                        requires
                            4 * r < n <= 4 * r + 4,
                    ;
                }
                r = r + 1;
            }
            start = end;
        }
        proof {
            if n == 0 {
                assert(r == 0);
            }
        }
        layout
    }
}

/// The mark of a disabled record.
pub open spec fn flag_text(disabled: bool) -> Seq<char> {
    if disabled {
        "❌"@
    } else {
        ""@
    }
}

/// Vote percentages and counts: `U% (u) 👍 | D% (d) 👎 (total) `.
pub open spec fn votes_text(up: i64, dn: i64) -> Seq<char> {
    int_text_of(pct_of(up + dn, up as int)) + "% ("@ + int_text_of(up as int) + ") 👍 | "@ + int_text_of(
        pct_of(up + dn, dn as int),
    ) + "% ("@ + int_text_of(dn as int) + ") 👎 ("@ + int_text_of(up + dn) + ") "@
}

pub open spec fn proxy_text(p: Proxy) -> Seq<char> {
    "<a href=\""@ + escaped(proxy_url(p.server@, p.port@, p.secret@)) + "\">"@ + p.server@ + ":"@ + p.port@
        + "</a> "@ + votes_text(p.up_votes, p.dn_votes) + flag_text(p.disabled)
}

pub open spec fn v2ray_text(v: V2ray) -> Seq<char> {
    v.label@ + " "@ + votes_text(v.up_votes, v.dn_votes) + flag_text(v.disabled)
}

pub open spec fn flyer_text(f: Flyer) -> Seq<char> {
    "<b>"@ + escaped(f.label@) + "</b> "@ + int_text_of(f.views as int) + "/"@ + int_text_of(f.max_views as int)
        + " "@ + flag_text(f.disabled)
}

fn push_flag(out: &mut String, disabled: bool)
    ensures
        final(out)@ == old(out)@ + flag_text(disabled),
{
    if disabled {
        append(out, "❌");
    } else {
        append(out, "");
    }
}

fn push_votes(out: &mut String, up: i64, dn: i64)
    requires
        counts_ok(up, dn),
    ensures
        final(out)@ == old(out)@ + votes_text(up, dn),
{
    let (upp, dnp) = up_dn_pct(up, dn);
    append(out, int_text(upp as i64).as_str());
    append(out, "% (");
    append(out, int_text(up).as_str());
    append(out, ") 👍 | ");
    append(out, int_text(dnp as i64).as_str());
    append(out, "% (");
    append(out, int_text(dn).as_str());
    append(out, ") 👎 (");
    append(out, int_text(up + dn).as_str());
    append(out, ") ");
    assert(final(out)@ =~= old(out)@ + votes_text(up, dn));
}

impl BookItem for Proxy {
    open spec fn spec_id(&self) -> i64 {
        self.id
    }

    open spec fn spec_text(&self) -> Seq<char> {
        proxy_text(*self)
    }

    open spec fn showable(&self) -> bool {
        self.wf()
    }

    fn id(&self) -> (r: i64) {
        self.id
    }

    fn text(&self) -> (r: String) {
        let mut out = "<a href=\"".to_owned();
        append(&mut out, escape(self.url().as_str()).as_str());
        append(&mut out, "\">");
        append(&mut out, self.server.as_str());
        append(&mut out, ":");
        append(&mut out, self.port.as_str());
        append(&mut out, "</a> ");
        push_votes(&mut out, self.up_votes, self.dn_votes);
        push_flag(&mut out, self.disabled);
        assert(out@ =~= proxy_text(*self));
        out
    }
}

impl BookItem for V2ray {
    open spec fn spec_id(&self) -> i64 {
        self.id
    }

    open spec fn spec_text(&self) -> Seq<char> {
        v2ray_text(*self)
    }

    open spec fn showable(&self) -> bool {
        self.wf()
    }

    fn id(&self) -> (r: i64) {
        self.id
    }

    fn text(&self) -> (r: String) {
        let mut out = self.label.clone();
        append(&mut out, " ");
        push_votes(&mut out, self.up_votes, self.dn_votes);
        push_flag(&mut out, self.disabled);
        assert(out@ =~= v2ray_text(*self));
        out
    }
}

impl BookItem for Flyer {
    open spec fn spec_id(&self) -> i64 {
        self.id
    }

    open spec fn spec_text(&self) -> Seq<char> {
        flyer_text(*self)
    }

    open spec fn showable(&self) -> bool {
        true
    }

    fn id(&self) -> (r: i64) {
        self.id
    }

    fn text(&self) -> (r: String) {
        let mut out = "<b>".to_owned();
        append(&mut out, escape(self.label.as_str()).as_str());
        append(&mut out, "</b> ");
        append(&mut out, int_text(self.views).as_str());
        append(&mut out, "/");
        append(&mut out, int_text(self.max_views).as_str());
        append(&mut out, " ");
        push_flag(&mut out, self.disabled);
        assert(out@ =~= flyer_text(*self));
        out
    }
}

/// The mark of a yes/no field on a record card.
pub open spec fn mark_text(v: bool) -> Seq<char> {
    if v {
        "✅"@
    } else {
        "❌"@
    }
}

fn push_mark(out: &mut String, v: bool)
    ensures
        final(out)@ == old(out)@ + mark_text(v),
{
    if v {
        append(out, "✅");
    } else {
        append(out, "❌");
    }
}

fn push_int(out: &mut String, n: i64)
    ensures
        final(out)@ == old(out)@ + int_text_of(n as int),
{
    let t = int_text(n);
    append(out, t.as_str());
}

/// The card of an account shown to administrators.
pub open spec fn karbar_card(k: Karbar) -> Seq<char> {
    "نام: "@ + k.fullname@ + "\nامتیاز: "@ + int_text_of(k.points as int) + "\nمسدود است: "@ + mark_text(k.banned)
        + "\nبلاک کرده: "@ + mark_text(k.blocked) + "\nساخت حساب: "@ + int_text_of(k.created_at as int)
        + "\nاخرین فعالیت: "@ + int_text_of(k.updated_at as int) + "\n\nid: "@ + int_text_of(k.tid as int)
        + "\nusername: "@ + (match k.username {
        Some(u) => u@,
        None => "---"@,
    }) + "\ninvite code: "@ + k.invite_code@
}

/// The card of a relay shown to administrators.
pub open spec fn proxy_card(p: Proxy) -> Seq<char> {
    "<b>Proxy</b>:\n\nserver: "@ + p.server@ + "\nport: "@ + p.port@ + "\nsecret: <code>"@ + p.secret@
        + "</code>\n\n<a href=\""@ + proxy_url(p.server@, p.port@, p.secret@) + "\">link</a>\n\nup votes: "@
        + int_text_of(pct_of(p.up_votes + p.dn_votes, p.up_votes as int)) + "% ("@ + int_text_of(p.up_votes as int)
        + ") 👍\ndown votes: "@ + int_text_of(pct_of(p.up_votes + p.dn_votes, p.dn_votes as int)) + "% ("@
        + int_text_of(p.dn_votes as int) + ") 👎\nفعال: "@ + mark_text(!p.disabled)
}

/// The card of a tunnel config shown to administrators.
pub open spec fn v2ray_card(v: V2ray) -> Seq<char> {
    "<b>V2ray</b>:\n\nlabel: "@ + v.label@ + "\nlink: <code>"@ + v.link@ + "</code>\n\nup votes: "@ + int_text_of(
        pct_of(v.up_votes + v.dn_votes, v.up_votes as int),
    ) + "% ("@ + int_text_of(v.up_votes as int) + ") 👍\ndown votes: "@ + int_text_of(
        pct_of(v.up_votes + v.dn_votes, v.dn_votes as int),
    ) + "% ("@ + int_text_of(v.dn_votes as int) + ") 👎\nفعال: "@ + mark_text(!v.disabled)
}

/// The card of an ad shown to administrators, under its message.
pub open spec fn flyer_card(f: Flyer) -> Seq<char> {
    f.label@ + " 👆👆👆\nبازدید: "@ + int_text_of(f.views as int) + "\nحداکثر بازدید: "@ + int_text_of(
        f.max_views as int,
    ) + "\nفعال: "@ + mark_text(!f.disabled) + "\nlink: "@ + (match f.link {
        Some(l) => l@,
        None => "---"@,
    })
}

impl Karbar {
    /// The account's card for administrators.
    pub fn card(&self) -> (r: String)
        ensures
            r@ == karbar_card(*self),
    {
        let mut out = "نام: ".to_owned();
        append(&mut out, self.fullname.as_str());
        append(&mut out, "\nامتیاز: ");
        push_int(&mut out, self.points);
        append(&mut out, "\nمسدود است: ");
        push_mark(&mut out, self.banned);
        append(&mut out, "\nبلاک کرده: ");
        push_mark(&mut out, self.blocked);
        append(&mut out, "\nساخت حساب: ");
        push_int(&mut out, self.created_at);
        append(&mut out, "\nاخرین فعالیت: ");
        push_int(&mut out, self.updated_at);
        append(&mut out, "\n\nid: ");
        push_int(&mut out, self.tid);
        append(&mut out, "\nusername: ");
        match &self.username {
            Some(u) => append(&mut out, u.as_str()),
            None => append(&mut out, "---"),
        }
        append(&mut out, "\ninvite code: ");
        append(&mut out, self.invite_code.as_str());
        assert(out@ =~= karbar_card(*self));
        out
    }
}

impl Proxy {
    /// The relay's card for administrators.
    pub fn card(&self) -> (r: String)
        requires
            self.wf(),
        ensures
            r@ == proxy_card(*self),
    {
        let (upp, dnp) = self.up_dn_pct();
        let mut out = "<b>Proxy</b>:\n\nserver: ".to_owned();
        append(&mut out, self.server.as_str());
        append(&mut out, "\nport: ");
        append(&mut out, self.port.as_str());
        append(&mut out, "\nsecret: <code>");
        append(&mut out, self.secret.as_str());
        append(&mut out, "</code>\n\n<a href=\"");
        append(&mut out, self.url().as_str());
        append(&mut out, "\">link</a>\n\nup votes: ");
        push_int(&mut out, upp as i64);
        append(&mut out, "% (");
        push_int(&mut out, self.up_votes);
        append(&mut out, ") 👍\ndown votes: ");
        push_int(&mut out, dnp as i64);
        append(&mut out, "% (");
        push_int(&mut out, self.dn_votes);
        append(&mut out, ") 👎\nفعال: ");
        push_mark(&mut out, !self.disabled);
        assert(out@ =~= proxy_card(*self));
        out
    }
}

impl V2ray {
    /// The tunnel config's card for administrators.
    pub fn card(&self) -> (r: String)
        requires
            self.wf(),
        ensures
            r@ == v2ray_card(*self),
    {
        let (upp, dnp) = self.up_dn_pct();
        let mut out = "<b>V2ray</b>:\n\nlabel: ".to_owned();
        append(&mut out, self.label.as_str());
        append(&mut out, "\nlink: <code>");
        append(&mut out, self.link.as_str());
        append(&mut out, "</code>\n\nup votes: ");
        push_int(&mut out, upp as i64);
        append(&mut out, "% (");
        push_int(&mut out, self.up_votes);
        append(&mut out, ") 👍\ndown votes: ");
        push_int(&mut out, dnp as i64);
        append(&mut out, "% (");
        push_int(&mut out, self.dn_votes);
        append(&mut out, ") 👎\nفعال: ");
        push_mark(&mut out, !self.disabled);
        assert(out@ =~= v2ray_card(*self));
        out
    }
}

impl Flyer {
    /// The ad's card for administrators.
    pub fn card(&self) -> (r: String)
        ensures
            r@ == flyer_card(*self),
    {
        let mut out = self.label.clone();
        append(&mut out, " 👆👆👆\nبازدید: ");
        push_int(&mut out, self.views);
        append(&mut out, "\nحداکثر بازدید: ");
        push_int(&mut out, self.max_views);
        append(&mut out, "\nفعال: ");
        push_mark(&mut out, !self.disabled);
        append(&mut out, "\nlink: ");
        match &self.link {
            Some(l) => append(&mut out, l.as_str()),
            None => append(&mut out, "---"),
        }
        assert(out@ =~= flyer_card(*self));
        out
    }
}

} // verus!
