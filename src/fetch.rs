//! Cursor pagination over the upstream API.
use vstd::prelude::*;

use crate::text::opt_text;
use crate::reading::{RawReadingView, RawSensorReading};

verus! {

/// Query text that carries the cursor of the page to fetch.
pub const CURSOR_PARAM: &'static str = "?cursor=";

/// One upstream page, decoded.
pub struct PageBody {
    /// The page's `results` items, each `None` where the item did not decode;
    /// `None` when `results` is missing or is not an array.
    pub results: Option<Vec<Option<RawSensorReading>>>,
    /// The cursor of the following page; `None` when absent or null.
    pub next_cursor: Option<String>,
}

pub struct PageView {
    pub results: Option<Seq<Option<RawReadingView>>>,
    pub next_cursor: Option<Seq<char>>,
}

pub open spec fn opt_raw_view(o: Option<RawSensorReading>) -> Option<RawReadingView> {
    match o {
        Some(r) => Some(r@),
        None => None,
    }
}

pub open spec fn opt_raw_views(v: Seq<Option<RawSensorReading>>) -> Seq<Option<RawReadingView>> {
    v.map_values(|o: Option<RawSensorReading>| opt_raw_view(o))
}

pub open spec fn raw_views(v: Seq<RawSensorReading>) -> Seq<RawReadingView> {
    v.map_values(|r: RawSensorReading| r@)
}

impl View for PageBody {
    type V = PageView;

    open spec fn view(&self) -> PageView {
        PageView {
            results: match self.results {
                Some(v) => Some(opt_raw_views(v@)),
                None => None,
            },
            next_cursor: opt_text(self.next_cursor),
        }
    }
}

/// The items that decoded, in page order.
pub open spec fn decoded(items: Seq<Option<RawReadingView>>) -> Seq<RawReadingView>
    decreases items.len(),
{
    if items.len() == 0 {
        Seq::empty()
    } else {
        decoded(items.drop_last()) + match items.last() {
            Some(r) => seq![r],
            None => Seq::empty(),
        }
    }
}

/// What a page contributes: its decoded items, nothing when `results` is unusable.
pub open spec fn page_items(page: PageView) -> Seq<RawReadingView> {
    match page.results {
        Some(items) => decoded(items),
        None => Seq::empty(),
    }
}

/// Address of a page: the base URL, with the cursor appended when there is one.
pub open spec fn page_url(base: Seq<char>, cursor: Option<Seq<char>>) -> Seq<char> {
    match cursor {
        Some(c) => base + CURSOR_PARAM@ + c,
        None => base,
    }
}

pub struct PagerView {
    pub base_url: Seq<char>,
    pub max_pages: nat,
    pub pages_fetched: nat,
    pub cursor: Option<Seq<char>>,
    pub exhausted: bool,
    pub collected: Seq<RawReadingView>,
}

/// A pager before its first page.
pub open spec fn pager_start(base_url: Seq<char>, max_pages: nat) -> PagerView {
    PagerView {
        base_url,
        max_pages,
        pages_fetched: 0,
        cursor: None,
        exhausted: false,
        collected: Seq::empty(),
    }
}

/// Pagination ends when a page names no next cursor or the page cap is reached.
pub open spec fn pager_done(p: PagerView) -> bool {
    p.exhausted || p.pages_fetched >= p.max_pages
}

/// The page to fetch next, if pagination goes on.
pub open spec fn next_request(p: PagerView) -> Option<Seq<char>> {
    if pager_done(p) {
        None
    } else {
        Some(page_url(p.base_url, p.cursor))
    }
}

/// Taking in a fetched page: one more page counted, its items kept, its cursor followed.
pub open spec fn pager_step(p: PagerView, page: PageView) -> PagerView {
    if pager_done(p) {
        p
    } else {
        PagerView {
            pages_fetched: p.pages_fetched + 1,
            cursor: page.next_cursor,
            exhausted: page.next_cursor is None,
            collected: p.collected + page_items(page),
            ..p
        }
    }
}

/// Feeds pages to a pager for as long as it asks for more.
pub open spec fn pager_run(p: PagerView, pages: Seq<PageView>) -> PagerView
    decreases pages.len(),
{
    if pages.len() == 0 || pager_done(p) {
        p
    } else {
        pager_run(pager_step(p, pages[0]), pages.subrange(1, pages.len() as int))
    }
}

/// Index of the first page that names no next cursor; the number of pages when all do.
pub open spec fn first_final_page(pages: Seq<PageView>) -> nat
    decreases pages.len(),
{
    if pages.len() == 0 || pages[0].next_cursor is None {
        0
    } else {
        1 + first_final_page(pages.subrange(1, pages.len() as int))
    }
}

/// The items of the pages, in order.
pub open spec fn all_items(pages: Seq<PageView>) -> Seq<RawReadingView>
    decreases pages.len(),
{
    if pages.len() == 0 {
        Seq::empty()
    } else {
        page_items(pages[0]) + all_items(pages.subrange(1, pages.len() as int))
    }
}

/// The number of pages a fetch takes: the cap, or fewer when a page names no next cursor.
pub open spec fn pages_taken(max_pages: nat, pages: Seq<PageView>) -> nat {
    if max_pages <= first_final_page(pages) {
        max_pages
    } else {
        first_final_page(pages) + 1
    }
}

proof fn lemma_run_from(p: PagerView, pages: Seq<PageView>)
    requires
        !p.exhausted,
        p.pages_fetched <= p.max_pages,
        p.max_pages - p.pages_fetched <= pages.len() || first_final_page(pages) < pages.len(),
    ensures
        ({
            let r = pager_run(p, pages);
            let n = pages_taken((p.max_pages - p.pages_fetched) as nat, pages);
            &&& pager_done(r)
            &&& r.pages_fetched == p.pages_fetched + n
            &&& r.collected == p.collected + all_items(pages.subrange(0, n as int))
            &&& r.base_url == p.base_url
            &&& r.max_pages == p.max_pages
        }),
    decreases pages.len(),
{
    let n = pages_taken((p.max_pages - p.pages_fetched) as nat, pages);
    if p.pages_fetched >= p.max_pages {
        assert(pages.subrange(0, 0) =~= Seq::<PageView>::empty());
        assert(p.collected + Seq::<RawReadingView>::empty() =~= p.collected);
    } else {
        let rest = pages.subrange(1, pages.len() as int);
        let q = pager_step(p, pages[0]);
        assert(pages.subrange(0, n as int).subrange(1, n as int) =~= rest.subrange(0, n - 1));
        if pages[0].next_cursor is None {
            assert(n == 1);
            assert(rest.subrange(0, 0) =~= Seq::<PageView>::empty());
            assert(page_items(pages[0]) + Seq::<RawReadingView>::empty() =~= page_items(pages[0]));
        } else {
            lemma_run_from(q, rest);
            assert(n == 1 + pages_taken((q.max_pages - q.pages_fetched) as nat, rest));
            assert(all_items(pages.subrange(0, n as int)) == page_items(pages[0]) + all_items(
                rest.subrange(0, n - 1),
            ));
            assert(p.collected + page_items(pages[0]) + all_items(rest.subrange(0, n - 1))
                =~= p.collected + (page_items(pages[0]) + all_items(rest.subrange(0, n - 1))));
        }
    }
}

/// A fetch stops exactly at the page cap even while pages still name a next
/// cursor, and earlier, just after the first page that names none; it yields
/// the items of the pages it took, in order. (Holds whenever enough pages are
/// on offer for the fetch to end.)
pub proof fn lemma_pagination_stops(base_url: Seq<char>, max_pages: nat, pages: Seq<PageView>)
    requires
        max_pages <= pages.len() || first_final_page(pages) < pages.len(),
    ensures
        ({
            let r = pager_run(pager_start(base_url, max_pages), pages);
            &&& pager_done(r)
            &&& r.pages_fetched == pages_taken(max_pages, pages)
            &&& r.collected == all_items(pages.subrange(0, pages_taken(max_pages, pages) as int))
        }),
{
    let p = pager_start(base_url, max_pages);
    lemma_run_from(p, pages);
    assert(Seq::<RawReadingView>::empty() + all_items(
        pages.subrange(0, pages_taken(max_pages, pages) as int),
    ) =~= all_items(pages.subrange(0, pages_taken(max_pages, pages) as int)));
}

/// State of an upstream fetch: pages taken so far and the readings they held.
pub struct Pager {
    base_url: String,
    max_pages: u32,
    pages_fetched: u32,
    cursor: Option<String>,
    exhausted: bool,
    collected: Vec<RawSensorReading>,
}

impl View for Pager {
    type V = PagerView;

    closed spec fn view(&self) -> PagerView {
        PagerView {
            base_url: self.base_url@,
            max_pages: self.max_pages as nat,
            pages_fetched: self.pages_fetched as nat,
            cursor: opt_text(self.cursor),
            exhausted: self.exhausted,
            collected: raw_views(self.collected@),
        }
    }
}

fn push_raw(v: &mut Vec<RawSensorReading>, r: RawSensorReading)
    ensures
        raw_views(final(v)@) == raw_views(old(v)@).push(r@),
{
    v.push(r);
    assert(raw_views(v@) =~= raw_views(old(v)@).push(r@));
}

/// Builds the address of a page.
pub fn build_page_url(base: &str, cursor: &Option<String>) -> (r: String)
    ensures
        r@ == page_url(base@, opt_text(*cursor)),
{
    match cursor {
        Some(c) => String::from_str(base).concat(CURSOR_PARAM).concat(c.as_str()),
        None => String::from_str(base),
    }
}

impl Pager {
    /// A pager over `base_url` that fetches at most `max_pages` pages.
    pub fn new(base_url: String, max_pages: u32) -> (r: Pager)
        ensures
            r@ == pager_start(base_url@, max_pages as nat),
    {
        let r = Pager {
            base_url,
            max_pages,
            pages_fetched: 0,
            cursor: None,
            exhausted: false,
            collected: Vec::new(),
        };
        assert(r@.collected =~= Seq::<RawReadingView>::empty());
        r
    }

    /// Whether pagination has ended.
    pub fn is_done(&self) -> (r: bool)
        ensures
            r == pager_done(self@),
    {
        self.exhausted || self.pages_fetched >= self.max_pages
    }

    /// Pages fetched so far.
    pub fn pages_fetched(&self) -> (r: u32)
        ensures
            r == self@.pages_fetched,
    {
        self.pages_fetched
    }

    /// The address of the page to fetch next, or `None` once pagination has ended.
    pub fn next_url(&self) -> (r: Option<String>)
        ensures
            opt_text(r) == next_request(self@),
    {
        if self.is_done() {
            None
        } else {
            Some(build_page_url(self.base_url.as_str(), &self.cursor))
        }
    }

    /// Takes in the page fetched from `next_url`; ignored once pagination has ended.
    pub fn on_page(&mut self, page: PageBody)
        ensures
            final(self)@ == pager_step(old(self)@, page@),
    {
        if self.is_done() {
            return ;
        }
        let ghost page_view = page@;
        let PageBody { results, next_cursor } = page;
        match results {
            Some(items) => {
                let ghost all = opt_raw_views(items@);
                let ghost start = self@.collected;
                let mut items = items;
                let ghost mut k: int = 0;
                while items.len() > 0
                    invariant
                        0 <= k <= all.len(),
                        opt_raw_views(items@)
                            == all.subrange(k, all.len() as int),
                        raw_views(self.collected@) == start + decoded(all.subrange(0, k)),
                        self.base_url == old(self).base_url,
                        self.max_pages == old(self).max_pages,
                        self.pages_fetched == old(self).pages_fetched,
                        self.cursor == old(self).cursor,
                        self.exhausted == old(self).exhausted,
                    decreases items.len(),
                {
                    let ghost before = items@;
                    let item = items.remove(0);
                    proof {
                        assert(before[0] == item);
                        assert(opt_raw_views(before).len() == before.len());
                        assert(k < all.len());
                        assert(opt_raw_views(before)[0] == opt_raw_view(before[0]));
                        assert(all.subrange(k, all.len() as int)[0] == all[k]);
                        assert(items@ =~= before.subrange(1, before.len() as int));
                        assert forall|i: int| 0 <= i < items@.len() implies opt_raw_views(items@)[i]
                            == all[k + 1 + i] by {
                            assert(opt_raw_views(before)[i + 1] == opt_raw_view(before[i + 1]));
                            assert(all.subrange(k, all.len() as int)[i + 1] == all[k + 1 + i]);
                        }
                        assert(opt_raw_views(items@) =~= all.subrange(k + 1, all.len() as int));
                        assert(all.subrange(0, k + 1).drop_last() =~= all.subrange(0, k));
                    }
                    match item {
                        Some(r) => {
                            push_raw(&mut self.collected, r);
                        },
                        None => {},
                    }
                    proof {
                        assert(start + decoded(all.subrange(0, k + 1)) =~= start + decoded(
                            all.subrange(0, k),
                        ) + match all[k] {
                            Some(r) => seq![r],
                            None => Seq::<RawReadingView>::empty(),
                        });
                        k = k + 1;
                    }
                }
                assert(all.subrange(0, k) =~= all);
            },
            None => {
                assert(self@.collected =~= self@.collected + Seq::<RawReadingView>::empty());
            },
        }
        self.pages_fetched = self.pages_fetched + 1;
        self.exhausted = next_cursor.is_none();
        self.cursor = next_cursor;
        assert(self@.collected =~= old(self)@.collected + page_items(page_view));
    }

    /// The readings collected from all pages taken in.
    pub fn into_readings(self) -> (r: Vec<RawSensorReading>)
        ensures
            raw_views(r@) == self@.collected,
    {
        self.collected
    }
}

} // verus!
