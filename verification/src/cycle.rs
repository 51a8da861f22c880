//! One poll cycle over a paginated feed.
//!
//! A cycle loads a cursor, fetches pages newest-first until an empty page
//! arrives, and only then persists the cursor it advanced in memory. The
//! caller performs each fetch and hands the page in; this module decides how
//! the cursor moves, when pagination is complete, and when the cursor may be
//! written back. A fetch that fails simply never reaches [`CycleState::save_content`]:
//! the state is dropped and the feed resumes from the cursor persisted by the
//! last successful cycle. Failures inside a single item, by contrast, are
//! invisible here — the state advances over a page as a function of the page
//! alone.

use vstd::prelude::*;

use crate::items::NotificationItem;
use crate::items::TimelineItem;
use crate::store::encode_cursor;
use crate::store::encoded;

verus! {

/// Where a feed's next fetch resumes: items strictly newer than this token.
pub struct CycleState {
    /// The identifier of the newest item seen so far: the pre-cycle cursor
    /// until a non-empty page arrives, then that page's first item.
    pub cursor: String,
    /// How many items the cycle has presented to its handler.
    pub count: u64,
    /// Whether an empty page has arrived, completing the pagination sweep.
    pub done: bool,
}

/// The cursor after one page: unchanged by an empty page, else the
/// identifier of the page's first item — pages arrive newest-first, so the
/// first item is the newest one seen this cycle.
pub open spec fn page_cursor(cur: Seq<char>, ids: Seq<Seq<char>>) -> Seq<char> {
    if ids.len() == 0 {
        cur
    } else {
        ids[0]
    }
}

/// The cursor after a whole run of pages, folded in arrival order.
pub open spec fn cursor_after(cur: Seq<char>, pages: Seq<Seq<Seq<char>>>) -> Seq<char>
    decreases pages.len(),
{
    if pages.len() == 0 {
        cur
    } else {
        cursor_after(page_cursor(cur, pages[0]), pages.drop_first())
    }
}

/// The identifiers of a timeline page, in page order.
pub open spec fn timeline_ids(page: Seq<TimelineItem>) -> Seq<Seq<char>> {
    page.map_values(|it: TimelineItem| it.id@)
}

/// The identifiers of a notification page, in page order.
pub open spec fn notification_ids(page: Seq<NotificationItem>) -> Seq<Seq<char>> {
    page.map_values(|it: NotificationItem| it.id@)
}

impl CycleState {
    /// Starts a cycle from the cursor the store handed back.
    pub fn start(cursor: String) -> (s: CycleState)
        ensures
            s.cursor == cursor,
            s.count == 0,
            !s.done,
    {
        CycleState { cursor, count: 0, done: false }
    }

    /// Folds one fetched timeline page into the cycle: an empty page
    /// completes the sweep and leaves the state untouched; a non-empty page
    /// moves the cursor to its first item and counts every item, whatever
    /// becomes of each. The page's items are then the handler's to process,
    /// in page order.
    pub fn on_timeline_page(&mut self, page: &Vec<TimelineItem>) -> (done: bool)
        requires
            !old(self).done,
            old(self).count + page@.len() <= u64::MAX,
        ensures
            done <==> page@.len() == 0,
            done <==> final(self).done,
            final(self).cursor@ == page_cursor(old(self).cursor@, timeline_ids(page@)),
            final(self).count == old(self).count + page@.len(),
            page@.len() == 0 ==> final(self).cursor == old(self).cursor,
    {
        if page.len() == 0 {
            self.done = true;
            true
        } else {
            self.count = self.count + page.len() as u64;
            self.cursor = page[0].id.clone();
            proof {
                assert(timeline_ids(page@)[0] == page@[0].id@);
            }
            false
        }
    }

    /// Folds one fetched notification page into the cycle, exactly as
    /// [`CycleState::on_timeline_page`] does for the timeline.
    pub fn on_notification_page(&mut self, page: &Vec<NotificationItem>) -> (done: bool)
        requires
            !old(self).done,
            old(self).count + page@.len() <= u64::MAX,
        ensures
            done <==> page@.len() == 0,
            done <==> final(self).done,
            final(self).cursor@ == page_cursor(old(self).cursor@, notification_ids(page@)),
            final(self).count == old(self).count + page@.len(),
            page@.len() == 0 ==> final(self).cursor == old(self).cursor,
    {
        if page.len() == 0 {
            self.done = true;
            true
        } else {
            self.count = self.count + page.len() as u64;
            self.cursor = page[0].id.clone();
            proof {
                assert(notification_ids(page@)[0] == page@[0].id@);
            }
            false
        }
    }

    /// A failure confined to one item changes nothing: the counter moved when
    /// the page arrived, and the cursor moves with pages, not items. The
    /// caller logs and goes on with the next item.
    pub fn note_item_failure(&mut self)
        ensures
            *final(self) == *old(self),
    {
    }

    /// The exact file content that persists this cycle's cursor — available
    /// only once an empty page completed the sweep. A cycle a fetch aborted
    /// never reaches this, so its in-memory advance is never persisted.
    pub fn save_content(&self) -> (r: String)
        requires
            self.done,
        ensures
            r@ == encoded(self.cursor@),
    {
        encode_cursor(self.cursor.as_str())
    }
}

/// Law: over a full successful cycle of a non-empty page followed by the
/// empty page that ends it, the cursor comes to rest on the first identifier
/// of the non-empty page, and the items presented to the handler are exactly
/// that page's items, each once, in page order.
pub proof fn lemma_full_cycle_two_pages(
    cur: Seq<char>,
    full_page: Seq<Seq<char>>,
    empty_page: Seq<Seq<char>>,
)
    requires
        full_page.len() > 0,
        empty_page.len() == 0,
    ensures
        cursor_after(cur, seq![full_page, empty_page]) == full_page[0],
        seq![full_page, empty_page].flatten() == full_page,
{
    let pages = seq![full_page, empty_page];
    let tail = seq![empty_page];
    assert(pages.drop_first() =~= tail);
    assert(tail.drop_first() =~= Seq::<Seq<Seq<char>>>::empty());
    assert(cursor_after(cur, pages) == cursor_after(full_page[0], tail));
    assert(cursor_after(full_page[0], tail) == cursor_after(
        full_page[0],
        Seq::<Seq<Seq<char>>>::empty(),
    ));
    assert(Seq::<Seq<Seq<char>>>::empty().flatten() =~= Seq::<Seq<char>>::empty());
    assert(tail.flatten() == tail.first() + tail.drop_first().flatten());
    assert(tail.flatten() =~= empty_page);
    assert(pages.flatten() == pages.first() + pages.drop_first().flatten());
    assert(pages.flatten() =~= full_page);
}

proof fn lemma_empty_pages_keep_cursor(cur: Seq<char>, pages: Seq<Seq<Seq<char>>>)
    requires
        forall|k: int| 0 <= k < pages.len() ==> pages[k].len() == 0,
    ensures
        cursor_after(cur, pages) == cur,
    decreases pages.len(),
{
    if pages.len() > 0 {
        assert(pages[0].len() == 0);
        assert(forall|k: int|
            0 <= k < pages.drop_first().len() ==> pages.drop_first()[k].len() == 0);
        lemma_empty_pages_keep_cursor(cur, pages.drop_first());
    }
}

/// Law: over any run of fetched pages, the cursor comes to rest on the first
/// identifier of the latest non-empty page — the pages after it, empty, move
/// nothing.
pub proof fn lemma_cursor_rests_on_latest_nonempty(
    cur: Seq<char>,
    pages: Seq<Seq<Seq<char>>>,
    j: int,
)
    requires
        0 <= j < pages.len(),
        pages[j].len() > 0,
        forall|k: int| j < k < pages.len() ==> pages[k].len() == 0,
    ensures
        cursor_after(cur, pages) == pages[j][0],
    decreases pages.len(),
{
    let rest = pages.drop_first();
    if j == 0 {
        assert(cursor_after(cur, pages) == cursor_after(pages[0][0], rest));
        assert(forall|k: int| 0 <= k < rest.len() ==> rest[k].len() == 0);
        lemma_empty_pages_keep_cursor(pages[0][0], rest);
    } else {
        assert(rest[j - 1] == pages[j]);
        assert(forall|k: int| j - 1 < k < rest.len() ==> rest[k].len() == 0);
        lemma_cursor_rests_on_latest_nonempty(page_cursor(cur, pages[0]), rest, j - 1);
    }
}

/// Law: a page's effect on the cursor does not depend on which of its items
/// succeed. Whatever position `k` an item-local failure strikes at, the
/// cursor still advances to the page's first identifier and every identifier
/// of the page, before and after `k`, is still presented.
pub proof fn lemma_item_failure_is_local(cur: Seq<char>, ids: Seq<Seq<char>>, k: int)
    requires
        0 <= k < ids.len(),
    ensures
        page_cursor(cur, ids) == ids[0],
{
}

} // verus!
