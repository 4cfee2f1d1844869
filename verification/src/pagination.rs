//! Fetching every page of a list: the decisions of the paging loop as a
//! state machine. The caller fetches the page that the collector asks for
//! and hands the batch back; the collector decides whether to ask for the
//! next page, to finish, or to give up.
use vstd::prelude::*;

verus! {

/// The most pages fetched for one list.
pub const MAX_AUTO_PAGES: u32 = 1000;

/// The page size used for repository lists when none is given.
pub const DEFAULT_REPO_PAGE_SIZE: u32 = 10;

/// The page size used for other lists when none is given.
pub const DEFAULT_LIST_PAGE_SIZE: u32 = 30;

/// The message of a list that did not end within `MAX_AUTO_PAGES` pages.
pub const EXCEEDED_MESSAGE: &'static str = "pagination exceeded 1000 pages; aborting";

/// The items of `batches`, in order.
pub open spec fn concat_all<T>(batches: Seq<Seq<T>>) -> Seq<T>
    decreases batches.len(),
{
    if batches.len() == 0 {
        Seq::empty()
    } else {
        concat_all(batches.drop_last()) + batches.last()
    }
}

/// Whether a batch is full for `page_size`: it has items, and no fewer than
/// a page holds. Only after a full batch is the next page fetched.
pub open spec fn is_full<T>(batch: Seq<T>, page_size: u32) -> bool {
    batch.len() > 0 && batch.len() >= page_size
}

/// The state of a collector: the page asked for first, the page asked for
/// now, the page size, the batches received so far, and the items held.
pub struct CollectorView<T> {
    pub first_page: u32,
    pub page: u32,
    pub page_size: u32,
    pub batches: Seq<Seq<T>>,
    pub collected: Seq<T>,
}

/// What every collector that waits for a batch satisfies: the pages were
/// asked for one after the other from the first, fewer than
/// `MAX_AUTO_PAGES` of them have come back, each of them full, and the
/// collector holds their items in order.
pub open spec fn collector_inv<T>(v: CollectorView<T>) -> bool {
    &&& v.page == v.first_page + v.batches.len()
    &&& v.batches.len() < MAX_AUTO_PAGES
    &&& forall|i: int| 0 <= i < v.batches.len() ==> is_full(#[trigger] v.batches[i], v.page_size)
    &&& v.collected == concat_all(v.batches)
}

/// Collects the items of consecutive pages of a list.
pub struct PageCollector<T> {
    collected: Vec<T>,
    first_page: u32,
    page: u32,
    page_size: u32,
    batches: Ghost<Seq<Seq<T>>>,
}

impl<T> View for PageCollector<T> {
    type V = CollectorView<T>;

    closed spec fn view(&self) -> CollectorView<T> {
        CollectorView {
            first_page: self.first_page,
            page: self.page,
            page_size: self.page_size,
            batches: self.batches@,
            collected: self.collected@,
        }
    }
}

/// What a collector does with a batch.
pub enum PageStep<T> {
    /// Fetch the collector's next page and hand it back.
    Next(PageCollector<T>),
    /// The list is complete: all its items, in order.
    Done(Vec<T>),
    /// `MAX_AUTO_PAGES` full pages came back without the list ending.
    Exceeded,
}

impl<T> PageCollector<T> {
    /// Starts collecting at `page` (1 where none is given), with pages of
    /// `page_size` items (`default_page_size` where none is given).
    pub fn new(page: Option<u32>, page_size: Option<u32>, default_page_size: u32) -> (r: Self)
        ensures
            r@.first_page == match page {
                Some(p) => p,
                None => 1u32,
            },
            r@.page == r@.first_page,
            r@.page_size == match page_size {
                Some(ps) => ps,
                None => default_page_size,
            },
            r@.batches.len() == 0,
            collector_inv(r@),
    {
        let p = match page {
            Some(p) => p,
            None => 1,
        };
        let ps = match page_size {
            Some(ps) => ps,
            None => default_page_size,
        };
        let r = PageCollector {
            collected: Vec::new(),
            first_page: p,
            page: p,
            page_size: ps,
            batches: Ghost(Seq::empty()),
        };
        proof {
            assert(r@.collected =~= concat_all(r@.batches));
        }
        r
    }

    /// The page to fetch.
    pub fn page(&self) -> (r: u32)
        ensures
            r == self@.page,
    {
        self.page
    }

    /// The number of items per page to ask for.
    pub fn page_size(&self) -> (r: u32)
        ensures
            r == self@.page_size,
    {
        self.page_size
    }

    /// Takes the batch that came back for the page asked for. An empty or
    /// short batch ends the list; a full one leads to the next page, unless
    /// it was the last page allowed. (Asking for the page after `u32::MAX`
    /// overflows the page number, so a full batch for that page is left
    /// out.)
    pub fn receive(self, batch: Vec<T>) -> (r: PageStep<T>)
        requires
            collector_inv(self@),
            !is_full(batch@, self@.page_size) || self@.page < u32::MAX,
        ensures
            !is_full(batch@, self@.page_size) ==> (r matches PageStep::Done(items) && items@
                == concat_all(self@.batches.push(batch@))),
            is_full(batch@, self@.page_size) && self@.batches.len() + 1 == MAX_AUTO_PAGES ==> (
            r matches PageStep::Exceeded),
            is_full(batch@, self@.page_size) && self@.batches.len() + 1 < MAX_AUTO_PAGES ==> (
            r matches PageStep::Next(next) && next@ == CollectorView {
                first_page: self@.first_page,
                page: (self@.page + 1) as u32,
                page_size: self@.page_size,
                batches: self@.batches.push(batch@),
                collected: self@.collected + batch@,
            } && collector_inv(next@)),
    {
        let ghost old_view = self@;
        let ghost bs = old_view.batches.push(batch@);
        proof {
            assert(bs.drop_last() =~= old_view.batches);
        }
        if batch.len() == 0 {
            let items = self.collected;
            proof {
                assert(concat_all(bs) =~= old_view.collected + batch@);
            }
            return PageStep::Done(items);
        }
        let done = batch.len() < self.page_size as usize;
        let mut collected = self.collected;
        let mut batch = batch;
        let ghost batch_view = batch@;
        collected.append(&mut batch);
        if done {
            return PageStep::Done(collected);
        }
        let fetched = (self.page - self.first_page) + 1;
        if fetched >= MAX_AUTO_PAGES {
            return PageStep::Exceeded;
        }
        let next = PageCollector {
            collected,
            first_page: self.first_page,
            page: self.page + 1,
            page_size: self.page_size,
            batches: Ghost(bs),
        };
        proof {
            assert forall|i: int| 0 <= i < bs.len() implies is_full(
                #[trigger] bs[i],
                old_view.page_size,
            ) by {
                if i < old_view.batches.len() {
                    assert(bs[i] == old_view.batches[i]);
                }
            }
        }
        PageStep::Next(next)
    }
}

} // verus!
