//! Collecting every page of a cursor-paginated listing.
use vstd::prelude::*;

verus! {

/// The items gathered so far while walking through the pages of a listing.
pub struct PageCollector<T> {
    pub items: Vec<T>,
}

/// What to do after a page arrived: fetch the page after `cursor`, or stop with
/// everything gathered and the last page's pagination data.
pub enum PageStep<T> {
    Fetch { collector: PageCollector<T>, cursor: String },
    Done { items: Vec<T>, has_next_page: bool, end_cursor: Option<String> },
}

impl<T> PageCollector<T> {
    /// A collector that has gathered nothing yet.
    pub fn new() -> (c: Self)
        ensures
            c.items@.len() == 0,
    {
        PageCollector { items: Vec::new() }
    }

    /// Adds a page's items after those already gathered. When the page says that
    /// more follow and names its end cursor, the next page is fetched after that
    /// cursor; otherwise the walk stops, reporting that page's pagination data.
    pub fn on_page(self, page: Vec<T>, has_next_page: bool, end_cursor: Option<String>) -> (s:
        PageStep<T>)
        ensures
            has_next_page && end_cursor is Some ==> (s matches PageStep::Fetch {
                collector,
                cursor,
            } && collector.items@ == self.items@ + page@ && Some(cursor) == end_cursor),
            !(has_next_page && end_cursor is Some) ==> (s matches PageStep::Done {
                items,
                has_next_page: h,
                end_cursor: e,
            } && items@ == self.items@ + page@ && h == has_next_page && e == end_cursor),
    {
        let mut items = self.items;
        let mut page = page;
        items.append(&mut page);
        if has_next_page {
            match end_cursor {
                Some(c) => PageStep::Fetch { collector: PageCollector { items }, cursor: c },
                None => PageStep::Done { items, has_next_page, end_cursor: None },
            }
        } else {
            PageStep::Done { items, has_next_page, end_cursor }
        }
    }
}

} // verus!
