use vstd::prelude::*;

verus! {

/// The page size asked for first.
pub const FIRST_PAGE_LIMIT: usize = 50;

/// No more pages are asked for once this many items have been gathered.
pub const PAGED_ITEMS_LIMIT: usize = 200;

/// One page of a paginated result set, as the server reports it.
pub struct Page<T> {
    pub items: Vec<T>,
    pub total: usize,
    pub limit: usize,
    pub offset: usize,
}

/// The pagination parameters of a page request.
#[derive(PartialEq, Eq, Structural, Clone, Copy, Debug)]
pub struct PageRequest {
    pub limit: usize,
    pub offset: usize,
}

/// The request after a page that leaves the gathered set at `len` items:
/// the next window that the server itself reported, while the server reports
/// more items than gathered and the cap is not reached.
pub open spec fn spec_next_request(len: nat, total: usize, limit: usize, offset: usize) -> Option<PageRequest> {
    if total > len && len < PAGED_ITEMS_LIMIT && offset + limit <= usize::MAX {
        Some(PageRequest { limit, offset: (offset + limit) as usize })
    } else {
        None
    }
}

/// Gathers the items of a paginated result set, page by page.
pub struct PageAccumulator<T> {
    items: Vec<T>,
    next: Option<PageRequest>,
}

impl<T> PageAccumulator<T> {
    /// The items gathered so far, in the order of the pages and within each.
    pub closed spec fn view(&self) -> Seq<T> {
        self.items@
    }

    /// The page to ask for next, if any.
    pub closed spec fn spec_next(&self) -> Option<PageRequest> {
        self.next
    }

    /// Nothing gathered; the first page is asked for at offset 0.
    pub fn new() -> (r: Self)
        ensures
            r@ == Seq::<T>::empty(),
            r.spec_next() == Some(PageRequest { limit: FIRST_PAGE_LIMIT, offset: 0 }),
    {
        PageAccumulator {
            items: Vec::new(),
            next: Some(PageRequest { limit: FIRST_PAGE_LIMIT, offset: 0 }),
        }
    }

    /// The page to ask for next, or `None` once the set is complete.
    pub fn next_request(&self) -> (r: Option<PageRequest>)
        ensures
            r == self.spec_next(),
    {
        self.next
    }

    /// Add the page that answered the last request. The next request takes
    /// the server's own limit and offset; there is none once the gathered
    /// items reach the server's total or the cap, or when the next offset
    /// would not fit.
    pub fn add_page(&mut self, page: Page<T>)
        requires
            old(self).spec_next() is Some,
            old(self)@.len() + page.items@.len() <= usize::MAX,
        ensures
            final(self)@ == old(self)@ + page.items@,
            final(self).spec_next() == spec_next_request(
                final(self)@.len(),
                page.total,
                page.limit,
                page.offset,
            ),
    {
        let Page { items, total, limit, offset } = page;
        let mut items = items;
        self.items.append(&mut items);
        let len = self.items.len();
        if total > len && len < PAGED_ITEMS_LIMIT && offset <= usize::MAX - limit {
            self.next = Some(PageRequest { limit, offset: offset + limit });
        } else {
            self.next = None;
        }
    }

    /// The items gathered, in order.
    pub fn into_items(self) -> (r: Vec<T>)
        ensures
            r@ == self@,
    {
        self.items
    }
}

} // verus!
