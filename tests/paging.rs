use psst_gui::paging::{Page, PageAccumulator, PageRequest, FIRST_PAGE_LIMIT, PAGED_ITEMS_LIMIT};

/// Serves pages of `0..total` as the server would, capping each at `max_limit`.
fn serve(total: usize, max_limit: usize, req: PageRequest) -> Page<usize> {
    let limit = req.limit.min(max_limit);
    let end = (req.offset + limit).min(total);
    let items: Vec<usize> = (req.offset.min(total)..end).collect();
    Page { items, total, limit, offset: req.offset }
}

fn gather(total: usize, max_limit: usize) -> (Vec<usize>, Vec<usize>) {
    let mut acc = PageAccumulator::new();
    let mut sizes = Vec::new();
    while let Some(req) = acc.next_request() {
        let page = serve(total, max_limit, req);
        sizes.push(page.items.len());
        acc.add_page(page);
    }
    (acc.into_items(), sizes)
}

#[test]
fn three_pages_for_a_total_of_130() {
    let (items, sizes) = gather(130, 50);
    assert_eq!(sizes, vec![50, 50, 30]);
    assert_eq!(items, (0..130).collect::<Vec<usize>>());
}

#[test]
fn stops_at_the_cap() {
    let (items, sizes) = gather(1000, 50);
    assert_eq!(sizes, vec![50, 50, 50, 50]);
    assert_eq!(items.len(), PAGED_ITEMS_LIMIT);
    assert_eq!(items, (0..200).collect::<Vec<usize>>());
}

#[test]
fn follows_the_limit_the_server_reports() {
    let (items, sizes) = gather(45, 20);
    assert_eq!(sizes, vec![20, 20, 5]);
    assert_eq!(items, (0..45).collect::<Vec<usize>>());
}

#[test]
fn first_request_and_empty_set() {
    let acc: PageAccumulator<u8> = PageAccumulator::new();
    assert_eq!(acc.next_request(), Some(PageRequest { limit: FIRST_PAGE_LIMIT, offset: 0 }));
    let (items, sizes) = gather(0, 50);
    assert_eq!(sizes, vec![0]);
    assert!(items.is_empty());
}

#[test]
fn exact_multiple_of_page_size() {
    let (items, sizes) = gather(100, 50);
    assert_eq!(sizes, vec![50, 50]);
    assert_eq!(items.len(), 100);
}

#[test]
fn offset_overflow_ends_the_set() {
    let mut acc: PageAccumulator<u8> = PageAccumulator::new();
    acc.add_page(Page { items: vec![1], total: 10, limit: 2, offset: usize::MAX - 1 });
    assert_eq!(acc.next_request(), None);
    assert_eq!(acc.into_items(), vec![1]);
}
