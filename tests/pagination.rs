use freta::pagination::Listing;

/// Drive a listing against scripted pages; returns what it yielded and how
/// many requests it sent.
fn run(pages: &[(Vec<u32>, Option<&str>)]) -> (Vec<u32>, usize) {
    let mut listing = Listing::new();
    let mut seen = vec![];
    let mut requests = 0;
    while let Some(cursor) = listing.next_request() {
        if requests > 0 {
            assert!(cursor.is_some());
        } else {
            assert!(cursor.is_none());
        }
        let (items, next) = &pages[requests];
        requests += 1;
        let got = listing.accept_page(items.clone(), next.map(|s| s.to_string()));
        seen.extend(got);
    }
    (seen, requests)
}

#[test]
fn yields_all_elements_in_server_order() {
    let all: Vec<u32> = (0..7).collect();
    for k in 1..=7 {
        let chunks: Vec<Vec<u32>> = all.chunks(k).map(|c| c.to_vec()).collect();
        let n = chunks.len();
        let pages: Vec<(Vec<u32>, Option<&str>)> = chunks
            .into_iter()
            .enumerate()
            .map(|(i, c)| (c, if i + 1 == n { None } else { Some("next") }))
            .collect();
        let (seen, requests) = run(&pages);
        assert_eq!(seen, all);
        assert_eq!(requests, n);
    }
}

#[test]
fn ending_page_stops_requests() {
    let pages = vec![
        (vec![1, 2], Some("c1")),
        (vec![3], Some("")),
        (vec![4, 5], None),
    ];
    let (seen, requests) = run(&pages);
    assert_eq!(seen, vec![1, 2, 3]);
    assert_eq!(requests, 2);
}

#[test]
fn empty_page_with_cursor_continues() {
    let pages = vec![(vec![], Some("c1")), (vec![], Some("c2")), (vec![9], None)];
    let (seen, requests) = run(&pages);
    assert_eq!(seen, vec![9]);
    assert_eq!(requests, 3);
}

#[test]
fn cursor_is_passed_back_verbatim() {
    let mut listing = Listing::new();
    assert_eq!(listing.next_request(), Some(None));
    listing.accept_page(vec![1u8], Some("opaque==".to_string()));
    assert_eq!(listing.next_request(), Some(Some("opaque==".to_string())));
    listing.accept_page(Vec::<u8>::new(), None);
    assert_eq!(listing.next_request(), None);
}
