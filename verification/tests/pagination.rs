use mas_core::pagination::{generate_pagination, process_page, PageQuery};

/// A store of identifiers answering a page query as a database would: the
/// window ordered by identifier.
fn fetch(ids: &[u128], q: &PageQuery) -> Vec<u128> {
    let mut rows: Vec<u128> = ids
        .iter()
        .copied()
        .filter(|x| q.after.map_or(true, |a| a < *x) && q.before.map_or(true, |b| *x < b))
        .collect();
    rows.sort();
    if !q.ascending {
        rows.reverse();
    }
    rows.truncate(q.limit);
    rows
}

fn page(
    ids: &[u128],
    before: Option<u128>,
    after: Option<u128>,
    first: Option<usize>,
    last: Option<usize>,
) -> (bool, bool, Vec<u128>) {
    let q = generate_pagination(before, after, first, last).unwrap();
    process_page(fetch(ids, &q), first, last).unwrap()
}

#[test]
fn test_provider_repository_pagination() {
    // 20 identifiers, created ten seconds apart
    let ids: Vec<u128> = (0..20u128).map(|i| (1_000 + 10 * i) << 80).collect();

    // The first 10 items
    let (_, has_next_page, edges) = page(&ids, None, None, Some(10), None);
    assert!(has_next_page);
    assert_eq!(&edges, &ids[..10]);

    // The next 10 items
    let (_, has_next_page, edges) = page(&ids, None, Some(ids[9]), Some(10), None);
    assert!(!has_next_page);
    assert_eq!(&edges, &ids[10..]);

    // The last 10 items
    let (has_previous_page, _, edges) = page(&ids, None, None, None, Some(10));
    assert!(has_previous_page);
    assert_eq!(&edges, &ids[10..]);

    // The previous 10 items
    let (has_previous_page, _, edges) = page(&ids, Some(ids[10]), None, None, Some(10));
    assert!(!has_previous_page);
    assert_eq!(&edges, &ids[..10]);

    // 10 items between two identifiers
    let (_, has_next_page, edges) = page(&ids, Some(ids[8]), Some(ids[5]), Some(10), None);
    assert!(!has_next_page);
    assert_eq!(&edges, &ids[6..8]);
}

#[test]
fn pagination_needs_exactly_one_of_first_and_last() {
    assert!(generate_pagination(None, None, None, None).is_err());
    assert!(generate_pagination(None, None, Some(1), Some(1)).is_err());
    let q = generate_pagination(Some(9), Some(3), Some(4), None).unwrap();
    assert_eq!(q, PageQuery { after: Some(3), before: Some(9), ascending: true, limit: 5 });
    let q = generate_pagination(None, None, None, Some(2)).unwrap();
    assert_eq!(q, PageQuery { after: None, before: None, ascending: false, limit: 3 });
    assert!(process_page(vec![1u8, 2], None, None).is_err());
}

#[test]
fn process_page_drops_the_extra_row() {
    assert_eq!(process_page(vec![1, 2, 3], Some(2), None).unwrap(), (false, true, vec![1, 2]));
    assert_eq!(process_page(vec![1, 2], Some(2), None).unwrap(), (false, false, vec![1, 2]));
    assert_eq!(process_page(vec![9, 8, 7], None, Some(2)).unwrap(), (true, false, vec![8, 9]));
    assert_eq!(process_page(vec![9, 8], None, Some(2)).unwrap(), (false, false, vec![8, 9]));
    assert_eq!(process_page(Vec::<u32>::new(), Some(0), None).unwrap(), (false, false, vec![]));
    assert_eq!(process_page(vec![5], Some(0), None).unwrap(), (false, true, vec![]));
}

#[test]
fn pages_follow_identifier_order_not_storage_order() {
    let ids: Vec<u128> = vec![50, 30, 10, 40, 20];
    let (prev, next, edges) = page(&ids, None, None, Some(2), None);
    assert_eq!((prev, next), (false, true));
    assert_eq!(edges, vec![10, 20]);
    let (prev, next, edges) = page(&ids, None, None, None, Some(2));
    assert_eq!((prev, next), (true, false));
    assert_eq!(edges, vec![40, 50]);
    let (_, next, edges) = page(&ids, Some(50), Some(10), Some(5), None);
    assert!(!next);
    assert_eq!(edges, vec![20, 30, 40]);
}
