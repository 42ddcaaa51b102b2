use ebook_crawler::merge::merge_contents;

#[test]
fn merges_all_pages_in_page_order() {
    let pages = vec![
        Some(b"one".to_vec()),
        Some(b"two".to_vec()),
        Some(b"three".to_vec()),
    ];
    let (bytes, gap) = merge_contents(&pages);
    assert_eq!(gap, None);
    assert_eq!(bytes, b"onetwothree".to_vec());
}

#[test]
fn merges_nothing_for_an_empty_book() {
    let pages: Vec<Option<Vec<u8>>> = Vec::new();
    let (bytes, gap) = merge_contents(&pages);
    assert_eq!(gap, None);
    assert_eq!(bytes, Vec::<u8>::new());
}

#[test]
fn a_gap_stops_the_merge_and_keeps_the_flushed_prefix() {
    let pages = vec![
        Some(b"one".to_vec()),
        Some(b"two".to_vec()),
        None,
        Some(b"four".to_vec()),
    ];
    let (bytes, gap) = merge_contents(&pages);
    assert_eq!(gap, Some(2));
    assert_eq!(bytes, b"onetwo".to_vec());
}

#[test]
fn a_gap_at_the_first_page_flushes_nothing() {
    let pages = vec![None, Some(b"two".to_vec())];
    let (bytes, gap) = merge_contents(&pages);
    assert_eq!(gap, Some(0));
    assert_eq!(bytes, Vec::<u8>::new());
}

#[test]
fn an_empty_page_file_is_not_a_gap() {
    let pages = vec![Some(b"one".to_vec()), Some(Vec::new()), Some(b"three".to_vec())];
    let (bytes, gap) = merge_contents(&pages);
    assert_eq!(gap, None);
    assert_eq!(bytes, b"onethree".to_vec());
}
