use croc_splitter::scanner::Signature;

fn sig(matchers: &[Option<u8>]) -> Signature {
    Signature::new(matchers.to_vec())
}

#[test]
fn finds_exact_pattern() {
    let s = sig(&[Some(0xDE), Some(0xAD)]);
    let hay = [0x00, 0xDE, 0xAD, 0xBE, 0xEF];
    assert_eq!(s.scan(&hay), Some(1));
}

#[test]
fn first_match_wins() {
    let s = sig(&[Some(7)]);
    let hay = [1, 7, 2, 7, 7];
    assert_eq!(s.scan(&hay), Some(1));
}

#[test]
fn wildcard_matches_any_byte() {
    let s = sig(&[Some(1), None, Some(3)]);
    let hay = [1, 2, 2, 1, 99, 3, 0];
    assert_eq!(s.scan(&hay), Some(3));
}

#[test]
fn wildcard_only_signature_matches_at_start() {
    let s = sig(&[None, None]);
    let hay = [10, 20, 30];
    assert_eq!(s.scan(&hay), Some(0));
}

#[test]
fn no_match_returns_none() {
    let s = sig(&[Some(0xFF)]);
    let hay = [0, 1, 2, 3];
    assert_eq!(s.scan(&hay), None);
}

#[test]
fn pattern_longer_than_buffer_returns_none() {
    let s = sig(&[Some(1), Some(2), Some(3)]);
    let hay = [1, 2];
    assert_eq!(s.scan(&hay), None);
}

#[test]
fn match_at_very_end() {
    let s = sig(&[Some(8), Some(9)]);
    let hay = [0, 0, 0, 8, 9];
    assert_eq!(s.scan(&hay), Some(3));
}

#[test]
fn partial_overlap_is_not_a_match() {
    let s = sig(&[Some(5), Some(6)]);
    let hay = [5, 5, 6];
    assert_eq!(s.scan(&hay), Some(1));
}

#[test]
fn empty_buffer_with_nonempty_pattern() {
    let s = sig(&[Some(1)]);
    let hay: [u8; 0] = [];
    assert_eq!(s.scan(&hay), None);
}

#[test]
fn non_wildcard_positions_must_all_match() {
    let s = sig(&[Some(1), None, Some(3)]);
    // 1 _ 4 breaks the last matcher everywhere.
    let hay = [1, 2, 4, 1, 2, 4];
    assert_eq!(s.scan(&hay), None);
}

#[test]
fn empty_signature_matches_at_the_start() {
    let s = sig(&[]);
    assert_eq!(s.scan(&[1, 2, 3]), Some(0));
    assert_eq!(s.scan(&[]), Some(0));
}

#[test]
fn signature_len_counts_wildcards() {
    let s = sig(&[Some(1), None, None, Some(4)]);
    assert_eq!(s.len(), 4);
}
