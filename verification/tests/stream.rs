use bevy_http::ByteStream;
use bevy_http::HttpAssetReader;

#[test]
fn body_round_trip() {
    let body: Vec<u8> = (0u8..128).collect();
    let mut s = ByteStream::new(body.clone());
    assert_eq!(s.len(), 128);
    let out = s.read_to_end();
    assert_eq!(out, body);
}

#[test]
fn empty_body_round_trip() {
    let mut s = ByteStream::new(Vec::new());
    assert_eq!(s.len(), 0);
    assert_eq!(s.read_to_end(), Vec::<u8>::new());
}

#[test]
fn bytes_come_out_in_order_then_nothing() {
    let mut s = ByteStream::new(vec![10, 20, 30]);
    assert_eq!(s.next_byte(), Some(10));
    assert_eq!(s.next_byte(), Some(20));
    assert_eq!(s.next_byte(), Some(30));
    assert_eq!(s.next_byte(), None);
    assert_eq!(s.next_byte(), None);
}

#[test]
fn into_bytes_is_the_whole_content() {
    let body = vec![1u8, 2, 3, 4];
    let s = ByteStream::new(body.clone());
    assert_eq!(s.into_bytes(), body);
}

#[test]
fn reading_does_not_change_the_content() {
    let mut s = ByteStream::new(vec![5u8, 6]);
    assert_eq!(s.next_byte(), Some(5));
    let rest = s.read_to_end();
    assert_eq!(rest, vec![6u8]);
    assert_eq!(s.into_bytes(), vec![5u8, 6]);
}

#[test]
fn directory_listing_is_always_empty() {
    let r = HttpAssetReader::new(Some("https://assets.example.com/"));
    let mut l = r.read_directory("some/dir");
    assert_eq!(l.next(), None);
    assert_eq!(l.next(), None);
    let mut l2 = r.read_directory("");
    assert_eq!(l2.next(), None);
}

#[test]
fn nothing_is_a_directory() {
    let r = HttpAssetReader::new(Some("https://assets.example.com/"));
    assert!(!r.is_directory("some/dir"));
    assert!(!r.is_directory(""));
    let bare = HttpAssetReader::new(None);
    assert!(!bare.is_directory("anything"));
}
