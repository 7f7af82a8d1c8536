use clipi::config::Settings;
use clipi::store::{
    body_from_columns, clip_byte_len, list_row_from_columns, max_bytes, should_evict, ClipBody,
    ClipKind,
};

#[test]
fn kind_names_round_trip() {
    assert_eq!(ClipKind::Text.as_str(), "text");
    assert_eq!(ClipKind::Image.as_str(), "image");
    assert_eq!(ClipKind::parse(ClipKind::Text.as_str()), ClipKind::Text);
    assert_eq!(ClipKind::parse(ClipKind::Image.as_str()), ClipKind::Image);
}

#[test]
fn unknown_kinds_read_as_text() {
    assert_eq!(ClipKind::parse("IMAGE"), ClipKind::Text);
    assert_eq!(ClipKind::parse(""), ClipKind::Text);
    assert_eq!(ClipKind::parse("images"), ClipKind::Text);
}

#[test]
fn rows_from_columns() {
    let r = list_row_from_columns(7, "image", None, Some(vec![1, 2]), 99);
    assert_eq!(r.id, 7);
    assert_eq!(r.kind, ClipKind::Image);
    assert_eq!(r.text, "");
    assert_eq!(r.thumb_png, Some(vec![1, 2]));
    assert_eq!(r.created_at, 99);
    let t = list_row_from_columns(1, "text", Some("hi".to_string()), None, 5);
    assert_eq!(t.kind, ClipKind::Text);
    assert_eq!(t.text, "hi");
}

#[test]
fn bodies_from_columns() {
    match body_from_columns("image", Some("label".into()), Some(vec![9, 8])) {
        ClipBody::ImagePng(p) => assert_eq!(p, vec![9, 8]),
        other => panic!("unexpected {other:?}"),
    }
    match body_from_columns("image", None, None) {
        ClipBody::ImagePng(p) => assert!(p.is_empty()),
        other => panic!("unexpected {other:?}"),
    }
    match body_from_columns("text", Some("abc".into()), Some(vec![1])) {
        ClipBody::Text(t) => assert_eq!(t, "abc"),
        other => panic!("unexpected {other:?}"),
    }
    match body_from_columns("text", None, None) {
        ClipBody::Text(t) => assert_eq!(t, ""),
        other => panic!("unexpected {other:?}"),
    }
}

#[test]
fn byte_lengths_count_utf8_bytes() {
    assert_eq!(clip_byte_len(Some("héllo"), None, None), 6);
    assert_eq!(clip_byte_len(Some("ab"), Some(&[0u8; 3]), Some(&[0u8; 10])), 15);
    assert_eq!(clip_byte_len(None, None, None), 0);
}

#[test]
fn size_limit_in_bytes() {
    let s = Settings { max_entries: 10, max_db_mb: 8, db_path: String::new() };
    assert_eq!(max_bytes(&s), 8 * 1024 * 1024);
}

#[test]
fn eviction_decisions() {
    let s = Settings { max_entries: 10, max_db_mb: 8, db_path: String::new() };
    assert!(should_evict(11, 0, &s));
    assert!(!should_evict(10, 0, &s));
    assert!(should_evict(3, 8 * 1024 * 1024 + 1, &s));
    assert!(!should_evict(3, 8 * 1024 * 1024, &s));
    assert!(!should_evict(0, 9 * 1024 * 1024, &s));
}

#[test]
fn eviction_loop_ends_within_limits() {
    // Simulate the eviction loop over a list of clip sizes, oldest first.
    let s = Settings { max_entries: 10, max_db_mb: 8, db_path: String::new() };
    let mut sizes: Vec<i64> = (0..12).map(|_| 1_000_000).collect();
    while should_evict(sizes.len() as i64, sizes.iter().sum(), &s) {
        sizes.remove(0);
    }
    assert_eq!(sizes.len(), 8);
}
