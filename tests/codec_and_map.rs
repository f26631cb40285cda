use table_props::bytes_order::compare_bytes;
use table_props::{EntryType, PropertyMap};

#[test]
fn every_valid_tag_decodes_to_its_kind() {
    let kinds = [
        EntryType::Put,
        EntryType::Delete,
        EntryType::SingleDelete,
        EntryType::Merge,
        EntryType::RangeDeletion,
        EntryType::BlockIndex,
        EntryType::DeleteWithTimestamp,
        EntryType::WideColumnEntity,
        EntryType::TimedPut,
        EntryType::Other,
    ];
    for (i, kind) in kinds.iter().enumerate() {
        assert_eq!(EntryType::from_raw(i as i32), Some(*kind));
        assert_eq!(kind.to_raw(), i as i32);
    }
}

#[test]
fn invalid_tags_are_rejected() {
    for v in [-1, -100, i32::MIN, 10, 11, 1000, i32::MAX] {
        assert_eq!(EntryType::from_raw(v), None);
    }
}

#[test]
fn map_keeps_keys_in_byte_order() {
    let mut m = PropertyMap::new();
    m.insert(b"b", b"2");
    m.insert(b"ab", b"3");
    m.insert(b"a", b"1");
    m.insert(&[0xff], b"4");
    assert_eq!(m.len(), 4);
    assert_eq!(m.entry(0).0, b"a");
    assert_eq!(m.entry(1).0, b"ab");
    assert_eq!(m.entry(2).0, b"b");
    assert_eq!(m.entry(3).0, &[0xffu8]);
}

#[test]
fn equal_key_replaces_value() {
    let mut m = PropertyMap::new();
    m.insert(b"k", b"old");
    m.insert(b"k", b"new");
    assert_eq!(m.len(), 1);
    assert_eq!(m.get(b"k"), Some(b"new".as_slice()));
    assert_eq!(m.get(b"missing"), None);
}

#[test]
fn copies_are_independent() {
    let mut m = PropertyMap::new();
    m.insert(b"x", b"1");
    let c = m.copied();
    m.insert(b"x", b"2");
    assert_eq!(c.get(b"x"), Some(b"1".as_slice()));
    let mut sink = PropertyMap::new();
    sink.insert(b"x", b"0");
    sink.insert(b"y", b"9");
    m.add_all_to(&mut sink);
    assert_eq!(sink.get(b"x"), Some(b"2".as_slice()));
    assert_eq!(sink.get(b"y"), Some(b"9".as_slice()));
    assert!(PropertyMap::new().is_empty());
    assert!(!sink.is_empty());
}

#[test]
fn byte_comparison_is_lexicographic() {
    assert_eq!(compare_bytes(b"", b""), 0);
    assert_eq!(compare_bytes(b"", b"a"), -1);
    assert_eq!(compare_bytes(b"ab", b"a"), 1);
    assert_eq!(compare_bytes(b"abc", b"abd"), -1);
    assert_eq!(compare_bytes(&[200], &[100, 0]), 1);
    assert_eq!(compare_bytes(b"same", b"same"), 0);
}
