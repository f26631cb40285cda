use table_props::entry_type::{RAW_ENTRY_DELETE, RAW_ENTRY_MERGE, RAW_ENTRY_PUT};
use table_props::put_stats::decimal_bytes;
use table_props::{
    CollectorHandle, FactoryHandle, PropertyMap, PutStatsCollector, PutStatsCollectorFactory,
    TableProperties, TablePropertiesCollection, TablePropertiesCollector,
    TablePropertiesCollectorFactoryContext, TablePropertiesCursor,
};

fn new_factory() -> FactoryHandle<PutStatsCollectorFactory> {
    FactoryHandle::new(PutStatsCollectorFactory::new())
}

/// Runs one table build over `records` and returns the table's metadata.
fn build_table(
    factory: &mut FactoryHandle<PutStatsCollectorFactory>,
    name: &str,
    records: &[(&[u8], &[u8], i32)],
) -> TableProperties {
    let mut collector = factory.create_collector(0);
    for (i, (k, v, t)) in records.iter().enumerate() {
        collector.add_user_key(k, v, *t, i as u64, 0);
    }
    collector.block_add(100, 60, 40);
    let mut user = PropertyMap::new();
    collector.finish_properties(&mut user);
    let mut readable = PropertyMap::new();
    collector.get_readable_properties(&mut readable);
    TableProperties::from_raw(name.to_string(), user, readable)
}

#[test]
fn test_table_properties_collector() {
    let path = "_table_properties_collector";
    let mut factory = new_factory();
    assert_eq!(factory.name(), "table-properties-collector-factory");
    let table = build_table(&mut factory, path, &[(b"k1", b"a", RAW_ENTRY_PUT)]);
    let collection =
        TablePropertiesCollection::from_raw(TablePropertiesCursor::new(vec![table]));
    assert_eq!(collection.tables.len(), 1);
    for table in collection.tables {
        let table_properties = table.user_collected_properties();
        let num_keys = table_properties
            .get(b"num-keys".as_slice())
            .expect("num-keys must exists");
        let num_keys =
            std::str::from_utf8(num_keys).expect("the value of num-keys is utf8 encoded");
        assert_eq!(num_keys, "1");
    }
}

#[test]
fn put_counter_reports_one_key_and_its_bytes() {
    let mut factory = new_factory();
    let table = build_table(&mut factory, "t", &[(b"k1", b"a", RAW_ENTRY_PUT)]);
    let props = table.user_collected_properties();
    assert_eq!(props.get(b"num-keys"), Some(b"1".as_slice()));
    assert_eq!(props.get(b"total-bytes"), Some(b"3".as_slice()));
    assert_eq!(props.len(), 2);
}

#[test]
fn put_counter_ignores_other_entry_types() {
    let mut factory = new_factory();
    let table = build_table(
        &mut factory,
        "t",
        &[(b"k1", b"", RAW_ENTRY_DELETE), (b"k2", b"m", RAW_ENTRY_MERGE)],
    );
    let props = table.user_collected_properties();
    assert_eq!(props.get(b"num-keys"), Some(b"0".as_slice()));
    assert_eq!(props.get(b"total-bytes"), Some(b"0".as_slice()));
}

#[test]
fn put_counter_saturates() {
    let mut c = PutStatsCollector { num_keys: u64::MAX, total_bytes: u64::MAX - 1 };
    c.add_user_key(b"ab", b"c", table_props::EntryType::Put, 0, 0);
    assert_eq!(c.num_keys, u64::MAX);
    assert_eq!(c.total_bytes, u64::MAX);
    let props = c.finish_properties();
    assert_eq!(props.get(b"num-keys"), Some(b"18446744073709551615".as_slice()));
}

#[test]
fn decimal_digits_are_exact() {
    assert_eq!(decimal_bytes(0), b"0".to_vec());
    assert_eq!(decimal_bytes(9), b"9".to_vec());
    assert_eq!(decimal_bytes(10), b"10".to_vec());
    assert_eq!(decimal_bytes(1203), b"1203".to_vec());
}

#[test]
fn properties_reflect_records_before_finish() {
    let mut factory = new_factory();
    let mut collector = factory.create_collector(2);
    collector.add_user_key(b"a", b"xy", RAW_ENTRY_PUT, 1, 10);
    collector.add_user_key(b"b", b"z", RAW_ENTRY_PUT, 2, 20);
    let mut user = PropertyMap::new();
    collector.finish_properties(&mut user);
    assert_eq!(user.get(b"num-keys"), Some(b"2".as_slice()));
    assert_eq!(user.get(b"total-bytes"), Some(b"5".as_slice()));
    let mut readable = PropertyMap::new();
    collector.get_readable_properties(&mut readable);
    assert_eq!(user.get(b"num-keys"), Some(b"2".as_slice()));
}

#[test]
fn factory_and_collector_names() {
    let mut factory = new_factory();
    let c1 = factory.create_collector(3);
    let c2 = factory.create_collector(5);
    assert_eq!(c1.name(), "table-properties-collector");
    assert_eq!(c2.name(), "table-properties-collector");
    assert_eq!(factory.name(), factory.name());
    let ctx = TablePropertiesCollectorFactoryContext::from_raw(4);
    assert_eq!(ctx.level_at_creation, 4);
}

#[test]
fn readable_properties_default_to_empty() {
    let mut factory = new_factory();
    let mut collector = factory.create_collector(0);
    let mut user = PropertyMap::new();
    collector.finish_properties(&mut user);
    let mut readable = PropertyMap::new();
    readable.insert(b"kept", b"1");
    collector.get_readable_properties(&mut readable);
    assert_eq!(readable.len(), 1);
    let mut empty = PropertyMap::new();
    PutStatsCollector { num_keys: 3, total_bytes: 4 }.get_readable_properties().add_all_to(&mut empty);
    assert!(empty.is_empty());
}

#[test]
fn block_add_leaves_counts_unchanged() {
    let mut collector = CollectorHandle::new(PutStatsCollector { num_keys: 0, total_bytes: 0 });
    collector.add_user_key(b"k", b"v", RAW_ENTRY_PUT, 0, 0);
    collector.block_add(4096, 1000, 800);
    let mut sink = PropertyMap::new();
    sink.insert(b"kept", b"1");
    collector.finish_properties(&mut sink);
    assert_eq!(sink.get(b"kept"), Some(b"1".as_slice()));
    assert_eq!(sink.get(b"num-keys"), Some(b"1".as_slice()));
    assert_eq!(sink.get(b"total-bytes"), Some(b"2".as_slice()));
    assert_eq!(sink.len(), 3);
}

#[test]
fn emitted_properties_round_trip_through_table() {
    let pairs: Vec<(Vec<u8>, Vec<u8>)> = vec![
        (b"zeta".to_vec(), vec![0, 255, 7]),
        (b"alpha".to_vec(), b"".to_vec()),
        (b"".to_vec(), b"empty key".to_vec()),
    ];
    let mut emitted = PropertyMap::new();
    for (k, v) in &pairs {
        emitted.insert(k, v);
    }
    let mut user = PropertyMap::new();
    emitted.add_all_to(&mut user);
    let table = TableProperties::from_raw("t".to_string(), user, PropertyMap::new());
    let back = table.user_collected_properties();
    assert_eq!(back.len(), pairs.len());
    for (k, v) in &pairs {
        assert_eq!(back.get(k), Some(v.as_slice()));
    }
    assert_eq!(back.entry(0), (b"".as_slice(), b"empty key".as_slice()));
    assert_eq!(back.entry(1), (b"alpha".as_slice(), b"".as_slice()));
    assert_eq!(back.entry(2), (b"zeta".as_slice(), [0u8, 255, 7].as_slice()));
    assert!(table.readable_properties().is_empty());
}

#[test]
fn properties_outlive_their_table() {
    let mut factory = new_factory();
    let table = build_table(&mut factory, "gone", &[(b"k", b"vv", RAW_ENTRY_PUT)]);
    assert_eq!(table.name(), "gone");
    let props = table.user_collected_properties();
    drop(table);
    assert_eq!(props.get(b"total-bytes"), Some(b"3".as_slice()));
}

#[test]
fn collection_keeps_reported_order() {
    let mut factory = new_factory();
    let tables = vec![
        build_table(&mut factory, "t1", &[]),
        build_table(&mut factory, "t2", &[(b"a", b"b", RAW_ENTRY_PUT)]),
        build_table(&mut factory, "t3", &[]),
    ];
    let collection = TablePropertiesCollection::from_raw(TablePropertiesCursor::new(tables));
    let names: Vec<&str> = collection.tables.iter().map(|t| t.name()).collect();
    assert_eq!(names, vec!["t1", "t2", "t3"]);
}

#[test]
fn cursor_past_the_end_stays_exhausted() {
    let mut factory = new_factory();
    let mut cursor = TablePropertiesCursor::new(vec![build_table(&mut factory, "only", &[])]);
    assert_eq!(cursor.next().map(|t| t.name().to_string()), Some("only".to_string()));
    assert!(cursor.next().is_none());
    assert!(cursor.next().is_none());
    let collection = TablePropertiesCollection::from_raw(cursor);
    assert!(collection.tables.is_empty());
}

#[test]
fn empty_enumeration_gives_empty_collection() {
    let collection = TablePropertiesCollection::from_raw(TablePropertiesCursor::new(vec![]));
    assert_eq!(collection.tables.len(), 0);
}
