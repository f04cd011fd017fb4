use std::sync::Arc;

use phone_lookup_rs::{ErrorKind, PhoneData};

/// Build a database image: "TEST" version tag, the given records blob, and
/// one 9-byte index entry per (prefix, absolute offset, carrier code).
fn make_db(records: &[u8], entries: &[(i32, i32, u8)]) -> Vec<u8> {
    let mut bytes: Vec<u8> = Vec::new();
    bytes.extend_from_slice(b"TEST");
    let index_offset = 8 + records.len() as i32;
    bytes.extend_from_slice(&index_offset.to_le_bytes());
    bytes.extend_from_slice(records);
    for &(prefix, offset, card) in entries {
        bytes.extend_from_slice(&prefix.to_le_bytes());
        bytes.extend_from_slice(&offset.to_le_bytes());
        bytes.push(card);
    }
    bytes
}

fn example_engine() -> PhoneData {
    let bytes = make_db(b"Guangdong|Shenzhen|518000|0755\0", &[(1380013, 8, 1)]);
    PhoneData::decode(&bytes, true, 100).expect("database must decode")
}

#[test]
fn test_resolve_example() {
    let engine = example_engine();

    let info = engine.find("13800138000").unwrap();
    assert_eq!(info.province, "Guangdong");
    assert_eq!(info.city, "Shenzhen");
    assert_eq!(info.zip_code, "518000");
    assert_eq!(info.area_code, "0755");
    assert_eq!(info.card_type, "中国移动");

    // a bare 7-character query with the same prefix returns the same record
    let info7 = engine.find("1380013").unwrap();
    assert_eq!(info7.province, "Guangdong");
    assert_eq!(info7.city, "Shenzhen");
    assert_eq!(info7.zip_code, "518000");
    assert_eq!(info7.area_code, "0755");
    assert_eq!(info7.card_type, "中国移动");

    assert!(matches!(engine.find("9990000"), Err(ErrorKind::NotFound)));
    assert!(matches!(engine.find("123"), Err(ErrorKind::InvalidLength)));
}

#[test]
fn test_round_trip_minimal() {
    let bytes = make_db("四川|成都|610000|028\0".as_bytes(), &[(1234567, 8, 2)]);
    let engine = PhoneData::decode(&bytes, true, 10).unwrap();
    let info = engine.find("1234567").unwrap();
    assert_eq!(info.province, "四川");
    assert_eq!(info.city, "成都");
    assert_eq!(info.zip_code, "610000");
    assert_eq!(info.area_code, "028");
    assert_eq!(info.card_type, "中国联通");
}

#[test]
fn test_trailing_digits_do_not_matter() {
    let engine = example_engine();
    let a = engine.find("1380013").unwrap();
    let b = engine.find("13800139999").unwrap();
    let c = engine.find("138001300").unwrap();
    assert_eq!(a.province, b.province);
    assert_eq!(a.city, b.city);
    assert_eq!(a.zip_code, c.zip_code);
    assert_eq!(a.area_code, c.area_code);
    assert_eq!(a.card_type, c.card_type);
}

#[test]
fn test_invalid_length_bounds() {
    let engine = example_engine();
    assert!(matches!(engine.find(""), Err(ErrorKind::InvalidLength)));
    assert!(matches!(engine.find("123456"), Err(ErrorKind::InvalidLength)));
    assert!(matches!(engine.find("123456789012"), Err(ErrorKind::InvalidLength)));
    // 7 and 11 characters pass the length check
    assert!(matches!(engine.find("9999999"), Err(ErrorKind::NotFound)));
    assert!(matches!(engine.find("99999999999"), Err(ErrorKind::NotFound)));
    // rejected queries are not counted as hits and never reach the cache
    let stats = engine.get_cache_stats();
    assert_eq!(stats.size, 0);
    assert_eq!(stats.hits, 0);
}

#[test]
fn test_idempotent_resolution_counts_cache_hit() {
    let engine = example_engine();
    let first = engine.find("13800138000").unwrap();
    assert_eq!(engine.cache_hits(), 0);
    let second = engine.find("13800138000").unwrap();
    assert_eq!(first.province, second.province);
    assert_eq!(first.city, second.city);
    assert_eq!(first.zip_code, second.zip_code);
    assert_eq!(first.area_code, second.area_code);
    assert_eq!(first.card_type, second.card_type);
    assert_eq!(engine.cache_hits(), 1);
    assert_eq!(engine.query_count(), 2);
}

#[test]
fn test_cache_bound_stays_within_capacity() {
    let record = b"Guangdong|Shenzhen|518000|0755\0";
    let entries: Vec<(i32, i32, u8)> = (0..6).map(|i| (1380000 + i, 8, 1)).collect();
    let bytes = make_db(record, &entries);
    let engine = PhoneData::decode(&bytes, true, 3).unwrap();
    for i in 0..6 {
        let query = format!("138000{}", i);
        assert!(engine.find(&query).is_ok());
        assert!(engine.get_cache_stats().size <= 3);
    }
}

#[test]
fn test_repeated_queries_count_exactly() {
    let engine = example_engine();
    let n = 10;
    for _ in 0..n {
        let info = engine.find("13800138000").unwrap();
        assert_eq!(info.province, "Guangdong");
    }
    assert_eq!(engine.query_count(), n);
    assert_eq!(engine.cache_hits(), n - 1);
}

#[test]
fn test_shared_engine_handles_same_key() {
    // several handles to one engine, as concurrent callers would hold them
    let engine = Arc::new(example_engine());
    let n = 8;
    for _ in 0..n {
        let handle = Arc::clone(&engine);
        let info = handle.find("13800138000").unwrap();
        assert_eq!(info.province, "Guangdong");
        assert_eq!(info.card_type, "中国移动");
    }
    assert_eq!(engine.query_count(), n);
    assert!(engine.get_cache_stats().size <= 100);
}

#[test]
fn test_invalid_carrier_code() {
    let bytes = make_db(b"a|b|c|d\0", &[(1380013, 8, 9)]);
    let engine = PhoneData::decode(&bytes, true, 10).unwrap();
    assert!(matches!(engine.find("1380013"), Err(ErrorKind::InvalidOpNo)));
}

#[test]
fn test_offset_outside_blob() {
    let bytes = make_db(b"a|b|c|d\0", &[(1380013, 999, 1)]);
    let engine = PhoneData::decode(&bytes, true, 10).unwrap();
    assert!(matches!(engine.find("1380013"), Err(ErrorKind::InvalidPhoneDatabase)));

    let bytes = make_db(b"a|b|c|d\0", &[(1380013, 3, 1)]);
    let engine = PhoneData::decode(&bytes, true, 10).unwrap();
    assert!(matches!(engine.find("1380013"), Err(ErrorKind::InvalidPhoneDatabase)));
}

#[test]
fn test_wrong_field_count() {
    let bytes = make_db(b"only|three|fields\0", &[(1380013, 8, 1)]);
    let engine = PhoneData::decode(&bytes, true, 10).unwrap();
    assert!(matches!(engine.find("1380013"), Err(ErrorKind::InvalidPhoneDatabase)));

    let bytes = make_db(b"a|b|c|d|e\0", &[(1380013, 8, 1)]);
    let engine = PhoneData::decode(&bytes, true, 10).unwrap();
    assert!(matches!(engine.find("1380013"), Err(ErrorKind::InvalidPhoneDatabase)));
}

#[test]
fn test_record_with_invalid_utf8() {
    let bytes = make_db(&[0xFF, 0xFE, b'|', b'b', b'|', b'c', b'|', b'd', 0], &[(1380013, 8, 1)]);
    let engine = PhoneData::decode(&bytes, true, 10).unwrap();
    assert!(matches!(engine.find("1380013"), Err(ErrorKind::InvalidPhoneDatabase)));
}

#[test]
fn test_record_without_terminator_runs_to_end_of_blob() {
    // no zero byte: the record is the rest of the blob
    let bytes = make_db(b"x|y|z|w", &[(1380013, 8, 1)]);
    let engine = PhoneData::decode(&bytes, true, 10).unwrap();
    let info = engine.find("1380013").unwrap();
    assert_eq!(info.province, "x");
    assert_eq!(info.area_code, "w");
}

#[test]
fn test_decode_rejects_malformed_images() {
    // too short for a header
    assert!(matches!(
        PhoneData::decode(b"TES", true, 10),
        Err(ErrorKind::InvalidPhoneDatabase)
    ));
    // version tag is not UTF-8
    let mut bytes = vec![0xFF, 0xFE, 0xFD, 0xFC];
    bytes.extend_from_slice(&8i32.to_le_bytes());
    assert!(matches!(PhoneData::decode(&bytes, true, 10), Err(ErrorKind::InvalidPhoneDatabase)));
    // index offset before the end of the header
    let mut bytes = b"TEST".to_vec();
    bytes.extend_from_slice(&4i32.to_le_bytes());
    assert!(matches!(PhoneData::decode(&bytes, true, 10), Err(ErrorKind::InvalidPhoneDatabase)));
    // index offset past the end of the file
    let mut bytes = b"TEST".to_vec();
    bytes.extend_from_slice(&99i32.to_le_bytes());
    assert!(matches!(PhoneData::decode(&bytes, true, 10), Err(ErrorKind::InvalidPhoneDatabase)));
    // negative index offset
    let mut bytes = b"TEST".to_vec();
    bytes.extend_from_slice(&(-9i32).to_le_bytes());
    assert!(matches!(PhoneData::decode(&bytes, true, 10), Err(ErrorKind::InvalidPhoneDatabase)));
}

#[test]
fn test_short_trailing_index_chunk_is_ignored() {
    let mut bytes = make_db(b"a|b|c|d\0", &[(1380013, 8, 1)]);
    bytes.extend_from_slice(&[1, 2, 3]); // truncated final entry
    let engine = PhoneData::decode(&bytes, true, 10).unwrap();
    assert_eq!(engine.index_count(), 1);
    assert!(engine.find("1380013").is_ok());
}

#[test]
fn test_version_and_counts() {
    let engine = example_engine();
    assert_eq!(engine.version(), "TEST");
    assert_eq!(engine.index_count(), 1);
    assert_eq!(engine.get_total_records(), 1);
    assert_eq!(engine.query_count(), 0);
    assert_eq!(engine.cache_hits(), 0);
}

#[test]
fn test_clear_cache() {
    let engine = example_engine();
    engine.find("13800138000").unwrap();
    assert_eq!(engine.get_cache_stats().size, 1);
    assert!(engine.clear_cache().is_ok());
    assert_eq!(engine.get_cache_stats().size, 0);
    // counters are not reset by a clear
    assert_eq!(engine.query_count(), 1);
}

#[test]
fn test_clear_cache_disabled_is_config_error() {
    let bytes = make_db(b"a|b|c|d\0", &[(1380013, 8, 1)]);
    let engine = PhoneData::decode(&bytes, false, 10).unwrap();
    assert!(matches!(engine.clear_cache(), Err(ErrorKind::ConfigError)));
    assert!(matches!(engine.set_cache_size(50), Err(ErrorKind::ConfigError)));
}

#[test]
fn test_set_cache_size_only_clears() {
    let engine = example_engine();
    engine.find("13800138000").unwrap();
    assert_eq!(engine.get_cache_stats().size, 1);
    assert!(engine.set_cache_size(5).is_ok());
    let stats = engine.get_cache_stats();
    assert_eq!(stats.size, 0);
    // the capacity fixed at construction does not change
    assert_eq!(stats.max_size, 100);
}

#[test]
fn test_disabled_cache_never_fills() {
    let bytes = make_db(b"Guangdong|Shenzhen|518000|0755\0", &[(1380013, 8, 1)]);
    let engine = PhoneData::decode(&bytes, false, 10).unwrap();
    engine.find("1380013").unwrap();
    engine.find("1380013").unwrap();
    assert_eq!(engine.get_cache_stats().size, 0);
    assert_eq!(engine.cache_hits(), 0);
    assert_eq!(engine.query_count(), 2);
}

#[test]
fn test_clone_shares_database_and_cache() {
    let engine = example_engine();
    let copy = engine.clone();
    let a = engine.find("13800138000").unwrap();
    let b = copy.find("13800138000").unwrap();
    assert_eq!(a.province, b.province);
    assert_eq!(a.card_type, b.card_type);
    // the clone shares the cache, so its lookup was a hit
    assert_eq!(copy.cache_hits(), 1);
    assert_eq!(engine.get_cache_stats().size, 1);
    assert_eq!(copy.get_cache_stats().size, 1);
    assert_eq!(copy.version(), "TEST");
}
