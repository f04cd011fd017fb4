use std::cmp::Ordering;

use phone_lookup_rs::{CardType, ErrorKind, Index, PhoneData, PhoneNoInfo, ResultCache};

/// A minimal decoded database: "TEST" version, empty records blob, empty
/// index.
fn create_mock_phone_data() -> PhoneData {
    let mut bytes: Vec<u8> = Vec::new();
    bytes.extend_from_slice(b"TEST");
    bytes.extend_from_slice(&8i32.to_le_bytes());
    PhoneData::decode(&bytes, true, 100).expect("minimal database must decode")
}

#[test]
fn test_four_u8_to_i32() {
    let bytes = [0x01, 0x02, 0x03, 0x04];
    let result = PhoneData::four_u8_to_i32(&bytes);
    assert_eq!(result, 0x04030201); // little-endian
}

#[test]
fn test_four_u8_to_i32_short() {
    let bytes = [0x01, 0x02];
    let result = PhoneData::four_u8_to_i32(&bytes);
    assert_eq!(result, 0x00000201); // padded with zeros
}

#[test]
fn test_parse_phone_prefix_valid() {
    let phone_data = create_mock_phone_data();
    let result = phone_data.parse_phone_prefix("1380013");
    assert!(result.is_ok());
    assert_eq!(result.unwrap(), 1380013);
}

#[test]
fn test_parse_phone_prefix_invalid_length() {
    let phone_data = create_mock_phone_data();
    let result = phone_data.parse_phone_prefix("123");
    assert!(matches!(result, Err(ErrorKind::InvalidLength)));
}

#[test]
fn test_parse_phone_prefix_invalid_chars() {
    let phone_data = create_mock_phone_data();
    let result = phone_data.parse_phone_prefix("138abc7");
    assert!(matches!(result, Err(ErrorKind::InvalidPhoneDatabase)));
}

#[test]
fn test_card_type_from_u8() {
    assert_eq!(CardType::from_u8(1).unwrap(), CardType::Cmcc);
    assert_eq!(CardType::from_u8(2).unwrap(), CardType::Cucc);
    assert_eq!(CardType::from_u8(3).unwrap(), CardType::Ctcc);

    assert!(matches!(CardType::from_u8(99), Err(ErrorKind::InvalidOpNo)));
}

#[test]
fn test_card_type_description() {
    assert_eq!(CardType::Cmcc.get_description(), "中国移动");
    assert_eq!(CardType::Cucc.get_description(), "中国联通");
    assert_eq!(CardType::Ctcc.get_description(), "中国电信");
}

#[test]
fn test_index_ordering() {
    let index1 = Index {
        phone_no_prefix: 1380000,
        records_offset: 100,
        card_type: 1,
    };
    let index2 = Index {
        phone_no_prefix: 1390000,
        records_offset: 200,
        card_type: 2,
    };

    assert!(index1 < index2);
    assert_eq!(index1.cmp(&index2), Ordering::Less);
}

#[test]
fn test_cache_functionality() {
    let mut cache = ResultCache::new(100);
    let phone_number = "1380013";

    let mock_result = PhoneNoInfo {
        province: "测试省".to_string(),
        city: "测试市".to_string(),
        zip_code: "000000".to_string(),
        area_code: "0000".to_string(),
        card_type: "测试运营商".to_string(),
    };

    cache.put(phone_number.to_string(), mock_result.clone());

    let cached_result = cache.get(phone_number).unwrap();
    assert_eq!(cached_result.province, "测试省");
    assert_eq!(cached_result.city, "测试市");
}
