use keytrans_testing::identity_key::{IdentityKey, KeyError};
use keytrans_testing::monitoring::{
    filled_bytes, make_monitoring_data, StoredAccountData, StoredMonitoringData,
};
use keytrans_testing::search_result::{Aci, SearchResult, TESTING_ChatSearchResult, TEST_ACI};
use keytrans_testing::tree_head::{Signature, StoredTreeHead, TreeHead};
use std::collections::HashMap;

const KEY_BYTES: [u8; 33] = [
    0x05, 0x11, 0x1f, 0x94, 0x64, 0xc1, 0x82, 0x2c, 0x6a, 0x24, 0x05, 0xac, 0xf1, 0xc5, 0xa4,
    0x36, 0x66, 0x79, 0xdc, 0x33, 0x49, 0xfc, 0x8e, 0xb0, 0x15, 0xc8, 0xd7, 0x26, 0x0e, 0x3f,
    0x77, 0x11, 0x77,
];

fn tree_of_size(tree_size: u64) -> StoredTreeHead {
    StoredTreeHead {
        tree_head: Some(TreeHead { tree_size, timestamp: 0, signatures: vec![] }),
        root: vec![0; 32],
    }
}

fn record_at(pos: u64) -> StoredMonitoringData {
    StoredMonitoringData { index: vec![9; 32], pos, ptrs: HashMap::new(), owned: true }
}

#[test]
fn chat_search_result_is_deterministic() {
    assert_eq!(TESTING_ChatSearchResult(), TESTING_ChatSearchResult());
}

#[test]
fn chat_search_result_monitoring_records() {
    let r = TESTING_ChatSearchResult();
    let records = [
        (r.account_data.aci.as_ref().unwrap(), 0u8),
        (r.account_data.e164.as_ref().unwrap(), 1u8),
        (r.account_data.username_hash.as_ref().unwrap(), 2u8),
    ];
    for (m, byte) in records {
        assert_eq!(m.index, vec![byte; 32]);
        assert_eq!(m.pos, byte as u64);
        assert!(m.ptrs.is_empty());
        assert!(!m.owned);
    }
}

#[test]
fn chat_search_result_tree_head() {
    let r = TESTING_ChatSearchResult();
    let stored = r.account_data.last_tree_head.as_ref().unwrap();
    assert_eq!(stored.root, vec![42u8; 32]);
    let head = stored.tree_head.as_ref().unwrap();
    assert_eq!(head.tree_size, 42);
    assert_eq!(head.timestamp, 42424242);
    assert_eq!(
        head.signatures,
        vec![Signature { auditor_public_key: vec![1, 2, 3], signature: vec![4, 5, 6] }]
    );
    assert_eq!(stored.tree_size(), Some(42));
    assert!(head.signatures[0].is_present());
}

#[test]
fn chat_search_result_aliases() {
    let r = TESTING_ChatSearchResult();
    let expected = uuid::Uuid::parse_str("90c979fd-eab4-4a08-b6da-69dedeab9b29").unwrap();
    assert_eq!(TEST_ACI, expected.as_u128());
    assert_eq!(r.aci_for_e164, r.aci_for_username_hash);
    assert_eq!(r.aci_for_e164, Some(Aci { uuid: expected.as_u128() }));
    assert!(r.aliases_agree());
}

#[test]
fn chat_search_result_username_hash_record() {
    let r = TESTING_ChatSearchResult();
    let m = r.account_data.username_hash.unwrap();
    assert!(!m.owned);
    assert_eq!(m.ptrs, HashMap::new());
}

#[test]
fn chat_search_result_timestamp_and_consistency() {
    let r = TESTING_ChatSearchResult();
    assert_eq!(r.timestamp, 0);
    assert!(r.account_data.positions_within_tree());
}

#[test]
fn chat_search_result_identity_key_round_trip() {
    let r = TESTING_ChatSearchResult();
    assert_eq!(r.aci_identity_key.serialize(), KEY_BYTES.to_vec());
    assert_eq!(r.aci_identity_key.public_key(), &KEY_BYTES[1..]);
}

#[test]
fn decode_then_serialize_gives_the_input() {
    let mut bytes = [0u8; 33];
    bytes[0] = 0x05;
    for (i, b) in bytes.iter_mut().enumerate().skip(1) {
        *b = i as u8 * 7;
    }
    let key = IdentityKey::decode(&bytes).unwrap();
    assert_eq!(key.serialize(), bytes.to_vec());
    assert_eq!(key.public_key(), &bytes[1..]);
}

#[test]
fn decode_rejects_wrong_type_byte() {
    let mut bytes = KEY_BYTES;
    bytes[0] = 0x06;
    assert_eq!(IdentityKey::decode(&bytes), Err(KeyError::InvalidKeyEncoding));
}

#[test]
fn decode_rejects_wrong_length() {
    assert_eq!(IdentityKey::decode(&KEY_BYTES[..32]), Err(KeyError::InvalidKeyEncoding));
    let mut long = KEY_BYTES.to_vec();
    long.push(0);
    assert_eq!(IdentityKey::decode(&long), Err(KeyError::InvalidKeyEncoding));
    assert_eq!(IdentityKey::decode(&[]), Err(KeyError::InvalidKeyEncoding));
}

#[test]
fn largest_position_fits_only_largest_tree() {
    let small = StoredAccountData::checked(Some(record_at(u64::MAX)), None, None, Some(tree_of_size(42)));
    assert!(small.is_none());
    let large = StoredAccountData::checked(
        Some(record_at(u64::MAX)),
        None,
        None,
        Some(tree_of_size(u64::MAX)),
    );
    assert_eq!(large.unwrap().aci.unwrap().pos, u64::MAX);
}

#[test]
fn checked_rejects_any_record_beyond_tree() {
    let at_edge = StoredAccountData::checked(
        Some(record_at(42)),
        Some(record_at(0)),
        Some(record_at(42)),
        Some(tree_of_size(42)),
    );
    assert!(at_edge.is_some());
    let beyond = StoredAccountData::checked(
        Some(record_at(0)),
        Some(record_at(0)),
        Some(record_at(43)),
        Some(tree_of_size(42)),
    );
    assert!(beyond.is_none());
}

#[test]
fn checked_without_tree_head() {
    let empty = StoredAccountData::checked(None, None, None, None);
    assert!(empty.is_some());
    let orphan = StoredAccountData::checked(Some(record_at(0)), None, None, None);
    assert!(orphan.is_none());
    let headless = StoredTreeHead { tree_head: None, root: vec![0; 32] };
    assert_eq!(headless.tree_size(), None);
    let orphan = StoredAccountData::checked(None, Some(record_at(0)), None, Some(headless));
    assert!(orphan.is_none());
}

#[test]
fn aliases_disagree_when_different() {
    let mut r: SearchResult = TESTING_ChatSearchResult();
    r.aci_for_username_hash = Some(Aci { uuid: 7 });
    assert!(!r.aliases_agree());
    r.aci_for_e164 = None;
    assert!(r.aliases_agree());
    r.aci_for_username_hash = None;
    assert!(r.aliases_agree());
}

#[test]
fn make_monitoring_data_fills_label() {
    let m = make_monitoring_data(200);
    assert_eq!(m.index, vec![200u8; 32]);
    assert_eq!(m.pos, 200);
    assert!(m.ptrs.is_empty());
    assert!(!m.owned);
    assert_eq!(filled_bytes(9, 0), Vec::<u8>::new());
    assert_eq!(filled_bytes(9, 3), vec![9, 9, 9]);
}

#[test]
fn signature_presence() {
    let s = Signature { auditor_public_key: vec![], signature: vec![1] };
    assert!(!s.is_present());
    let s = Signature { auditor_public_key: vec![1], signature: vec![] };
    assert!(!s.is_present());
}
