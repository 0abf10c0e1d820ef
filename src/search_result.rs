//! The outcome of a key-transparency lookup, and a fixed sample of it for
//! tests of the code that carries it across language bindings.

use vstd::prelude::*;
use crate::identity_key::{IdentityKey, KeyError, is_key_encoding, decoded_key};
use crate::monitoring::{
    StoredAccountData, StoredAccountDataView, StoredMonitoringDataView, filled_bytes,
    filled_monitoring_data, make_monitoring_data, repeated,
};
use crate::tree_head::{
    Signature, SignatureView, StoredTreeHead, StoredTreeHeadView, TreeHead, TreeHeadView,
    ROOT_LENGTH,
};

verus! {

/// A primary account identifier: a UUID, as its 128 bits in big-endian order.
#[derive(Clone, Copy, Debug, PartialEq, Eq, Structural, Hash)]
pub struct Aci {
    pub uuid: u128,
}

/// The identifier that the sample result binds both aliases to,
/// 90c979fd-eab4-4a08-b6da-69dedeab9b29.
pub const TEST_ACI: u128 = 0x90c979fd_eab4_4a08_b6da_69dedeab9b29;

/// Aliases that both resolve name the same account.
pub open spec fn aliases_agree(for_e164: Option<Aci>, for_username_hash: Option<Aci>) -> bool {
    match (for_e164, for_username_hash) {
        (Some(a), Some(b)) => a == b,
        _ => true,
    }
}

/// What a lookup found for an account.
#[derive(Clone, Debug, PartialEq, Eq)]
pub struct SearchResult {
    pub aci_identity_key: IdentityKey,
    pub aci_for_e164: Option<Aci>,
    pub aci_for_username_hash: Option<Aci>,
    /// When the lookup was made, in milliseconds since the Unix epoch.
    pub timestamp: u64,
    pub account_data: StoredAccountData,
}

/// The mathematical content of a [`SearchResult`].
pub struct SearchResultView {
    pub aci_identity_key: Seq<u8>,
    pub aci_for_e164: Option<Aci>,
    pub aci_for_username_hash: Option<Aci>,
    pub timestamp: u64,
    pub account_data: StoredAccountDataView,
}

impl View for SearchResult {
    type V = SearchResultView;

    open spec fn view(&self) -> SearchResultView {
        SearchResultView {
            aci_identity_key: self.aci_identity_key@,
            aci_for_e164: self.aci_for_e164,
            aci_for_username_hash: self.aci_for_username_hash,
            timestamp: self.timestamp,
            account_data: self.account_data@,
        }
    }
}

impl SearchResult {
    /// Whether the two alias bindings do not contradict each other.
    pub fn aliases_agree(&self) -> (r: bool)
        ensures
            r == aliases_agree(self.aci_for_e164, self.aci_for_username_hash),
    {
        match (self.aci_for_e164, self.aci_for_username_hash) {
            (Some(a), Some(b)) => a == b,
            _ => true,
        }
    }
}

/// The serialized identity key of the sample account.
pub open spec fn test_identity_key_bytes() -> Seq<u8> {
    seq![
        0x05u8, 0x11, 0x1f, 0x94, 0x64, 0xc1, 0x82, 0x2c, 0x6a, 0x24, 0x05, 0xac, 0xf1, 0xc5,
        0xa4, 0x36, 0x66, 0x79, 0xdc, 0x33, 0x49, 0xfc, 0x8e, 0xb0, 0x15, 0xc8, 0xd7, 0x26,
        0x0e, 0x3f, 0x77, 0x11, 0x77,
    ]
}

/// The tree head of the sample result.
pub open spec fn test_tree_head() -> StoredTreeHeadView {
    StoredTreeHeadView {
        tree_head: Some(
            TreeHeadView {
                tree_size: 42,
                timestamp: 42424242,
                signatures: seq![
                    SignatureView {
                        auditor_public_key: seq![1u8, 2, 3],
                        signature: seq![4u8, 5, 6],
                    },
                ],
            },
        ),
        root: repeated(42, ROOT_LENGTH as nat),
    }
}

/// The sample result: both aliases bound to the test identifier, records
/// filled with 0, 1 and 2 for the three aliases, and a tree of 42 entries.
pub open spec fn test_search_result() -> SearchResultView {
    SearchResultView {
        aci_identity_key: decoded_key(test_identity_key_bytes()),
        aci_for_e164: Some(Aci { uuid: TEST_ACI }),
        aci_for_username_hash: Some(Aci { uuid: TEST_ACI }),
        timestamp: 0,
        account_data: StoredAccountDataView {
            aci: Some(filled_monitoring_data(0)),
            e164: Some(filled_monitoring_data(1)),
            username_hash: Some(filled_monitoring_data(2)),
            last_tree_head: Some(test_tree_head()),
        },
    }
}

/// The fixed sample lookup result; every call gives the same value.
#[allow(non_snake_case)]
pub fn TESTING_ChatSearchResult() -> (r: SearchResult)
    ensures
        r@ == test_search_result(),
{
    let aci = Aci { uuid: TEST_ACI };
    let signatures: Vec<Signature> = vec![Signature {
        auditor_public_key: vec![1u8, 2, 3],
        signature: vec![4u8, 5, 6],
    }];
    let last_tree_head = StoredTreeHead {
        tree_head: Some(TreeHead { tree_size: 42, timestamp: 42424242, signatures }),
        root: filled_bytes(42, ROOT_LENGTH),
    };
    let key_bytes: Vec<u8> = vec![
        0x05u8, 0x11, 0x1f, 0x94, 0x64, 0xc1, 0x82, 0x2c, 0x6a, 0x24, 0x05, 0xac, 0xf1, 0xc5,
        0xa4, 0x36, 0x66, 0x79, 0xdc, 0x33, 0x49, 0xfc, 0x8e, 0xb0, 0x15, 0xc8, 0xd7, 0x26,
        0x0e, 0x3f, 0x77, 0x11, 0x77,
    ];
    assert(key_bytes@ =~= test_identity_key_bytes());
    let aci_identity_key = IdentityKey::decode(key_bytes.as_slice()).unwrap();
    let r = SearchResult {
        aci_identity_key,
        aci_for_e164: Some(aci),
        aci_for_username_hash: Some(aci),
        timestamp: 0,
        account_data: StoredAccountData {
            aci: Some(make_monitoring_data(0)),
            e164: Some(make_monitoring_data(1)),
            username_hash: Some(make_monitoring_data(2)),
            last_tree_head: Some(last_tree_head),
        },
    };
    assert(r@.account_data.last_tree_head->0.tree_head->0.signatures =~= test_tree_head().tree_head->0.signatures);
    r
}

} // verus!
