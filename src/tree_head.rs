//! Log commitments: tree heads, the auditor signatures over them, and the
//! stored pairing of a tree head with the root digest it commits to.

use vstd::prelude::*;

verus! {

/// Length in bytes of a Merkle root digest.
pub const ROOT_LENGTH: usize = 32;

/// An auditor's attestation over a tree head.
#[derive(Clone, Debug, PartialEq, Eq)]
pub struct Signature {
    pub auditor_public_key: Vec<u8>,
    pub signature: Vec<u8>,
}

/// The mathematical content of a [`Signature`].
pub struct SignatureView {
    pub auditor_public_key: Seq<u8>,
    pub signature: Seq<u8>,
}

impl View for Signature {
    type V = SignatureView;

    open spec fn view(&self) -> SignatureView {
        SignatureView {
            auditor_public_key: self.auditor_public_key@,
            signature: self.signature@,
        }
    }
}

impl SignatureView {
    /// Both the key reference and the signature bytes are there.
    pub open spec fn is_present(self) -> bool {
        self.auditor_public_key.len() > 0 && self.signature.len() > 0
    }
}

impl Signature {
    /// Whether both the key reference and the signature bytes are non-empty.
    pub fn is_present(&self) -> (r: bool)
        ensures
            r == self@.is_present(),
    {
        self.auditor_public_key.len() > 0 && self.signature.len() > 0
    }
}

/// A commitment to the log at one point in time.
#[derive(Clone, Debug, PartialEq, Eq)]
pub struct TreeHead {
    /// Number of entries in the log.
    pub tree_size: u64,
    /// Milliseconds since the Unix epoch.
    pub timestamp: i64,
    pub signatures: Vec<Signature>,
}

/// The mathematical content of a [`TreeHead`].
pub struct TreeHeadView {
    pub tree_size: u64,
    pub timestamp: i64,
    pub signatures: Seq<SignatureView>,
}

impl View for TreeHead {
    type V = TreeHeadView;

    open spec fn view(&self) -> TreeHeadView {
        TreeHeadView {
            tree_size: self.tree_size,
            timestamp: self.timestamp,
            signatures: self.signatures@.map_values(|s: Signature| s@),
        }
    }
}

/// A tree head as kept by a client, with the root digest it commits to.
#[derive(Clone, Debug, PartialEq, Eq)]
pub struct StoredTreeHead {
    pub tree_head: Option<TreeHead>,
    pub root: Vec<u8>,
}

/// The mathematical content of a [`StoredTreeHead`].
pub struct StoredTreeHeadView {
    pub tree_head: Option<TreeHeadView>,
    pub root: Seq<u8>,
}

/// The view of an optional tree head.
pub open spec fn tree_head_view(h: Option<TreeHead>) -> Option<TreeHeadView> {
    match h {
        Some(t) => Some(t@),
        None => None,
    }
}

impl View for StoredTreeHead {
    type V = StoredTreeHeadView;

    open spec fn view(&self) -> StoredTreeHeadView {
        StoredTreeHeadView { tree_head: tree_head_view(self.tree_head), root: self.root@ }
    }
}

impl StoredTreeHeadView {
    /// The size of the log that this head commits to, if it holds a tree head.
    pub open spec fn tree_size(self) -> Option<u64> {
        match self.tree_head {
            Some(t) => Some(t.tree_size),
            None => None,
        }
    }
}

impl StoredTreeHead {
    /// The size of the log that this head commits to, if it holds a tree head.
    pub fn tree_size(&self) -> (r: Option<u64>)
        ensures
            r == self@.tree_size(),
    {
        match &self.tree_head {
            Some(t) => Some(t.tree_size),
            None => None,
        }
    }
}

} // verus!
