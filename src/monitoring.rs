//! Per-identifier monitoring state and the account snapshot that groups it
//! with the most recently verified tree head.

use std::collections::HashMap;
use vstd::prelude::*;
use crate::tree_head::{StoredTreeHead, StoredTreeHeadView};

verus! {

/// Length in bytes of a monitoring label.
pub const INDEX_LENGTH: usize = 32;

/// A byte string of `len` copies of `byte`.
pub open spec fn repeated(byte: u8, len: nat) -> Seq<u8> {
    Seq::new(len, |_i: int| byte)
}

/// Builds `len` copies of `byte`.
pub fn filled_bytes(byte: u8, len: usize) -> (r: Vec<u8>)
    ensures
        r@ == repeated(byte, len as nat),
{
    let mut out: Vec<u8> = Vec::with_capacity(len);
    let mut i: usize = 0;
    while i < len
        invariant
            i <= len,
            out@ == repeated(byte, i as nat),
        decreases len - i,
    {
        out.push(byte);
        i += 1;
        assert(out@ =~= repeated(byte, i as nat));
    }
    out
}

/// What a client tracks of one identifier in the log.
#[derive(Clone, Debug, PartialEq, Eq)]
pub struct StoredMonitoringData {
    /// The identifier's label in the log.
    pub index: Vec<u8>,
    /// The last log position verified for the label.
    pub pos: u64,
    /// Auxiliary positions and their verification state.
    pub ptrs: HashMap<u64, u32>,
    /// Whether this client started monitoring the identifier itself.
    pub owned: bool,
}

/// The mathematical content of a [`StoredMonitoringData`].
pub struct StoredMonitoringDataView {
    pub index: Seq<u8>,
    pub pos: u64,
    pub ptrs: Map<u64, u32>,
    pub owned: bool,
}

impl View for StoredMonitoringData {
    type V = StoredMonitoringDataView;

    open spec fn view(&self) -> StoredMonitoringDataView {
        StoredMonitoringDataView {
            index: self.index@,
            pos: self.pos,
            ptrs: self.ptrs@,
            owned: self.owned,
        }
    }
}

/// The view of an optional monitoring record.
pub open spec fn monitoring_view(m: Option<StoredMonitoringData>) -> Option<StoredMonitoringDataView> {
    match m {
        Some(d) => Some(d@),
        None => None,
    }
}

/// The record that [`make_monitoring_data`] builds from `byte`.
pub open spec fn filled_monitoring_data(byte: u8) -> StoredMonitoringDataView {
    StoredMonitoringDataView {
        index: repeated(byte, INDEX_LENGTH as nat),
        pos: byte as u64,
        ptrs: Map::empty(),
        owned: false,
    }
}

/// A monitoring record whose label is 32 copies of `byte` and whose position
/// is `byte`, with no auxiliary positions, not owned by this client.
pub fn make_monitoring_data(byte: u8) -> (r: StoredMonitoringData)
    ensures
        r@ == filled_monitoring_data(byte),
{
    StoredMonitoringData {
        index: filled_bytes(byte, INDEX_LENGTH),
        pos: byte as u64,
        ptrs: HashMap::new(),
        owned: false,
    }
}

/// A present record lies within a log of the given size; a record with no
/// log to lie in does not.
pub open spec fn position_within(m: Option<StoredMonitoringDataView>, tree_size: Option<u64>) -> bool {
    match m {
        None => true,
        Some(d) => tree_size matches Some(s) && d.pos <= s,
    }
}

/// Whether an optional record lies within a log of the given size.
fn check_position(m: &Option<StoredMonitoringData>, tree_size: Option<u64>) -> (r: bool)
    ensures
        r == position_within(monitoring_view(*m), tree_size),
{
    match m {
        None => true,
        Some(d) => match tree_size {
            Some(s) => d.pos <= s,
            None => false,
        },
    }
}

/// An account's monitoring state, one record per identifier alias.
#[derive(Clone, Debug, PartialEq, Eq)]
pub struct StoredAccountData {
    pub aci: Option<StoredMonitoringData>,
    pub e164: Option<StoredMonitoringData>,
    pub username_hash: Option<StoredMonitoringData>,
    pub last_tree_head: Option<StoredTreeHead>,
}

/// The mathematical content of a [`StoredAccountData`].
pub struct StoredAccountDataView {
    pub aci: Option<StoredMonitoringDataView>,
    pub e164: Option<StoredMonitoringDataView>,
    pub username_hash: Option<StoredMonitoringDataView>,
    pub last_tree_head: Option<StoredTreeHeadView>,
}

/// The view of an optional stored tree head.
pub open spec fn stored_tree_head_view(h: Option<StoredTreeHead>) -> Option<StoredTreeHeadView> {
    match h {
        Some(t) => Some(t@),
        None => None,
    }
}

impl View for StoredAccountData {
    type V = StoredAccountDataView;

    open spec fn view(&self) -> StoredAccountDataView {
        StoredAccountDataView {
            aci: monitoring_view(self.aci),
            e164: monitoring_view(self.e164),
            username_hash: monitoring_view(self.username_hash),
            last_tree_head: stored_tree_head_view(self.last_tree_head),
        }
    }
}

impl StoredAccountDataView {
    /// The size of the log at the last verified tree head, if there is one.
    pub open spec fn tree_size(self) -> Option<u64> {
        match self.last_tree_head {
            Some(h) => h.tree_size(),
            None => None,
        }
    }

    /// Every present record's position lies within the last verified log.
    pub open spec fn positions_within_tree(self) -> bool {
        &&& position_within(self.aci, self.tree_size())
        &&& position_within(self.e164, self.tree_size())
        &&& position_within(self.username_hash, self.tree_size())
    }
}

impl StoredAccountData {
    /// Whether every present record's position lies within the last verified log.
    pub fn positions_within_tree(&self) -> (r: bool)
        ensures
            r == self@.positions_within_tree(),
    {
        let tree_size = match &self.last_tree_head {
            Some(h) => h.tree_size(),
            None => None,
        };
        check_position(&self.aci, tree_size) && check_position(&self.e164, tree_size)
            && check_position(&self.username_hash, tree_size)
    }

    /// Groups the records with the last verified tree head, or gives `None`
    /// where a present record's position lies beyond that log.
    pub fn checked(
        aci: Option<StoredMonitoringData>,
        e164: Option<StoredMonitoringData>,
        username_hash: Option<StoredMonitoringData>,
        last_tree_head: Option<StoredTreeHead>,
    ) -> (r: Option<StoredAccountData>)
        ensures
            ({
                let d = StoredAccountDataView {
                    aci: monitoring_view(aci),
                    e164: monitoring_view(e164),
                    username_hash: monitoring_view(username_hash),
                    last_tree_head: stored_tree_head_view(last_tree_head),
                };
                &&& r is Some <==> d.positions_within_tree()
                &&& r matches Some(a) ==> a@ == d
            }),
    {
        let data = StoredAccountData { aci, e164, username_hash, last_tree_head };
        if data.positions_within_tree() {
            Some(data)
        } else {
            None
        }
    }
}

/// A record at the largest representable position lies within a log only
/// when that log is just as large.
pub proof fn lemma_largest_position_needs_largest_tree(m: StoredMonitoringDataView, tree_size: u64)
    requires
        m.pos == u64::MAX,
    ensures
        position_within(Some(m), Some(tree_size)) <==> tree_size == u64::MAX,
{
}

} // verus!
