//! Key-transparency lookup results: the verified state of an account's
//! identity-key bindings in an append-only transparency log, together with a
//! deterministic sample result for tests of the surrounding bindings.

pub mod identity_key;
pub mod monitoring;
pub mod search_result;
pub mod tree_head;
