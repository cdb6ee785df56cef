//! A typed access layer over an ordered key-value store: record collections
//! bound to partitions and key types, records read in place, and
//! read-modify-write updates under a caller-chosen key.
pub mod collection;
pub mod keys;
pub mod protocol;

pub use collection::{record_or_corrupt, Collection, Error, Value};
pub use keys::{CaseInsensitiveString, Key};
pub use protocol::{
    engine_outcome, plan_commit, plan_write, resolve_partition, slot_from_decoded, WriteOp,
};
