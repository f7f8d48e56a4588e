//! A multi-version map for speculative, parallel execution of a block of
//! transactions.
//!
//! Every transaction has a position in the intended serial order. A
//! transaction records what it writes, or by how much it shifts an integer,
//! under its own position; a reader at position `t` is given the state of a key
//! as the transactions before `t` left it, or is told which earlier
//! transaction it has to wait for.

pub mod delta;
pub mod entry;
pub mod history;
pub mod laws;
pub mod map;
pub mod model;
pub mod output;
pub mod shards;

pub use crate::delta::{delta_add, delta_sub, DeltaOp, DeltaUpdate};
pub use crate::entry::{
    Entry, EntryCell, Incarnation, TxnIndex, Value, Version, FLAG_DONE, FLAG_ESTIMATE,
};
pub use crate::map::MVHashMap;
pub use crate::output::{MVHashMapError, MVHashMapOutput};
