//! What a read returns.

use crate::delta::DeltaOp;
use crate::entry::{TxnIndex, Version};
use std::sync::Arc;
use vstd::prelude::*;

verus! {

/// Why a read gave no value. Each of these is an ordinary outcome that the
/// scheduler acts on.
#[derive(Debug, PartialEq)]
pub enum MVHashMapError {
    /// No earlier transaction has a record under the key.
    NotFound,
    /// Only deltas were found: the composition of them all, with no value to
    /// apply it to.
    Unresolved(DeltaOp),
    /// The record of this earlier transaction is an estimate: the reader has
    /// to wait for it.
    Dependency(TxnIndex),
}

/// What a read found.
#[derive(Debug, PartialEq)]
pub enum MVHashMapOutput<V> {
    /// The integer that the deltas found make of the latest written value
    /// below them.
    Resolved(u128),
    /// The latest write: who wrote, and the value itself, shared, not copied.
    Version(Version, Arc<V>),
}

/// The model of an [`MVHashMapOutput`].
pub enum OutputView<T> {
    Resolved(u128),
    Version(Version, T),
}

impl<V: View> View for MVHashMapOutput<V> {
    type V = OutputView<V::V>;

    open spec fn view(&self) -> OutputView<V::V> {
        match *self {
            MVHashMapOutput::Resolved(value) => OutputView::Resolved(value),
            MVHashMapOutput::Version(version, data) => OutputView::Version(version, data@),
        }
    }
}

/// The model of the result of a read.
pub open spec fn result_view<V: View>(r: Result<MVHashMapOutput<V>, MVHashMapError>) -> Result<
    OutputView<V::V>,
    MVHashMapError,
> {
    match r {
        Ok(output) => Ok(output@),
        Err(error) => Err(error),
    }
}

} // verus!
