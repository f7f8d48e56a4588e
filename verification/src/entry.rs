//! The records that the map keeps: a value that a transaction wrote, or a
//! delta, each with a flag that tells whether the record is still to be
//! trusted.

use crate::delta::DeltaOp;
use std::sync::Arc;
use vstd::prelude::*;

verus! {

/// The position of a transaction in the serial order.
pub type TxnIndex = usize;

/// The number of the execution of a transaction: each new execution of one
/// transaction has a higher number.
pub type Incarnation = usize;

/// One execution of one transaction.
pub type Version = (TxnIndex, Incarnation);

/// The flag of a record whose transaction has finished.
pub const FLAG_DONE: usize = 0;

/// The flag of a record whose transaction is about to run again: what it
/// wrote is an estimate of what it will write.
pub const FLAG_ESTIMATE: usize = 1;

/// A value as the map stores it: the bytes that a transaction wrote and, where
/// they denote one, the integer that deltas apply to. The map does not read
/// the bytes.
#[derive(Clone, Debug, PartialEq, Eq)]
pub struct Value {
    pub bytes: Vec<u8>,
    pub number: Option<u128>,
}

/// The model of a [`Value`].
pub struct ValueView {
    pub bytes: Seq<u8>,
    pub number: Option<u128>,
}

impl View for Value {
    type V = ValueView;

    open spec fn view(&self) -> ValueView {
        ValueView { bytes: self.bytes@, number: self.number }
    }
}

impl Value {
    /// A value of the given bytes that denotes `number`.
    pub fn new(bytes: Vec<u8>, number: Option<u128>) -> (v: Value)
        ensures
            v@ == (ValueView { bytes: bytes@, number }),
    {
        Value { bytes, number }
    }

    /// The integer that the value denotes, if it denotes one.
    pub fn number(&self) -> (n: Option<u128>)
        ensures
            n == self@.number,
    {
        self.number
    }
}

/// What a record holds.
pub enum EntryCell<V> {
    /// A write: the incarnation of the transaction that wrote, and the value,
    /// shared with every reader that was given it.
    Write(Incarnation, Arc<V>),
    /// A delta.
    Delta(DeltaOp),
}

/// A record of the map: a flag and what the record holds.
pub struct Entry<V> {
    pub flag: usize,
    pub cell: EntryCell<V>,
}

/// The model of an [`EntryCell`].
pub enum CellView<T> {
    Write(Incarnation, T),
    Delta(DeltaOp),
}

/// The model of an [`Entry`].
pub struct EntryView<T> {
    pub flag: usize,
    pub cell: CellView<T>,
}

impl<T> EntryView<T> {
    /// Whether the record is marked as an estimate.
    pub open spec fn is_estimate(self) -> bool {
        self.flag == FLAG_ESTIMATE
    }
}

impl<V: View> View for EntryCell<V> {
    type V = CellView<V::V>;

    open spec fn view(&self) -> CellView<V::V> {
        match *self {
            EntryCell::Write(incarnation, data) => CellView::Write(incarnation, data@),
            EntryCell::Delta(delta) => CellView::Delta(delta),
        }
    }
}

impl<V: View> View for Entry<V> {
    type V = EntryView<V::V>;

    open spec fn view(&self) -> EntryView<V::V> {
        EntryView { flag: self.flag, cell: self.cell@ }
    }
}

impl<V: View> Entry<V> {
    /// A record of a write.
    pub fn new_write_from(flag: usize, incarnation: Incarnation, data: V) -> (e: Entry<V>)
        ensures
            e@ == (EntryView { flag, cell: CellView::Write(incarnation, data@) }),
    {
        Entry { flag, cell: EntryCell::Write(incarnation, Arc::new(data)) }
    }

    /// A record of a delta.
    pub fn new_delta_from(flag: usize, data: DeltaOp) -> (e: Entry<V>)
        ensures
            e@ == (EntryView { flag, cell: CellView::<V::V>::Delta(data) }),
    {
        Entry { flag, cell: EntryCell::Delta(data) }
    }

    /// The flag of the record.
    pub fn flag(&self) -> (f: usize)
        ensures
            f == self@.flag,
    {
        self.flag
    }

    /// Marks the record as an estimate; what it holds stays.
    pub fn mark_estimate(&mut self)
        ensures
            final(self)@ == (EntryView { flag: FLAG_ESTIMATE, cell: old(self)@.cell }),
    {
        self.flag = FLAG_ESTIMATE;
    }
}

} // verus!
