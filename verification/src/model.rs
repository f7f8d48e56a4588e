//! The map as a mathematical object: what each operation makes of it.

use crate::entry::{CellView, EntryView, TxnIndex, ValueView, Version, FLAG_DONE, FLAG_ESTIMATE};
use crate::delta::DeltaOp;
use crate::history::{read_spec, HistoryView};
use crate::output::{MVHashMapError, OutputView};
use crate::shards::TableView;
use vstd::prelude::*;

verus! {

/// The history under `key`; the empty history where the map has no such key.
pub open spec fn history_of(table: TableView, key: Seq<u8>) -> HistoryView {
    if table.contains_key(key) {
        table[key]
    } else {
        Map::empty()
    }
}

/// The record that a write leaves.
pub open spec fn done_write(incarnation: usize, value: ValueView) -> EntryView<ValueView> {
    EntryView { flag: FLAG_DONE, cell: CellView::Write(incarnation, value) }
}

/// The record that a delta leaves.
pub open spec fn done_delta(delta: DeltaOp) -> EntryView<ValueView> {
    EntryView { flag: FLAG_DONE, cell: CellView::Delta(delta) }
}

/// Whether the map has a record of the transaction `txn_idx` under `key`.
pub open spec fn has_entry(table: TableView, key: Seq<u8>, txn_idx: TxnIndex) -> bool {
    table.contains_key(key) && table[key].contains_key(txn_idx)
}

/// Whether a write of `version` under `key` is in order: where the
/// transaction has a write there already, it is of a lower incarnation.
pub open spec fn admits_write(table: TableView, key: Seq<u8>, version: Version) -> bool {
    has_entry(table, key, version.0) ==> match table[key][version.0].cell {
        CellView::Write(incarnation, _) => incarnation < version.1,
        CellView::Delta(_) => true,
    }
}

/// The map after `entry` became the record of `txn_idx` under `key`, in place
/// of the one that was there, if any.
pub open spec fn with_entry(
    table: TableView,
    key: Seq<u8>,
    txn_idx: TxnIndex,
    entry: EntryView<ValueView>,
) -> TableView {
    table.insert(key, history_of(table, key).insert(txn_idx, entry))
}

/// The map after the record of `txn_idx` under `key` was marked as an
/// estimate.
pub open spec fn with_estimate(table: TableView, key: Seq<u8>, txn_idx: TxnIndex) -> TableView {
    with_entry(
        table,
        key,
        txn_idx,
        EntryView { flag: FLAG_ESTIMATE, cell: table[key][txn_idx].cell },
    )
}

/// The map after the record of `txn_idx` under `key` was removed. The key
/// stays, also with no record left.
pub open spec fn without_entry(table: TableView, key: Seq<u8>, txn_idx: TxnIndex) -> TableView {
    table.insert(key, history_of(table, key).remove(txn_idx))
}

/// What the transaction at `txn_idx` reads under `key`: `None` where the read
/// cannot be done, else its result.
pub open spec fn read_at(table: TableView, key: Seq<u8>, txn_idx: TxnIndex) -> Option<
    Result<OutputView<ValueView>, MVHashMapError>,
> {
    read_spec(history_of(table, key), txn_idx)
}

} // verus!
