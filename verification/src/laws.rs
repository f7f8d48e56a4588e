//! What holds of the map whatever it contains.

use crate::delta::DeltaOp;
use crate::entry::{CellView, EntryView, TxnIndex, ValueView};
use crate::history::{gather, read_below, read_write, HistoryView};
use crate::model::{
    admits_write, done_write, has_entry, history_of, read_at, with_entry, with_estimate,
    without_entry,
};
use crate::output::{MVHashMapError, OutputView};
use crate::shards::TableView;
use vstd::prelude::*;

verus! {

/// Whether every record of the history from `low` up to `high`, `high` left
/// out, is a delta and no estimate.
pub open spec fn only_deltas(history: HistoryView, low: TxnIndex, high: TxnIndex) -> bool {
    forall|p: TxnIndex|
        low <= p < high && #[trigger] history.contains_key(p) ==> !history[p].is_estimate()
            && history[p].cell is Delta
}

/// Whether the history has no record from `low` up to `high`, `high` left
/// out.
pub open spec fn no_record(history: HistoryView, low: TxnIndex, high: TxnIndex) -> bool {
    forall|p: TxnIndex| low <= p < high ==> !#[trigger] history.contains_key(p)
}

/// What a reader has gathered that came down to `high` with `aggregator` and
/// went on down to `low` through deltas.
pub open spec fn gathered(
    history: HistoryView,
    low: TxnIndex,
    high: TxnIndex,
    aggregator: Option<DeltaOp>,
) -> Option<DeltaOp>
    decreases high - low,
{
    if low >= high {
        aggregator
    } else {
        let idx = (high - 1) as TxnIndex;
        let next = if history.contains_key(idx) && history[idx].cell is Delta {
            Some(gather(history[idx].cell->Delta_0, aggregator))
        } else {
            aggregator
        };
        gathered(history, low, idx, next)
    }
}

/// What the deltas that a reader gathered make of `base`; `base` itself where
/// it gathered none.
pub open spec fn apply_gathered(aggregator: Option<DeltaOp>, base: u128) -> Option<u128> {
    match aggregator {
        Some(delta) => delta.apply_spec(base),
        None => Some(base),
    }
}

/// What the deltas of the history from `low` up to `high`, `high` left out,
/// make of `base` when they are applied one after the other, the earliest
/// transaction first.
pub open spec fn apply_chain(history: HistoryView, low: TxnIndex, high: TxnIndex, base: u128) -> Option<
    u128,
>
    decreases high - low,
{
    if low >= high {
        Some(base)
    } else {
        let idx = (high - 1) as TxnIndex;
        match apply_chain(history, low, idx, base) {
            Some(below) => if history.contains_key(idx) && history[idx].cell is Delta {
                history[idx].cell->Delta_0.apply_spec(below)
            } else {
                Some(below)
            },
            None => None,
        }
    }
}

/// A reader passes through deltas that are no estimates, and gathers them.
pub proof fn lemma_read_through_deltas(
    history: HistoryView,
    low: TxnIndex,
    high: TxnIndex,
    aggregator: Option<DeltaOp>,
)
    requires
        low <= high,
        only_deltas(history, low, high),
    ensures
        read_below(history, high, aggregator) == read_below(
            history,
            low,
            gathered(history, low, high, aggregator),
        ),
    decreases high - low,
{
    if low < high {
        let idx = (high - 1) as TxnIndex;
        let next = if history.contains_key(idx) && history[idx].cell is Delta {
            Some(gather(history[idx].cell->Delta_0, aggregator))
        } else {
            aggregator
        };
        lemma_read_through_deltas(history, low, idx, next);
    }
}

/// What a reader gathered on its way down does to a base what the deltas that
/// it passed do to it in the order of their transactions, followed by what
/// it had gathered before.
pub proof fn lemma_gathered_applies_in_order(
    history: HistoryView,
    low: TxnIndex,
    high: TxnIndex,
    aggregator: Option<DeltaOp>,
    base: u128,
)
    ensures
        apply_gathered(gathered(history, low, high, aggregator), base) == (match apply_chain(
            history,
            low,
            high,
            base,
        ) {
            Some(shifted) => apply_gathered(aggregator, shifted),
            None => None,
        }),
    decreases high - low,
{
    if low < high {
        let idx = (high - 1) as TxnIndex;
        if history.contains_key(idx) && history[idx].cell is Delta {
            let delta = history[idx].cell->Delta_0;
            let next = Some(gather(delta, aggregator));
            lemma_gathered_applies_in_order(history, low, idx, next, base);
            match apply_chain(history, low, idx, base) {
                Some(below) => {
                    if let Some(later) = aggregator {
                        delta.lemma_followed_by(later, below);
                    }
                },
                None => {},
            }
        } else {
            lemma_gathered_applies_in_order(history, low, idx, aggregator, base);
        }
    }
}

/// A reader sees the records below it and no other: two histories that hold
/// the same records below `bound` read the same from `bound` down.
pub proof fn lemma_read_depends_on_lower(
    first: HistoryView,
    second: HistoryView,
    bound: TxnIndex,
    aggregator: Option<DeltaOp>,
)
    requires
        forall|p: TxnIndex|
            p < bound ==> (#[trigger] first.contains_key(p) <==> second.contains_key(p)),
        forall|p: TxnIndex| p < bound && #[trigger] first.contains_key(p) ==> first[p] == second[p],
    ensures
        read_below(first, bound, aggregator) == read_below(second, bound, aggregator),
    decreases bound,
{
    if bound > 0 {
        let idx = (bound - 1) as TxnIndex;
        assert(first.contains_key(idx) <==> second.contains_key(idx));
        if first.contains_key(idx) {
            assert(first[idx] == second[idx]);
            if !first[idx].is_estimate() {
                if let CellView::Delta(delta) = first[idx].cell {
                    lemma_read_depends_on_lower(first, second, idx, Some(gather(delta, aggregator)));
                }
            }
        } else {
            lemma_read_depends_on_lower(first, second, idx, aggregator);
        }
    }
}

/// What a reader gathers between two positions depends on the records
/// between them alone.
pub proof fn lemma_gathered_depends_on_range(
    first: HistoryView,
    second: HistoryView,
    low: TxnIndex,
    high: TxnIndex,
    aggregator: Option<DeltaOp>,
)
    requires
        forall|p: TxnIndex|
            low <= p < high ==> (#[trigger] first.contains_key(p) <==> second.contains_key(p)),
        forall|p: TxnIndex|
            low <= p < high && #[trigger] first.contains_key(p) ==> first[p] == second[p],
    ensures
        gathered(first, low, high, aggregator) == gathered(second, low, high, aggregator),
    decreases high - low,
{
    if low < high {
        let idx = (high - 1) as TxnIndex;
        assert(first.contains_key(idx) <==> second.contains_key(idx));
        let next = if first.contains_key(idx) && first[idx].cell is Delta {
            Some(gather(first[idx].cell->Delta_0, aggregator))
        } else {
            aggregator
        };
        lemma_gathered_depends_on_range(first, second, low, idx, next);
    }
}

/// A reader gathers nothing where there is no record: what it gathers from
/// `high` down to `low` is what it gathers down to `mid`, where no record is
/// below `mid`.
pub proof fn lemma_gathered_above(
    history: HistoryView,
    low: TxnIndex,
    mid: TxnIndex,
    high: TxnIndex,
    aggregator: Option<DeltaOp>,
)
    requires
        low <= mid <= high,
        no_record(history, low, mid),
    ensures
        gathered(history, low, high, aggregator) == gathered(history, mid, high, aggregator),
    decreases high - low,
{
    if low < high {
        let idx = (high - 1) as TxnIndex;
        if mid < high {
            let next = if history.contains_key(idx) && history[idx].cell is Delta {
                Some(gather(history[idx].cell->Delta_0, aggregator))
            } else {
                aggregator
            };
            lemma_gathered_above(history, low, mid, idx, next);
        } else {
            lemma_gathered_above(history, low, idx, idx, aggregator);
        }
    }
}

/// A reader that passed a delta has gathered one.
pub proof fn lemma_gathered_some(
    history: HistoryView,
    low: TxnIndex,
    high: TxnIndex,
    aggregator: Option<DeltaOp>,
    witness: TxnIndex,
)
    requires
        aggregator is Some || (low <= witness < high && history.contains_key(witness)
            && history[witness].cell is Delta),
    ensures
        gathered(history, low, high, aggregator) is Some,
    decreases high - low,
{
    if low < high {
        let idx = (high - 1) as TxnIndex;
        let next = if history.contains_key(idx) && history[idx].cell is Delta {
            Some(gather(history[idx].cell->Delta_0, aggregator))
        } else {
            aggregator
        };
        lemma_gathered_some(history, low, idx, next, witness);
    }
}

/// A write is seen by every later reader that no write and no estimate
/// stands in the way of: the reader at `reader` is given the version and the
/// value where no delta lies between, and else what the deltas between make
/// of the value.
pub proof fn lemma_write_is_read(
    table: TableView,
    key: Seq<u8>,
    txn_idx: TxnIndex,
    incarnation: usize,
    value: ValueView,
    reader: TxnIndex,
)
    requires
        txn_idx < reader,
        only_deltas(history_of(table, key), (txn_idx + 1) as TxnIndex, reader),
    ensures
        read_at(with_entry(table, key, txn_idx, done_write(incarnation, value)), key, reader)
            == read_write(
            txn_idx,
            incarnation,
            value,
            gathered(history_of(table, key), (txn_idx + 1) as TxnIndex, reader, None),
        ),
{
    let before = history_of(table, key);
    let after = history_of(with_entry(table, key, txn_idx, done_write(incarnation, value)), key);
    let above = (txn_idx + 1) as TxnIndex;
    assert(after == before.insert(txn_idx, done_write(incarnation, value)));
    assert(only_deltas(after, above, reader)) by {
        assert forall|p: TxnIndex| above <= p < reader && #[trigger] after.contains_key(p) implies
            !after[p].is_estimate() && after[p].cell is Delta by {
            assert(before.contains_key(p));
        }
    }
    lemma_read_through_deltas(after, above, reader, None);
    lemma_gathered_depends_on_range(after, before, above, reader, None);
}

/// Incarnations rise. After the execution `first` of a transaction wrote
/// under a key, a write by its execution `second` under that key is in order
/// if and only if `second` is above `first`. After both writes, a later
/// reader with no record between the transaction and itself is given the
/// second version and the second value.
pub proof fn law_incarnations_rise(
    table: TableView,
    key: Seq<u8>,
    txn_idx: TxnIndex,
    first: usize,
    first_value: ValueView,
    second: usize,
    second_value: ValueView,
    reader: TxnIndex,
)
    requires
        txn_idx < reader,
        no_record(history_of(table, key), (txn_idx + 1) as TxnIndex, reader),
    ensures
        admits_write(
            with_entry(table, key, txn_idx, done_write(first, first_value)),
            key,
            (txn_idx, second),
        ) <==> first < second,
        read_at(
            with_entry(
                with_entry(table, key, txn_idx, done_write(first, first_value)),
                key,
                txn_idx,
                done_write(second, second_value),
            ),
            key,
            reader,
        ) == Some(
            Ok::<OutputView<ValueView>, MVHashMapError>(
                OutputView::Version((txn_idx, second), second_value),
            ),
        ),
{
    let once = with_entry(table, key, txn_idx, done_write(first, first_value));
    let above = (txn_idx + 1) as TxnIndex;
    assert(history_of(once, key) == history_of(table, key).insert(
        txn_idx,
        done_write(first, first_value),
    ));
    assert(no_record(history_of(once, key), above, reader)) by {
        assert forall|p: TxnIndex| above <= p < reader implies !#[trigger] history_of(
            once,
            key,
        ).contains_key(p) by {
            assert(!history_of(table, key).contains_key(p));
        }
    }
    lemma_write_is_read(once, key, txn_idx, second, second_value, reader);
    lemma_gathered_above(history_of(once, key), above, reader, reader, None);
}

/// The boundary of what a reader sees. A record of the transaction `txn_idx`
/// changes nothing for a reader at or below `txn_idx`. A write by it is seen
/// by a reader above it that no write and no estimate stands in the way of.
pub proof fn law_visibility(
    table: TableView,
    key: Seq<u8>,
    txn_idx: TxnIndex,
    incarnation: usize,
    value: ValueView,
    reader: TxnIndex,
)
    ensures
        reader <= txn_idx ==> read_at(
            with_entry(table, key, txn_idx, done_write(incarnation, value)),
            key,
            reader,
        ) == read_at(table, key, reader),
        txn_idx < reader && only_deltas(history_of(table, key), (txn_idx + 1) as TxnIndex, reader)
            ==> read_at(
            with_entry(table, key, txn_idx, done_write(incarnation, value)),
            key,
            reader,
        ) == read_write(
            txn_idx,
            incarnation,
            value,
            gathered(history_of(table, key), (txn_idx + 1) as TxnIndex, reader, None),
        ),
        txn_idx < reader && no_record(history_of(table, key), (txn_idx + 1) as TxnIndex, reader)
            ==> read_at(
            with_entry(table, key, txn_idx, done_write(incarnation, value)),
            key,
            reader,
        ) == Some(
            Ok::<OutputView<ValueView>, MVHashMapError>(
                OutputView::Version((txn_idx, incarnation), value),
            ),
        ),
{
    let before = history_of(table, key);
    let after = history_of(with_entry(table, key, txn_idx, done_write(incarnation, value)), key);
    assert(after == before.insert(txn_idx, done_write(incarnation, value)));
    if reader <= txn_idx {
        lemma_read_depends_on_lower(after, before, reader, None);
    } else {
        let above = (txn_idx + 1) as TxnIndex;
        if only_deltas(before, above, reader) {
            lemma_write_is_read(table, key, txn_idx, incarnation, value, reader);
        }
        if no_record(before, above, reader) {
            lemma_write_is_read(table, key, txn_idx, incarnation, value, reader);
            lemma_gathered_above(before, above, reader, reader, None);
        }
    }
}

/// An estimate blocks. Where the record of `txn_idx` under a key is an
/// estimate, a later reader that no write and no other estimate stands in
/// the way of has to wait for `txn_idx`, whatever lies below.
pub proof fn law_estimate_blocks(
    table: TableView,
    key: Seq<u8>,
    txn_idx: TxnIndex,
    reader: TxnIndex,
)
    requires
        has_entry(table, key, txn_idx),
        table[key][txn_idx].is_estimate(),
        txn_idx < reader,
        only_deltas(history_of(table, key), (txn_idx + 1) as TxnIndex, reader),
    ensures
        read_at(table, key, reader) == Some(
            Err::<OutputView<ValueView>, MVHashMapError>(MVHashMapError::Dependency(txn_idx)),
        ),
{
    lemma_read_through_deltas(history_of(table, key), (txn_idx + 1) as TxnIndex, reader, None);
}

/// Marking blocks. Once the record of `txn_idx` under a key is marked as an
/// estimate, a later reader that no write and no other estimate stands in
/// the way of has to wait for `txn_idx`.
pub proof fn law_marking_blocks(table: TableView, key: Seq<u8>, txn_idx: TxnIndex, reader: TxnIndex)
    requires
        has_entry(table, key, txn_idx),
        txn_idx < reader,
        only_deltas(history_of(table, key), (txn_idx + 1) as TxnIndex, reader),
    ensures
        read_at(with_estimate(table, key, txn_idx), key, reader) == Some(
            Err::<OutputView<ValueView>, MVHashMapError>(MVHashMapError::Dependency(txn_idx)),
        ),
{
    let marked = with_estimate(table, key, txn_idx);
    let above = (txn_idx + 1) as TxnIndex;
    assert(only_deltas(history_of(marked, key), above, reader)) by {
        assert forall|p: TxnIndex|
            above <= p < reader && #[trigger] history_of(marked, key).contains_key(p) implies
            !history_of(marked, key)[p].is_estimate() && history_of(marked, key)[p].cell is Delta by {
            assert(history_of(table, key).contains_key(p));
        }
    }
    law_estimate_blocks(marked, key, txn_idx, reader);
}

/// Removal retracts. After a record was added for a transaction that had
/// none under the key, and removed again, every reader of the key is given
/// what it was given before.
pub proof fn law_removal_retracts(
    table: TableView,
    key: Seq<u8>,
    txn_idx: TxnIndex,
    entry: EntryView<ValueView>,
    reader: TxnIndex,
)
    requires
        !has_entry(table, key, txn_idx),
    ensures
        read_at(without_entry(with_entry(table, key, txn_idx, entry), key, txn_idx), key, reader)
            == read_at(table, key, reader),
{
    let after = history_of(
        without_entry(with_entry(table, key, txn_idx, entry), key, txn_idx),
        key,
    );
    assert(after =~= history_of(table, key));
}

/// Deltas chain. Where all that a reader finds are deltas, and it finds one,
/// it is given their composition, which does to a base what the deltas do to
/// it one after the other in the order of their transactions. Once a value
/// is written beneath them, the same reader is given what the composition
/// makes of the integer that the value denotes.
pub proof fn law_deltas_chain(
    table: TableView,
    key: Seq<u8>,
    reader: TxnIndex,
    found: TxnIndex,
    txn_idx: TxnIndex,
    incarnation: usize,
    value: ValueView,
    base: u128,
)
    requires
        only_deltas(history_of(table, key), 0, reader),
        found < reader,
        has_entry(table, key, found),
        txn_idx < reader,
        no_record(history_of(table, key), 0, (txn_idx + 1) as TxnIndex),
    ensures
        gathered(history_of(table, key), 0, reader, None) matches Some(composed) && {
            &&& read_at(table, key, reader) == Some(
                Err::<OutputView<ValueView>, MVHashMapError>(MVHashMapError::Unresolved(composed)),
            )
            &&& composed.apply_spec(base) == apply_chain(history_of(table, key), 0, reader, base)
            &&& read_at(
                with_entry(table, key, txn_idx, done_write(incarnation, value)),
                key,
                reader,
            ) == read_write(txn_idx, incarnation, value, Some(composed))
        },
{
    let history = history_of(table, key);
    let above = (txn_idx + 1) as TxnIndex;
    assert(history.contains_key(found));
    lemma_gathered_some(history, 0, reader, None, found);
    lemma_read_through_deltas(history, 0, reader, None);
    lemma_gathered_applies_in_order(history, 0, reader, None, base);
    lemma_gathered_above(history, 0, above, reader, None);
    assert(only_deltas(history, above, reader));
    lemma_write_is_read(table, key, txn_idx, incarnation, value, reader);
}

/// Keys do not touch each other: a record under one key changes nothing
/// for a reader of another.
pub proof fn law_keys_are_apart(
    table: TableView,
    key: Seq<u8>,
    txn_idx: TxnIndex,
    entry: EntryView<ValueView>,
    other: Seq<u8>,
    reader: TxnIndex,
)
    requires
        other != key,
    ensures
        read_at(with_entry(table, key, txn_idx, entry), other, reader) == read_at(
            table,
            other,
            reader,
        ),
{
}

} // verus!
