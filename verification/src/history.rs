//! The history of one key: its records by transaction, and how a reader at a
//! given position sees them.

use crate::delta::DeltaOp;
use crate::entry::{CellView, Entry, EntryCell, EntryView, TxnIndex, Value, ValueView, FLAG_ESTIMATE};
use crate::output::{result_view, MVHashMapError, MVHashMapOutput, OutputView};
use crossbeam::utils::CachePadded;
use std::collections::btree_map::Range;
use std::collections::BTreeMap;
use std::sync::Arc;
use vstd::prelude::*;

verus! {

/// The padding that keeps two records out of one cache line.
#[verifier::external_type_specification]
#[verifier::external_body]
#[verifier::reject_recursive_types(T)]
pub struct ExCachePadded<T>(CachePadded<T>);

/// The records of one key, by the transaction that made them.
pub type History = BTreeMap<TxnIndex, CachePadded<Entry<Value>>>;

/// The model of the records of one key.
pub type HistoryView = Map<TxnIndex, EntryView<ValueView>>;

/// The record inside a padded record.
pub uninterp spec fn padded(p: CachePadded<Entry<Value>>) -> EntryView<ValueView>;

/// The model of a history: each record without its padding.
pub open spec fn history_view(tree: History) -> HistoryView {
    Map::new(|idx: TxnIndex| tree@.contains_key(idx), |idx: TxnIndex| padded(tree@[idx]))
}

/// `CachePadded::new`: the padded record holds the record given.
#[verifier::external_body]
pub(crate) fn pad(entry: Entry<Value>) -> (p: CachePadded<Entry<Value>>)
    ensures
        padded(p) == entry@,
{
    CachePadded::new(entry)
}

/// `Deref::deref` of `CachePadded`: a reference to the record that the padded
/// record holds.
#[verifier::external_body]
pub(crate) fn padded_ref(p: &CachePadded<Entry<Value>>) -> (entry: &Entry<Value>)
    ensures
        entry@ == padded(*p),
{
    std::ops::Deref::deref(p)
}

/// `CachePadded::into_inner`: the record that the padded record held.
#[verifier::external_body]
pub(crate) fn unpad(p: CachePadded<Entry<Value>>) -> (entry: Entry<Value>)
    ensures
        entry@ == padded(p),
{
    p.into_inner()
}

/// `Arc::clone`: another handle on the same value.
#[verifier::external_body]
pub(crate) fn share<T>(data: &Arc<T>) -> (shared: Arc<T>)
    ensures
        shared == *data,
{
    Arc::clone(data)
}

/// A walk over the records of a history between two positions.
#[verifier::external_type_specification]
#[verifier::external_body]
#[verifier::reject_recursive_types(K)]
#[verifier::reject_recursive_types(V)]
pub struct ExRange<'a, K, V>(Range<'a, K, V>);

/// The records that a walk has still to give, each with its transaction, in
/// the order of the transactions.
pub uninterp spec fn range_items(
    range: Range<'_, TxnIndex, CachePadded<Entry<Value>>>,
) -> Seq<(TxnIndex, EntryView<ValueView>)>;

/// Whether `items` are the records of the history below `bound`, each once,
/// in the order of their transactions.
pub open spec fn lists_below(
    history: HistoryView,
    bound: TxnIndex,
    items: Seq<(TxnIndex, EntryView<ValueView>)>,
) -> bool {
    &&& forall|i: int|
        0 <= i < items.len() ==> {
            let item = #[trigger] items[i];
            item.0 < bound && history.contains_key(item.0) && history[item.0] == item.1
        }
    &&& forall|i: int, j: int|
        0 <= i < j < items.len() ==> (#[trigger] items[i]).0 < (#[trigger] items[j]).0
    &&& forall|idx: TxnIndex|
        idx < bound && #[trigger] history.contains_key(idx) ==> exists|i: int|
            0 <= i < items.len() && (#[trigger] items[i]).0 == idx
}

/// `BTreeMap::range` from 0 up to `bound`, `bound` left out: a walk that has
/// the records below `bound` to give.
#[verifier::external_body]
pub(crate) fn history_range<'a>(tree: &'a History, bound: TxnIndex) -> (range: Range<
    'a,
    TxnIndex,
    CachePadded<Entry<Value>>,
>)
    ensures
        lists_below(history_view(*tree), bound, range_items(range)),
{
    tree.range(0..bound)
}

/// `next_back` of `Range`: takes the last of the records that the walk has
/// still to give, and returns it with its transaction; `None` where the walk
/// has none left.
#[verifier::external_body]
pub(crate) fn range_next_back<'a>(range: &mut Range<'a, TxnIndex, CachePadded<Entry<Value>>>) -> (item:
    Option<(&'a TxnIndex, &'a CachePadded<Entry<Value>>)>)
    ensures
        match item {
            Some((idx, p)) => {
                &&& range_items(*old(range)).len() > 0
                &&& range_items(*old(range)).last() == (*idx, padded(*p))
                &&& range_items(*final(range)) == range_items(*old(range)).drop_last()
            },
            None => range_items(*old(range)).len() == 0,
        },
{
    range.next_back()
}

/// What a reader is left with when no record is below it any more: the
/// deltas that it gathered, if any.
pub open spec fn read_end(aggregator: Option<DeltaOp>) -> Result<OutputView<ValueView>, MVHashMapError> {
    match aggregator {
        Some(delta) => Err(MVHashMapError::Unresolved(delta)),
        None => Err(MVHashMapError::NotFound),
    }
}

/// What a write gives a reader. One that gathered no delta is given the
/// version and the value. One that gathered deltas is given what they make of
/// the integer that the value denotes; `None` where it denotes no integer, or
/// where the deltas do not apply to it.
pub open spec fn read_write(
    idx: TxnIndex,
    incarnation: usize,
    value: ValueView,
    aggregator: Option<DeltaOp>,
) -> Option<Result<OutputView<ValueView>, MVHashMapError>> {
    match aggregator {
        None => Some(Ok(OutputView::Version((idx, incarnation), value))),
        Some(delta) => match value.number {
            Some(base) => match delta.apply_spec(base) {
                Some(resolved) => Some(Ok(OutputView::Resolved(resolved))),
                None => None,
            },
            None => None,
        },
    }
}

/// The deltas of a reader after it met `delta`, which is earlier than all
/// that it gathered before.
pub open spec fn gather(delta: DeltaOp, aggregator: Option<DeltaOp>) -> DeltaOp {
    match aggregator {
        Some(later) => delta.followed_by_spec(later),
        None => delta,
    }
}

/// What a reader sees that has gone down to `bound` and gathered
/// `aggregator` on its way: it goes on through the records below `bound`,
/// from the highest down, stops at the first estimate or write, and gathers
/// each delta that it meets.
pub open spec fn read_below(history: HistoryView, bound: TxnIndex, aggregator: Option<DeltaOp>) -> Option<
    Result<OutputView<ValueView>, MVHashMapError>,
>
    decreases bound,
{
    if bound == 0 {
        Some(read_end(aggregator))
    } else {
        let idx = (bound - 1) as TxnIndex;
        if !history.contains_key(idx) {
            read_below(history, idx, aggregator)
        } else if history[idx].is_estimate() {
            Some(Err(MVHashMapError::Dependency(idx)))
        } else {
            match history[idx].cell {
                CellView::Write(incarnation, value) => read_write(idx, incarnation, value, aggregator),
                CellView::Delta(delta) => read_below(history, idx, Some(gather(delta, aggregator))),
            }
        }
    }
}

/// What the transaction at `txn_idx` reads from a history: `None` where the
/// read cannot be done, else its result.
pub open spec fn read_spec(history: HistoryView, txn_idx: TxnIndex) -> Option<
    Result<OutputView<ValueView>, MVHashMapError>,
> {
    read_below(history, txn_idx, None)
}

/// The model of what an attempt to read returned.
pub open spec fn attempt_view(
    r: Option<Result<MVHashMapOutput<Value>, MVHashMapError>>,
) -> Option<Result<OutputView<ValueView>, MVHashMapError>> {
    match r {
        Some(result) => Some(result_view(result)),
        None => None,
    }
}

/// A reader passes the positions that hold no record.
pub proof fn lemma_read_skips(
    history: HistoryView,
    low: TxnIndex,
    high: TxnIndex,
    aggregator: Option<DeltaOp>,
)
    requires
        low <= high,
        forall|j: TxnIndex| low <= j < high ==> !history.contains_key(j),
    ensures
        read_below(history, high, aggregator) == read_below(history, low, aggregator),
    decreases high - low,
{
    if low < high {
        lemma_read_skips(history, low, (high - 1) as TxnIndex, aggregator);
    }
}

/// One step of a walk from the top: the last of the records below `bound`
/// has nothing between itself and `bound`, and the others are the records
/// below it.
pub proof fn lemma_walk_steps(
    history: HistoryView,
    bound: TxnIndex,
    items: Seq<(TxnIndex, EntryView<ValueView>)>,
)
    requires
        lists_below(history, bound, items),
        items.len() > 0,
    ensures
        items.last().0 < bound,
        history.contains_key(items.last().0),
        history[items.last().0] == items.last().1,
        forall|j: TxnIndex| items.last().0 < j < bound ==> !history.contains_key(j),
        lists_below(history, items.last().0, items.drop_last()),
{
    let last = items.len() - 1;
    let rest = items.drop_last();
    assert(items[last] == items.last());
    assert forall|j: TxnIndex| items.last().0 < j < bound implies !history.contains_key(j) by {
        if history.contains_key(j) {
            let i = choose|i: int| 0 <= i < items.len() && (#[trigger] items[i]).0 == j;
            if i < last {
                assert(items[i].0 < items[last].0);
            }
        }
    }
    assert forall|idx: TxnIndex| idx < items.last().0 && #[trigger] history.contains_key(
        idx,
    ) implies exists|i: int| 0 <= i < rest.len() && (#[trigger] rest[i]).0 == idx by {
        let i = choose|i: int| 0 <= i < items.len() && (#[trigger] items[i]).0 == idx;
        assert(rest[i] == items[i]);
    }
    assert forall|i: int| 0 <= i < rest.len() implies {
        let item = #[trigger] rest[i];
        item.0 < items.last().0 && history.contains_key(item.0) && history[item.0] == item.1
    } by {
        assert(rest[i] == items[i]);
        assert(items[i].0 < items[last].0);
    }
    assert forall|i: int, j: int| 0 <= i < j < rest.len() implies (#[trigger] rest[i]).0 < (
    #[trigger] rest[j]).0 by {
        assert(rest[i] == items[i]);
        assert(rest[j] == items[j]);
    }
}

/// Reads a history as the transaction at `txn_idx`. Returns `None` where a
/// delta has to be applied to a written value and cannot be: the value
/// denotes no integer, or the delta does not apply to it.
pub fn read_history(tree: &History, txn_idx: TxnIndex) -> (r: Option<
    Result<MVHashMapOutput<Value>, MVHashMapError>,
>)
    ensures
        attempt_view(r) == read_spec(history_view(*tree), txn_idx),
{
    let ghost history = history_view(*tree);
    let ghost mut bound: TxnIndex = txn_idx;
    let mut range = history_range(tree, txn_idx);
    let mut aggregator: Option<DeltaOp> = None;
    loop
        invariant
            history == history_view(*tree),
            lists_below(history, bound, range_items(range)),
            read_below(history, bound, aggregator) == read_spec(history, txn_idx),
        decreases range_items(range).len(),
    {
        let ghost items = range_items(range);
        match range_next_back(&mut range) {
            None => {
                proof {
                    lemma_read_skips(history, 0, bound, aggregator);
                }
                return Some(
                    match aggregator {
                        Some(delta) => Err(MVHashMapError::Unresolved(delta)),
                        None => Err(MVHashMapError::NotFound),
                    },
                );
            },
            Some((idx, item)) => {
                proof {
                    lemma_walk_steps(history, bound, items);
                    lemma_read_skips(history, (*idx + 1) as TxnIndex, bound, aggregator);
                    bound = *idx;
                }
                let entry = padded_ref(item);
                if entry.flag() == FLAG_ESTIMATE {
                    return Some(Err(MVHashMapError::Dependency(*idx)));
                }
                match &entry.cell {
                    EntryCell::Write(incarnation, data) => {
                        return match aggregator {
                            None => Some(
                                Ok(MVHashMapOutput::Version((*idx, *incarnation), share(data))),
                            ),
                            Some(delta) => match data.number() {
                                Some(base) => match delta.apply_to(base) {
                                    Some(resolved) => Some(Ok(MVHashMapOutput::Resolved(resolved))),
                                    None => None,
                                },
                                None => None,
                            },
                        };
                    },
                    EntryCell::Delta(delta) => {
                        aggregator = Some(
                            match aggregator {
                                Some(later) => delta.followed_by(&later),
                                None => *delta,
                            },
                        );
                    },
                }
            },
        }
    }
}

} // verus!
