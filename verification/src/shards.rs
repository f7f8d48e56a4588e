//! The concurrent table that holds one history for each key.

use crate::history::{history_view, History, HistoryView};
use dashmap::mapref::one::Ref;
use dashmap::DashMap;
use vstd::prelude::*;

verus! {

/// The concurrent table.
#[verifier::external_type_specification]
#[verifier::external_body]
#[verifier::reject_recursive_types(K)]
#[verifier::reject_recursive_types(V)]
#[verifier::reject_recursive_types(S)]
pub struct ExDashMap<K, V, S>(DashMap<K, V, S>);

/// Shared access to one item of the table, for as long as the value lives.
#[verifier::external_type_specification]
#[verifier::external_body]
#[verifier::reject_recursive_types(K)]
#[verifier::reject_recursive_types(V)]
#[verifier::reject_recursive_types(S)]
pub struct ExRef<'a, K, V, S>(Ref<'a, K, V, S>);

/// The model of a table: the model of a history for each key that it has.
pub type TableView = Map<Seq<u8>, HistoryView>;

/// What the table holds: for each key that it has, the model of the history
/// under that key.
pub uninterp spec fn histories(data: DashMap<Vec<u8>, History>) -> TableView;

/// The model of the history that the access is to.
pub uninterp spec fn guarded(guard: Ref<'_, Vec<u8>, History>) -> HistoryView;

/// `DashMap::new`: a table that holds nothing.
#[verifier::external_body]
pub(crate) fn shard_new() -> (data: DashMap<Vec<u8>, History>)
    ensures
        histories(data) == TableView::empty(),
{
    DashMap::new()
}

/// `DashMap::remove`: takes the item under `key` out of the table and returns
/// its history, or returns `None` and leaves the table as it is where it has
/// no such key.
#[verifier::external_body]
pub(crate) fn shard_take(data: &mut DashMap<Vec<u8>, History>, key: &Vec<u8>) -> (taken: Option<
    History,
>)
    ensures
        histories(*final(data)) == histories(*old(data)).remove(key@),
        match taken {
            Some(tree) => histories(*old(data)).contains_key(key@) && history_view(tree)
                == histories(*old(data))[key@],
            None => !histories(*old(data)).contains_key(key@),
        },
{
    data.remove(key).map(|(_, tree)| tree)
}

/// `DashMap::insert`: puts `tree` under `key`, in place of what was there.
#[verifier::external_body]
pub(crate) fn shard_put(data: &mut DashMap<Vec<u8>, History>, key: Vec<u8>, tree: History)
    ensures
        histories(*final(data)) == histories(*old(data)).insert(key@, history_view(tree)),
{
    data.insert(key, tree);
}

/// `DashMap::get`: shared access to the history under `key`, or `None` where
/// the table has no such key.
#[verifier::external_body]
pub(crate) fn shard_get<'a>(data: &'a DashMap<Vec<u8>, History>, key: &Vec<u8>) -> (found: Option<
    Ref<'a, Vec<u8>, History>,
>)
    ensures
        match found {
            Some(guard) => histories(*data).contains_key(key@) && guarded(guard) == histories(
                *data,
            )[key@],
            None => !histories(*data).contains_key(key@),
        },
{
    data.get(key)
}

/// `Ref::value`: the history that the access is to.
#[verifier::external_body]
pub(crate) fn guard_value<'a, 'b>(guard: &'b Ref<'a, Vec<u8>, History>) -> (tree: &'b History)
    ensures
        history_view(*tree) == guarded(*guard),
{
    guard.value()
}

} // verus!
