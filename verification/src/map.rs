//! The multi-version map.

use crate::delta::DeltaOp;
use crate::entry::{Entry, EntryCell, TxnIndex, Value, Version, FLAG_DONE};
use crate::history::{
    attempt_view, history_view, lemma_read_skips, pad, padded_ref, read_history, unpad, History,
};
use crate::model::{
    admits_write, history_of, done_delta, done_write, has_entry, read_at, with_entry, with_estimate,
    without_entry,
};
use crate::output::{result_view, MVHashMapError, MVHashMapOutput};
use crate::shards::{guard_value, histories, shard_get, shard_new, shard_put, shard_take, TableView};
use dashmap::DashMap;
use std::collections::BTreeMap;
use vstd::pervasive::unreached;
use vstd::prelude::*;

verus! {

/// The multi-version map: under each key, the records that the transactions
/// of a block left there, by transaction.
pub struct MVHashMap {
    data: DashMap<Vec<u8>, History>,
}

impl View for MVHashMap {
    type V = TableView;

    closed spec fn view(&self) -> TableView {
        histories(self.data)
    }
}

impl MVHashMap {
    /// A map with no key.
    pub fn new() -> (map: MVHashMap)
        ensures
            map@ == TableView::empty(),
    {
        MVHashMap { data: shard_new() }
    }

    /// Makes `entry` the record of `txn_idx` under `key`.
    fn put(&mut self, key: &Vec<u8>, txn_idx: TxnIndex, entry: Entry<Value>)
        ensures
            final(self)@ == with_entry(old(self)@, key@, txn_idx, entry@),
    {
        broadcast use vstd::laws_cmp::group_laws_cmp;

        let mut tree = match shard_take(&mut self.data, key) {
            Some(tree) => tree,
            None => BTreeMap::new(),
        };
        let ghost before = history_view(tree);
        assert(before =~= history_of(old(self)@, key@));
        tree.insert(txn_idx, pad(entry));
        assert(history_view(tree) =~= before.insert(txn_idx, entry@));
        let owned_key = key.clone();
        assert(owned_key@ =~= key@);
        shard_put(&mut self.data, owned_key, tree);
        assert(self@ =~= with_entry(old(self)@, key@, txn_idx, entry@));
    }

    /// Records that the execution `version` wrote `data` under `key`. The new
    /// record takes the place of the one that the transaction had there, and
    /// is no estimate.
    pub fn add_write(&mut self, key: &Vec<u8>, version: Version, data: Value)
        requires
            admits_write(old(self)@, key@, version),
        ensures
            final(self)@ == with_entry(old(self)@, key@, version.0, done_write(version.1, data@)),
    {
        let (txn_idx, incarnation) = version;
        self.put(key, txn_idx, Entry::new_write_from(FLAG_DONE, incarnation, data));
    }

    /// Records that the transaction `txn_idx` applies `delta` under `key`. The
    /// new record takes the place of the one that the transaction had there,
    /// and is no estimate.
    pub fn add_delta(&mut self, key: &Vec<u8>, txn_idx: TxnIndex, delta: DeltaOp)
        ensures
            final(self)@ == with_entry(old(self)@, key@, txn_idx, done_delta(delta)),
    {
        self.put(key, txn_idx, Entry::new_delta_from(FLAG_DONE, delta));
    }

    /// Marks the record of `txn_idx` under `key` as an estimate: a reader
    /// that comes to it has to wait.
    pub fn mark_estimate(&mut self, key: &Vec<u8>, txn_idx: TxnIndex)
        requires
            has_entry(old(self)@, key@, txn_idx),
        ensures
            final(self)@ == with_estimate(old(self)@, key@, txn_idx),
    {
        broadcast use vstd::laws_cmp::group_laws_cmp;

        match shard_take(&mut self.data, key) {
            Some(mut tree) => {
                let ghost before = history_view(tree);
                match tree.remove(&txn_idx) {
                    Some(item) => {
                        let mut entry = unpad(item);
                        entry.mark_estimate();
                        tree.insert(txn_idx, pad(entry));
                        assert(history_view(tree) =~= before.insert(txn_idx, entry@));
                    },
                    None => {
                        assert(false);
                    },
                }
                let owned_key = key.clone();
                assert(owned_key@ =~= key@);
                shard_put(&mut self.data, owned_key, tree);
                assert(self@ =~= with_estimate(old(self)@, key@, txn_idx));
            },
            None => {
                assert(false);
            },
        }
    }

    /// Removes the record of `txn_idx` under `key`. Where there is none, the
    /// map stays as it is.
    pub fn delete(&mut self, key: &Vec<u8>, txn_idx: TxnIndex)
        requires
            old(self)@.contains_key(key@),
        ensures
            final(self)@ == without_entry(old(self)@, key@, txn_idx),
    {
        broadcast use vstd::laws_cmp::group_laws_cmp;

        match shard_take(&mut self.data, key) {
            Some(mut tree) => {
                let ghost before = history_view(tree);
                tree.remove(&txn_idx);
                assert(history_view(tree) =~= before.remove(txn_idx));
                let owned_key = key.clone();
                assert(owned_key@ =~= key@);
                shard_put(&mut self.data, owned_key, tree);
                assert(self@ =~= without_entry(old(self)@, key@, txn_idx));
            },
            None => {
                assert(false);
            },
        }
    }

    /// Reads under `key` as the transaction `txn_idx`, which sees the records
    /// of the transactions before it and no other. Returns `None` where a
    /// delta has to be applied to a written value and cannot be.
    pub fn try_read(&self, key: &Vec<u8>, txn_idx: TxnIndex) -> (r: Option<
        Result<MVHashMapOutput<Value>, MVHashMapError>,
    >)
        ensures
            attempt_view(r) == read_at(self@, key@, txn_idx),
    {
        match shard_get(&self.data, key) {
            Some(guard) => read_history(guard_value(&guard), txn_idx),
            None => {
                proof {
                    lemma_read_skips(history_of(self@, key@), 0, txn_idx, None);
                }
                Some(Err(MVHashMapError::NotFound))
            },
        }
    }

    /// Reads under `key` as the transaction `txn_idx`, which sees the records
    /// of the transactions before it and no other.
    pub fn read(&self, key: &Vec<u8>, txn_idx: TxnIndex) -> (r: Result<
        MVHashMapOutput<Value>,
        MVHashMapError,
    >)
        requires
            read_at(self@, key@, txn_idx) is Some,
        ensures
            Some(result_view(r)) == read_at(self@, key@, txn_idx),
    {
        match self.try_read(key, txn_idx) {
            Some(r) => r,
            None => unreached(),
        }
    }

    /// Whether the map has the key.
    pub fn contains_key(&self, key: &Vec<u8>) -> (b: bool)
        ensures
            b == self@.contains_key(key@),
    {
        shard_get(&self.data, key).is_some()
    }

    /// Whether the map has a record of the transaction `txn_idx` under `key`.
    pub fn contains_entry(&self, key: &Vec<u8>, txn_idx: TxnIndex) -> (b: bool)
        ensures
            b == has_entry(self@, key@, txn_idx),
    {
        broadcast use vstd::laws_cmp::group_laws_cmp;

        match shard_get(&self.data, key) {
            Some(guard) => guard_value(&guard).get(&txn_idx).is_some(),
            None => false,
        }
    }

    /// Whether a write of `version` under `key` is in order.
    pub fn admits(&self, key: &Vec<u8>, version: Version) -> (b: bool)
        ensures
            b == admits_write(self@, key@, version),
    {
        broadcast use vstd::laws_cmp::group_laws_cmp;

        match shard_get(&self.data, key) {
            Some(guard) => match guard_value(&guard).get(&version.0) {
                Some(item) => match &padded_ref(item).cell {
                    EntryCell::Write(incarnation, _) => *incarnation < version.1,
                    EntryCell::Delta(_) => true,
                },
                None => true,
            },
            None => true,
        }
    }
}

} // verus!
