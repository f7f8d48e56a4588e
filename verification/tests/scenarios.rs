use mvhashmap::{
    delta_add, delta_sub, DeltaOp, MVHashMap, MVHashMapError, MVHashMapOutput, Value,
};
use std::sync::Arc;

fn key(name: &str) -> Vec<u8> {
    name.as_bytes().to_vec()
}

fn number(n: u128) -> Value {
    Value::new(n.to_le_bytes().to_vec(), Some(n))
}

fn version(txn_idx: usize, incarnation: usize, n: u128) -> Result<MVHashMapOutput<Value>, MVHashMapError> {
    Ok(MVHashMapOutput::Version((txn_idx, incarnation), Arc::new(number(n))))
}

#[test]
fn write_is_read_with_its_version() {
    let mut map = MVHashMap::new();
    let k = key("k");
    map.add_write(&k, (2, 0), number(100));
    assert_eq!(map.read(&k, 5), version(2, 0, 100));
}

#[test]
fn lone_delta_is_unresolved() {
    let mut map = MVHashMap::new();
    let k = key("k");
    let plus_ten = delta_add(10, u128::MAX);
    map.add_delta(&k, 3, plus_ten);
    assert_eq!(map.read(&k, 5), Err(MVHashMapError::Unresolved(plus_ten)));
}

#[test]
fn delta_over_write_is_resolved() {
    let mut map = MVHashMap::new();
    let k = key("k");
    map.add_write(&k, (1, 0), number(100));
    map.add_delta(&k, 3, delta_add(10, u128::MAX));
    assert_eq!(map.read(&k, 5), Ok(MVHashMapOutput::Resolved(110)));
}

#[test]
fn estimate_is_a_dependency() {
    let mut map = MVHashMap::new();
    let k = key("k");
    map.add_write(&k, (1, 0), number(100));
    map.mark_estimate(&k, 1);
    assert_eq!(map.read(&k, 5), Err(MVHashMapError::Dependency(1)));
}

#[test]
fn deleted_write_is_not_found() {
    let mut map = MVHashMap::new();
    let k = key("k");
    map.add_write(&k, (1, 0), number(100));
    map.delete(&k, 1);
    assert_eq!(map.read(&k, 5), Err(MVHashMapError::NotFound));
    assert!(map.contains_key(&k));
    assert!(!map.contains_entry(&k, 1));
}

#[test]
fn empty_map_has_nothing() {
    let map = MVHashMap::new();
    let k = key("k");
    assert_eq!(map.read(&k, 0), Err(MVHashMapError::NotFound));
    assert_eq!(map.read(&k, 7), Err(MVHashMapError::NotFound));
    assert!(!map.contains_key(&k));
}

#[test]
fn higher_incarnation_replaces_the_write() {
    let mut map = MVHashMap::new();
    let k = key("k");
    map.add_write(&k, (4, 1), number(7));
    assert!(!map.admits(&k, (4, 0)));
    assert!(!map.admits(&k, (4, 1)));
    assert!(map.admits(&k, (4, 2)));
    assert!(map.admits(&k, (5, 0)));
    map.add_write(&k, (4, 2), number(8));
    assert_eq!(map.read(&k, 5), version(4, 2, 8));
    assert_eq!(map.read(&k, 9), version(4, 2, 8));
}

#[test]
fn write_over_a_delta_is_in_order() {
    let mut map = MVHashMap::new();
    let k = key("k");
    map.add_delta(&k, 4, delta_add(1, 10));
    assert!(map.admits(&k, (4, 0)));
    map.add_write(&k, (4, 0), number(3));
    assert_eq!(map.read(&k, 5), version(4, 0, 3));
}

#[test]
fn reader_sees_only_what_is_below_it() {
    let mut map = MVHashMap::new();
    let k = key("k");
    map.add_write(&k, (3, 0), number(30));
    assert_eq!(map.read(&k, 0), Err(MVHashMapError::NotFound));
    assert_eq!(map.read(&k, 2), Err(MVHashMapError::NotFound));
    assert_eq!(map.read(&k, 3), Err(MVHashMapError::NotFound));
    assert_eq!(map.read(&k, 4), version(3, 0, 30));
    assert_eq!(map.read(&k, usize::MAX), version(3, 0, 30));
    map.add_write(&k, (1, 0), number(10));
    assert_eq!(map.read(&k, 2), version(1, 0, 10));
    assert_eq!(map.read(&k, 3), version(1, 0, 10));
    assert_eq!(map.read(&k, 4), version(3, 0, 30));
}

#[test]
fn latest_write_below_the_reader_wins() {
    let mut map = MVHashMap::new();
    let k = key("k");
    map.add_write(&k, (1, 0), number(10));
    map.add_write(&k, (5, 2), number(50));
    map.add_write(&k, (3, 1), number(30));
    assert_eq!(map.read(&k, 4), version(3, 1, 30));
    assert_eq!(map.read(&k, 5), version(3, 1, 30));
    assert_eq!(map.read(&k, 6), version(5, 2, 50));
}

#[test]
fn estimate_blocks_whatever_lies_below() {
    let mut map = MVHashMap::new();
    let k = key("k");
    map.add_write(&k, (0, 0), number(1));
    map.add_delta(&k, 1, delta_add(1, 100));
    map.add_write(&k, (2, 3), number(2));
    map.mark_estimate(&k, 2);
    assert_eq!(map.read(&k, 3), Err(MVHashMapError::Dependency(2)));
    assert_eq!(map.read(&k, 9), Err(MVHashMapError::Dependency(2)));
    assert_eq!(map.read(&k, 2), Ok(MVHashMapOutput::Resolved(2)));
}

#[test]
fn estimate_blocks_behind_deltas() {
    let mut map = MVHashMap::new();
    let k = key("k");
    map.add_delta(&k, 2, delta_add(5, 100));
    map.mark_estimate(&k, 2);
    map.add_delta(&k, 4, delta_add(1, 100));
    assert_eq!(map.read(&k, 5), Err(MVHashMapError::Dependency(2)));
}

#[test]
fn write_above_an_estimate_hides_it() {
    let mut map = MVHashMap::new();
    let k = key("k");
    map.add_write(&k, (1, 0), number(100));
    map.mark_estimate(&k, 1);
    map.add_write(&k, (3, 0), number(300));
    assert_eq!(map.read(&k, 5), version(3, 0, 300));
    assert_eq!(map.read(&k, 3), Err(MVHashMapError::Dependency(1)));
}

#[test]
fn new_write_clears_the_estimate() {
    let mut map = MVHashMap::new();
    let k = key("k");
    map.add_write(&k, (1, 0), number(100));
    map.mark_estimate(&k, 1);
    map.add_write(&k, (1, 1), number(101));
    assert_eq!(map.read(&k, 5), version(1, 1, 101));
}

#[test]
fn new_delta_clears_the_estimate() {
    let mut map = MVHashMap::new();
    let k = key("k");
    map.add_write(&k, (1, 0), number(100));
    map.mark_estimate(&k, 1);
    let plus_two = delta_add(2, 1000);
    map.add_delta(&k, 1, plus_two);
    assert_eq!(map.read(&k, 5), Err(MVHashMapError::Unresolved(plus_two)));
}

#[test]
fn deltas_chain_in_the_order_of_their_transactions() {
    let mut map = MVHashMap::new();
    let k = key("k");
    let earlier = delta_sub(30, 1000);
    let later = delta_add(10, 1000);
    map.add_delta(&k, 2, earlier);
    map.add_delta(&k, 4, later);
    let composed = match map.read(&k, 5) {
        Err(MVHashMapError::Unresolved(delta)) => delta,
        other => panic!("unexpected {:?}", other),
    };
    assert_eq!(composed, earlier.followed_by(&later));
    for base in [0u128, 29, 30, 31, 100, 1000, 1020, 1021, u128::MAX] {
        let one_by_one = earlier.apply_to(base).and_then(|v| later.apply_to(v));
        assert_eq!(composed.apply_to(base), one_by_one);
    }
    assert_eq!(composed.apply_to(100), Some(80));
    assert_eq!(composed.apply_to(29), None);

    map.add_write(&k, (1, 0), number(100));
    assert_eq!(map.read(&k, 5), Ok(MVHashMapOutput::Resolved(80)));
    assert_eq!(map.read(&k, 3), Ok(MVHashMapOutput::Resolved(70)));
    assert_eq!(map.read(&k, 2), version(1, 0, 100));
}

#[test]
fn order_of_deltas_matters() {
    let mut map = MVHashMap::new();
    let k = key("k");
    map.add_write(&k, (0, 0), number(5));
    map.add_delta(&k, 1, delta_add(10, 20));
    map.add_delta(&k, 2, delta_sub(8, 20));
    assert_eq!(map.read(&k, 3), Ok(MVHashMapOutput::Resolved(7)));

    let mut swapped = MVHashMap::new();
    swapped.add_write(&k, (0, 0), number(5));
    swapped.add_delta(&k, 1, delta_sub(8, 20));
    swapped.add_delta(&k, 2, delta_add(10, 20));
    assert_eq!(swapped.try_read(&k, 3), None);
}

#[test]
fn read_that_cannot_be_resolved_is_told_apart() {
    let mut map = MVHashMap::new();
    let k = key("k");
    map.add_write(&k, (1, 0), Value::new(vec![1, 2, 3], None));
    map.add_delta(&k, 2, delta_add(1, 10));
    assert_eq!(map.try_read(&k, 3), None);
    assert_eq!(
        map.try_read(&k, 2),
        Some(Ok(MVHashMapOutput::Version((1, 0), Arc::new(Value::new(vec![1, 2, 3], None)))))
    );

    let other = key("other");
    map.add_write(&other, (1, 0), number(10));
    map.add_delta(&other, 2, delta_add(1, 10));
    assert_eq!(map.try_read(&other, 3), None);
    map.add_delta(&other, 2, delta_add(1, 11));
    assert_eq!(map.try_read(&other, 3), Some(Ok(MVHashMapOutput::Resolved(11))));
    assert_eq!(map.try_read(&other, 1), Some(Err(MVHashMapError::NotFound)));
}

#[test]
fn keys_are_apart() {
    let mut map = MVHashMap::new();
    let a = key("a");
    let b = key("b");
    map.add_write(&a, (1, 0), number(1));
    map.add_write(&b, (1, 0), number(2));
    map.mark_estimate(&a, 1);
    assert_eq!(map.read(&b, 2), version(1, 0, 2));
    assert_eq!(map.read(&a, 2), Err(MVHashMapError::Dependency(1)));
    map.delete(&a, 1);
    assert_eq!(map.read(&a, 2), Err(MVHashMapError::NotFound));
    assert_eq!(map.read(&b, 2), version(1, 0, 2));
    assert_eq!(map.read(&key(""), 2), Err(MVHashMapError::NotFound));
}

#[test]
fn delete_of_a_missing_record_changes_nothing() {
    let mut map = MVHashMap::new();
    let k = key("k");
    map.add_write(&k, (1, 0), number(1));
    map.add_delta(&k, 2, delta_add(1, 5));
    map.delete(&k, 7);
    assert!(map.contains_entry(&k, 1));
    assert!(map.contains_entry(&k, 2));
    assert!(!map.contains_entry(&k, 7));
    assert_eq!(map.read(&k, 3), Ok(MVHashMapOutput::Resolved(2)));
    map.delete(&k, 2);
    assert_eq!(map.read(&k, 3), version(1, 0, 1));
}

#[test]
fn value_is_handed_out_whole() {
    let mut map = MVHashMap::new();
    let k = key("k");
    let value = Value::new(vec![9, 8, 7, 6], Some(42));
    map.add_write(&k, (0, 5), value.clone());
    match map.read(&k, 1) {
        Ok(MVHashMapOutput::Version(version, data)) => {
            assert_eq!(version, (0, 5));
            assert_eq!(*data, value);
            assert_eq!(data.number(), Some(42));
        },
        other => panic!("unexpected {:?}", other),
    }
}

#[test]
fn void_delta_never_applies() {
    let void = DeltaOp::void();
    assert_eq!(void.apply_to(0), None);
    assert_eq!(void.apply_to(1), None);
    assert_eq!(void.apply_to(u128::MAX), None);
}
