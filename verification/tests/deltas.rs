use mvhashmap::{delta_add, delta_sub, DeltaOp, DeltaUpdate, Entry, EntryCell, Value, FLAG_DONE, FLAG_ESTIMATE};

#[test]
fn addition_stays_at_or_below_its_limit() {
    let d = delta_add(10, 100);
    assert_eq!(d.apply_to(0), Some(10));
    assert_eq!(d.apply_to(90), Some(100));
    assert_eq!(d.apply_to(91), None);
    assert_eq!(d.apply_to(u128::MAX), None);
    assert_eq!(delta_add(1, u128::MAX).apply_to(u128::MAX), None);
    assert_eq!(delta_add(1, u128::MAX).apply_to(u128::MAX - 1), Some(u128::MAX));
    assert_eq!(delta_add(0, 0).apply_to(0), Some(0));
}

#[test]
fn addition_above_its_limit_never_applies() {
    let d = delta_add(11, 10);
    assert_eq!(d.apply_to(0), None);
    assert_eq!(d.apply_to(10), None);
}

#[test]
fn subtraction_needs_enough_to_take_from() {
    let d = delta_sub(10, 100);
    assert_eq!(d.apply_to(9), None);
    assert_eq!(d.apply_to(10), Some(0));
    assert_eq!(d.apply_to(100), Some(90));
    assert_eq!(d.apply_to(101), None);
}

#[test]
fn delta_with_bounds_that_cannot_be_met() {
    let up = DeltaOp { update: DeltaUpdate::Plus(5), min_base: 0, max_base: u128::MAX };
    assert_eq!(up.apply_to(u128::MAX - 5), Some(u128::MAX));
    assert_eq!(up.apply_to(u128::MAX - 4), None);
    let down = DeltaOp { update: DeltaUpdate::Minus(5), min_base: 0, max_base: u128::MAX };
    assert_eq!(down.apply_to(4), None);
    assert_eq!(down.apply_to(5), Some(0));
}

#[test]
fn composition_of_two_additions() {
    let d = delta_add(10, 100).followed_by(&delta_add(20, 50));
    assert_eq!(d, DeltaOp { update: DeltaUpdate::Plus(30), min_base: 0, max_base: 20 });
    assert_eq!(d.apply_to(20), Some(50));
    assert_eq!(d.apply_to(21), None);
}

#[test]
fn composition_of_two_subtractions() {
    let d = delta_sub(10, 100).followed_by(&delta_sub(20, 100));
    assert_eq!(d, DeltaOp { update: DeltaUpdate::Minus(30), min_base: 30, max_base: 100 });
    assert_eq!(d.apply_to(30), Some(0));
    assert_eq!(d.apply_to(29), None);
}

#[test]
fn composition_keeps_the_bounds_of_the_first_step() {
    let d = delta_add(10, 100).followed_by(&delta_sub(10, 1000));
    assert_eq!(d, DeltaOp { update: DeltaUpdate::Plus(0), min_base: 0, max_base: 90 });
    assert_eq!(d.apply_to(90), Some(90));
    assert_eq!(d.apply_to(91), None);
    let e = delta_sub(10, 100).followed_by(&delta_add(4, 1000));
    assert_eq!(e, DeltaOp { update: DeltaUpdate::Minus(6), min_base: 10, max_base: 100 });
    assert_eq!(e.apply_to(9), None);
    assert_eq!(e.apply_to(10), Some(4));
}

#[test]
fn composition_that_never_applies_is_void() {
    assert_eq!(delta_add(10, 100).followed_by(&delta_sub(200, 1000)), DeltaOp::void());
    assert_eq!(delta_sub(5, 10).followed_by(&delta_sub(1, 0)), DeltaOp::void());
    assert_eq!(delta_sub(1, u128::MAX).followed_by(&delta_add(0, u128::MAX)).apply_to(0), None);
    let top = DeltaOp { update: DeltaUpdate::Minus(2), min_base: 0, max_base: u128::MAX };
    let far = DeltaOp { update: DeltaUpdate::Plus(0), min_base: u128::MAX - 1, max_base: u128::MAX };
    assert_eq!(top.followed_by(&far), DeltaOp::void());
    assert_eq!(DeltaOp::void().followed_by(&delta_add(1, 2)), DeltaOp::void());
    assert_eq!(delta_add(1, 2).followed_by(&DeltaOp::void()), DeltaOp::void());
}

#[test]
fn composition_does_what_its_parts_do_in_turn() {
    let deltas = [
        delta_add(0, 0),
        delta_add(3, 10),
        delta_add(7, u128::MAX),
        delta_sub(2, 9),
        delta_sub(0, 4),
        delta_sub(u128::MAX, u128::MAX),
        DeltaOp { update: DeltaUpdate::Plus(4), min_base: 2, max_base: 6 },
        DeltaOp { update: DeltaUpdate::Minus(1), min_base: 0, max_base: u128::MAX },
        DeltaOp::void(),
    ];
    let bases = [0u128, 1, 2, 3, 4, 5, 6, 7, 8, 9, 10, 11, 12, u128::MAX - 7, u128::MAX - 1, u128::MAX];
    for first in deltas.iter() {
        for second in deltas.iter() {
            let both = first.followed_by(second);
            for base in bases.iter() {
                let in_turn = first.apply_to(*base).and_then(|v| second.apply_to(v));
                assert_eq!(both.apply_to(*base), in_turn);
            }
        }
    }
}

#[test]
fn entry_keeps_what_it_was_made_of() {
    let written: Entry<Value> = Entry::new_write_from(FLAG_DONE, 3, Value::new(vec![1], Some(1)));
    assert_eq!(written.flag(), FLAG_DONE);
    match &written.cell {
        EntryCell::Write(incarnation, data) => {
            assert_eq!(*incarnation, 3);
            assert_eq!(**data, Value::new(vec![1], Some(1)));
        },
        EntryCell::Delta(_) => panic!("a write was recorded"),
    }
    let shifted: Entry<Value> = Entry::new_delta_from(FLAG_ESTIMATE, delta_add(1, 2));
    assert_eq!(shifted.flag(), FLAG_ESTIMATE);
    match &shifted.cell {
        EntryCell::Delta(delta) => assert_eq!(*delta, delta_add(1, 2)),
        EntryCell::Write(_, _) => panic!("a delta was recorded"),
    }
}

#[test]
fn marking_keeps_the_payload() {
    let mut entry: Entry<Value> = Entry::new_write_from(FLAG_DONE, 0, Value::new(vec![], Some(5)));
    entry.mark_estimate();
    assert_eq!(entry.flag(), FLAG_ESTIMATE);
    match &entry.cell {
        EntryCell::Write(incarnation, data) => {
            assert_eq!(*incarnation, 0);
            assert_eq!(data.number(), Some(5));
        },
        EntryCell::Delta(_) => panic!("a write was recorded"),
    }
}
