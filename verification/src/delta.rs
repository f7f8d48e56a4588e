//! Deltas: partial shifts of an unsigned 128-bit integer, and their
//! composition.

use vstd::prelude::*;

verus! {

/// The direction and the size of a shift.
#[derive(Clone, Copy, Debug, PartialEq, Eq)]
pub enum DeltaUpdate {
    Plus(u128),
    Minus(u128),
}

/// A shift that applies to the bases between `min_base` and `max_base` whose
/// shifted value is again a `u128`, and to no other base.
#[derive(Clone, Copy, Debug, PartialEq, Eq)]
pub struct DeltaOp {
    pub update: DeltaUpdate,
    pub min_base: u128,
    pub max_base: u128,
}

impl DeltaUpdate {
    /// The signed amount that the update adds.
    pub open spec fn amount(self) -> int {
        match self {
            DeltaUpdate::Plus(v) => v as int,
            DeltaUpdate::Minus(v) => -(v as int),
        }
    }

    /// The update that adds the signed `amount`.
    pub open spec fn of_amount(amount: int) -> DeltaUpdate {
        if amount >= 0 {
            DeltaUpdate::Plus(amount as u128)
        } else {
            DeltaUpdate::Minus((-amount) as u128)
        }
    }
}

/// What a shift by `amount`, limited to the bases from `low` to `high`, makes
/// of `base`.
pub open spec fn shifted(amount: int, low: int, high: int, base: int) -> Option<int> {
    if low <= base <= high && 0 <= base + amount <= u128::MAX {
        Some(base + amount)
    } else {
        None
    }
}

impl DeltaOp {
    /// The outcome of applying the delta to `base`: the shifted value, or
    /// `None` where the delta does not apply.
    pub open spec fn apply_spec(self, base: u128) -> Option<u128> {
        match shifted(self.update.amount(), self.min_base as int, self.max_base as int, base as int) {
            Some(v) => Some(v as u128),
            None => None,
        }
    }

    /// The outcome of applying `self` and then `later`.
    pub open spec fn apply_both_spec(self, later: DeltaOp, base: u128) -> Option<u128> {
        match self.apply_spec(base) {
            Some(v) => later.apply_spec(v),
            None => None,
        }
    }

    /// The delta that applies to no base at all.
    pub open spec fn void_spec() -> DeltaOp {
        DeltaOp { update: DeltaUpdate::Plus(0), min_base: 1, max_base: 0 }
    }

    /// The delta that applies to no base at all.
    pub fn void() -> (d: DeltaOp)
        ensures
            d == DeltaOp::void_spec(),
            forall|base: u128| d.apply_spec(base) is None,
    {
        DeltaOp { update: DeltaUpdate::Plus(0), min_base: 1, max_base: 0 }
    }

    /// Applies the delta to `base`.
    pub fn apply_to(&self, base: u128) -> (r: Option<u128>)
        ensures
            r == self.apply_spec(base),
    {
        if base < self.min_base || base > self.max_base {
            return None;
        }
        match self.update {
            DeltaUpdate::Plus(v) => base.checked_add(v),
            DeltaUpdate::Minus(v) => base.checked_sub(v),
        }
    }

    /// The smallest and the largest base that the delta applies to. Where the
    /// first is above the second, it applies to none.
    pub open spec fn domain(self) -> (int, int) {
        match self.update {
            DeltaUpdate::Plus(v) => (
                self.min_base as int,
                if self.max_base <= u128::MAX - v {
                    self.max_base as int
                } else {
                    u128::MAX - v
                },
            ),
            DeltaUpdate::Minus(v) => (
                if self.min_base >= v {
                    self.min_base as int
                } else {
                    v as int
                },
                self.max_base as int,
            ),
        }
    }

    /// Computes the smallest and the largest base that the delta applies to.
    fn bounds(&self) -> (r: (u128, u128))
        ensures
            r.0 == self.domain().0,
            r.1 == self.domain().1,
            forall|base: u128| self.apply_spec(base) is Some <==> r.0 <= base <= r.1,
    {
        match self.update {
            DeltaUpdate::Plus(v) => {
                let top: u128 = u128::MAX - v;
                (self.min_base, if self.max_base <= top { self.max_base } else { top })
            },
            DeltaUpdate::Minus(v) => (
                if self.min_base >= v { self.min_base } else { v },
                self.max_base,
            ),
        }
    }

    /// The delta that does what `self` and then `later` do. Its bases are
    /// those of `self` that `self` shifts to a base of `later`; where there is
    /// none, it is the delta that applies to no base.
    pub open spec fn followed_by_spec(self, later: DeltaOp) -> DeltaOp {
        let amount = self.update.amount();
        let (l1, h1) = self.domain();
        let (l2, h2) = later.domain();
        let low = if l1 >= l2 - amount { l1 } else { l2 - amount };
        let high = if h1 <= h2 - amount { h1 } else { h2 - amount };
        if low > high {
            DeltaOp::void_spec()
        } else {
            DeltaOp {
                update: DeltaUpdate::of_amount(amount + later.update.amount()),
                min_base: low as u128,
                max_base: high as u128,
            }
        }
    }

    /// The composition of `self` and `later` does to every base what `self`
    /// and then `later` do to it: it applies where both apply in turn, and
    /// gives the same value.
    pub proof fn lemma_followed_by(self, later: DeltaOp, base: u128)
        ensures
            self.followed_by_spec(later).apply_spec(base) == self.apply_both_spec(later, base),
    {
    }

    /// Composes `self` with a delta that is applied after it.
    pub fn followed_by(&self, later: &DeltaOp) -> (d: DeltaOp)
        ensures
            d == self.followed_by_spec(*later),
            forall|base: u128| d.apply_spec(base) == self.apply_both_spec(*later, base),
    {
        let (l1, h1) = self.bounds();
        let (l2, h2) = later.bounds();
        let low: u128;
        let high: u128;
        match self.update {
            DeltaUpdate::Plus(v) => {
                if h2 < v {
                    return DeltaOp::void();
                }
                let l: u128 = l2.saturating_sub(v);
                let h: u128 = h2 - v;
                low = if l1 >= l { l1 } else { l };
                high = if h1 <= h { h1 } else { h };
            },
            DeltaUpdate::Minus(v) => {
                if l2 > u128::MAX - v {
                    return DeltaOp::void();
                }
                let l: u128 = l2 + v;
                let h: u128 = h2.saturating_add(v);
                low = if l1 >= l { l1 } else { l };
                high = if h1 <= h { h1 } else { h };
            },
        }
        if low > high {
            return DeltaOp::void();
        }
        let update = match (self.update, later.update) {
            (DeltaUpdate::Plus(a), DeltaUpdate::Plus(b)) => DeltaUpdate::Plus(a + b),
            (DeltaUpdate::Plus(a), DeltaUpdate::Minus(b)) => if a >= b {
                DeltaUpdate::Plus(a - b)
            } else {
                DeltaUpdate::Minus(b - a)
            },
            (DeltaUpdate::Minus(a), DeltaUpdate::Plus(b)) => if b >= a {
                DeltaUpdate::Plus(b - a)
            } else {
                DeltaUpdate::Minus(a - b)
            },
            (DeltaUpdate::Minus(a), DeltaUpdate::Minus(b)) => if a == 0 && b == 0 {
                DeltaUpdate::Plus(0)
            } else {
                DeltaUpdate::Minus(a + b)
            },
        };
        DeltaOp { update, min_base: low, max_base: high }
    }
}

/// The delta that adds `value` where the sum stays at or below `limit`.
pub open spec fn delta_add_spec(value: u128, limit: u128) -> DeltaOp {
    if value > limit {
        DeltaOp::void_spec()
    } else {
        DeltaOp {
            update: DeltaUpdate::Plus(value),
            min_base: 0,
            max_base: (limit - value) as u128,
        }
    }
}

/// The delta that takes `value` away from the bases between `value` and
/// `limit`.
pub open spec fn delta_sub_spec(value: u128, limit: u128) -> DeltaOp {
    DeltaOp { update: DeltaUpdate::Minus(value), min_base: value, max_base: limit }
}

/// The delta that adds `value` where the sum stays at or below `limit`.
pub fn delta_add(value: u128, limit: u128) -> (d: DeltaOp)
    ensures
        d == delta_add_spec(value, limit),
        forall|base: u128|
            d.apply_spec(base) == (if base + value <= limit {
                Some((base + value) as u128)
            } else {
                None
            }),
{
    if value > limit {
        DeltaOp::void()
    } else {
        DeltaOp { update: DeltaUpdate::Plus(value), min_base: 0, max_base: limit - value }
    }
}

/// The delta that takes `value` away from the bases between `value` and
/// `limit`.
pub fn delta_sub(value: u128, limit: u128) -> (d: DeltaOp)
    ensures
        d == delta_sub_spec(value, limit),
        forall|base: u128|
            d.apply_spec(base) == (if value <= base <= limit {
                Some((base - value) as u128)
            } else {
                None
            }),
{
    DeltaOp { update: DeltaUpdate::Minus(value), min_base: value, max_base: limit }
}

} // verus!
