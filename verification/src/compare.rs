//! Generic minimum, maximum and clamping over `PartialOrd`.
//!
//! Each function returns one of its arguments on every type. On a type whose
//! comparisons follow their specification (`obeys_partial_cmp_spec`) the
//! contracts say exactly which one.
use vstd::prelude::*;
use vstd::laws_cmp::obeys_partial_cmp_spec_properties;
use vstd::std_specs::cmp::{PartialEqSpec, PartialOrdIs, PartialOrdSpec};

verus! {

/// What `min` returns on a type whose comparisons follow their specification.
pub open spec fn min_spec<T: PartialOrd>(a: T, b: T) -> T {
    if a.is_gt(&b) {
        b
    } else {
        a
    }
}

/// What `max` returns on a type whose comparisons follow their specification.
pub open spec fn max_spec<T: PartialOrd>(a: T, b: T) -> T {
    if a.is_lt(&b) {
        b
    } else {
        a
    }
}

/// What `clamp` returns on a type whose comparisons follow their specification.
pub open spec fn clamp_spec<T: PartialOrd>(x: T, lo: T, hi: T) -> T {
    if x.is_lt(&lo) {
        lo
    } else if x.is_gt(&hi) {
        hi
    } else {
        x
    }
}

/// Returns `b` when `a > b`, and `a` otherwise.
pub fn min<T: PartialOrd>(a: T, b: T) -> (r: T)
    ensures
        r == a || r == b,
        T::obeys_partial_cmp_spec() ==> r == min_spec(a, b),
{
    if a > b {
        b
    } else {
        a
    }
}

/// Returns `b` when `a < b`, and `a` otherwise.
pub fn max<T: PartialOrd>(a: T, b: T) -> (r: T)
    ensures
        r == a || r == b,
        T::obeys_partial_cmp_spec() ==> r == max_spec(a, b),
{
    if a < b {
        b
    } else {
        a
    }
}

/// Returns `lo` when `x < lo`, `hi` when `x > hi`, and `x` otherwise.
pub fn clamp<T: PartialOrd>(x: T, lo: T, hi: T) -> (r: T)
    ensures
        r == x || r == lo || r == hi,
        T::obeys_partial_cmp_spec() ==> r == clamp_spec(x, lo, hi),
{
    if x < lo {
        lo
    } else if x > hi {
        hi
    } else {
        x
    }
}

/// Clamping into a range whose ends are in order never gives a value below
/// the lower end or above the upper end, and leaves a value inside the range
/// as it is.
pub proof fn law_clamp_stays_in_range<T: PartialOrd>(x: T, lo: T, hi: T)
    requires
        obeys_partial_cmp_spec_properties::<T>(),
        lo.is_le(&hi),
    ensures
        !clamp_spec(x, lo, hi).is_lt(&lo),
        !clamp_spec(x, lo, hi).is_gt(&hi),
        x.is_ge(&lo) && x.is_le(&hi) ==> clamp_spec(x, lo, hi) == x,
{
    reveal(obeys_partial_cmp_spec_properties);
    reveal(vstd::laws_eq::obeys_eq_spec_properties);
    if lo.eq_spec(&hi) {
        assert(hi.eq_spec(&lo));
    }
}

/// Whether two values are ordered with respect to each other: neither is a
/// value such as a NaN that compares with nothing.
pub open spec fn comparable<T: PartialOrd>(a: T, b: T) -> bool {
    a.partial_cmp_spec(&b) is Some
}

/// Comparing the other way round gives the mirrored answer.
proof fn lemma_flip<T: PartialOrd>(a: T, b: T)
    requires
        obeys_partial_cmp_spec_properties::<T>(),
    ensures
        a.is_ge(&b) <==> b.is_le(&a),
        a.is_lt(&b) <==> b.is_gt(&a),
        comparable(a, b) <==> comparable(b, a),
{
    reveal(obeys_partial_cmp_spec_properties);
    reveal(vstd::laws_eq::obeys_eq_spec_properties);
    if a.eq_spec(&b) {
        assert(b.eq_spec(&a));
    }
    if b.eq_spec(&a) {
        assert(a.eq_spec(&b));
    }
}

/// `a <= b` and `b <= c` give `a <= c` among comparable values.
proof fn lemma_le_trans<T: PartialOrd>(a: T, b: T, c: T)
    requires
        obeys_partial_cmp_spec_properties::<T>(),
        comparable(a, c),
        a.is_le(&b),
        b.is_le(&c),
    ensures
        a.is_le(&c),
        a.is_lt(&b) || b.is_lt(&c) ==> a.is_lt(&c),
{
    reveal(obeys_partial_cmp_spec_properties);
    reveal(vstd::laws_eq::obeys_eq_spec_properties);
    if a.eq_spec(&b) {
        assert(b.eq_spec(&a));
    }
    if b.eq_spec(&c) {
        assert(c.eq_spec(&b));
    }
    if a.eq_spec(&c) {
        assert(c.eq_spec(&a));
    }
}

/// On comparable values, `min` keeps `a` on a tie, is no greater than either
/// argument and is one of them; `min` is symmetric when values that compare
/// equal are identical.
pub proof fn law_min<T: PartialOrd>(a: T, b: T)
    requires
        obeys_partial_cmp_spec_properties::<T>(),
        comparable(a, b),
        comparable(a, a),
        comparable(b, b),
    ensures
        min_spec(a, b) == a || min_spec(a, b) == b,
        min_spec(a, b).is_le(&a),
        min_spec(a, b).is_le(&b),
        a.is_le(&b) ==> min_spec(a, b) == a,
        vstd::laws_eq::obeys_concrete_eq::<T>() ==> min_spec(a, b) == min_spec(b, a),
{
    reveal(obeys_partial_cmp_spec_properties);
    reveal(vstd::laws_eq::obeys_eq_spec_properties);
    reveal(vstd::laws_eq::obeys_concrete_eq);
    if a.eq_spec(&b) {
        assert(b.eq_spec(&a));
    }
}

/// On comparable values, `max` keeps `a` on a tie, is no less than either
/// argument and is one of them; `min` and `max` together give the two
/// arguments in order.
pub proof fn law_max<T: PartialOrd>(a: T, b: T)
    requires
        obeys_partial_cmp_spec_properties::<T>(),
        comparable(a, b),
        comparable(a, a),
        comparable(b, b),
    ensures
        max_spec(a, b) == a || max_spec(a, b) == b,
        max_spec(a, b).is_ge(&a),
        max_spec(a, b).is_ge(&b),
        a.is_ge(&b) ==> max_spec(a, b) == a,
        min_spec(a, b).is_le(&max_spec(a, b)),
        vstd::laws_eq::obeys_concrete_eq::<T>() ==> ((min_spec(a, b), max_spec(a, b)) == (a, b) || (
        min_spec(a, b), max_spec(a, b)) == (b, a)),
{
    reveal(vstd::laws_eq::obeys_concrete_eq);
    reveal(obeys_partial_cmp_spec_properties);
    reveal(vstd::laws_eq::obeys_eq_spec_properties);
    if a.eq_spec(&b) {
        assert(b.eq_spec(&a));
    }
}

/// Clamping twice is clamping once, and with every value comparable the
/// values that clamping leaves as they are are exactly those of the range.
pub proof fn law_clamp_idempotent<T: PartialOrd>(x: T, lo: T, hi: T)
    requires
        obeys_partial_cmp_spec_properties::<T>(),
        lo.is_le(&hi),
    ensures
        clamp_spec(clamp_spec(x, lo, hi), lo, hi) == clamp_spec(x, lo, hi),
        comparable(x, lo) && comparable(x, hi) ==> (clamp_spec(x, lo, hi) == x <==> (x.is_ge(&lo)
            && x.is_le(&hi))),
{
    law_clamp_stays_in_range(x, lo, hi);
    reveal(obeys_partial_cmp_spec_properties);
}

/// Clamping keeps the order of comparable values.
pub proof fn law_clamp_monotone<T: PartialOrd>(x: T, y: T, lo: T, hi: T)
    requires
        obeys_partial_cmp_spec_properties::<T>(),
        lo.is_le(&hi),
        x.is_le(&y),
        comparable(x, lo),
        comparable(x, hi),
        comparable(y, lo),
        comparable(y, hi),
        comparable(lo, lo),
        comparable(hi, hi),
        comparable(lo, y),
        comparable(x, y),
    ensures
        clamp_spec(x, lo, hi).is_le(&clamp_spec(y, lo, hi)),
{
    reveal(obeys_partial_cmp_spec_properties);
    let cx = clamp_spec(x, lo, hi);
    let cy = clamp_spec(y, lo, hi);
    if x.is_lt(&lo) {
        if y.is_lt(&lo) {
        } else if y.is_gt(&hi) {
        } else {
            assert(y.is_ge(&lo));
        }
    } else if x.is_gt(&hi) {
        lemma_flip(x, hi);
        lemma_flip(y, hi);
        lemma_le_trans(hi, x, y);
        assert(hi.is_lt(&y));
    } else {
        assert(x.is_ge(&lo) && x.is_le(&hi));
        if y.is_lt(&lo) {
            lemma_flip(x, lo);
            lemma_flip(y, lo);
            lemma_le_trans(lo, x, y);
        } else if y.is_gt(&hi) {
        } else {
        }
    }
}

} // verus!
