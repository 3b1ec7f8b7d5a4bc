//! Ordering helpers over any partially ordered type, and linear interpolation
//! over any value type that can be scaled and added.
//!
//! The functions are generic, and so are their contracts. Each states two
//! things. The first is which outcomes of the type's own comparisons or
//! operators the result is made of; this holds of every type, whether or not
//! its operators are exact. The second is the exact value, for a type whose
//! comparisons or operators follow their specifications, as those of the
//! integer types do.

use core::cmp::Ordering;
use core::ops::{Add, Mul, Sub};
use vstd::laws_cmp::obeys_partial_cmp_spec_properties;
use vstd::prelude::*;
use vstd::std_specs::cmp::PartialOrdSpec;
use vstd::std_specs::convert::FromSpec;
use vstd::std_specs::ops::{AddSpec, MulSpec, SubSpec};

verus! {

/// `a` is strictly below `b`.
pub open spec fn below<T: PartialOrd>(a: T, b: T) -> bool {
    a.partial_cmp_spec(&b) == Some(Ordering::Less)
}

/// `a` is strictly above `b`.
pub open spec fn above<T: PartialOrd>(a: T, b: T) -> bool {
    a.partial_cmp_spec(&b) == Some(Ordering::Greater)
}

/// What `min` yields: `a` where `a` is strictly below `b`, otherwise `b`.
pub open spec fn min_spec<T: PartialOrd>(a: T, b: T) -> T {
    if below(a, b) {
        a
    } else {
        b
    }
}

/// What `max` yields: `a` where `a` is strictly above `b`, otherwise `b`.
pub open spec fn max_spec<T: PartialOrd>(a: T, b: T) -> T {
    if above(a, b) {
        a
    } else {
        b
    }
}

/// What `clamp` yields: the lower bound where `v` is strictly below it,
/// else the upper bound where `v` is strictly above it, else `v` itself.
///
/// The bounds are not compared with each other: with a lower bound above the
/// upper one this is still the value of the two tests, taken in this order.
pub open spec fn clamp_spec<T: PartialOrd>(v: T, min: T, max: T) -> T {
    if below(v, min) {
        min
    } else if above(v, max) {
        max
    } else {
        v
    }
}

/// The first value where the test held, otherwise the second.
pub open spec fn pick<T>(test: bool, first: T, second: T) -> T {
    if test {
        first
    } else {
        second
    }
}

/// `r` is what `min` may return: `a` where the type's own test of `a < b`
/// came out true, otherwise `b`.
pub open spec fn min_outcome<T: PartialOrd>(a: T, b: T, r: T) -> bool {
    exists|lower: bool| #[trigger] call_ensures(T::lt, (&a, &b), lower) && r == pick(lower, a, b)
}

/// `r` is what `max` may return: `a` where the type's own test of `a > b`
/// came out true, otherwise `b`.
pub open spec fn max_outcome<T: PartialOrd>(a: T, b: T, r: T) -> bool {
    exists|greater: bool| #[trigger]
        call_ensures(T::gt, (&a, &b), greater) && r == pick(greater, a, b)
}

/// `r` is what `clamp` may return: `min` where the type's own test of
/// `v < min` came out true; else `max` where its test of `v > max` came out
/// true; else `v`.
pub open spec fn clamp_outcome<T: PartialOrd>(v: T, min: T, max: T, r: T) -> bool {
    exists|lower: bool| #[trigger]
        call_ensures(T::lt, (&v, &min), lower) && if lower {
            r == min
        } else {
            exists|greater: bool| #[trigger]
                call_ensures(T::gt, (&v, &max), greater) && r == pick(greater, max, v)
        }
}

/// Returns the smaller of the two given values.
///
/// Where neither is strictly below the other (they are equal, or they do not
/// compare) the second one is returned.
pub fn min<T>(a: T, b: T) -> (r: T) where T: PartialOrd
    ensures
        min_outcome(a, b, r),
        T::obeys_partial_cmp_spec() ==> r == min_spec(a, b),
{
    if a.lt(&b) {
        a
    } else {
        b
    }
}

/// Returns the greater of the two given values.
///
/// Where neither is strictly above the other (they are equal, or they do not
/// compare) the second one is returned.
pub fn max<T>(a: T, b: T) -> (r: T) where T: PartialOrd
    ensures
        max_outcome(a, b, r),
        T::obeys_partial_cmp_spec() ==> r == max_spec(a, b),
{
    if a.gt(&b) {
        a
    } else {
        b
    }
}

/// Returns the given value limited to the bounds `min` and `max`.
///
/// The bounds are taken as given and not checked against each other.
pub fn clamp<T>(v: T, min: T, max: T) -> (r: T) where T: PartialOrd
    ensures
        clamp_outcome(v, min, max, r),
        T::obeys_partial_cmp_spec() ==> r == clamp_spec(v, min, max),
{
    if v.lt(&min) {
        min
    } else if v.gt(&max) {
        max
    } else {
        v
    }
}

/// Under a lawful order the smaller of two values is above neither of them.
pub proof fn lemma_min_is_lower_bound<T: PartialOrd>(a: T, b: T)
    requires
        obeys_partial_cmp_spec_properties::<T>(),
    ensures
        !above(min_spec(a, b), a),
        !above(min_spec(a, b), b),
{
    reveal(obeys_partial_cmp_spec_properties);
}

/// Under a lawful order the greater of two values is below neither of them.
pub proof fn lemma_max_is_upper_bound<T: PartialOrd>(a: T, b: T)
    requires
        obeys_partial_cmp_spec_properties::<T>(),
    ensures
        !below(max_spec(a, b), a),
        !below(max_spec(a, b), b),
{
    reveal(obeys_partial_cmp_spec_properties);
}

/// Under a lawful order, and with an upper bound that is not below the lower
/// one, a clamped value is neither below the lower bound nor above the upper.
pub proof fn lemma_clamp_within_bounds<T: PartialOrd>(v: T, min: T, max: T)
    requires
        obeys_partial_cmp_spec_properties::<T>(),
        !below(max, min),
    ensures
        !below(clamp_spec(v, min, max), min),
        !above(clamp_spec(v, min, max), max),
{
    reveal(obeys_partial_cmp_spec_properties);
}

/// A value that already lies within the bounds is left as it is, so clamping
/// a second time with the same bounds changes nothing.
pub proof fn lemma_clamp_idempotent<T: PartialOrd>(v: T, min: T, max: T)
    requires
        obeys_partial_cmp_spec_properties::<T>(),
        !below(max, min),
    ensures
        clamp_spec(clamp_spec(v, min, max), min, max) == clamp_spec(v, min, max),
{
    lemma_clamp_within_bounds(v, min, max);
}

/// The unit ratio of a scalar type: what the conversion of 1 yields.
pub open spec fn unit<S: From<i8>>() -> S {
    S::from_spec(1i8)
}

/// The interpolated value `source * (1 - ratio) + target * ratio`, each
/// operation being the one that the type's operator specifies.
pub open spec fn lerp_spec<T, S>(source: T, target: T, ratio: S) -> T where
    T: Add<Output = T> + Mul<S, Output = T> + Copy,
    S: Sub<Output = S> + From<i8> + Copy,
 {
    source.mul_spec(unit::<S>().sub_spec(ratio)).add_spec(target.mul_spec(ratio))
}

/// The operators of `T` and `S` that an interpolation uses follow their
/// specifications.
pub open spec fn lerp_obeys<T, S>() -> bool where
    T: Add<Output = T> + Mul<S, Output = T> + Copy,
    S: Sub<Output = S> + From<i8> + Copy,
 {
    &&& S::obeys_from_spec()
    &&& S::obeys_sub_spec()
    &&& T::obeys_mul_spec()
    &&& T::obeys_add_spec()
}

/// What the steps that come before the final sum may yield: the unit ratio
/// `one`, the remainder `rest = one - ratio`, and the two products
/// `from = source * rest` and `to = target * ratio`.
pub open spec fn lerp_steps<T, S>(
    source: T,
    target: T,
    ratio: S,
    one: S,
    rest: S,
    from: T,
    to: T,
) -> bool where
    T: Add<Output = T> + Mul<S, Output = T> + Copy,
    S: Sub<Output = S> + From<i8> + Copy,
 {
    &&& call_ensures(S::from, (1i8,), one)
    &&& call_ensures(S::sub, (one, ratio), rest)
    &&& call_ensures(T::mul, (source, rest), from)
    &&& call_ensures(T::mul, (target, ratio), to)
}

/// The result of an interpolation is the sum of two products that its steps
/// may yield.
pub open spec fn lerp_outcome<T, S>(source: T, target: T, ratio: S, r: T) -> bool where
    T: Add<Output = T> + Mul<S, Output = T> + Copy,
    S: Sub<Output = S> + From<i8> + Copy,
 {
    exists|one: S, rest: S, from: T, to: T| #[trigger]
        lerp_steps(source, target, ratio, one, rest, from, to) && call_ensures(
            T::add,
            (from, to),
            r,
        )
}

/// Every step of the interpolation is defined on its operands, whatever the
/// steps before it yield: the difference `1 - ratio`, the two products and
/// their sum.
pub open spec fn lerp_req<T, S>(source: T, target: T, ratio: S) -> bool where
    T: Add<Output = T> + Mul<S, Output = T> + Copy,
    S: Sub<Output = S> + From<i8> + Copy,
 {
    &&& target.mul_req(ratio)
    &&& forall|one: S| #[trigger] call_ensures(S::from, (1i8,), one) ==> one.sub_req(ratio)
    &&& forall|one: S, rest: S|
        call_ensures(S::from, (1i8,), one) && #[trigger] call_ensures(S::sub, (one, ratio), rest)
            ==> source.mul_req(rest)
    &&& forall|one: S, rest: S, from: T, to: T| #[trigger]
        lerp_steps(source, target, ratio, one, rest, from, to) ==> from.add_req(to)
}

/// On 64-bit integers, whose operators are exact, the interpolated value is
/// `source * (1 - ratio) + target * ratio` in plain integer arithmetic,
/// provided that no step leaves the range of the type.
pub proof fn lemma_lerp_on_integers(source: i64, target: i64, ratio: i64)
    requires
        i64::MIN <= 1 - ratio <= i64::MAX,
        i64::MIN <= source * (1 - ratio) <= i64::MAX,
        i64::MIN <= target * ratio <= i64::MAX,
        i64::MIN <= source * (1 - ratio) + target * ratio <= i64::MAX,
    ensures
        lerp_obeys::<i64, i64>(),
        lerp_req(source, target, ratio),
        lerp_spec(source, target, ratio) == source * (1 - ratio) + target * ratio,
{
}

/// On 64-bit integers a ratio of 0 yields the source and a ratio of 1 the
/// target, and both interpolations are defined whatever the two values are.
pub proof fn lemma_lerp_endpoints(source: i64, target: i64)
    ensures
        lerp_req(source, target, 0i64),
        lerp_spec(source, target, 0i64) == source,
        lerp_req(source, target, 1i64),
        lerp_spec(source, target, 1i64) == target,
{
    lemma_lerp_on_integers(source, target, 0);
    lemma_lerp_on_integers(source, target, 1);
}

/// Interpolates between values. Returns `source_value` for a ratio of 0 and
/// `target_value` for a ratio of 1.
///
/// The ratio is not limited to the range between 0 and 1: outside of it the
/// result is extrapolated.
pub fn lerp<T, S>(source_value: &T, target_value: &T, ratio: S) -> (r: T) where
    T: Add<Output = T> + Mul<S, Output = T> + Copy,
    S: Sub<Output = S> + From<i8> + Copy,

    requires
        lerp_req(*source_value, *target_value, ratio),
    ensures
        lerp_outcome(*source_value, *target_value, ratio, r),
        lerp_obeys::<T, S>() ==> r == lerp_spec(*source_value, *target_value, ratio),
{
    let one = S::from(1i8);
    let rest = one.sub(ratio);
    let from = (*source_value).mul(rest);
    let to = (*target_value).mul(ratio);
    assert(lerp_steps(*source_value, *target_value, ratio, one, rest, from, to));
    from.add(to)
}

/// Mutates `source_value` to approach `target_value` at the given rate of
/// change: an interpolation that writes to its source.
pub fn approach<T, S>(source_value: &mut T, target_value: &T, rate_of_change: S) where
    T: Add<Output = T> + Mul<S, Output = T> + Copy,
    S: Sub<Output = S> + From<i8> + Copy,

    requires
        lerp_req(*old(source_value), *target_value, rate_of_change),
    ensures
        lerp_outcome(*old(source_value), *target_value, rate_of_change, *final(source_value)),
        lerp_obeys::<T, S>() ==> *final(source_value) == lerp_spec(
            *old(source_value),
            *target_value,
            rate_of_change,
        ),
{
    let next = lerp(&*source_value, target_value, rate_of_change);
    *source_value = next;
}

} // verus!
