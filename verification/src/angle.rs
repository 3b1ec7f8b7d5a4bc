//! An angle held as a plain radians value, with radians-wise arithmetic.
//!
//! No operation here normalizes: sums, differences, products and quotients
//! keep whatever winding the operands carry. Equality and ordering compare the
//! stored radians directly, so two angles that point the same way but differ
//! by whole turns are different values.
//!
//! The angle is generic over its scalar. Each operation is defined where the
//! scalar's own operation is, and its contract states that the resulting
//! radians are an outcome of that one operation on the radians of the
//! operands, and nothing else; for a scalar whose operators follow their
//! specifications it states the exact value as well.

use core::cmp::Ordering;
use core::ops::{Add, AddAssign, Div, DivAssign, Mul, MulAssign, Neg, Sub, SubAssign};
use crate::math::{lerp_req, lerp_spec, lerp_steps};
use vstd::prelude::*;
use vstd::std_specs::cmp::{PartialEqSpec, PartialEqSpecImpl, PartialOrdSpec, PartialOrdSpecImpl};
use vstd::std_specs::convert::FromSpecImpl;
use vstd::std_specs::ops::{
    AddSpec, AddSpecImpl, DivSpec, DivSpecImpl, MulSpec, MulSpecImpl, NegSpec, NegSpecImpl,
    SubSpec, SubSpecImpl,
};

verus! {

/// An angle, stored as its radians value.
#[derive(Copy, Clone, Debug)]
pub struct Angle<T>(pub T);

impl<T: Copy> Angle<T> {
    /// Creates an angle from a radians value, which is stored as given.
    pub fn from_radians(radians: T) -> (r: Self)
        ensures
            r == Angle(radians),
    {
        Angle(radians)
    }

    /// Returns the angle's value in radians, as it is stored.
    pub fn to_radians(&self) -> (r: T)
        ensures
            r == self.0,
    {
        self.0
    }
}

// from a bare scalar

impl<T> From<T> for Angle<T> {
    /// Takes the scalar as the angle's radians.
    fn from(other: T) -> (r: Angle<T>)
        ensures
            r == Angle(other),
    {
        Angle(other)
    }
}

impl<T> FromSpecImpl<T> for Angle<T> {
    open spec fn obeys_from_spec() -> bool {
        true
    }

    open spec fn from_spec(v: T) -> Angle<T> {
        Angle(v)
    }
}

// default

impl<T: Default> Default for Angle<T> {
    /// The angle whose radians are the scalar's default value.
    fn default() -> (r: Self)
        ensures
            call_ensures(T::default, (), r.0),
    {
        Angle(T::default())
    }
}

// equality and ordering

impl<T: PartialEq> PartialEq for Angle<T> {
    /// Two angles are equal where their radians are.
    fn eq(&self, other: &Self) -> (r: bool)
        ensures
            call_ensures(T::eq, (&self.0, &other.0), r),
    {
        self.0.eq(&other.0)
    }
}

impl<T: PartialEq> PartialEqSpecImpl for Angle<T> {
    open spec fn obeys_eq_spec() -> bool {
        T::obeys_eq_spec()
    }

    open spec fn eq_spec(&self, other: &Self) -> bool {
        self.0.eq_spec(&other.0)
    }
}

impl<T: PartialOrd> PartialOrd for Angle<T> {
    /// Two angles compare as their radians do.
    fn partial_cmp(&self, other: &Self) -> (r: Option<Ordering>)
        ensures
            call_ensures(T::partial_cmp, (&self.0, &other.0), r),
    {
        self.0.partial_cmp(&other.0)
    }
}

impl<T: PartialOrd> PartialOrdSpecImpl for Angle<T> {
    open spec fn obeys_partial_cmp_spec() -> bool {
        T::obeys_partial_cmp_spec()
    }

    open spec fn partial_cmp_spec(&self, other: &Self) -> Option<Ordering> {
        self.0.partial_cmp_spec(&other.0)
    }
}

// operators

impl<T: Neg<Output = T>> Neg for Angle<T> {
    type Output = Angle<T>;

    /// Negates the radians.
    fn neg(self) -> (r: Angle<T>)
        ensures
            call_ensures(T::neg, (self.0,), r.0),
            T::obeys_neg_spec() ==> r == Angle(self.0.neg_spec()),
    {
        Angle(self.0.neg())
    }
}

impl<T: Neg<Output = T>> NegSpecImpl for Angle<T> {
    open spec fn obeys_neg_spec() -> bool {
        T::obeys_neg_spec()
    }

    open spec fn neg_req(self) -> bool {
        self.0.neg_req()
    }

    open spec fn neg_spec(self) -> Angle<T> {
        Angle(self.0.neg_spec())
    }
}

impl<T: Add<Output = T>> Add for Angle<T> {
    type Output = Angle<T>;

    /// Adds the radians of the two angles.
    fn add(self, other: Angle<T>) -> (r: Angle<T>)
        ensures
            call_ensures(T::add, (self.0, other.0), r.0),
            T::obeys_add_spec() ==> r == Angle(self.0.add_spec(other.0)),
    {
        Angle(self.0.add(other.0))
    }
}

impl<T: Add<Output = T>> AddSpecImpl for Angle<T> {
    open spec fn obeys_add_spec() -> bool {
        T::obeys_add_spec()
    }

    open spec fn add_req(self, other: Angle<T>) -> bool {
        self.0.add_req(other.0)
    }

    open spec fn add_spec(self, other: Angle<T>) -> Angle<T> {
        Angle(self.0.add_spec(other.0))
    }
}

impl<T: Add<Output = T> + Copy> AddAssign for Angle<T> {
    /// Adds the radians of `other` to this angle, in place.
    fn add_assign(&mut self, other: Angle<T>)
        requires
            old(self).0.add_req(other.0),
        ensures
            call_ensures(T::add, (old(self).0, other.0), final(self).0),
            T::obeys_add_spec() ==> *final(self) == Angle(old(self).0.add_spec(other.0)),
    {
        *self = Angle(self.0.add(other.0))
    }
}

impl<T: Sub<Output = T>> Sub for Angle<T> {
    type Output = Angle<T>;

    /// Subtracts the radians of `other` from those of this angle.
    fn sub(self, other: Angle<T>) -> (r: Angle<T>)
        ensures
            call_ensures(T::sub, (self.0, other.0), r.0),
            T::obeys_sub_spec() ==> r == Angle(self.0.sub_spec(other.0)),
    {
        Angle(self.0.sub(other.0))
    }
}

impl<T: Sub<Output = T>> SubSpecImpl for Angle<T> {
    open spec fn obeys_sub_spec() -> bool {
        T::obeys_sub_spec()
    }

    open spec fn sub_req(self, other: Angle<T>) -> bool {
        self.0.sub_req(other.0)
    }

    open spec fn sub_spec(self, other: Angle<T>) -> Angle<T> {
        Angle(self.0.sub_spec(other.0))
    }
}

impl<T: Sub<Output = T> + Copy> SubAssign for Angle<T> {
    /// Subtracts the radians of `other` from this angle, in place.
    fn sub_assign(&mut self, other: Angle<T>)
        requires
            old(self).0.sub_req(other.0),
        ensures
            call_ensures(T::sub, (old(self).0, other.0), final(self).0),
            T::obeys_sub_spec() ==> *final(self) == Angle(old(self).0.sub_spec(other.0)),
    {
        *self = Angle(self.0.sub(other.0))
    }
}

impl<T: Mul<Output = T>> Mul<Angle<T>> for Angle<T> {
    type Output = Angle<T>;

    /// Multiplies the radians of the two angles.
    fn mul(self, other: Angle<T>) -> (r: Angle<T>)
        ensures
            call_ensures(T::mul, (self.0, other.0), r.0),
            T::obeys_mul_spec() ==> r == Angle(self.0.mul_spec(other.0)),
    {
        Angle(self.0.mul(other.0))
    }
}

impl<T: Mul<Output = T>> MulSpecImpl<Angle<T>> for Angle<T> {
    open spec fn obeys_mul_spec() -> bool {
        T::obeys_mul_spec()
    }

    open spec fn mul_req(self, other: Angle<T>) -> bool {
        self.0.mul_req(other.0)
    }

    open spec fn mul_spec(self, other: Angle<T>) -> Angle<T> {
        Angle(self.0.mul_spec(other.0))
    }
}

impl<T: Mul<Output = T> + Copy> MulAssign for Angle<T> {
    /// Multiplies the radians of this angle by those of `other`, in place.
    fn mul_assign(&mut self, other: Angle<T>)
        requires
            old(self).0.mul_req(other.0),
        ensures
            call_ensures(T::mul, (old(self).0, other.0), final(self).0),
            T::obeys_mul_spec() ==> *final(self) == Angle(old(self).0.mul_spec(other.0)),
    {
        *self = Angle(self.0.mul(other.0))
    }
}

impl<T: Mul<Output = T>> Mul<T> for Angle<T> {
    type Output = Angle<T>;

    /// Scales the radians by a bare scalar.
    fn mul(self, other: T) -> (r: Angle<T>)
        ensures
            call_ensures(T::mul, (self.0, other), r.0),
            T::obeys_mul_spec() ==> r == Angle(self.0.mul_spec(other)),
    {
        Angle(self.0.mul(other))
    }
}

impl<T: Mul<Output = T>> MulSpecImpl<T> for Angle<T> {
    open spec fn obeys_mul_spec() -> bool {
        T::obeys_mul_spec()
    }

    open spec fn mul_req(self, other: T) -> bool {
        self.0.mul_req(other)
    }

    open spec fn mul_spec(self, other: T) -> Angle<T> {
        Angle(self.0.mul_spec(other))
    }
}

impl<T: Div<Output = T>> Div<Angle<T>> for Angle<T> {
    type Output = Angle<T>;

    /// Divides the radians of this angle by those of `other`.
    fn div(self, other: Angle<T>) -> (r: Angle<T>)
        ensures
            call_ensures(T::div, (self.0, other.0), r.0),
            T::obeys_div_spec() ==> r == Angle(self.0.div_spec(other.0)),
    {
        Angle(self.0.div(other.0))
    }
}

impl<T: Div<Output = T>> DivSpecImpl<Angle<T>> for Angle<T> {
    open spec fn obeys_div_spec() -> bool {
        T::obeys_div_spec()
    }

    open spec fn div_req(self, other: Angle<T>) -> bool {
        self.0.div_req(other.0)
    }

    open spec fn div_spec(self, other: Angle<T>) -> Angle<T> {
        Angle(self.0.div_spec(other.0))
    }
}

impl<T: Div<Output = T> + Copy> DivAssign for Angle<T> {
    /// Divides the radians of this angle by those of `other`, in place.
    fn div_assign(&mut self, other: Angle<T>)
        requires
            old(self).0.div_req(other.0),
        ensures
            call_ensures(T::div, (old(self).0, other.0), final(self).0),
            T::obeys_div_spec() ==> *final(self) == Angle(old(self).0.div_spec(other.0)),
    {
        *self = Angle(self.0.div(other.0))
    }
}

impl<T: Div<Output = T>> Div<T> for Angle<T> {
    type Output = Angle<T>;

    /// Divides the radians by a bare scalar.
    fn div(self, other: T) -> (r: Angle<T>)
        ensures
            call_ensures(T::div, (self.0, other), r.0),
            T::obeys_div_spec() ==> r == Angle(self.0.div_spec(other)),
    {
        Angle(self.0.div(other))
    }
}

impl<T: Div<Output = T>> DivSpecImpl<T> for Angle<T> {
    open spec fn obeys_div_spec() -> bool {
        T::obeys_div_spec()
    }

    open spec fn div_req(self, other: T) -> bool {
        self.0.div_req(other)
    }

    open spec fn div_spec(self, other: T) -> Angle<T> {
        Angle(self.0.div_spec(other))
    }
}

/// Interpolating between two angles interpolates between their radians,
/// with no normalization on the way, and is defined wherever the
/// interpolation of the radians is.
pub proof fn lemma_lerp_between_angles<T>(source: Angle<T>, target: Angle<T>, ratio: T) where
    T: Add<Output = T> + Mul<Output = T> + Sub<Output = T> + From<i8> + Copy,

    ensures
        lerp_spec(source, target, ratio) == Angle(lerp_spec(source.0, target.0, ratio)),
        lerp_req(source.0, target.0, ratio) ==> lerp_req(source, target, ratio),
{
    if lerp_req(source.0, target.0, ratio) {
        assert forall|one: T, rest: T, from: Angle<T>, to: Angle<T>|
            lerp_steps(source, target, ratio, one, rest, from, to) implies from.0.add_req(to.0) by {
            assert(lerp_steps(source.0, target.0, ratio, one, rest, from.0, to.0));
        }
    }
}

} // verus!
