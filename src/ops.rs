//! The composition rules: which operator applied to which operands keeps a
//! sign that the operand signs fix, and which gives a raw value back.
//!
//! A result whose sign follows from the signs of the operands is wrapped in
//! the witness for that sign; where the left operand keeps its kind, the
//! compound form (`+=` and the like) exists too. A result whose sign the
//! operands do not fix is the raw value. Every operation requires that its
//! exact result fits in `T`; a division that is to keep a sign also requires
//! that the dividend is at least as large in magnitude as the divisor, since
//! the quotient is rounded toward zero.
use vstd::prelude::*;
use vstd::std_specs::ops::{AddSpec, DivSpec, MulSpec, SubSpec};
use crate::negative::Negative;
use crate::numeric::{
    abs, fits, lemma_is_from_value, lemma_product_sign, lemma_trunc_div, trunc_div, Numeric,
    SignedNumeric, UnsignedNumeric,
};
use crate::positive::Positive;

verus! {

/// A positive plus a positive is positive.
impl<T: Numeric> core::ops::Add<Positive<T>> for Positive<T> {
    type Output = Positive<T>;

    fn add(self, rhs: Positive<T>) -> (r: Positive<T>)
        ensures
            r@.value() == self@.value() + rhs@.value(),
            r@.value() > 0,
    {
        let a = self.into_inner();
        let b = rhs.into_inner();
        proof {
            a.lemma_bounds();
            b.lemma_bounds();
        }
        let v = a.plus(b);
        proof {
            lemma_is_from_value(v, a.value() + b.value());
        }
        Positive(v)
    }
}

impl<T: Numeric> vstd::std_specs::ops::AddSpecImpl<Positive<T>> for Positive<T> {
    open spec fn obeys_add_spec() -> bool {
        true
    }

    open spec fn add_req(self, rhs: Positive<T>) -> bool {
        fits::<T>(self@.value() + rhs@.value())
    }

    open(crate) spec fn add_spec(self, rhs: Positive<T>) -> Positive<T> {
        Positive(T::from_value(self@.value() + rhs@.value()))
    }
}

/// The same as `*self = *self + rhs`.
impl<T: Numeric> core::ops::AddAssign<Positive<T>> for Positive<T> {
    fn add_assign(&mut self, rhs: Positive<T>)
        requires
            fits::<T>(old(self)@.value() + rhs@.value()),
        ensures
            *final(self) == old(self).add_spec(rhs),
            final(self)@.value() == old(self)@.value() + rhs@.value(),
    {
        *self = *self + rhs;
    }
}

/// A negative plus a negative is negative.
impl<T: Numeric> core::ops::Add<Negative<T>> for Negative<T> {
    type Output = Negative<T>;

    fn add(self, rhs: Negative<T>) -> (r: Negative<T>)
        ensures
            r@.value() == self@.value() + rhs@.value(),
            r@.value() < 0,
    {
        let a = self.into_inner();
        let b = rhs.into_inner();
        proof {
            a.lemma_bounds();
            b.lemma_bounds();
        }
        let v = a.plus(b);
        proof {
            lemma_is_from_value(v, a.value() + b.value());
        }
        Negative(v)
    }
}

impl<T: Numeric> vstd::std_specs::ops::AddSpecImpl<Negative<T>> for Negative<T> {
    open spec fn obeys_add_spec() -> bool {
        true
    }

    open spec fn add_req(self, rhs: Negative<T>) -> bool {
        fits::<T>(self@.value() + rhs@.value())
    }

    open(crate) spec fn add_spec(self, rhs: Negative<T>) -> Negative<T> {
        Negative(T::from_value(self@.value() + rhs@.value()))
    }
}

/// The same as `*self = *self + rhs`.
impl<T: Numeric> core::ops::AddAssign<Negative<T>> for Negative<T> {
    fn add_assign(&mut self, rhs: Negative<T>)
        requires
            fits::<T>(old(self)@.value() + rhs@.value()),
        ensures
            *final(self) == old(self).add_spec(rhs),
            final(self)@.value() == old(self)@.value() + rhs@.value(),
    {
        *self = *self + rhs;
    }
}

/// A positive plus a negative has no sign that the operands fix: the raw value comes back.
impl<T: Numeric> core::ops::Add<Negative<T>> for Positive<T> {
    type Output = T;

    fn add(self, rhs: Negative<T>) -> (r: T)
        ensures
            r.value() == self@.value() + rhs@.value(),
    {
        let a = self.into_inner();
        let b = rhs.into_inner();
        proof {
            a.lemma_bounds();
            b.lemma_bounds();
        }
        let v = a.plus(b);
        proof {
            lemma_is_from_value(v, a.value() + b.value());
        }
        v
    }
}

impl<T: Numeric> vstd::std_specs::ops::AddSpecImpl<Negative<T>> for Positive<T> {
    open spec fn obeys_add_spec() -> bool {
        true
    }

    open spec fn add_req(self, rhs: Negative<T>) -> bool {
        true
    }

    open(crate) spec fn add_spec(self, rhs: Negative<T>) -> T {
        T::from_value(self@.value() + rhs@.value())
    }
}

/// A negative plus a positive has no sign that the operands fix: the raw value comes back.
impl<T: Numeric> core::ops::Add<Positive<T>> for Negative<T> {
    type Output = T;

    fn add(self, rhs: Positive<T>) -> (r: T)
        ensures
            r.value() == self@.value() + rhs@.value(),
    {
        let a = self.into_inner();
        let b = rhs.into_inner();
        proof {
            a.lemma_bounds();
            b.lemma_bounds();
        }
        let v = a.plus(b);
        proof {
            lemma_is_from_value(v, a.value() + b.value());
        }
        v
    }
}

impl<T: Numeric> vstd::std_specs::ops::AddSpecImpl<Positive<T>> for Negative<T> {
    open spec fn obeys_add_spec() -> bool {
        true
    }

    open spec fn add_req(self, rhs: Positive<T>) -> bool {
        true
    }

    open(crate) spec fn add_spec(self, rhs: Positive<T>) -> T {
        T::from_value(self@.value() + rhs@.value())
    }
}

/// A positive plus a non-negative raw value is positive.
impl<T: UnsignedNumeric> core::ops::Add<T> for Positive<T> {
    type Output = Positive<T>;

    fn add(self, rhs: T) -> (r: Positive<T>)
        ensures
            r@.value() == self@.value() + rhs.value(),
            r@.value() > 0,
    {
        let a = self.into_inner();
        let b = rhs;
        proof {
            a.lemma_bounds();
            b.lemma_bounds();
            T::lemma_unsigned();
        }
        let v = a.plus(b);
        proof {
            lemma_is_from_value(v, a.value() + b.value());
        }
        Positive(v)
    }
}

impl<T: UnsignedNumeric> vstd::std_specs::ops::AddSpecImpl<T> for Positive<T> {
    open spec fn obeys_add_spec() -> bool {
        true
    }

    open spec fn add_req(self, rhs: T) -> bool {
        fits::<T>(self@.value() + rhs.value())
    }

    open(crate) spec fn add_spec(self, rhs: T) -> Positive<T> {
        Positive(T::from_value(self@.value() + rhs.value()))
    }
}

/// The same as `*self = *self + rhs`.
impl<T: UnsignedNumeric> core::ops::AddAssign<T> for Positive<T> {
    fn add_assign(&mut self, rhs: T)
        requires
            fits::<T>(old(self)@.value() + rhs.value()),
        ensures
            *final(self) == old(self).add_spec(rhs),
            final(self)@.value() == old(self)@.value() + rhs.value(),
    {
        *self = *self + rhs;
    }
}

/// A negative plus a non-negative raw value has no sign that the operands fix: the raw value comes back.
impl<T: UnsignedNumeric> core::ops::Add<T> for Negative<T> {
    type Output = T;

    fn add(self, rhs: T) -> (r: T)
        ensures
            r.value() == self@.value() + rhs.value(),
    {
        let a = self.into_inner();
        let b = rhs;
        proof {
            a.lemma_bounds();
            b.lemma_bounds();
            T::lemma_unsigned();
        }
        let v = a.plus(b);
        proof {
            lemma_is_from_value(v, a.value() + b.value());
        }
        v
    }
}

impl<T: UnsignedNumeric> vstd::std_specs::ops::AddSpecImpl<T> for Negative<T> {
    open spec fn obeys_add_spec() -> bool {
        true
    }

    open spec fn add_req(self, rhs: T) -> bool {
        fits::<T>(self@.value() + rhs.value())
    }

    open(crate) spec fn add_spec(self, rhs: T) -> T {
        T::from_value(self@.value() + rhs.value())
    }
}

/// A positive minus a positive has no sign that the operands fix: the raw value comes back.
impl<T: Numeric> core::ops::Sub<Positive<T>> for Positive<T> {
    type Output = T;

    fn sub(self, rhs: Positive<T>) -> (r: T)
        ensures
            r.value() == self@.value() - rhs@.value(),
    {
        let a = self.into_inner();
        let b = rhs.into_inner();
        proof {
            a.lemma_bounds();
            b.lemma_bounds();
        }
        let v = a.minus(b);
        proof {
            lemma_is_from_value(v, a.value() - b.value());
        }
        v
    }
}

impl<T: Numeric> vstd::std_specs::ops::SubSpecImpl<Positive<T>> for Positive<T> {
    open spec fn obeys_sub_spec() -> bool {
        true
    }

    open spec fn sub_req(self, rhs: Positive<T>) -> bool {
        fits::<T>(self@.value() - rhs@.value())
    }

    open(crate) spec fn sub_spec(self, rhs: Positive<T>) -> T {
        T::from_value(self@.value() - rhs@.value())
    }
}

/// A negative minus a negative has no sign that the operands fix: the raw value comes back.
impl<T: Numeric> core::ops::Sub<Negative<T>> for Negative<T> {
    type Output = T;

    fn sub(self, rhs: Negative<T>) -> (r: T)
        ensures
            r.value() == self@.value() - rhs@.value(),
    {
        let a = self.into_inner();
        let b = rhs.into_inner();
        proof {
            a.lemma_bounds();
            b.lemma_bounds();
        }
        let v = a.minus(b);
        proof {
            lemma_is_from_value(v, a.value() - b.value());
        }
        v
    }
}

impl<T: Numeric> vstd::std_specs::ops::SubSpecImpl<Negative<T>> for Negative<T> {
    open spec fn obeys_sub_spec() -> bool {
        true
    }

    open spec fn sub_req(self, rhs: Negative<T>) -> bool {
        fits::<T>(self@.value() - rhs@.value())
    }

    open(crate) spec fn sub_spec(self, rhs: Negative<T>) -> T {
        T::from_value(self@.value() - rhs@.value())
    }
}

/// A positive minus a negative is positive.
impl<T: Numeric> core::ops::Sub<Negative<T>> for Positive<T> {
    type Output = Positive<T>;

    fn sub(self, rhs: Negative<T>) -> (r: Positive<T>)
        ensures
            r@.value() == self@.value() - rhs@.value(),
            r@.value() > 0,
    {
        let a = self.into_inner();
        let b = rhs.into_inner();
        proof {
            a.lemma_bounds();
            b.lemma_bounds();
        }
        let v = a.minus(b);
        proof {
            lemma_is_from_value(v, a.value() - b.value());
        }
        Positive(v)
    }
}

impl<T: Numeric> vstd::std_specs::ops::SubSpecImpl<Negative<T>> for Positive<T> {
    open spec fn obeys_sub_spec() -> bool {
        true
    }

    open spec fn sub_req(self, rhs: Negative<T>) -> bool {
        fits::<T>(self@.value() - rhs@.value())
    }

    open(crate) spec fn sub_spec(self, rhs: Negative<T>) -> Positive<T> {
        Positive(T::from_value(self@.value() - rhs@.value()))
    }
}

/// The same as `*self = *self - rhs`.
impl<T: Numeric> core::ops::SubAssign<Negative<T>> for Positive<T> {
    fn sub_assign(&mut self, rhs: Negative<T>)
        requires
            fits::<T>(old(self)@.value() - rhs@.value()),
        ensures
            *final(self) == old(self).sub_spec(rhs),
            final(self)@.value() == old(self)@.value() - rhs@.value(),
    {
        *self = *self - rhs;
    }
}

/// A negative minus a positive is negative.
impl<T: Numeric> core::ops::Sub<Positive<T>> for Negative<T> {
    type Output = Negative<T>;

    fn sub(self, rhs: Positive<T>) -> (r: Negative<T>)
        ensures
            r@.value() == self@.value() - rhs@.value(),
            r@.value() < 0,
    {
        let a = self.into_inner();
        let b = rhs.into_inner();
        proof {
            a.lemma_bounds();
            b.lemma_bounds();
        }
        let v = a.minus(b);
        proof {
            lemma_is_from_value(v, a.value() - b.value());
        }
        Negative(v)
    }
}

impl<T: Numeric> vstd::std_specs::ops::SubSpecImpl<Positive<T>> for Negative<T> {
    open spec fn obeys_sub_spec() -> bool {
        true
    }

    open spec fn sub_req(self, rhs: Positive<T>) -> bool {
        fits::<T>(self@.value() - rhs@.value())
    }

    open(crate) spec fn sub_spec(self, rhs: Positive<T>) -> Negative<T> {
        Negative(T::from_value(self@.value() - rhs@.value()))
    }
}

/// The same as `*self = *self - rhs`.
impl<T: Numeric> core::ops::SubAssign<Positive<T>> for Negative<T> {
    fn sub_assign(&mut self, rhs: Positive<T>)
        requires
            fits::<T>(old(self)@.value() - rhs@.value()),
        ensures
            *final(self) == old(self).sub_spec(rhs),
            final(self)@.value() == old(self)@.value() - rhs@.value(),
    {
        *self = *self - rhs;
    }
}

/// A positive minus a non-negative raw value has no sign that the operands fix: the raw value comes back.
impl<T: UnsignedNumeric> core::ops::Sub<T> for Positive<T> {
    type Output = T;

    fn sub(self, rhs: T) -> (r: T)
        ensures
            r.value() == self@.value() - rhs.value(),
    {
        let a = self.into_inner();
        let b = rhs;
        proof {
            a.lemma_bounds();
            b.lemma_bounds();
            T::lemma_unsigned();
        }
        let v = a.minus(b);
        proof {
            lemma_is_from_value(v, a.value() - b.value());
        }
        v
    }
}

impl<T: UnsignedNumeric> vstd::std_specs::ops::SubSpecImpl<T> for Positive<T> {
    open spec fn obeys_sub_spec() -> bool {
        true
    }

    open spec fn sub_req(self, rhs: T) -> bool {
        fits::<T>(self@.value() - rhs.value())
    }

    open(crate) spec fn sub_spec(self, rhs: T) -> T {
        T::from_value(self@.value() - rhs.value())
    }
}

/// A negative minus a non-negative raw value is negative.
impl<T: UnsignedNumeric> core::ops::Sub<T> for Negative<T> {
    type Output = Negative<T>;

    fn sub(self, rhs: T) -> (r: Negative<T>)
        ensures
            r@.value() == self@.value() - rhs.value(),
            r@.value() < 0,
    {
        let a = self.into_inner();
        let b = rhs;
        proof {
            a.lemma_bounds();
            b.lemma_bounds();
            T::lemma_unsigned();
        }
        let v = a.minus(b);
        proof {
            lemma_is_from_value(v, a.value() - b.value());
        }
        Negative(v)
    }
}

impl<T: UnsignedNumeric> vstd::std_specs::ops::SubSpecImpl<T> for Negative<T> {
    open spec fn obeys_sub_spec() -> bool {
        true
    }

    open spec fn sub_req(self, rhs: T) -> bool {
        fits::<T>(self@.value() - rhs.value())
    }

    open(crate) spec fn sub_spec(self, rhs: T) -> Negative<T> {
        Negative(T::from_value(self@.value() - rhs.value()))
    }
}

/// The same as `*self = *self - rhs`.
impl<T: UnsignedNumeric> core::ops::SubAssign<T> for Negative<T> {
    fn sub_assign(&mut self, rhs: T)
        requires
            fits::<T>(old(self)@.value() - rhs.value()),
        ensures
            *final(self) == old(self).sub_spec(rhs),
            final(self)@.value() == old(self)@.value() - rhs.value(),
    {
        *self = *self - rhs;
    }
}

/// A positive times a positive is positive.
impl<T: Numeric> core::ops::Mul<Positive<T>> for Positive<T> {
    type Output = Positive<T>;

    fn mul(self, rhs: Positive<T>) -> (r: Positive<T>)
        ensures
            r@.value() == self@.value() * rhs@.value(),
            r@.value() > 0,
    {
        let a = self.into_inner();
        let b = rhs.into_inner();
        proof {
            a.lemma_bounds();
            b.lemma_bounds();
            lemma_product_sign(a.value(), b.value());
        }
        let v = a.times(b);
        proof {
            lemma_is_from_value(v, a.value() * b.value());
        }
        Positive(v)
    }
}

impl<T: Numeric> vstd::std_specs::ops::MulSpecImpl<Positive<T>> for Positive<T> {
    open spec fn obeys_mul_spec() -> bool {
        true
    }

    open spec fn mul_req(self, rhs: Positive<T>) -> bool {
        fits::<T>(self@.value() * rhs@.value())
    }

    open(crate) spec fn mul_spec(self, rhs: Positive<T>) -> Positive<T> {
        Positive(T::from_value(self@.value() * rhs@.value()))
    }
}

/// The same as `*self = *self * rhs`.
impl<T: Numeric> core::ops::MulAssign<Positive<T>> for Positive<T> {
    fn mul_assign(&mut self, rhs: Positive<T>)
        requires
            fits::<T>(old(self)@.value() * rhs@.value()),
        ensures
            *final(self) == old(self).mul_spec(rhs),
            final(self)@.value() == old(self)@.value() * rhs@.value(),
    {
        *self = *self * rhs;
    }
}

/// A negative times a negative is positive.
impl<T: Numeric> core::ops::Mul<Negative<T>> for Negative<T> {
    type Output = Positive<T>;

    fn mul(self, rhs: Negative<T>) -> (r: Positive<T>)
        ensures
            r@.value() == self@.value() * rhs@.value(),
            r@.value() > 0,
    {
        let a = self.into_inner();
        let b = rhs.into_inner();
        proof {
            a.lemma_bounds();
            b.lemma_bounds();
            lemma_product_sign(a.value(), b.value());
        }
        let v = a.times(b);
        proof {
            lemma_is_from_value(v, a.value() * b.value());
        }
        Positive(v)
    }
}

impl<T: Numeric> vstd::std_specs::ops::MulSpecImpl<Negative<T>> for Negative<T> {
    open spec fn obeys_mul_spec() -> bool {
        true
    }

    open spec fn mul_req(self, rhs: Negative<T>) -> bool {
        fits::<T>(self@.value() * rhs@.value())
    }

    open(crate) spec fn mul_spec(self, rhs: Negative<T>) -> Positive<T> {
        Positive(T::from_value(self@.value() * rhs@.value()))
    }
}

/// A positive times a negative is negative.
impl<T: Numeric> core::ops::Mul<Negative<T>> for Positive<T> {
    type Output = Negative<T>;

    fn mul(self, rhs: Negative<T>) -> (r: Negative<T>)
        ensures
            r@.value() == self@.value() * rhs@.value(),
            r@.value() < 0,
    {
        let a = self.into_inner();
        let b = rhs.into_inner();
        proof {
            a.lemma_bounds();
            b.lemma_bounds();
            lemma_product_sign(a.value(), b.value());
        }
        let v = a.times(b);
        proof {
            lemma_is_from_value(v, a.value() * b.value());
        }
        Negative(v)
    }
}

impl<T: Numeric> vstd::std_specs::ops::MulSpecImpl<Negative<T>> for Positive<T> {
    open spec fn obeys_mul_spec() -> bool {
        true
    }

    open spec fn mul_req(self, rhs: Negative<T>) -> bool {
        fits::<T>(self@.value() * rhs@.value())
    }

    open(crate) spec fn mul_spec(self, rhs: Negative<T>) -> Negative<T> {
        Negative(T::from_value(self@.value() * rhs@.value()))
    }
}

/// A negative times a positive is negative.
impl<T: Numeric> core::ops::Mul<Positive<T>> for Negative<T> {
    type Output = Negative<T>;

    fn mul(self, rhs: Positive<T>) -> (r: Negative<T>)
        ensures
            r@.value() == self@.value() * rhs@.value(),
            r@.value() < 0,
    {
        let a = self.into_inner();
        let b = rhs.into_inner();
        proof {
            a.lemma_bounds();
            b.lemma_bounds();
            lemma_product_sign(a.value(), b.value());
        }
        let v = a.times(b);
        proof {
            lemma_is_from_value(v, a.value() * b.value());
        }
        Negative(v)
    }
}

impl<T: Numeric> vstd::std_specs::ops::MulSpecImpl<Positive<T>> for Negative<T> {
    open spec fn obeys_mul_spec() -> bool {
        true
    }

    open spec fn mul_req(self, rhs: Positive<T>) -> bool {
        fits::<T>(self@.value() * rhs@.value())
    }

    open(crate) spec fn mul_spec(self, rhs: Positive<T>) -> Negative<T> {
        Negative(T::from_value(self@.value() * rhs@.value()))
    }
}

/// The same as `*self = *self * rhs`.
impl<T: Numeric> core::ops::MulAssign<Positive<T>> for Negative<T> {
    fn mul_assign(&mut self, rhs: Positive<T>)
        requires
            fits::<T>(old(self)@.value() * rhs@.value()),
        ensures
            *final(self) == old(self).mul_spec(rhs),
            final(self)@.value() == old(self)@.value() * rhs@.value(),
    {
        *self = *self * rhs;
    }
}

/// A positive times a non-negative raw value has no sign that the operands fix: the raw value comes back.
impl<T: UnsignedNumeric> core::ops::Mul<T> for Positive<T> {
    type Output = T;

    fn mul(self, rhs: T) -> (r: T)
        ensures
            r.value() == self@.value() * rhs.value(),
    {
        let a = self.into_inner();
        let b = rhs;
        proof {
            a.lemma_bounds();
            b.lemma_bounds();
            T::lemma_unsigned();
        }
        let v = a.times(b);
        proof {
            lemma_is_from_value(v, a.value() * b.value());
        }
        v
    }
}

impl<T: UnsignedNumeric> vstd::std_specs::ops::MulSpecImpl<T> for Positive<T> {
    open spec fn obeys_mul_spec() -> bool {
        true
    }

    open spec fn mul_req(self, rhs: T) -> bool {
        fits::<T>(self@.value() * rhs.value())
    }

    open(crate) spec fn mul_spec(self, rhs: T) -> T {
        T::from_value(self@.value() * rhs.value())
    }
}

/// A negative times a non-negative raw value has no sign that the operands fix: the raw value comes back.
impl<T: UnsignedNumeric> core::ops::Mul<T> for Negative<T> {
    type Output = T;

    fn mul(self, rhs: T) -> (r: T)
        ensures
            r.value() == self@.value() * rhs.value(),
    {
        let a = self.into_inner();
        let b = rhs;
        proof {
            a.lemma_bounds();
            b.lemma_bounds();
            T::lemma_unsigned();
        }
        let v = a.times(b);
        proof {
            lemma_is_from_value(v, a.value() * b.value());
        }
        v
    }
}

impl<T: UnsignedNumeric> vstd::std_specs::ops::MulSpecImpl<T> for Negative<T> {
    open spec fn obeys_mul_spec() -> bool {
        true
    }

    open spec fn mul_req(self, rhs: T) -> bool {
        fits::<T>(self@.value() * rhs.value())
    }

    open(crate) spec fn mul_spec(self, rhs: T) -> T {
        T::from_value(self@.value() * rhs.value())
    }
}

/// A positive divided by a positive is positive.
impl<T: Numeric> core::ops::Div<Positive<T>> for Positive<T> {
    type Output = Positive<T>;

    fn div(self, rhs: Positive<T>) -> (r: Positive<T>)
        ensures
            r@.value() == trunc_div(self@.value(), rhs@.value()),
            r@.value() > 0,
    {
        let a = self.into_inner();
        let b = rhs.into_inner();
        proof {
            a.lemma_bounds();
            b.lemma_bounds();
            lemma_trunc_div(a.value(), b.value());
        }
        let v = a.quotient(b);
        proof {
            lemma_is_from_value(v, trunc_div(a.value(), b.value()));
        }
        Positive(v)
    }
}

impl<T: Numeric> vstd::std_specs::ops::DivSpecImpl<Positive<T>> for Positive<T> {
    open spec fn obeys_div_spec() -> bool {
        true
    }

    open spec fn div_req(self, rhs: Positive<T>) -> bool {
        abs(self@.value()) >= abs(rhs@.value())
    }

    open(crate) spec fn div_spec(self, rhs: Positive<T>) -> Positive<T> {
        Positive(T::from_value(trunc_div(self@.value(), rhs@.value())))
    }
}

/// The same as `*self = *self / rhs`.
impl<T: Numeric> core::ops::DivAssign<Positive<T>> for Positive<T> {
    fn div_assign(&mut self, rhs: Positive<T>)
        requires
            abs(old(self)@.value()) >= abs(rhs@.value()),
        ensures
            *final(self) == old(self).div_spec(rhs),
            final(self)@.value() == trunc_div(old(self)@.value(), rhs@.value()),
    {
        *self = *self / rhs;
    }
}

/// A negative divided by a negative is positive.
impl<T: Numeric> core::ops::Div<Negative<T>> for Negative<T> {
    type Output = Positive<T>;

    fn div(self, rhs: Negative<T>) -> (r: Positive<T>)
        ensures
            r@.value() == trunc_div(self@.value(), rhs@.value()),
            r@.value() > 0,
    {
        let a = self.into_inner();
        let b = rhs.into_inner();
        proof {
            a.lemma_bounds();
            b.lemma_bounds();
            lemma_trunc_div(a.value(), b.value());
        }
        let v = a.quotient(b);
        proof {
            lemma_is_from_value(v, trunc_div(a.value(), b.value()));
        }
        Positive(v)
    }
}

impl<T: Numeric> vstd::std_specs::ops::DivSpecImpl<Negative<T>> for Negative<T> {
    open spec fn obeys_div_spec() -> bool {
        true
    }

    open spec fn div_req(self, rhs: Negative<T>) -> bool {
        abs(self@.value()) >= abs(rhs@.value()) && fits::<T>(trunc_div(self@.value(), rhs@.value()))
    }

    open(crate) spec fn div_spec(self, rhs: Negative<T>) -> Positive<T> {
        Positive(T::from_value(trunc_div(self@.value(), rhs@.value())))
    }
}

/// A positive divided by a negative is negative.
impl<T: Numeric> core::ops::Div<Negative<T>> for Positive<T> {
    type Output = Negative<T>;

    fn div(self, rhs: Negative<T>) -> (r: Negative<T>)
        ensures
            r@.value() == trunc_div(self@.value(), rhs@.value()),
            r@.value() < 0,
    {
        let a = self.into_inner();
        let b = rhs.into_inner();
        proof {
            a.lemma_bounds();
            b.lemma_bounds();
            lemma_trunc_div(a.value(), b.value());
        }
        let v = a.quotient(b);
        proof {
            lemma_is_from_value(v, trunc_div(a.value(), b.value()));
        }
        Negative(v)
    }
}

impl<T: Numeric> vstd::std_specs::ops::DivSpecImpl<Negative<T>> for Positive<T> {
    open spec fn obeys_div_spec() -> bool {
        true
    }

    open spec fn div_req(self, rhs: Negative<T>) -> bool {
        abs(self@.value()) >= abs(rhs@.value()) && fits::<T>(trunc_div(self@.value(), rhs@.value()))
    }

    open(crate) spec fn div_spec(self, rhs: Negative<T>) -> Negative<T> {
        Negative(T::from_value(trunc_div(self@.value(), rhs@.value())))
    }
}

/// A negative divided by a positive is negative.
impl<T: Numeric> core::ops::Div<Positive<T>> for Negative<T> {
    type Output = Negative<T>;

    fn div(self, rhs: Positive<T>) -> (r: Negative<T>)
        ensures
            r@.value() == trunc_div(self@.value(), rhs@.value()),
            r@.value() < 0,
    {
        let a = self.into_inner();
        let b = rhs.into_inner();
        proof {
            a.lemma_bounds();
            b.lemma_bounds();
            lemma_trunc_div(a.value(), b.value());
        }
        let v = a.quotient(b);
        proof {
            lemma_is_from_value(v, trunc_div(a.value(), b.value()));
        }
        Negative(v)
    }
}

impl<T: Numeric> vstd::std_specs::ops::DivSpecImpl<Positive<T>> for Negative<T> {
    open spec fn obeys_div_spec() -> bool {
        true
    }

    open spec fn div_req(self, rhs: Positive<T>) -> bool {
        abs(self@.value()) >= abs(rhs@.value())
    }

    open(crate) spec fn div_spec(self, rhs: Positive<T>) -> Negative<T> {
        Negative(T::from_value(trunc_div(self@.value(), rhs@.value())))
    }
}

/// The same as `*self = *self / rhs`.
impl<T: Numeric> core::ops::DivAssign<Positive<T>> for Negative<T> {
    fn div_assign(&mut self, rhs: Positive<T>)
        requires
            abs(old(self)@.value()) >= abs(rhs@.value()),
        ensures
            *final(self) == old(self).div_spec(rhs),
            final(self)@.value() == trunc_div(old(self)@.value(), rhs@.value()),
    {
        *self = *self / rhs;
    }
}

/// A positive divided by a non-negative raw value is positive.
impl<T: UnsignedNumeric> core::ops::Div<T> for Positive<T> {
    type Output = Positive<T>;

    fn div(self, rhs: T) -> (r: Positive<T>)
        ensures
            r@.value() == trunc_div(self@.value(), rhs.value()),
            r@.value() > 0,
    {
        let a = self.into_inner();
        let b = rhs;
        proof {
            a.lemma_bounds();
            b.lemma_bounds();
            T::lemma_unsigned();
            lemma_trunc_div(a.value(), b.value());
        }
        let v = a.quotient(b);
        proof {
            lemma_is_from_value(v, trunc_div(a.value(), b.value()));
        }
        Positive(v)
    }
}

impl<T: UnsignedNumeric> vstd::std_specs::ops::DivSpecImpl<T> for Positive<T> {
    open spec fn obeys_div_spec() -> bool {
        true
    }

    open spec fn div_req(self, rhs: T) -> bool {
        rhs.value() != 0 && abs(self@.value()) >= abs(rhs.value())
    }

    open(crate) spec fn div_spec(self, rhs: T) -> Positive<T> {
        Positive(T::from_value(trunc_div(self@.value(), rhs.value())))
    }
}

/// The same as `*self = *self / rhs`.
impl<T: UnsignedNumeric> core::ops::DivAssign<T> for Positive<T> {
    fn div_assign(&mut self, rhs: T)
        requires
            rhs.value() != 0,
            abs(old(self)@.value()) >= abs(rhs.value()),
        ensures
            *final(self) == old(self).div_spec(rhs),
            final(self)@.value() == trunc_div(old(self)@.value(), rhs.value()),
    {
        *self = *self / rhs;
    }
}

/// A negative divided by a non-negative raw value is negative.
impl<T: UnsignedNumeric> core::ops::Div<T> for Negative<T> {
    type Output = Negative<T>;

    fn div(self, rhs: T) -> (r: Negative<T>)
        ensures
            r@.value() == trunc_div(self@.value(), rhs.value()),
            r@.value() < 0,
    {
        let a = self.into_inner();
        let b = rhs;
        proof {
            a.lemma_bounds();
            b.lemma_bounds();
            T::lemma_unsigned();
            lemma_trunc_div(a.value(), b.value());
        }
        let v = a.quotient(b);
        proof {
            lemma_is_from_value(v, trunc_div(a.value(), b.value()));
        }
        Negative(v)
    }
}

impl<T: UnsignedNumeric> vstd::std_specs::ops::DivSpecImpl<T> for Negative<T> {
    open spec fn obeys_div_spec() -> bool {
        true
    }

    open spec fn div_req(self, rhs: T) -> bool {
        rhs.value() != 0 && abs(self@.value()) >= abs(rhs.value())
    }

    open(crate) spec fn div_spec(self, rhs: T) -> Negative<T> {
        Negative(T::from_value(trunc_div(self@.value(), rhs.value())))
    }
}

/// The same as `*self = *self / rhs`.
impl<T: UnsignedNumeric> core::ops::DivAssign<T> for Negative<T> {
    fn div_assign(&mut self, rhs: T)
        requires
            rhs.value() != 0,
            abs(old(self)@.value()) >= abs(rhs.value()),
        ensures
            *final(self) == old(self).div_spec(rhs),
            final(self)@.value() == trunc_div(old(self)@.value(), rhs.value()),
    {
        *self = *self / rhs;
    }
}

/// Negating a positive value gives a negative one.
impl<T: SignedNumeric> core::ops::Neg for Positive<T> {
    type Output = Negative<T>;

    fn neg(self) -> (r: Negative<T>)
        ensures
            r@.value() == -self@.value(),
            r@.value() < 0,
    {
        let a = self.into_inner();
        proof {
            a.lemma_bounds();
            T::lemma_symmetric();
        }
        let v = a.negated();
        proof {
            lemma_is_from_value(v, -a.value());
        }
        Negative(v)
    }
}

impl<T: SignedNumeric> vstd::std_specs::ops::NegSpecImpl for Positive<T> {
    open spec fn obeys_neg_spec() -> bool {
        true
    }

    open spec fn neg_req(self) -> bool {
        true
    }

    open(crate) spec fn neg_spec(self) -> Negative<T> {
        Negative(T::from_value(-self@.value()))
    }
}

/// Negating a negative value gives a positive one.
impl<T: SignedNumeric> core::ops::Neg for Negative<T> {
    type Output = Positive<T>;

    fn neg(self) -> (r: Positive<T>)
        ensures
            r@.value() == -self@.value(),
            r@.value() > 0,
    {
        let a = self.into_inner();
        proof {
            a.lemma_bounds();
        }
        let v = a.negated();
        proof {
            lemma_is_from_value(v, -a.value());
        }
        Positive(v)
    }
}

impl<T: SignedNumeric> vstd::std_specs::ops::NegSpecImpl for Negative<T> {
    open spec fn obeys_neg_spec() -> bool {
        true
    }

    open spec fn neg_req(self) -> bool {
        fits::<T>(-self@.value())
    }

    open(crate) spec fn neg_spec(self) -> Positive<T> {
        Positive(T::from_value(-self@.value()))
    }
}

} // verus!
