//! The witness that a value is greater than zero.
use vstd::prelude::*;
use crate::numeric::Numeric;

verus! {

/// A value of `T` that is known to be greater than zero.
///
/// Every value of this type holds a number above zero: the checked
/// constructor tests it, and every other way to build or change one demands
/// a proof of it.
#[derive(Debug, Copy, PartialEq, Eq, PartialOrd, Ord, Hash)]
pub struct Positive<T: Numeric>(pub(crate) T);

/// The error of [`Positive::new`] and [`Positive::map`]: the value that was
/// not greater than zero, handed back.
#[derive(Debug)]
pub struct NotPositive<T>(pub T);

impl<T: Numeric> Clone for Positive<T> {
    fn clone(&self) -> (r: Self)
        ensures
            r == *self,
    {
        *self
    }
}

impl<T: Numeric> View for Positive<T> {
    type V = T;

    /// The wrapped value.
    open(crate) spec fn view(&self) -> T {
        self.0
    }
}

impl<T: Numeric> Positive<T> {
    /// Every witness holds a value above zero; `use_type_invariant` brings
    /// this fact into a proof.
    #[verifier::type_invariant]
    pub open spec fn inv(self) -> bool {
        self@.value() > 0
    }

    /// What [`Positive::new`] returns for `value`.
    pub open(crate) spec fn spec_new(value: T) -> Result<Positive<T>, NotPositive<T>> {
        if value.value() > 0 {
            Ok(Positive(value))
        } else {
            Err(NotPositive(value))
        }
    }

    /// Gives up the witness and returns the wrapped value.
    pub fn into_inner(self) -> (r: T)
        ensures
            r == self@,
            r.value() > 0,
    {
        proof {
            use_type_invariant(&self);
        }
        self.0
    }

    /// Wraps `value` without a test at run time: the caller proves that it
    /// is greater than zero.
    pub fn new_unchecked(value: T) -> (r: Self)
        requires
            value.value() > 0,
        ensures
            r@ == value,
    {
        Positive(value)
    }

    /// Applies `f` to the wrapped value without a test at run time: the
    /// caller proves that every result of `f` is greater than zero.
    pub fn map_unchecked(self, mut f: impl FnMut(T) -> T) -> (r: Self)
        requires
            f.requires((self@,)),
            forall|v: T| #[trigger] f.ensures((self@,), v) ==> v.value() > 0,
        ensures
            f.ensures((self@,), r@),
    {
        Positive(f(self.0))
    }

    /// Replaces the wrapped value with what `f` makes of it, without a test
    /// at run time: the caller proves that every result of `f` is greater
    /// than zero.
    pub fn mut_unchecked(&mut self, mut f: impl FnMut(T) -> T)
        requires
            f.requires((old(self)@,)),
            forall|v: T| #[trigger] f.ensures((old(self)@,), v) ==> v.value() > 0,
        ensures
            f.ensures((old(self)@,), final(self)@),
    {
        *self = Positive(f(self.0));
    }

    /// Wraps `value` if it is greater than zero, and hands it back in the
    /// error otherwise.
    pub fn new(value: T) -> (r: Result<Self, NotPositive<T>>)
        ensures
            r == Self::spec_new(value),
            r is Ok <==> value.value() > 0,
            r matches Ok(p) ==> p@ == value,
            r matches Err(e) ==> e.0 == value,
    {
        if value.is_positive() {
            Ok(Positive(value))
        } else {
            Err(NotPositive(value))
        }
    }

    /// Applies `f` to the wrapped value and wraps the result again if it is
    /// greater than zero; otherwise the error holds the result.
    pub fn map(self, mut f: impl FnMut(T) -> T) -> (r: Result<Self, NotPositive<T>>)
        requires
            f.requires((self@,)),
        ensures
            match r {
                Ok(p) => f.ensures((self@,), p@) && p@.value() > 0,
                Err(e) => f.ensures((self@,), e.0) && e.0.value() <= 0,
            },
    {
        Self::new(f(self.0))
    }

    /// The witness for the multiplicative identity of `T`.
    pub fn one() -> (r: Self)
        ensures
            r@.value() == 1,
    {
        Positive(T::one())
    }

    /// Borrows the wrapped value.
    pub fn get(&self) -> (r: &T)
        ensures
            *r == self@,
            r.value() > 0,
    {
        proof {
            use_type_invariant(self);
        }
        &self.0
    }
}

impl<T: Numeric> NotPositive<T> {
    /// The message that describes the error: `The value {value} was not
    /// positive`, with the value in decimal.
    pub fn message(&self) -> (r: String)
        ensures
            r@ == "The value "@ + crate::numeric::decimal(self.0.value()) + " was not positive"@,
    {
        let mut r = String::from_str("The value ");
        let text = self.0.decimal();
        r.append(text.as_str());
        r.append(" was not positive");
        r
    }
}

impl<T: Numeric> AsRef<T> for Positive<T> {
    fn as_ref(&self) -> (r: &T)
        ensures
            *r == self@,
    {
        &self.0
    }
}

impl<T: Numeric> PartialEq<T> for Positive<T> {
    fn eq(&self, other: &T) -> (r: bool) {
        self.0.equals(other)
    }
}

impl<T: Numeric> vstd::std_specs::cmp::PartialEqSpecImpl<T> for Positive<T> {
    open spec fn obeys_eq_spec() -> bool {
        true
    }

    /// A witness equals a raw value when the wrapped value equals it.
    open spec fn eq_spec(&self, other: &T) -> bool {
        self@.value() == other.value()
    }
}

/// A raw `i8` equals a witness when it equals the wrapped value.
impl PartialEq<Positive<i8>> for i8 {
    fn eq(&self, other: &Positive<i8>) -> (r: bool) {
        *self == other.0
    }
}

impl vstd::std_specs::cmp::PartialEqSpecImpl<Positive<i8>> for i8 {
    open spec fn obeys_eq_spec() -> bool {
        true
    }

    open spec fn eq_spec(&self, other: &Positive<i8>) -> bool {
        self.value() == other@.value()
    }
}

/// A raw `i16` equals a witness when it equals the wrapped value.
impl PartialEq<Positive<i16>> for i16 {
    fn eq(&self, other: &Positive<i16>) -> (r: bool) {
        *self == other.0
    }
}

impl vstd::std_specs::cmp::PartialEqSpecImpl<Positive<i16>> for i16 {
    open spec fn obeys_eq_spec() -> bool {
        true
    }

    open spec fn eq_spec(&self, other: &Positive<i16>) -> bool {
        self.value() == other@.value()
    }
}

/// A raw `i32` equals a witness when it equals the wrapped value.
impl PartialEq<Positive<i32>> for i32 {
    fn eq(&self, other: &Positive<i32>) -> (r: bool) {
        *self == other.0
    }
}

impl vstd::std_specs::cmp::PartialEqSpecImpl<Positive<i32>> for i32 {
    open spec fn obeys_eq_spec() -> bool {
        true
    }

    open spec fn eq_spec(&self, other: &Positive<i32>) -> bool {
        self.value() == other@.value()
    }
}

/// A raw `i64` equals a witness when it equals the wrapped value.
impl PartialEq<Positive<i64>> for i64 {
    fn eq(&self, other: &Positive<i64>) -> (r: bool) {
        *self == other.0
    }
}

impl vstd::std_specs::cmp::PartialEqSpecImpl<Positive<i64>> for i64 {
    open spec fn obeys_eq_spec() -> bool {
        true
    }

    open spec fn eq_spec(&self, other: &Positive<i64>) -> bool {
        self.value() == other@.value()
    }
}

/// A raw `isize` equals a witness when it equals the wrapped value.
impl PartialEq<Positive<isize>> for isize {
    fn eq(&self, other: &Positive<isize>) -> (r: bool) {
        *self == other.0
    }
}

impl vstd::std_specs::cmp::PartialEqSpecImpl<Positive<isize>> for isize {
    open spec fn obeys_eq_spec() -> bool {
        true
    }

    open spec fn eq_spec(&self, other: &Positive<isize>) -> bool {
        self.value() == other@.value()
    }
}

/// A raw `u8` equals a witness when it equals the wrapped value.
impl PartialEq<Positive<u8>> for u8 {
    fn eq(&self, other: &Positive<u8>) -> (r: bool) {
        *self == other.0
    }
}

impl vstd::std_specs::cmp::PartialEqSpecImpl<Positive<u8>> for u8 {
    open spec fn obeys_eq_spec() -> bool {
        true
    }

    open spec fn eq_spec(&self, other: &Positive<u8>) -> bool {
        self.value() == other@.value()
    }
}

/// A raw `u16` equals a witness when it equals the wrapped value.
impl PartialEq<Positive<u16>> for u16 {
    fn eq(&self, other: &Positive<u16>) -> (r: bool) {
        *self == other.0
    }
}

impl vstd::std_specs::cmp::PartialEqSpecImpl<Positive<u16>> for u16 {
    open spec fn obeys_eq_spec() -> bool {
        true
    }

    open spec fn eq_spec(&self, other: &Positive<u16>) -> bool {
        self.value() == other@.value()
    }
}

/// A raw `u32` equals a witness when it equals the wrapped value.
impl PartialEq<Positive<u32>> for u32 {
    fn eq(&self, other: &Positive<u32>) -> (r: bool) {
        *self == other.0
    }
}

impl vstd::std_specs::cmp::PartialEqSpecImpl<Positive<u32>> for u32 {
    open spec fn obeys_eq_spec() -> bool {
        true
    }

    open spec fn eq_spec(&self, other: &Positive<u32>) -> bool {
        self.value() == other@.value()
    }
}

/// A raw `u64` equals a witness when it equals the wrapped value.
impl PartialEq<Positive<u64>> for u64 {
    fn eq(&self, other: &Positive<u64>) -> (r: bool) {
        *self == other.0
    }
}

impl vstd::std_specs::cmp::PartialEqSpecImpl<Positive<u64>> for u64 {
    open spec fn obeys_eq_spec() -> bool {
        true
    }

    open spec fn eq_spec(&self, other: &Positive<u64>) -> bool {
        self.value() == other@.value()
    }
}

/// A raw `usize` equals a witness when it equals the wrapped value.
impl PartialEq<Positive<usize>> for usize {
    fn eq(&self, other: &Positive<usize>) -> (r: bool) {
        *self == other.0
    }
}

impl vstd::std_specs::cmp::PartialEqSpecImpl<Positive<usize>> for usize {
    open spec fn obeys_eq_spec() -> bool {
        true
    }

    open spec fn eq_spec(&self, other: &Positive<usize>) -> bool {
        self.value() == other@.value()
    }
}

} // verus!
