//! Laws that relate several operations of the witnesses.
use vstd::prelude::*;
use vstd::std_specs::ops::NegSpec;
use crate::negative::Negative;
use crate::numeric::{fits, lemma_is_from_value, Numeric, SignedNumeric};
use crate::positive::Positive;

verus! {

/// Wrapping a value that is greater than zero succeeds, and unwrapping the
/// witness gives the same value back.
pub proof fn lemma_positive_round_trip<T: Numeric>(value: T)
    requires
        value.value() > 0,
    ensures
        Positive::<T>::spec_new(value) is Ok,
        Positive::<T>::spec_new(value)->Ok_0@ == value,
{
}

/// Wrapping a value that is less than zero succeeds, and unwrapping the
/// witness gives the same value back.
pub proof fn lemma_negative_round_trip<T: Numeric>(value: T)
    requires
        value.value() < 0,
    ensures
        Negative::<T>::spec_new(value) is Ok,
        Negative::<T>::spec_new(value)->Ok_0@ == value,
{
}

/// Negating a positive witness and negating the result again gives the
/// same positive witness back.
pub proof fn lemma_positive_double_negation<T: SignedNumeric>(p: Positive<T>)
    requires
        p@.value() > 0,
    ensures
        p.neg_spec().neg_spec() == p,
{
    let v = p@.value();
    p@.lemma_bounds();
    T::lemma_symmetric();
    T::lemma_from_value(-v);
    lemma_is_from_value(p@, v);
}

/// Negating a negative witness and negating the result again gives the
/// same negative witness back, where the value has a negation in `T`.
pub proof fn lemma_negative_double_negation<T: SignedNumeric>(n: Negative<T>)
    requires
        n@.value() < 0,
        fits::<T>(-n@.value()),
    ensures
        n.neg_spec().neg_spec() == n,
{
    let v = n@.value();
    n@.lemma_bounds();
    T::lemma_from_value(-v);
    lemma_is_from_value(n@, v);
}

} // verus!
