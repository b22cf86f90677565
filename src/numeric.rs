//! The integer types that can stand behind a sign witness, and the
//! mathematical facts about them that the witnesses rely on.
use vstd::prelude::*;

verus! {

/// Whether `v` can be held by a value of type `T`.
pub open spec fn fits<T: Numeric>(v: int) -> bool {
    T::min_value() <= v <= T::max_value()
}

/// Integer division that rounds toward zero, as Rust's `/` does.
pub open spec fn trunc_div(a: int, b: int) -> int {
    if a >= 0 {
        a / b
    } else {
        -((-a) / b)
    }
}

/// The magnitude of `v`.
pub open spec fn abs(v: int) -> int {
    if v < 0 {
        -v
    } else {
        v
    }
}

/// The ASCII digit for `d`, which is below ten.
pub open spec fn digit_char(d: nat) -> char {
    if d == 0 {
        '0'
    } else if d == 1 {
        '1'
    } else if d == 2 {
        '2'
    } else if d == 3 {
        '3'
    } else if d == 4 {
        '4'
    } else if d == 5 {
        '5'
    } else if d == 6 {
        '6'
    } else if d == 7 {
        '7'
    } else if d == 8 {
        '8'
    } else {
        '9'
    }
}

/// The decimal digits of `n`, most significant first, without leading zeros.
pub open spec fn digits(n: nat) -> Seq<char>
    decreases n,
{
    if n < 10 {
        seq![digit_char(n)]
    } else {
        digits(n / 10).push(digit_char(n % 10))
    }
}

/// `v` written in decimal, with a leading `-` when it is negative.
pub open spec fn decimal(v: int) -> Seq<char> {
    if v < 0 {
        seq!['-'] + digits((-v) as nat)
    } else {
        digits(v as nat)
    }
}

/// Relies on `i128`'s `Display` (through `ToString`): the value in decimal,
/// with a leading `-` when negative.
#[verifier::external_body]
fn i128_text(v: i128) -> (r: String)
    ensures
        r@ == decimal(v as int),
{
    v.to_string()
}

/// A fixed-width integer type, seen as the range of mathematical integers
/// `min_value()..=max_value()` that holds zero and one.
pub trait Numeric: Copy + Sized {
    /// The mathematical integer that `self` stands for.
    spec fn value(self) -> int;

    /// The least value of the type.
    spec fn min_value() -> int;

    /// The greatest value of the type.
    spec fn max_value() -> int;

    /// The value of the type that stands for `v`, where `v` fits.
    spec fn from_value(v: int) -> Self;

    /// Every value lies in the range, and the range holds zero and one.
    proof fn lemma_bounds(self)
        ensures
            Self::min_value() <= self.value() <= Self::max_value(),
            Self::min_value() <= 0,
            1 <= Self::max_value(),
    ;

    /// `from_value` gives back the integer it is handed, where it fits.
    proof fn lemma_from_value(v: int)
        requires
            Self::min_value() <= v <= Self::max_value(),
        ensures
            Self::from_value(v).value() == v,
    ;

    /// Two values that stand for the same integer are the same value.
    proof fn lemma_injective(self, other: Self)
        ensures
            self.value() == other.value() ==> self == other,
    ;

    /// The multiplicative identity.
    fn one() -> (r: Self)
        ensures
            r.value() == 1,
    ;

    /// Whether the value is greater than zero.
    fn is_positive(&self) -> (r: bool)
        ensures
            r == (self.value() > 0),
    ;

    /// Whether the value is less than zero.
    fn is_negative(&self) -> (r: bool)
        ensures
            r == (self.value() < 0),
    ;

    /// Whether the two values are equal.
    fn equals(&self, other: &Self) -> (r: bool)
        ensures
            r == (self.value() == other.value()),
    ;

    /// The sum, which must fit.
    fn plus(self, rhs: Self) -> (r: Self)
        requires
            Self::min_value() <= self.value() + rhs.value() <= Self::max_value(),
        ensures
            r.value() == self.value() + rhs.value(),
    ;

    /// The difference, which must fit.
    fn minus(self, rhs: Self) -> (r: Self)
        requires
            Self::min_value() <= self.value() - rhs.value() <= Self::max_value(),
        ensures
            r.value() == self.value() - rhs.value(),
    ;

    /// The product, which must fit.
    fn times(self, rhs: Self) -> (r: Self)
        requires
            Self::min_value() <= self.value() * rhs.value() <= Self::max_value(),
        ensures
            r.value() == self.value() * rhs.value(),
    ;

    /// The quotient rounded toward zero, which must fit.
    fn quotient(self, rhs: Self) -> (r: Self)
        requires
            rhs.value() != 0,
            Self::min_value() <= trunc_div(self.value(), rhs.value()) <= Self::max_value(),
        ensures
            r.value() == trunc_div(self.value(), rhs.value()),
    ;

    /// The value in decimal.
    fn decimal(&self) -> (r: String)
        ensures
            r@ == decimal(self.value()),
    ;
}

/// A numeric type whose range is that of a two's-complement integer.
pub trait SignedNumeric: Numeric {
    /// The range reaches one further below zero than above it.
    proof fn lemma_symmetric()
        ensures
            Self::min_value() == -Self::max_value() - 1,
    ;

    /// The negation, which must fit.
    fn negated(self) -> (r: Self)
        requires
            Self::min_value() <= -self.value() <= Self::max_value(),
        ensures
            r.value() == -self.value(),
    ;
}

/// A numeric type that holds no negative value.
pub trait UnsignedNumeric: Numeric {
    /// The range starts at zero.
    proof fn lemma_unsigned()
        ensures
            Self::min_value() == 0,
    ;
}

/// A value that stands for `v` is the value that `from_value` gives for it.
pub(crate) proof fn lemma_is_from_value<T: Numeric>(x: T, v: int)
    requires
        x.value() == v,
    ensures
        x == T::from_value(v),
{
    x.lemma_bounds();
    T::lemma_from_value(v);
    x.lemma_injective(T::from_value(v));
}

/// The sign of a product of two nonzero integers.
pub(crate) proof fn lemma_product_sign(a: int, b: int)
    requires
        a != 0,
        b != 0,
    ensures
        a * b > 0 <==> (a > 0) == (b > 0),
        a * b != 0,
{
    if a > 0 && b > 0 {
        assert(a * b > 0) by (nonlinear_arith)
            requires
                a > 0,
                b > 0,
        ;
    } else if a > 0 && b < 0 {
        assert(a * b < 0) by (nonlinear_arith)
            requires
                a > 0,
                b < 0,
        ;
    } else if a < 0 && b > 0 {
        assert(a * b < 0) by (nonlinear_arith)
            requires
                a < 0,
                b > 0,
        ;
    } else {
        assert(a * b > 0) by (nonlinear_arith)
            requires
                a < 0,
                b < 0,
        ;
    }
}

/// Dividing by minus one negates.
proof fn lemma_div_by_minus_one(n: int)
    ensures
        n / -1 == -n,
{
    assert(n / -1 == -n) by (nonlinear_arith);
}

/// Dividing by a negative divisor negates the quotient by its magnitude.
proof fn lemma_div_by_negative(n: int, b: int)
    requires
        n >= 0,
        b < 0,
    ensures
        n / b == -(n / (-b)),
{
    let m = -b;
    let q = n / m;
    let r = n % m;
    vstd::arithmetic::div_mod::lemma_fundamental_div_mod(n, m);
    assert(n == b * (-q) + r) by (nonlinear_arith)
        requires
            n == m * q + r,
            m == -b,
    ;
    assert(n / b == -q) by (nonlinear_arith)
        requires
            n == b * (-q) + r,
            0 <= r < -b,
            b < 0,
    ;
}

/// Where `a` is at least as large in magnitude as `b`, the quotient rounded
/// toward zero is nonzero, no larger in magnitude than `a`, and positive
/// exactly when `a` and `b` have the same sign.
pub(crate) proof fn lemma_trunc_div(a: int, b: int)
    requires
        b != 0,
        abs(a) >= abs(b),
    ensures
        1 <= abs(trunc_div(a, b)) <= abs(a),
        trunc_div(a, b) > 0 <==> (a > 0) == (b > 0),
{
    let n = abs(a);
    let m = abs(b);
    assert(1 <= n / m <= n) by (nonlinear_arith)
        requires
            n >= m,
            m > 0,
    ;
    if b < 0 {
        lemma_div_by_negative(n, b);
    }
}

impl Numeric for i8 {
    open spec fn value(self) -> int {
        self as int
    }

    open spec fn min_value() -> int {
        i8::MIN as int
    }

    open spec fn max_value() -> int {
        i8::MAX as int
    }

    open spec fn from_value(v: int) -> i8 {
        v as i8
    }

    proof fn lemma_bounds(self) {
    }

    proof fn lemma_from_value(v: int) {
    }

    proof fn lemma_injective(self, other: Self) {
    }

    fn one() -> (r: i8) {
        1
    }

    fn is_positive(&self) -> (r: bool) {
        *self > 0
    }

    fn is_negative(&self) -> (r: bool) {
        *self < 0
    }

    fn equals(&self, other: &i8) -> (r: bool) {
        *self == *other
    }

    fn plus(self, rhs: i8) -> (r: i8) {
        self + rhs
    }

    fn minus(self, rhs: i8) -> (r: i8) {
        self - rhs
    }

    fn times(self, rhs: i8) -> (r: i8) {
        self * rhs
    }

    fn quotient(self, rhs: i8) -> (r: i8) {
        proof {
            if self == i8::MIN && rhs == -1 {
                lemma_div_by_minus_one(-(self as int));
            }
        }
        self / rhs
    }

    fn decimal(&self) -> (r: String) {
        i128_text(*self as i128)
    }
}

impl SignedNumeric for i8 {
    proof fn lemma_symmetric() {
    }

    fn negated(self) -> (r: i8) {
        -self
    }
}

impl Numeric for i16 {
    open spec fn value(self) -> int {
        self as int
    }

    open spec fn min_value() -> int {
        i16::MIN as int
    }

    open spec fn max_value() -> int {
        i16::MAX as int
    }

    open spec fn from_value(v: int) -> i16 {
        v as i16
    }

    proof fn lemma_bounds(self) {
    }

    proof fn lemma_from_value(v: int) {
    }

    proof fn lemma_injective(self, other: Self) {
    }

    fn one() -> (r: i16) {
        1
    }

    fn is_positive(&self) -> (r: bool) {
        *self > 0
    }

    fn is_negative(&self) -> (r: bool) {
        *self < 0
    }

    fn equals(&self, other: &i16) -> (r: bool) {
        *self == *other
    }

    fn plus(self, rhs: i16) -> (r: i16) {
        self + rhs
    }

    fn minus(self, rhs: i16) -> (r: i16) {
        self - rhs
    }

    fn times(self, rhs: i16) -> (r: i16) {
        self * rhs
    }

    fn quotient(self, rhs: i16) -> (r: i16) {
        proof {
            if self == i16::MIN && rhs == -1 {
                lemma_div_by_minus_one(-(self as int));
            }
        }
        self / rhs
    }

    fn decimal(&self) -> (r: String) {
        i128_text(*self as i128)
    }
}

impl SignedNumeric for i16 {
    proof fn lemma_symmetric() {
    }

    fn negated(self) -> (r: i16) {
        -self
    }
}

impl Numeric for i32 {
    open spec fn value(self) -> int {
        self as int
    }

    open spec fn min_value() -> int {
        i32::MIN as int
    }

    open spec fn max_value() -> int {
        i32::MAX as int
    }

    open spec fn from_value(v: int) -> i32 {
        v as i32
    }

    proof fn lemma_bounds(self) {
    }

    proof fn lemma_from_value(v: int) {
    }

    proof fn lemma_injective(self, other: Self) {
    }

    fn one() -> (r: i32) {
        1
    }

    fn is_positive(&self) -> (r: bool) {
        *self > 0
    }

    fn is_negative(&self) -> (r: bool) {
        *self < 0
    }

    fn equals(&self, other: &i32) -> (r: bool) {
        *self == *other
    }

    fn plus(self, rhs: i32) -> (r: i32) {
        self + rhs
    }

    fn minus(self, rhs: i32) -> (r: i32) {
        self - rhs
    }

    fn times(self, rhs: i32) -> (r: i32) {
        self * rhs
    }

    fn quotient(self, rhs: i32) -> (r: i32) {
        proof {
            if self == i32::MIN && rhs == -1 {
                lemma_div_by_minus_one(-(self as int));
            }
        }
        self / rhs
    }

    fn decimal(&self) -> (r: String) {
        i128_text(*self as i128)
    }
}

impl SignedNumeric for i32 {
    proof fn lemma_symmetric() {
    }

    fn negated(self) -> (r: i32) {
        -self
    }
}

impl Numeric for i64 {
    open spec fn value(self) -> int {
        self as int
    }

    open spec fn min_value() -> int {
        i64::MIN as int
    }

    open spec fn max_value() -> int {
        i64::MAX as int
    }

    open spec fn from_value(v: int) -> i64 {
        v as i64
    }

    proof fn lemma_bounds(self) {
    }

    proof fn lemma_from_value(v: int) {
    }

    proof fn lemma_injective(self, other: Self) {
    }

    fn one() -> (r: i64) {
        1
    }

    fn is_positive(&self) -> (r: bool) {
        *self > 0
    }

    fn is_negative(&self) -> (r: bool) {
        *self < 0
    }

    fn equals(&self, other: &i64) -> (r: bool) {
        *self == *other
    }

    fn plus(self, rhs: i64) -> (r: i64) {
        self + rhs
    }

    fn minus(self, rhs: i64) -> (r: i64) {
        self - rhs
    }

    fn times(self, rhs: i64) -> (r: i64) {
        self * rhs
    }

    fn quotient(self, rhs: i64) -> (r: i64) {
        proof {
            if self == i64::MIN && rhs == -1 {
                lemma_div_by_minus_one(-(self as int));
            }
        }
        self / rhs
    }

    fn decimal(&self) -> (r: String) {
        i128_text(*self as i128)
    }
}

impl SignedNumeric for i64 {
    proof fn lemma_symmetric() {
    }

    fn negated(self) -> (r: i64) {
        -self
    }
}

impl Numeric for isize {
    open spec fn value(self) -> int {
        self as int
    }

    open spec fn min_value() -> int {
        isize::MIN as int
    }

    open spec fn max_value() -> int {
        isize::MAX as int
    }

    open spec fn from_value(v: int) -> isize {
        v as isize
    }

    proof fn lemma_bounds(self) {
    }

    proof fn lemma_from_value(v: int) {
    }

    proof fn lemma_injective(self, other: Self) {
    }

    fn one() -> (r: isize) {
        1
    }

    fn is_positive(&self) -> (r: bool) {
        *self > 0
    }

    fn is_negative(&self) -> (r: bool) {
        *self < 0
    }

    fn equals(&self, other: &isize) -> (r: bool) {
        *self == *other
    }

    fn plus(self, rhs: isize) -> (r: isize) {
        self + rhs
    }

    fn minus(self, rhs: isize) -> (r: isize) {
        self - rhs
    }

    fn times(self, rhs: isize) -> (r: isize) {
        self * rhs
    }

    fn quotient(self, rhs: isize) -> (r: isize) {
        proof {
            if self == isize::MIN && rhs == -1 {
                lemma_div_by_minus_one(-(self as int));
            }
        }
        self / rhs
    }

    fn decimal(&self) -> (r: String) {
        i128_text(*self as i128)
    }
}

impl SignedNumeric for isize {
    proof fn lemma_symmetric() {
    }

    fn negated(self) -> (r: isize) {
        -self
    }
}

impl Numeric for u8 {
    open spec fn value(self) -> int {
        self as int
    }

    open spec fn min_value() -> int {
        0
    }

    open spec fn max_value() -> int {
        u8::MAX as int
    }

    open spec fn from_value(v: int) -> u8 {
        v as u8
    }

    proof fn lemma_bounds(self) {
    }

    proof fn lemma_from_value(v: int) {
    }

    proof fn lemma_injective(self, other: Self) {
    }

    fn one() -> (r: u8) {
        1
    }

    fn is_positive(&self) -> (r: bool) {
        *self > 0
    }

    fn is_negative(&self) -> (r: bool) {
        *self < 0
    }

    fn equals(&self, other: &u8) -> (r: bool) {
        *self == *other
    }

    fn plus(self, rhs: u8) -> (r: u8) {
        self + rhs
    }

    fn minus(self, rhs: u8) -> (r: u8) {
        self - rhs
    }

    fn times(self, rhs: u8) -> (r: u8) {
        self * rhs
    }

    fn quotient(self, rhs: u8) -> (r: u8) {
        self / rhs
    }

    fn decimal(&self) -> (r: String) {
        i128_text(*self as i128)
    }
}

impl UnsignedNumeric for u8 {
    proof fn lemma_unsigned() {
    }
}

impl Numeric for u16 {
    open spec fn value(self) -> int {
        self as int
    }

    open spec fn min_value() -> int {
        0
    }

    open spec fn max_value() -> int {
        u16::MAX as int
    }

    open spec fn from_value(v: int) -> u16 {
        v as u16
    }

    proof fn lemma_bounds(self) {
    }

    proof fn lemma_from_value(v: int) {
    }

    proof fn lemma_injective(self, other: Self) {
    }

    fn one() -> (r: u16) {
        1
    }

    fn is_positive(&self) -> (r: bool) {
        *self > 0
    }

    fn is_negative(&self) -> (r: bool) {
        *self < 0
    }

    fn equals(&self, other: &u16) -> (r: bool) {
        *self == *other
    }

    fn plus(self, rhs: u16) -> (r: u16) {
        self + rhs
    }

    fn minus(self, rhs: u16) -> (r: u16) {
        self - rhs
    }

    fn times(self, rhs: u16) -> (r: u16) {
        self * rhs
    }

    fn quotient(self, rhs: u16) -> (r: u16) {
        self / rhs
    }

    fn decimal(&self) -> (r: String) {
        i128_text(*self as i128)
    }
}

impl UnsignedNumeric for u16 {
    proof fn lemma_unsigned() {
    }
}

impl Numeric for u32 {
    open spec fn value(self) -> int {
        self as int
    }

    open spec fn min_value() -> int {
        0
    }

    open spec fn max_value() -> int {
        u32::MAX as int
    }

    open spec fn from_value(v: int) -> u32 {
        v as u32
    }

    proof fn lemma_bounds(self) {
    }

    proof fn lemma_from_value(v: int) {
    }

    proof fn lemma_injective(self, other: Self) {
    }

    fn one() -> (r: u32) {
        1
    }

    fn is_positive(&self) -> (r: bool) {
        *self > 0
    }

    fn is_negative(&self) -> (r: bool) {
        *self < 0
    }

    fn equals(&self, other: &u32) -> (r: bool) {
        *self == *other
    }

    fn plus(self, rhs: u32) -> (r: u32) {
        self + rhs
    }

    fn minus(self, rhs: u32) -> (r: u32) {
        self - rhs
    }

    fn times(self, rhs: u32) -> (r: u32) {
        self * rhs
    }

    fn quotient(self, rhs: u32) -> (r: u32) {
        self / rhs
    }

    fn decimal(&self) -> (r: String) {
        i128_text(*self as i128)
    }
}

impl UnsignedNumeric for u32 {
    proof fn lemma_unsigned() {
    }
}

impl Numeric for u64 {
    open spec fn value(self) -> int {
        self as int
    }

    open spec fn min_value() -> int {
        0
    }

    open spec fn max_value() -> int {
        u64::MAX as int
    }

    open spec fn from_value(v: int) -> u64 {
        v as u64
    }

    proof fn lemma_bounds(self) {
    }

    proof fn lemma_from_value(v: int) {
    }

    proof fn lemma_injective(self, other: Self) {
    }

    fn one() -> (r: u64) {
        1
    }

    fn is_positive(&self) -> (r: bool) {
        *self > 0
    }

    fn is_negative(&self) -> (r: bool) {
        *self < 0
    }

    fn equals(&self, other: &u64) -> (r: bool) {
        *self == *other
    }

    fn plus(self, rhs: u64) -> (r: u64) {
        self + rhs
    }

    fn minus(self, rhs: u64) -> (r: u64) {
        self - rhs
    }

    fn times(self, rhs: u64) -> (r: u64) {
        self * rhs
    }

    fn quotient(self, rhs: u64) -> (r: u64) {
        self / rhs
    }

    fn decimal(&self) -> (r: String) {
        i128_text(*self as i128)
    }
}

impl UnsignedNumeric for u64 {
    proof fn lemma_unsigned() {
    }
}

impl Numeric for usize {
    open spec fn value(self) -> int {
        self as int
    }

    open spec fn min_value() -> int {
        0
    }

    open spec fn max_value() -> int {
        usize::MAX as int
    }

    open spec fn from_value(v: int) -> usize {
        v as usize
    }

    proof fn lemma_bounds(self) {
    }

    proof fn lemma_from_value(v: int) {
    }

    proof fn lemma_injective(self, other: Self) {
    }

    fn one() -> (r: usize) {
        1
    }

    fn is_positive(&self) -> (r: bool) {
        *self > 0
    }

    fn is_negative(&self) -> (r: bool) {
        *self < 0
    }

    fn equals(&self, other: &usize) -> (r: bool) {
        *self == *other
    }

    fn plus(self, rhs: usize) -> (r: usize) {
        self + rhs
    }

    fn minus(self, rhs: usize) -> (r: usize) {
        self - rhs
    }

    fn times(self, rhs: usize) -> (r: usize) {
        self * rhs
    }

    fn quotient(self, rhs: usize) -> (r: usize) {
        self / rhs
    }

    fn decimal(&self) -> (r: String) {
        i128_text(*self as i128)
    }
}

impl UnsignedNumeric for usize {
    proof fn lemma_unsigned() {
    }
}

} // verus!
