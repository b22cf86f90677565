use numwit::{Negative, NotNegative, NotPositive, Positive};

#[test]
fn new_positive_accepts_only_values_above_zero() {
    assert_eq!(Positive::new(1i8).unwrap(), 1);
    assert_eq!(Positive::new(i64::MAX).unwrap(), i64::MAX);
    assert!(matches!(Positive::new(0i8), Err(NotPositive(0))));
    assert!(matches!(Positive::new(-1i32), Err(NotPositive(-1))));
    assert!(matches!(Positive::new(0u8), Err(NotPositive(0))));
}

#[test]
fn new_negative_accepts_only_values_below_zero() {
    assert_eq!(Negative::new(-1i8).unwrap(), -1);
    assert_eq!(Negative::new(i16::MIN).unwrap(), i16::MIN);
    assert!(matches!(Negative::new(0i8), Err(NotNegative(0))));
    assert!(matches!(Negative::new(5i64), Err(NotNegative(5))));
    assert!(matches!(Negative::new(3u32), Err(NotNegative(3))));
}

#[test]
fn wrap_then_unwrap_gives_the_value_back() {
    for v in [1i32, 2, 999, i32::MAX] {
        assert_eq!(Positive::new(v).unwrap().into_inner(), v);
    }
    for v in [-1i32, -2, -999, i32::MIN] {
        assert_eq!(Negative::new(v).unwrap().into_inner(), v);
    }
    assert_eq!(Positive::new(42u16).unwrap().into_inner(), 42);
}

#[test]
fn one_is_the_identity_of_each_sign() {
    assert_eq!(Positive::<u64>::one().into_inner(), 1);
    assert_eq!(Negative::<isize>::one().into_inner(), -1);
    let p = Positive::new(37i32).unwrap();
    assert_eq!(p * Positive::one(), 37);
    let n = Negative::new(-37i32).unwrap();
    assert_eq!(n * Positive::one(), -37);
    assert_eq!(n * Negative::one(), 37);
}

#[test]
fn sums_keep_the_sign_the_table_gives() {
    let p: Positive<i32> = Positive::new(100i32).unwrap() + Positive::new(23).unwrap();
    assert_eq!(p, 123);
    let n: Negative<i32> = Negative::new(-100i32).unwrap() + Negative::new(-23).unwrap();
    assert_eq!(n, -123);
    let raw: i32 = Positive::new(5i32).unwrap() + Negative::new(-9).unwrap();
    assert_eq!(raw, -4);
    let raw: i32 = Negative::new(-5i32).unwrap() + Positive::new(9).unwrap();
    assert_eq!(raw, 4);
    let p: Positive<u32> = Positive::new(7u32).unwrap() + 0;
    assert_eq!(p, 7);
    let p: Positive<u8> = Positive::new(200u8).unwrap() + 55;
    assert_eq!(p, u8::MAX);
}

#[test]
fn differences_keep_the_sign_the_table_gives() {
    let raw: i16 = Positive::new(3i16).unwrap() - Positive::new(10).unwrap();
    assert_eq!(raw, -7);
    let raw: i16 = Negative::new(-3i16).unwrap() - Negative::new(-10).unwrap();
    assert_eq!(raw, 7);
    let p: Positive<i16> = Positive::new(3i16).unwrap() - Negative::new(-10).unwrap();
    assert_eq!(p, 13);
    let n: Negative<i16> = Negative::new(-3i16).unwrap() - Positive::new(10).unwrap();
    assert_eq!(n, -13);
    let raw: u16 = Positive::new(10u16).unwrap() - 10;
    assert_eq!(raw, 0);
    let n: Negative<i8> = Negative::new(-1i8).unwrap() - Positive::new(127).unwrap();
    assert_eq!(n, i8::MIN);
}

#[test]
fn products_keep_the_sign_the_table_gives() {
    let p: Positive<i64> = Positive::new(6i64).unwrap() * Positive::new(7).unwrap();
    assert_eq!(p, 42);
    let p: Positive<i64> = Negative::new(-6i64).unwrap() * Negative::new(-7).unwrap();
    assert_eq!(p, 42);
    let n: Negative<i64> = Positive::new(6i64).unwrap() * Negative::new(-7).unwrap();
    assert_eq!(n, -42);
    let n: Negative<i64> = Negative::new(-6i64).unwrap() * Positive::new(7).unwrap();
    assert_eq!(n, -42);
    let raw: u64 = Positive::new(6u64).unwrap() * 7;
    assert_eq!(raw, 42);
    let raw: u64 = Positive::new(6u64).unwrap() * 0;
    assert_eq!(raw, 0);
}

#[test]
fn quotients_round_toward_zero_and_keep_the_sign() {
    let p: Positive<i32> = Positive::new(7i32).unwrap() / Positive::new(2).unwrap();
    assert_eq!(p, 3);
    let p: Positive<i32> = Negative::new(-7i32).unwrap() / Negative::new(-2).unwrap();
    assert_eq!(p, 3);
    let n: Negative<i32> = Positive::new(7i32).unwrap() / Negative::new(-2).unwrap();
    assert_eq!(n, -3);
    let n: Negative<i32> = Negative::new(-7i32).unwrap() / Positive::new(2).unwrap();
    assert_eq!(n, -3);
    let p: Positive<u32> = Positive::new(9u32).unwrap() / 9;
    assert_eq!(p, 1);
    let n: Negative<i8> = Negative::new(i8::MIN).unwrap() / Positive::new(1).unwrap();
    assert_eq!(n, i8::MIN);
}

#[test]
fn compound_forms_match_the_plain_operators() {
    let a = Positive::new(12i32).unwrap();
    let b = Positive::new(5i32).unwrap();
    let m = Negative::new(-12i32).unwrap();
    let k = Negative::new(-5i32).unwrap();

    let mut c = a;
    c += b;
    assert_eq!(c, a + b);
    let mut c = m;
    c += k;
    assert_eq!(c, m + k);
    let mut c = a;
    c -= k;
    assert_eq!(c, a - k);
    let mut c = m;
    c -= b;
    assert_eq!(c, m - b);
    let mut c = a;
    c *= b;
    assert_eq!(c, a * b);
    let mut c = m;
    c *= b;
    assert_eq!(c, m * b);
    let mut c = a;
    c /= b;
    assert_eq!(c, a / b);
    let mut c = m;
    c /= b;
    assert_eq!(c, m / b);

    let u = Positive::new(12u32).unwrap();
    let mut c = u;
    c += 30;
    assert_eq!(c, u + 30);
    let mut c = u;
    c /= 5;
    assert_eq!(c, u / 5);
}

#[test]
fn negating_twice_gives_the_witness_back() {
    for v in [1i8, 2, 100, i8::MAX] {
        let p = Positive::new(v).unwrap();
        let n: Negative<i8> = -p;
        assert_eq!(n, -v);
        let back: Positive<i8> = -n;
        assert_eq!(back, p);
    }
    let n = Negative::new(-9i64).unwrap();
    assert_eq!(-(-n), n);
}

#[test]
fn literal_scenarios() {
    assert_eq!(Positive::new(1i32).unwrap() + Positive::new(1).unwrap(), 2);
    assert_eq!(Negative::new(-1i32).unwrap() + Negative::new(-1).unwrap(), -2);
    assert_eq!(Positive::new(1i32).unwrap() + Negative::new(-1).unwrap(), 0);
    assert_eq!(Positive::new(1i32).unwrap() - Negative::new(-1).unwrap(), 2);
    assert_eq!(Negative::new(-1i32).unwrap() - Positive::new(1).unwrap(), -2);
    let p: Positive<i32> = Negative::new(-1i32).unwrap() * Negative::new(-1).unwrap();
    assert_eq!(p, 1);
    assert_eq!(Positive::new(1i32).unwrap() / Positive::new(1).unwrap(), 1);
    assert_eq!(Positive::new(0i32).unwrap_err().0, 0);
    assert_eq!(Negative::new(0i32).unwrap_err().0, 0);
}

#[test]
fn error_messages_name_the_value() {
    assert_eq!(NotPositive(0i8).message(), "The value 0 was not positive");
    assert_eq!(NotPositive(-12i32).message(), "The value -12 was not positive");
    assert_eq!(NotNegative(17u8).message(), "The value 17 was not negative");
    assert_eq!(
        NotNegative(u64::MAX).message(),
        "The value 18446744073709551615 was not negative"
    );
    assert_eq!(
        Positive::new(i64::MIN).unwrap_err().message(),
        "The value -9223372036854775808 was not positive"
    );
}

#[test]
fn map_checks_the_new_value() {
    let p = Positive::new(10i32).unwrap();
    assert_eq!(p.map(|v| v - 3).unwrap(), 7);
    assert!(matches!(p.map(|v| v - 10), Err(NotPositive(0))));
    let n = Negative::new(-10i32).unwrap();
    assert_eq!(n.map(|v| v * 2).unwrap(), -20);
    assert!(matches!(n.map(|v| v + 15), Err(NotNegative(5))));
}

#[test]
fn unchecked_paths_keep_the_given_value() {
    let p = Positive::new_unchecked(8u8);
    assert_eq!(p.map_unchecked(|v| v * 2), 16);
    let mut q = Positive::new_unchecked(8u8);
    q.mut_unchecked(|v| v + 1);
    assert_eq!(q, 9);
    let n = Negative::new_unchecked(-8i8);
    assert_eq!(n.map_unchecked(|v| v / 2), -4);
    let mut m = Negative::new_unchecked(-8i8);
    m.mut_unchecked(|v| v - 1);
    assert_eq!(m, -9);
}

#[test]
fn borrowing_the_wrapped_value() {
    let p = Positive::new(5u16).unwrap();
    assert_eq!(*p.get(), 5);
    assert_eq!(*p.as_ref(), 5);
    let n = Negative::new(-5i16).unwrap();
    assert_eq!(*n.get(), -5);
    assert_eq!(*n.as_ref(), -5);
}

#[test]
fn raw_values_compare_in_both_directions() {
    let p = Positive::new(3u8).unwrap();
    assert!(p == 3u8);
    assert!(3u8 == p);
    assert!(4u8 != p);
    let n = Negative::new(-3isize).unwrap();
    assert!(n == -3isize);
    assert!(-3isize == n);
    assert!(n != -4isize);
}
