use numwit::{Negative, Positive};

type PosU8 = Positive<u8>;
type PosI8 = Positive<i8>;
type NegI8 = Negative<i8>;

#[test]
fn add_pos_pos() {
    assert_eq!(PosU8::one() + PosU8::one(), 2);
}

#[test]
fn add_assign_pos_pos() {
    let mut n = PosU8::one();
    n += PosU8::one();
    assert_eq!(n, 2);
}

#[test]
fn add_neg_neg() {
    assert_eq!(NegI8::one() + NegI8::one(), -2);
}

#[test]
fn add_assign_neg_neg() {
    let mut n = NegI8::one();
    n += NegI8::one();
    assert_eq!(n, -2);
}

#[test]
fn add_pos_neg() {
    assert_eq!(PosI8::one() + NegI8::one(), 0);
}

#[test]
fn add_neg_pos() {
    assert_eq!(NegI8::one() + PosI8::one(), 0);
}

#[test]
fn add_pos_unsigned() {
    assert_eq!(PosU8::one() + 1, 2);
}

#[test]
fn add_assign_pos_unsigned() {
    let mut n = PosU8::one();
    n += 1;
    assert_eq!(n, 2);
}

#[test]
fn sub_pos_pos() {
    assert_eq!(PosU8::one() - PosU8::one(), 0);
}

#[test]
fn sub_neg_neg() {
    assert_eq!(NegI8::one() - NegI8::one(), 0);
}

#[test]
fn sub_pos_neg() {
    assert_eq!(PosI8::one() - NegI8::one(), 2);
}

#[test]
fn sub_assign_pos_neg() {
    let mut n = PosI8::one();
    n -= NegI8::one();
    assert_eq!(n, 2);
}

#[test]
fn sub_neg_pos() {
    assert_eq!(NegI8::one() - PosI8::one(), -2);
}

#[test]
fn sub_assign_neg_pos() {
    let mut n = NegI8::one();
    n -= PosI8::one();
    assert_eq!(n, -2);
}

#[test]
fn sub_pos_unsigned() {
    assert_eq!(PosU8::one() - 1, 0);
}

#[test]
fn mul_pos_pos() {
    assert_eq!(PosU8::one() * PosU8::one(), 1);
}

#[test]
fn mul_assign_pos_pos() {
    let mut n = PosU8::one();
    n *= PosU8::one();
    assert_eq!(n, 1);
}

#[test]
fn mul_neg_neg() {
    assert_eq!(NegI8::one() * NegI8::one(), 1);
}

#[test]
fn mul_pos_neg() {
    assert_eq!(PosI8::one() * NegI8::one(), -1);
}

#[test]
fn mul_neg_pos() {
    assert_eq!(NegI8::one() * PosI8::one(), -1);
}

#[test]
fn mul_assign_neg_pos() {
    let mut n = NegI8::one();
    n *= PosI8::one();
    assert_eq!(n, -1);
}

#[test]
fn mul_pos_unsigned() {
    assert_eq!(PosU8::one() * 0, 0);
}

#[test]
fn div_pos_pos() {
    assert_eq!(PosI8::one() / PosI8::one(), 1);
}

#[test]
fn div_assign_pos_pos() {
    let mut n = PosI8::one();
    n /= PosI8::one();
    assert_eq!(n, 1);
}

#[test]
fn div_neg_neg() {
    assert_eq!(NegI8::one() / NegI8::one(), 1);
}

#[test]
fn div_pos_neg() {
    assert_eq!(PosI8::one() / NegI8::one(), -1);
}

#[test]
fn div_neg_pos() {
    assert_eq!(NegI8::one() / PosI8::one(), -1);
}

#[test]
fn div_assign_neg_pos() {
    let mut n = NegI8::one();
    n /= PosI8::one();
    assert_eq!(n, -1);
}

#[test]
fn div_pos_unsigned() {
    assert_eq!(PosU8::one() / 1, 1)
}

#[test]
fn div_assign_pos_unsigned() {
    let mut n = PosU8::one();
    n /= 1;
    assert_eq!(n, 1);
}
