//! Witness types for numbers being positive or negative.
//!
//! A [`Positive`] holds a value that is greater than zero, a [`Negative`] one
//! that is less than zero. Arithmetic on them keeps the witness wherever the
//! signs of the operands fix the sign of the result, and gives the raw value
//! back where they do not:
//!
//! | Operation | Left       | Right          | Result     | Compound form |
//! | --------- | ---------- | -------------- | ---------- | ------------- |
//! | `+`       | `Positive` | `Positive`     | `Positive` | yes           |
//! |           | `Negative` | `Negative`     | `Negative` | yes           |
//! |           | `Positive` | `Negative`     | raw        | no            |
//! |           | `Negative` | `Positive`     | raw        | no            |
//! |           | `Positive` | unsigned raw   | `Positive` | yes           |
//! |           | `Negative` | unsigned raw   | raw        | no            |
//! | `-`       | `Positive` | `Positive`     | raw        | no            |
//! |           | `Negative` | `Negative`     | raw        | no            |
//! |           | `Positive` | `Negative`     | `Positive` | yes           |
//! |           | `Negative` | `Positive`     | `Negative` | yes           |
//! |           | `Positive` | unsigned raw   | raw        | no            |
//! |           | `Negative` | unsigned raw   | `Negative` | yes           |
//! | `*`       | `Positive` | `Positive`     | `Positive` | yes           |
//! |           | `Negative` | `Negative`     | `Positive` | no            |
//! |           | `Positive` | `Negative`     | `Negative` | no            |
//! |           | `Negative` | `Positive`     | `Negative` | yes           |
//! |           | `Positive` | unsigned raw   | raw        | no            |
//! |           | `Negative` | unsigned raw   | raw        | no            |
//! | `/`       | `Positive` | `Positive`     | `Positive` | yes           |
//! |           | `Negative` | `Negative`     | `Positive` | no            |
//! |           | `Positive` | `Negative`     | `Negative` | no            |
//! |           | `Negative` | `Positive`     | `Negative` | yes           |
//! |           | `Positive` | unsigned raw   | `Positive` | yes           |
//! |           | `Negative` | unsigned raw   | `Negative` | yes           |
//!
//! Unary `-` turns one witness into the other.
pub mod laws;
pub mod negative;
pub mod numeric;
pub mod ops;
pub mod positive;

pub use negative::{Negative, NotNegative};
pub use numeric::{Numeric, SignedNumeric, UnsignedNumeric};
pub use positive::{NotPositive, Positive};
