//! The error taxonomy of the tensor layer, and the human-readable message of
//! each error.
//!
//! Every failure of construction or element access is surfaced as a
//! [`TensorError`] value. The shape-resolution errors embed their numeric
//! operands verbatim in the message text; callers rely on those values
//! appearing there, so the rendering is verified down to the decimal digits.

use vstd::prelude::*;
use vstd::string::StringExecFns;

verus! {

/// A failure of tensor construction or element access.
#[derive(Debug, Clone, Copy, PartialEq, Eq, Structural)]
pub enum TensorError {
    /// More than one `-1` wildcard appeared in a shape.
    MultipleWildcards,
    /// A shape entry was less than `-1`; the entry is carried.
    InvalidDimension(i64),
    /// A wildcard was present but the data length (first field) is not
    /// divisible by the product of the known dimensions (second field).
    IndivisibleRemainder(usize, i64),
    /// No wildcard was present and the product of the dimensions (first
    /// field) differs from the data length (second field).
    ShapeDataMismatch(i64, usize),
    /// A shape with a zero dimension was paired with non-empty data.
    NonEmptyDataForZeroDim,
    /// An accessor was invoked against a buffer of a different element kind.
    TypeError,
    /// An element index (carried) was out of bounds.
    IndexError(usize),
    /// A write was attempted on an immutable tensor.
    NotMutable,
}

/// The decimal digit character for `d`.
pub open spec fn spec_digit_char(d: int) -> char
    recommends
        0 <= d < 10,
{
    if d == 0 {
        '0'
    } else if d == 1 {
        '1'
    } else if d == 2 {
        '2'
    } else if d == 3 {
        '3'
    } else if d == 4 {
        '4'
    } else if d == 5 {
        '5'
    } else if d == 6 {
        '6'
    } else if d == 7 {
        '7'
    } else if d == 8 {
        '8'
    } else {
        '9'
    }
}

/// The decimal rendering of a non-negative integer, most significant digit
/// first, with no sign and no leading zero (except for `0` itself).
pub open spec fn spec_udec(n: nat) -> Seq<char>
    decreases n,
{
    if n < 10 {
        seq![spec_digit_char(n as int)]
    } else {
        spec_udec(n / 10) + seq![spec_digit_char((n % 10) as int)]
    }
}

/// The decimal rendering of an integer: a `-` sign for negative values,
/// then the digits of the magnitude.
pub open spec fn spec_dec(n: int) -> Seq<char> {
    if n < 0 {
        seq!['-'] + spec_udec((-n) as nat)
    } else {
        spec_udec(n as nat)
    }
}

/// The single-character string slice for the decimal digit `d`.
fn digit_str(d: u64) -> (r: &'static str)
    requires
        d < 10,
    ensures
        r@ == seq![spec_digit_char(d as int)],
{
    proof {
        reveal_strlit("0");
        reveal_strlit("1");
        reveal_strlit("2");
        reveal_strlit("3");
        reveal_strlit("4");
        reveal_strlit("5");
        reveal_strlit("6");
        reveal_strlit("7");
        reveal_strlit("8");
        reveal_strlit("9");
    }
    let r: &'static str = if d == 0 {
        "0"
    } else if d == 1 {
        "1"
    } else if d == 2 {
        "2"
    } else if d == 3 {
        "3"
    } else if d == 4 {
        "4"
    } else if d == 5 {
        "5"
    } else if d == 6 {
        "6"
    } else if d == 7 {
        "7"
    } else if d == 8 {
        "8"
    } else {
        "9"
    };
    proof {
        assert(r@ =~= seq![spec_digit_char(d as int)]);
    }
    r
}

/// Renders `n` in decimal.
pub fn u64_to_decimal(n: u64) -> (r: String)
    ensures
        r@ == spec_udec(n as nat),
    decreases n,
{
    if n < 10 {
        String::from_str(digit_str(n))
    } else {
        let mut s = u64_to_decimal(n / 10);
        s.append(digit_str(n % 10));
        s
    }
}

/// Renders `n` in decimal, with a `-` sign when it is negative.
pub fn i64_to_decimal(n: i64) -> (r: String)
    ensures
        r@ == spec_dec(n as int),
{
    if n < 0 {
        // The magnitude is computed without negating `n` itself, which would
        // overflow at the smallest value.
        let magnitude: u64 = ((-(n + 1)) as u64) + 1;
        proof {
            reveal_strlit("-");
            assert(magnitude as int == -(n as int));
        }
        let mut s = String::from_str("-");
        let digits = u64_to_decimal(magnitude);
        s.append(digits.as_str());
        proof {
            assert("-"@ =~= seq!['-']);
        }
        s
    } else {
        u64_to_decimal(n as u64)
    }
}

/// Renders `n` in decimal.
pub fn usize_to_decimal(n: usize) -> (r: String)
    ensures
        r@ == spec_udec(n as nat),
{
    u64_to_decimal(n as u64)
}

/// The message text of each error. The shape-resolution messages carry their
/// numeric operands in decimal, exactly as stated here.
pub open spec fn spec_message(e: TensorError) -> Seq<char> {
    match e {
        TensorError::MultipleWildcards => "Only one dynamic dimension (-1 or 0) is allowed in the shape"@,
        TensorError::InvalidDimension(d) => "Invalid dimension in shape: "@ + spec_dec(d as int),
        TensorError::IndivisibleRemainder(len, product) => "Data length ("@ + spec_udec(len as nat)
            + ") is not divisible by the product of known dimensions ("@ + spec_dec(product as int)
            + ")"@,
        TensorError::ShapeDataMismatch(product, len) => "Product of shape dimensions ("@
            + spec_dec(product as int) + ") does not match data length ("@ + spec_udec(len as nat)
            + ")"@,
        TensorError::NonEmptyDataForZeroDim => "Data must be empty for tensors with a zero dimension"@,
        TensorError::TypeError => "Tensor element type does not match the requested type"@,
        TensorError::IndexError(i) => "Index ("@ + spec_udec(i as nat) + ") is out of bounds"@,
        TensorError::NotMutable => "Tensor is not mutable"@,
    }
}

impl TensorError {
    /// The stable, human-readable message of this error.
    pub fn message(&self) -> (r: String)
        ensures
            r@ == spec_message(*self),
    {
        match self {
            TensorError::MultipleWildcards => String::from_str(
                "Only one dynamic dimension (-1 or 0) is allowed in the shape",
            ),
            TensorError::InvalidDimension(d) => {
                let mut s = String::from_str("Invalid dimension in shape: ");
                let digits = i64_to_decimal(*d);
                s.append(digits.as_str());
                s
            },
            TensorError::IndivisibleRemainder(len, product) => {
                let mut s = String::from_str("Data length (");
                let len_digits = usize_to_decimal(*len);
                s.append(len_digits.as_str());
                s.append(") is not divisible by the product of known dimensions (");
                let product_digits = i64_to_decimal(*product);
                s.append(product_digits.as_str());
                s.append(")");
                s
            },
            TensorError::ShapeDataMismatch(product, len) => {
                let mut s = String::from_str("Product of shape dimensions (");
                let product_digits = i64_to_decimal(*product);
                s.append(product_digits.as_str());
                s.append(") does not match data length (");
                let len_digits = usize_to_decimal(*len);
                s.append(len_digits.as_str());
                s.append(")");
                s
            },
            TensorError::NonEmptyDataForZeroDim => String::from_str(
                "Data must be empty for tensors with a zero dimension",
            ),
            TensorError::TypeError => String::from_str(
                "Tensor element type does not match the requested type",
            ),
            TensorError::IndexError(i) => {
                let mut s = String::from_str("Index (");
                let digits = usize_to_decimal(*i);
                s.append(digits.as_str());
                s.append(") is out of bounds");
                s
            },
            TensorError::NotMutable => String::from_str("Tensor is not mutable"),
        }
    }
}

} // verus!
