use tensor_store::debug::OrtDebugLevel;
use tensor_store::debug::default_filter_directives;
use tensor_store::errors::TensorError;
use tensor_store::errors::{i64_to_decimal, u64_to_decimal, usize_to_decimal};

#[test]
fn decimal_rendering() {
    assert_eq!(u64_to_decimal(0), "0");
    assert_eq!(u64_to_decimal(7), "7");
    assert_eq!(u64_to_decimal(10), "10");
    assert_eq!(u64_to_decimal(1234567890), "1234567890");
    assert_eq!(u64_to_decimal(u64::MAX), "18446744073709551615");

    assert_eq!(i64_to_decimal(0), "0");
    assert_eq!(i64_to_decimal(-1), "-1");
    assert_eq!(i64_to_decimal(42), "42");
    assert_eq!(i64_to_decimal(i64::MIN), "-9223372036854775808");
    assert_eq!(i64_to_decimal(i64::MAX), "9223372036854775807");

    assert_eq!(usize_to_decimal(305), "305");
}

#[test]
fn error_messages_embed_operands() {
    assert_eq!(
        TensorError::MultipleWildcards.message(),
        "Only one dynamic dimension (-1 or 0) is allowed in the shape"
    );
    assert_eq!(
        TensorError::InvalidDimension(-17).message(),
        "Invalid dimension in shape: -17"
    );
    assert_eq!(
        TensorError::IndivisibleRemainder(10, 3).message(),
        "Data length (10) is not divisible by the product of known dimensions (3)"
    );
    assert_eq!(
        TensorError::ShapeDataMismatch(9, 12).message(),
        "Product of shape dimensions (9) does not match data length (12)"
    );
    assert_eq!(
        TensorError::NonEmptyDataForZeroDim.message(),
        "Data must be empty for tensors with a zero dimension"
    );
    assert_eq!(
        TensorError::TypeError.message(),
        "Tensor element type does not match the requested type"
    );
    assert_eq!(
        TensorError::IndexError(8).message(),
        "Index (8) is out of bounds"
    );
    assert_eq!(TensorError::NotMutable.message(), "Tensor is not mutable");
}

#[test]
fn debug_level_names() {
    assert_eq!(OrtDebugLevel::Trace.value(), "trace");
    assert_eq!(OrtDebugLevel::Debug.value(), "debug");
    assert_eq!(OrtDebugLevel::Info.value(), "info");
    assert_eq!(OrtDebugLevel::Warn.value(), "warn");
    assert_eq!(OrtDebugLevel::Error.value(), "error");
}

#[test]
fn debug_filter_directives() {
    assert_eq!(default_filter_directives(None), "info,ort=debug");
    assert_eq!(
        default_filter_directives(Some(OrtDebugLevel::Warn)),
        "info,ort=warn"
    );
    assert_eq!(
        default_filter_directives(Some(OrtDebugLevel::Trace)),
        "info,ort=trace"
    );
}
