use vstd::prelude::*;
use crate::fields::FieldName;

verus! {

// Scene values are IEEE 754 binary64 numbers. The library holds each one by
// its encoding (the 64 bits that `to_bits` gives), so that the validation
// rules below are decided on plain integers.

/// The sign bit of a binary64 encoding.
pub const SIGN_BIT: u64 = 0x8000_0000_0000_0000;

/// The encoding of positive infinity; finite magnitudes lie below it.
pub const INFINITY_BITS: u64 = 0x7FF0_0000_0000_0000;

/// The encoding of `0.0`.
pub const ZERO_BITS: u64 = 0;

/// The encoding of `1.0`.
pub const ONE_BITS: u64 = 0x3FF0_0000_0000_0000;

/// The encoding without its sign bit.
pub open spec fn magnitude(bits: u64) -> int {
    if bits >= SIGN_BIT {
        bits - SIGN_BIT
    } else {
        bits as int
    }
}

/// Zero, subnormal or normal: neither infinite nor NaN.
pub open spec fn is_finite_encoding(bits: u64) -> bool {
    magnitude(bits) < INFINITY_BITS
}

pub open spec fn is_nan_encoding(bits: u64) -> bool {
    magnitude(bits) > INFINITY_BITS
}

/// An integer that orders non-NaN encodings as their values are ordered;
/// `0.0` and `-0.0` share the key 0.
pub open spec fn order_key(bits: u64) -> int {
    if bits >= SIGN_BIT {
        -magnitude(bits)
    } else {
        bits as int
    }
}

/// `a < b` on the values that the encodings stand for (false when either is NaN).
pub open spec fn encoded_lt(a: u64, b: u64) -> bool {
    !is_nan_encoding(a) && !is_nan_encoding(b) && order_key(a) < order_key(b)
}

/// Whether `bits` encodes a finite value.
pub fn is_finite_bits(bits: u64) -> (finite: bool)
    ensures
        finite == is_finite_encoding(bits),
{
    let magnitude_bits: u64 = if bits >= SIGN_BIT { bits - SIGN_BIT } else { bits };
    magnitude_bits < INFINITY_BITS
}

/// `a < b` on the encoded values.
pub fn encoded_less_than(a: u64, b: u64) -> (less: bool)
    ensures
        less == encoded_lt(a, b),
{
    let a_mag: u64 = if a >= SIGN_BIT { a - SIGN_BIT } else { a };
    let b_mag: u64 = if b >= SIGN_BIT { b - SIGN_BIT } else { b };
    if a_mag > INFINITY_BITS || b_mag > INFINITY_BITS {
        return false;
    }
    let a_negative = a >= SIGN_BIT;
    let b_negative = b >= SIGN_BIT;
    if a_negative && b_negative {
        a_mag > b_mag
    } else if a_negative {
        a_mag > 0 || b_mag > 0
    } else if b_negative {
        false
    } else {
        a < b
    }
}

/// Three encoded values, one per axis.
#[derive(Clone, Copy, Debug, PartialEq, Eq, Structural)]
pub struct Vec3Bits {
    pub x: u64,
    pub y: u64,
    pub z: u64,
}

/// Why a scene value was refused.
#[derive(Clone, Copy, Debug, PartialEq, Eq, Structural)]
pub enum SceneValidationError {
    NonFiniteScalar { field: FieldName, value: u64 },
    ScalarOutOfRange { field: FieldName, min: u64, max: u64, value: u64 },
    NonPositiveScalar { field: FieldName, value: u64 },
    NonFiniteVector { field: FieldName, x: u64, y: u64, z: u64 },
    ZeroLengthVector { field: FieldName },
    CoincidentPoints { left_field: FieldName, right_field: FieldName },
}

impl SceneValidationError {
    /// The field that the error is about (the left one, for two points).
    pub open spec fn spec_field(self) -> FieldName {
        match self {
            SceneValidationError::NonFiniteScalar { field, .. } => field,
            SceneValidationError::ScalarOutOfRange { field, .. } => field,
            SceneValidationError::NonPositiveScalar { field, .. } => field,
            SceneValidationError::NonFiniteVector { field, .. } => field,
            SceneValidationError::ZeroLengthVector { field } => field,
            SceneValidationError::CoincidentPoints { left_field, .. } => left_field,
        }
    }
}

/// The outcome of checking that `value` is finite.
pub open spec fn finite_scalar_check(field: FieldName, value: u64) -> Result<(), SceneValidationError> {
    if is_finite_encoding(value) {
        Ok(())
    } else {
        Err(SceneValidationError::NonFiniteScalar { field, value })
    }
}

/// The outcome of checking that `value` is finite and lies in `[min, max]`.
pub open spec fn scalar_in_range_check(field: FieldName, value: u64, min: u64, max: u64) -> Result<(), SceneValidationError> {
    if !is_finite_encoding(value) {
        Err(SceneValidationError::NonFiniteScalar { field, value })
    } else if encoded_lt(value, min) || encoded_lt(max, value) {
        Err(SceneValidationError::ScalarOutOfRange { field, min, max, value })
    } else {
        Ok(())
    }
}

/// The outcome of checking that `value` is finite and greater than zero.
pub open spec fn positive_scalar_check(field: FieldName, value: u64) -> Result<(), SceneValidationError> {
    if !is_finite_encoding(value) {
        Err(SceneValidationError::NonFiniteScalar { field, value })
    } else if encoded_lt(ZERO_BITS, value) {
        Ok(())
    } else {
        Err(SceneValidationError::NonPositiveScalar { field, value })
    }
}

/// The outcome of checking that every component of `value` is finite.
pub open spec fn finite_vector_check(field: FieldName, value: Vec3Bits) -> Result<(), SceneValidationError> {
    if is_finite_encoding(value.x) && is_finite_encoding(value.y) && is_finite_encoding(value.z) {
        Ok(())
    } else {
        Err(SceneValidationError::NonFiniteVector { field, x: value.x, y: value.y, z: value.z })
    }
}

/// The outcome of checking that `color` is a color: finite components, each
/// in `[0, 1]`, checked in the order x, y, z.
pub open spec fn color_rgb_check(field: FieldName, color: Vec3Bits) -> Result<(), SceneValidationError> {
    if finite_vector_check(field, color) is Err {
        finite_vector_check(field, color)
    } else if scalar_in_range_check(field, color.x, ZERO_BITS, ONE_BITS) is Err {
        scalar_in_range_check(field, color.x, ZERO_BITS, ONE_BITS)
    } else if scalar_in_range_check(field, color.y, ZERO_BITS, ONE_BITS) is Err {
        scalar_in_range_check(field, color.y, ZERO_BITS, ONE_BITS)
    } else {
        scalar_in_range_check(field, color.z, ZERO_BITS, ONE_BITS)
    }
}

/// Refuses a value that is not finite.
pub fn validate_finite_scalar(field: FieldName, value: u64) -> (result: Result<(), SceneValidationError>)
    ensures
        result == finite_scalar_check(field, value),
{
    if is_finite_bits(value) {
        Ok(())
    } else {
        Err(SceneValidationError::NonFiniteScalar { field, value })
    }
}

/// Refuses a value that is not finite, or lies outside `[min, max]`.
pub fn validate_scalar_in_range(field: FieldName, value: u64, min: u64, max: u64) -> (result: Result<(), SceneValidationError>)
    ensures
        result == scalar_in_range_check(field, value, min, max),
{
    validate_finite_scalar(field, value)?;
    if encoded_less_than(value, min) || encoded_less_than(max, value) {
        Err(SceneValidationError::ScalarOutOfRange { field, min, max, value })
    } else {
        Ok(())
    }
}

/// Refuses a value that is not finite, or is not greater than zero.
pub fn validate_positive_scalar(field: FieldName, value: u64) -> (result: Result<(), SceneValidationError>)
    ensures
        result == positive_scalar_check(field, value),
{
    validate_finite_scalar(field, value)?;
    if encoded_less_than(ZERO_BITS, value) {
        Ok(())
    } else {
        Err(SceneValidationError::NonPositiveScalar { field, value })
    }
}

/// Refuses a vector with a component that is not finite.
pub fn validate_finite_vector(field: FieldName, value: Vec3Bits) -> (result: Result<(), SceneValidationError>)
    ensures
        result == finite_vector_check(field, value),
{
    if is_finite_bits(value.x) && is_finite_bits(value.y) && is_finite_bits(value.z) {
        Ok(())
    } else {
        Err(SceneValidationError::NonFiniteVector { field, x: value.x, y: value.y, z: value.z })
    }
}

/// Refuses a color with a component that is not finite or lies outside `[0, 1]`.
pub fn validate_color_rgb(field: FieldName, color: Vec3Bits) -> (result: Result<(), SceneValidationError>)
    ensures
        result == color_rgb_check(field, color),
{
    validate_finite_vector(field, color)?;
    validate_scalar_in_range(field, color.x, ZERO_BITS, ONE_BITS)?;
    validate_scalar_in_range(field, color.y, ZERO_BITS, ONE_BITS)?;
    validate_scalar_in_range(field, color.z, ZERO_BITS, ONE_BITS)?;
    Ok(())
}

// ---------------------------------------------------------------------------
// What the checks accept, in terms of the encodings themselves

/// The encodings of the values in `[0, 1]`: `0.0` up to `1.0` (positive
/// encodings are ordered as their values), and `-0.0`.
pub open spec fn encodes_unit_interval(bits: u64) -> bool {
    bits <= ONE_BITS || bits == SIGN_BIT
}

/// The encodings of positive finite values: sign bit clear, not zero, below
/// infinity.
pub open spec fn encodes_positive_finite(bits: u64) -> bool {
    0 < bits && bits < INFINITY_BITS
}

/// The value order on encodings: non-negative encodings are ordered as
/// integers, negative ones in reverse, and every negative nonzero value lies
/// below every non-negative one.
pub proof fn lemma_encoded_order(a: u64, b: u64)
    requires
        !is_nan_encoding(a),
        !is_nan_encoding(b),
    ensures
        a < SIGN_BIT && b < SIGN_BIT ==> (encoded_lt(a, b) <==> a < b),
        a >= SIGN_BIT && b >= SIGN_BIT ==> (encoded_lt(a, b) <==> a > b),
        a > SIGN_BIT && b < SIGN_BIT ==> encoded_lt(a, b),
        a < SIGN_BIT && b >= SIGN_BIT ==> !encoded_lt(a, b),
{
}

/// A value passes the range check exactly when it is finite and lies between
/// the bounds in value order; in particular a negative nonzero value never
/// passes when the lower bound is positive.
pub proof fn lemma_range_check_accepts_exactly_the_range(field: FieldName, value: u64, min: u64, max: u64)
    requires
        !is_nan_encoding(min),
        !is_nan_encoding(max),
    ensures
        scalar_in_range_check(field, value, min, max) is Ok <==> is_finite_encoding(value) && order_key(min) <= order_key(
            value,
        ) && order_key(value) <= order_key(max),
        scalar_in_range_check(field, value, min, max) is Ok ==> !encoded_lt(value, min) && !encoded_lt(max, value),
        0 < min < SIGN_BIT && value >= SIGN_BIT ==> scalar_in_range_check(field, value, min, max) is Err,
        is_finite_encoding(value) && (order_key(value) < order_key(min) || order_key(max) < order_key(value))
            ==> scalar_in_range_check(field, value, min, max) == Err::<(), SceneValidationError>(
            SceneValidationError::ScalarOutOfRange { field, min, max, value },
        ),
{
}

/// A value passes the positivity check exactly when it encodes a positive
/// finite value; no encoding with the sign bit set passes, and a finite value
/// that is not positive is refused as such.
pub proof fn lemma_positive_check_accepts_exactly_positive(field: FieldName, value: u64)
    ensures
        positive_scalar_check(field, value) is Ok <==> encodes_positive_finite(value),
        value >= SIGN_BIT ==> positive_scalar_check(field, value) is Err,
        is_finite_encoding(value) && !encodes_positive_finite(value) ==> positive_scalar_check(field, value)
            == Err::<(), SceneValidationError>(SceneValidationError::NonPositiveScalar { field, value }),
{
}

/// A color passes exactly when each of its three components encodes a value
/// in `[0, 1]`; when x and y do and z is finite but outside, the error is
/// about z.
pub proof fn lemma_color_check_accepts_exactly_unit_cube(field: FieldName, color: Vec3Bits)
    ensures
        color_rgb_check(field, color) is Ok <==> encodes_unit_interval(color.x) && encodes_unit_interval(color.y)
            && encodes_unit_interval(color.z),
        encodes_unit_interval(color.x) && encodes_unit_interval(color.y) && is_finite_encoding(color.z)
            && !encodes_unit_interval(color.z) ==> color_rgb_check(field, color) == Err::<(), SceneValidationError>(
            SceneValidationError::ScalarOutOfRange { field, min: ZERO_BITS, max: ONE_BITS, value: color.z },
        ),
        encodes_unit_interval(color.x) && is_finite_encoding(color.y) && is_finite_encoding(color.z)
            && !encodes_unit_interval(color.y) ==> color_rgb_check(field, color) == Err::<(), SceneValidationError>(
            SceneValidationError::ScalarOutOfRange { field, min: ZERO_BITS, max: ONE_BITS, value: color.y },
        ),
{
}

} // verus!
