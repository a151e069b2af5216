use raytracer::validation::{
    encoded_less_than, is_finite_bits, validate_color_rgb, validate_finite_scalar, validate_finite_vector,
    validate_positive_scalar, validate_scalar_in_range, ONE_BITS, ZERO_BITS,
};
use raytracer::{FieldName, SceneValidationError, Vec3Bits};

fn bits(v: f64) -> u64 {
    v.to_bits()
}

fn vec_bits(x: f64, y: f64, z: f64) -> Vec3Bits {
    Vec3Bits { x: bits(x), y: bits(y), z: bits(z) }
}

#[test]
fn constants_encode_zero_and_one() {
    assert_eq!(ZERO_BITS, 0.0f64.to_bits());
    assert_eq!(ONE_BITS, 1.0f64.to_bits());
}

#[test]
fn finiteness_agrees_with_f64() {
    let samples = [0.0, -0.0, 1.0, -1.5, f64::MAX, f64::MIN, f64::MIN_POSITIVE, 5e-324, f64::INFINITY, f64::NEG_INFINITY, f64::NAN, -f64::NAN];
    for v in samples {
        assert_eq!(is_finite_bits(bits(v)), v.is_finite(), "value {v}");
    }
}

#[test]
fn ordering_agrees_with_f64() {
    let samples = [0.0, -0.0, 1.0, -1.0, 0.5, -0.5, 179.0, 1e-300, -1e-300, 5e-324, f64::MAX, f64::MIN, f64::INFINITY, f64::NEG_INFINITY, f64::NAN];
    for a in samples {
        for b in samples {
            assert_eq!(encoded_less_than(bits(a), bits(b)), a < b, "{a} < {b}");
        }
    }
}

#[test]
fn rejects_non_positive_radius() {
    let result = validate_positive_scalar(FieldName::Radius, bits(0.0));
    assert!(matches!(result, Err(SceneValidationError::NonPositiveScalar { field: FieldName::Radius, .. })));
    assert!(validate_positive_scalar(FieldName::Radius, bits(0.4)).is_ok());
    assert!(matches!(
        validate_positive_scalar(FieldName::Radius, bits(-0.0)),
        Err(SceneValidationError::NonPositiveScalar { .. })
    ));
}

#[test]
fn rejects_invalid_field_of_view() {
    let result = validate_scalar_in_range(FieldName::FieldOfView, bits(0.0), bits(1.0), bits(179.0));
    assert_eq!(
        result,
        Err(SceneValidationError::ScalarOutOfRange { field: FieldName::FieldOfView, min: bits(1.0), max: bits(179.0), value: bits(0.0) })
    );
    assert!(validate_scalar_in_range(FieldName::FieldOfView, bits(90.0), bits(1.0), bits(179.0)).is_ok());
    assert!(validate_scalar_in_range(FieldName::FieldOfView, bits(179.0), bits(1.0), bits(179.0)).is_ok());
    assert!(validate_scalar_in_range(FieldName::FieldOfView, bits(179.5), bits(1.0), bits(179.0)).is_err());
}

#[test]
fn non_finite_values_are_refused_first() {
    assert_eq!(
        validate_scalar_in_range(FieldName::FieldOfView, bits(f64::NAN), bits(1.0), bits(179.0)),
        Err(SceneValidationError::NonFiniteScalar { field: FieldName::FieldOfView, value: bits(f64::NAN) })
    );
    assert!(matches!(validate_finite_scalar(FieldName::Kd, bits(f64::INFINITY)), Err(SceneValidationError::NonFiniteScalar { .. })));
    assert!(validate_finite_scalar(FieldName::Kd, bits(0.25)).is_ok());
}

#[test]
fn vectors_need_finite_components() {
    assert!(validate_finite_vector(FieldName::Center, vec_bits(0.0, 1.0, -2.0)).is_ok());
    assert_eq!(
        validate_finite_vector(FieldName::Center, vec_bits(0.0, f64::INFINITY, 1.0)),
        Err(SceneValidationError::NonFiniteVector { field: FieldName::Center, x: bits(0.0), y: bits(f64::INFINITY), z: bits(1.0) })
    );
}

#[test]
fn colors_lie_in_the_unit_cube() {
    assert!(validate_color_rgb(FieldName::LightColor, vec_bits(1.0, 0.0, 0.2)).is_ok());
    assert_eq!(
        validate_color_rgb(FieldName::LightColor, vec_bits(0.5, 1.5, -1.0)),
        Err(SceneValidationError::ScalarOutOfRange { field: FieldName::LightColor, min: ZERO_BITS, max: ONE_BITS, value: bits(1.5) })
    );
    assert!(matches!(
        validate_color_rgb(FieldName::Od, vec_bits(f64::NAN, 2.0, 0.0)),
        Err(SceneValidationError::NonFiniteVector { .. })
    ));
}
