use pax_core::scalar::scalar_eq;

#[test]
fn equal_patterns_of_ordinary_numbers_are_the_same_number() {
    assert!(scalar_eq(100.0f64.to_bits(), 100.0f64.to_bits()));
    assert!(!scalar_eq(50.0f64.to_bits(), 75.0f64.to_bits()));
}

#[test]
fn zeros_of_either_sign_are_the_same_number() {
    assert!(scalar_eq(0.0f64.to_bits(), (-0.0f64).to_bits()));
}

#[test]
fn a_nan_is_no_number_not_even_itself() {
    assert!(!scalar_eq(f64::NAN.to_bits(), f64::NAN.to_bits()));
    assert!(!scalar_eq(f64::NAN.to_bits(), 1.0f64.to_bits()));
}
