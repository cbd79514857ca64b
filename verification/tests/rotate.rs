use mirage::rotate_valid;

#[test]
fn test_rotate_valid_accepts_valid_degrees() {
    assert!(rotate_valid("90").unwrap() == 90, "90 degrees should be valid");
    assert!(rotate_valid("180").unwrap() == 180, "180 degrees should be valid");
    assert!(rotate_valid("270").unwrap() == 270, "270 degrees should be valid");
}

#[test]
fn test_rotate_valid_rejects_invalid_degrees() {
    assert!(rotate_valid("45").is_err(), "45 degrees should be invalid");
    assert!(rotate_valid("360").is_err(), "360 degrees should be invalid");
    assert!(rotate_valid("0").is_err(), "0 degrees should be invalid");
    assert!(rotate_valid("-90").is_err(), "negative degrees should be invalid");
}

#[test]
fn test_rotate_valid_rejects_non_numeric() {
    assert!(rotate_valid("abc").is_err(), "non-numeric input should be invalid");
    assert!(rotate_valid("90.5").is_err(), "decimal input should be invalid");
    assert!(rotate_valid("").is_err(), "empty input should be invalid");
    assert!(rotate_valid("90degrees").is_err(), "input with text should be invalid");
}

#[test]
fn test_rotate_valid_error_messages() {
    let result = rotate_valid("45");
    assert!(result.is_err(), "45 should produce an error");

    let error = result.unwrap_err();
    assert!(
        error.contains("Invalid rotation value:45"),
        "Error should contain invalid rotation message"
    );
    assert!(error.contains("90, 180 or 270"), "Error should list valid values");
}

#[test]
fn test_rotate_valid_exact_messages() {
    assert_eq!(
        rotate_valid("45").unwrap_err(),
        "Invalid rotation value:45 must one of: 90, 180 or 270"
    );
    assert_eq!(rotate_valid("abc").unwrap_err(), "`abc` Isn't a valid number.");
    assert_eq!(rotate_valid("").unwrap_err(), "`` Isn't a valid number.");
}

#[test]
fn test_rotate_valid_plus_sign_and_zeros() {
    // u32 parsing accepts an optional leading plus and leading zeros.
    assert_eq!(rotate_valid("+90").unwrap(), 90);
    assert_eq!(rotate_valid("0090").unwrap(), 90);
    assert!(rotate_valid("+").is_err(), "a bare plus sign is not a number");
    assert!(rotate_valid("9+0").is_err(), "an inner plus sign is not a number");
}

#[test]
fn test_rotate_valid_overflowing_numeral() {
    // 2^32 does not fit in a u32, so it is not a valid number at all.
    assert_eq!(rotate_valid("4294967296").unwrap_err(), "`4294967296` Isn't a valid number.");
    // u32::MAX itself parses, but is not an accepted rotation.
    assert_eq!(
        rotate_valid("4294967295").unwrap_err(),
        "Invalid rotation value:4294967295 must one of: 90, 180 or 270"
    );
}
