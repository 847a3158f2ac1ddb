use taiwan_id::calculate_check_sum;
use taiwan_id::national_id_valid;
use taiwan_id::valid_format;

#[test]
fn test_national_id_valid() {
    assert_eq!(national_id_valid("A123456789"), true);
    assert_eq!(national_id_valid("X108165374"), true);
    assert_eq!(national_id_valid("G215254402"), true);
    assert_eq!(national_id_valid("W117266742"), true);

    assert_eq!(national_id_valid("A123456"), false);
    assert_eq!(national_id_valid("A12345678999999"), false);
    assert_eq!(national_id_valid("123456"), false);

    assert_eq!(national_id_valid("N116665474"), false);
    assert_eq!(national_id_valid("F106131710"), false);
    assert_eq!(national_id_valid("U114432640"), false);
    assert_eq!(national_id_valid("R213316215"), false);
    assert_eq!(national_id_valid("N116665473"), false);
    assert_eq!(national_id_valid("K252173159"), false);
}

#[test]
fn test_empty_input() {
    assert_eq!(national_id_valid(""), false);
}

#[test]
fn test_wrong_length() {
    assert_eq!(national_id_valid("A12345678"), false);
    assert_eq!(national_id_valid("A1234567890"), false);
    assert_eq!(national_id_valid("A"), false);
}

#[test]
fn test_wrong_shape() {
    // first character not a letter
    assert_eq!(national_id_valid("9123456789"), false);
    assert_eq!(national_id_valid("!123456789"), false);
    // second character not 1 or 2
    assert_eq!(national_id_valid("A323456789"), false);
    assert_eq!(national_id_valid("A023456789"), false);
    // a non-digit among the last eight characters
    assert_eq!(national_id_valid("A12345678X"), false);
    assert_eq!(national_id_valid("A1234X6789"), false);
}

#[test]
fn test_case_insensitive() {
    assert_eq!(national_id_valid("a123456789"), national_id_valid("A123456789"));
    assert_eq!(national_id_valid("x108165374"), national_id_valid("X108165374"));
    assert_eq!(national_id_valid("n116665474"), national_id_valid("N116665474"));
    assert_eq!(national_id_valid("a123456789"), true);
    assert_eq!(national_id_valid("g215254402"), true);
    assert_eq!(national_id_valid("k252173159"), false);
}

#[test]
fn test_repeat_calls_agree() {
    let first = national_id_valid("W117266742");
    let second = national_id_valid("W117266742");
    assert_eq!(first, second);
    assert_eq!(first, true);
    let first = national_id_valid("R213316215");
    let second = national_id_valid("R213316215");
    assert_eq!(first, second);
    assert_eq!(first, false);
}

#[test]
fn test_non_ascii_rejected() {
    assert_eq!(national_id_valid("Ä123456789"), false);
    assert_eq!(national_id_valid("A1234५6789"), false);
}

#[test]
fn test_format_and_check_sum() {
    let good: Vec<char> = "A123456789".chars().collect();
    assert!(valid_format(&good));
    assert_eq!(calculate_check_sum(&good), 9);

    let zero_rem: Vec<char> = "A100000010".chars().collect();
    assert!(valid_format(&zero_rem));
    assert_eq!(calculate_check_sum(&zero_rem), 0);

    let bad_second: Vec<char> = "A923456789".chars().collect();
    assert!(!valid_format(&bad_second));
    let lower: Vec<char> = "a123456789".chars().collect();
    assert!(!valid_format(&lower));
    let short: Vec<char> = "A12345678".chars().collect();
    assert!(!valid_format(&short));
}

#[test]
fn test_check_digit_zero() {
    // weighted sum divisible by 10 demands check digit 0
    assert_eq!(national_id_valid("A100000010"), true);
    assert_eq!(national_id_valid("A100000019"), false);
}
