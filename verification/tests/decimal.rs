use design_patterns::decimal::decimal_string;

#[test]
fn renders_zero() {
    assert_eq!(decimal_string(0), "0");
}

#[test]
fn renders_multi_digit_values() {
    assert_eq!(decimal_string(10), "10");
    assert_eq!(decimal_string(305), "305");
}

#[test]
fn renders_negative_values() {
    assert_eq!(decimal_string(-1), "-1");
    assert_eq!(decimal_string(-305), "-305");
}

#[test]
fn renders_the_extremes_of_the_type() {
    assert_eq!(decimal_string(i32::MAX), "2147483647");
    assert_eq!(decimal_string(i32::MIN), "-2147483648");
}
