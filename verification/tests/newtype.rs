use design_patterns::newtype::Password;

#[test]
fn test_password() {
    let unsecured_password = String::from("ThisIsMyPassword");
    let secured_password = Password::new(unsecured_password.clone());

    assert_eq!(secured_password.masked(), "*".repeat(16));
}

#[test]
fn mask_is_independent_of_the_secret() {
    let short = Password::new(String::from("x"));
    let empty = Password::new(String::new());
    let long = Password::new(String::from("a rather longer secret than sixteen chars"));

    assert_eq!(short.masked(), empty.masked());
    assert_eq!(long.masked(), empty.masked());
    assert_eq!(empty.masked().len(), 16);
}
