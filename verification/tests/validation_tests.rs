use balans::validation::{
    account_class, account_type_from_number, validate_bas_account_number,
    validate_organisationsnummer,
};

#[test]
fn test_valid_org_numbers() {
    // Known valid test org numbers
    assert!(validate_organisationsnummer("5561234567")); // fictional but valid Luhn
    assert!(validate_organisationsnummer("556123-4567"));
}

#[test]
fn test_invalid_org_numbers() {
    assert!(!validate_organisationsnummer("5561234568")); // wrong check digit
    assert!(!validate_organisationsnummer("123")); // too short
    assert!(!validate_organisationsnummer("1234567890")); // third digit < 2
}

#[test]
fn test_account_number_validation() {
    assert!(validate_bas_account_number(1910));
    assert!(validate_bas_account_number(3010));
    assert!(!validate_bas_account_number(999));
    assert!(!validate_bas_account_number(10000));
}

#[test]
fn test_account_class() {
    assert_eq!(account_class(1910), Some(1));
    assert_eq!(account_class(2440), Some(2));
    assert_eq!(account_class(3010), Some(3));
    assert_eq!(account_class(999), None);
}

#[test]
fn test_account_type() {
    assert_eq!(account_type_from_number(1910), "asset");
    assert_eq!(account_type_from_number(2010), "equity");
    assert_eq!(account_type_from_number(2440), "liability");
    assert_eq!(account_type_from_number(3010), "revenue");
    assert_eq!(account_type_from_number(5010), "expense");
    assert_eq!(account_type_from_number(7010), "expense");
}

#[test]
fn org_number_third_digit_below_two_is_refused() {
    // a Luhn-valid number whose third digit is 1
    assert!(!validate_organisationsnummer("5514567899"));
    assert!(!validate_organisationsnummer(""));
}

#[test]
fn account_type_class_eight_and_outside() {
    assert_eq!(account_type_from_number(8310), "revenue");
    assert_eq!(account_type_from_number(8910), "revenue");
    assert_eq!(account_type_from_number(8410), "expense");
    assert_eq!(account_type_from_number(9100), "expense");
    assert_eq!(account_type_from_number(-1500), "expense");
    assert_eq!(account_type_from_number(2099), "equity");
    assert_eq!(account_type_from_number(2100), "liability");
}

#[test]
fn only_the_two_written_forms_are_accepted() {
    assert!(!validate_organisationsnummer("55 6123x4567"));
    assert!(!validate_organisationsnummer("5561-234567"));
    assert!(!validate_organisationsnummer("556123-45678"));
}

#[test]
fn class_nine_numbers_have_no_class() {
    assert_eq!(account_class(9500), None);
    assert_eq!(account_class(8999), Some(8));
}
