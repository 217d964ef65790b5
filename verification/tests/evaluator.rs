use password_strength::{FailedTestResult, OwaspTester, TestConfig};

#[test]
pub fn min_length_should_be_enforced() {
    let owasp_tester = OwaspTester::default();
    let result = owasp_tester.validate_password("L0^eSex");
    assert!(result.is_err());
    let err = result.unwrap_err();
    assert_eq!(err.required_test_errors.len(), 1);
    assert!(!err.strong);
    assert!(!err.is_passphrase);
    assert!(err.optional_test_errors.is_empty())
}

#[test]
pub fn max_length_should_be_enforced() {
    let owasp_tester = OwaspTester::default();
    let result = owasp_tester.validate_password(&"L0^eSex".repeat(50));
    assert!(result.is_err());
    let err = result.unwrap_err();
    assert_eq!(err.required_test_errors.len(), 1);
    assert!(!err.strong);
    assert!(err.optional_test_errors.is_empty())
}

#[test]
pub fn repeating_characters_should_be_enforced() {
    let owasp_tester = OwaspTester::default();
    let result = owasp_tester.validate_password("L0^eSexxxx");
    assert!(result.is_err());
    let err = result.unwrap_err();
    assert_eq!(err.required_test_errors.len(), 1);
    assert!(!err.strong);
    assert!(err.optional_test_errors.is_empty())
}

#[test]
pub fn valid_password_should_be_recognized_as_such() {
    let owasp_tester = OwaspTester::default();
    let result = owasp_tester.validate_password("L0veSexSecre+God");
    assert!(result.is_ok());
}

#[test]
pub fn must_have_at_least_one_lowercase_character() {
    let owasp_tester = OwaspTester::default();
    let result = owasp_tester.validate_password("L0VESSEXSECRE+GOD");
    assert!(result.is_err());
    let err = result.unwrap_err();
    assert_eq!(err.optional_test_errors.len(), 1);
    assert!(!err.strong);
    assert!(err.required_test_errors.is_empty());
}

#[test]
pub fn must_have_at_least_one_uppercase_character() {
    let owasp_tester = OwaspTester::default();
    let result = owasp_tester.validate_password("l0vesexsecre+god");
    assert!(result.is_err());
    let err = result.unwrap_err();
    assert_eq!(err.optional_test_errors.len(), 1);
    assert!(!err.strong);
    assert!(err.required_test_errors.is_empty());
}

#[test]
pub fn at_least_one_digit_is_required() {
    let owasp_tester = OwaspTester::default();
    let result = owasp_tester.validate_password("LoveSexSecre+tGod");
    assert!(result.is_err());
    let err = result.unwrap_err();
    assert_eq!(err.optional_test_errors.len(), 1);
    assert!(!err.strong);
    assert!(err.required_test_errors.is_empty());
}

#[test]
pub fn at_least_one_special_character_should_be_required() {
    let owasp_tester = OwaspTester::default();
    let result = owasp_tester.validate_password("L0veSexSecreGod");
    assert!(result.is_err());
    let err = result.unwrap_err();
    assert_eq!(err.optional_test_errors.len(), 1);
    assert!(!err.strong);
    assert!(err.required_test_errors.is_empty());
}

#[test]
pub fn the_appropriate_characters_should_be_recognized_as_special() {
    let mut specials = " !\"#$%&\'()*+,-./:;<=>?@[\\]^_`{|}~".chars();
    let owasp_tester = OwaspTester::default();
    assert!(specials.all(|special_char| {
        match owasp_tester.validate_password(&format!("L0veSexSecre{}God", special_char)) {
            Ok(()) => true,
            Err(e) => {
                println!("{e:?}");
                false
            }
        }
    }))
}

#[test]
pub fn passphrases_should_be_subject_to_optional_tests_by_default() {
    let owasp_tester = OwaspTester::default();
    let result = owasp_tester.validate_password("Hack the planet! Hack the planet!");
    assert!(result.is_ok());
}

#[test]
pub fn passphrases_can_be_configured_to_be_subject_to_optional_tests_by_default() {
    let owasp_config = TestConfig {
        allow_passphrase: false,
        ..Default::default()
    };
    let owasp_tester = OwaspTester::new(owasp_config);
    let result = owasp_tester.validate_password("Hack the planet! Hack the planet!");
    assert!(result.is_err());
}

fn same_report(a: &FailedTestResult, b: &FailedTestResult) -> bool {
    a.errors == b.errors
        && a.required_test_errors == b.required_test_errors
        && a.optional_test_errors == b.optional_test_errors
        && a.is_passphrase == b.is_passphrase
        && a.strong == b.strong
        && a.optional_tests_passed == b.optional_tests_passed
}

#[test]
fn default_config_has_the_documented_values() {
    let config = TestConfig::default();
    assert!(config.allow_passphrase);
    assert_eq!(config.max_length, 128);
    assert_eq!(config.min_length, 10);
    assert_eq!(config.min_phrase_length, 20);
    assert_eq!(config.min_optional_tests_to_pass, 4);
}

#[test]
fn tester_holds_its_config_and_seven_rules() {
    let config = TestConfig {
        allow_passphrase: false,
        max_length: 64,
        min_length: 8,
        min_phrase_length: 30,
        min_optional_tests_to_pass: 2,
    };
    let tester = OwaspTester::new(config);
    assert!(!tester.config.allow_passphrase);
    assert_eq!(tester.config.max_length, 64);
    assert_eq!(tester.config.min_length, 8);
    assert_eq!(tester.config.min_phrase_length, 30);
    assert_eq!(tester.config.min_optional_tests_to_pass, 2);
    assert_eq!(tester.required_tests.len(), 3);
    assert_eq!(tester.optional_tests.len(), 4);
}

#[test]
fn empty_password_fails_min_length_and_every_optional_rule() {
    let err = OwaspTester::default().validate_password("").unwrap_err();
    assert_eq!(
        err.required_test_errors,
        vec!["Password must be at least 10 characters long".to_string()]
    );
    assert_eq!(
        err.optional_test_errors,
        vec![
            "Password must contain at least one lowercase letter".to_string(),
            "Password must contain at least one uppercase letter".to_string(),
            "Password must contain at least 1 digits".to_string(),
            "[] Password must contain at least one special character".to_string(),
        ]
    );
    assert_eq!(err.errors.len(), 5);
    assert_eq!(err.optional_tests_passed, 0);
    assert!(!err.is_passphrase);
    assert!(!err.strong);
}

#[test]
fn combined_errors_list_required_messages_before_optional_ones() {
    let err = OwaspTester::default().validate_password("abc").unwrap_err();
    assert_eq!(
        err.errors,
        vec![
            "Password must be at least 10 characters long".to_string(),
            "Password must contain at least one uppercase letter".to_string(),
            "Password must contain at least 1 digits".to_string(),
            "[abc] Password must contain at least one special character".to_string(),
        ]
    );
    assert_eq!(err.required_test_errors.len(), 1);
    assert_eq!(err.optional_test_errors.len(), 3);
    assert_eq!(err.optional_tests_passed, 1);
}

#[test]
fn too_short_password_with_a_run_gets_two_required_messages() {
    let err = OwaspTester::default().validate_password("aaa").unwrap_err();
    assert_eq!(
        err.required_test_errors,
        vec![
            "Password must be at least 10 characters long".to_string(),
            "Password must not contain 3 or more repeating characters".to_string(),
        ]
    );
}

#[test]
fn too_long_password_gets_the_max_length_message() {
    let password = "L0^eSex".repeat(50);
    let err = OwaspTester::default().validate_password(&password).unwrap_err();
    assert_eq!(
        err.required_test_errors,
        vec!["Password must be at most 128 characters long".to_string()]
    );
    assert_eq!(err.errors, err.required_test_errors);
    assert!(err.is_passphrase);
    assert_eq!(err.optional_tests_passed, 0);
}

#[test]
fn length_bounds_are_inclusive() {
    let tester = OwaspTester::new(TestConfig { allow_passphrase: false, ..Default::default() });
    assert!(tester.validate_password("L0veSex+Go").is_ok());
    assert!(tester.validate_password("L0veSex+G").is_err());
    let at_max = format!("{}{}", "aB3+".repeat(31), "aB3+");
    assert_eq!(at_max.len(), 128);
    assert!(tester.validate_password(&at_max).is_ok());
    let over_max = format!("{}a", at_max);
    let err = tester.validate_password(&over_max).unwrap_err();
    assert_eq!(err.required_test_errors.len(), 1);
    assert!(err.optional_test_errors.is_empty());
    assert_eq!(err.optional_tests_passed, 4);
}

#[test]
fn repeated_run_gets_exactly_one_message() {
    let err = OwaspTester::default().validate_password("L0^eSexxxxxxx").unwrap_err();
    assert_eq!(
        err.errors,
        vec!["Password must not contain 3 or more repeating characters".to_string()]
    );
    assert_eq!(err.optional_tests_passed, 4);
}

#[test]
fn passphrase_needs_more_than_the_threshold() {
    let tester = OwaspTester::default();
    let twenty = "abcdefghijklmnopqrst";
    assert_eq!(twenty.len(), 20);
    let err = tester.validate_password(twenty).unwrap_err();
    assert!(!err.is_passphrase);
    assert!(err.required_test_errors.is_empty());
    assert_eq!(err.optional_test_errors.len(), 3);
    assert_eq!(err.optional_tests_passed, 1);
    let twenty_one = "abcdefghijklmnopqrstu";
    assert_eq!(twenty_one.len(), 21);
    assert!(tester.validate_password(twenty_one).is_ok());
}

#[test]
fn passphrase_with_a_run_fails_on_the_required_rule_only() {
    let err = OwaspTester::default().validate_password("aaaaaaaaaaaaaaaaaaaab").unwrap_err();
    assert_eq!(
        err.errors,
        vec!["Password must not contain 3 or more repeating characters".to_string()]
    );
    assert_eq!(err.required_test_errors.len(), 1);
    assert!(err.optional_test_errors.is_empty());
    assert!(err.is_passphrase);
    assert!(!err.strong);
    assert_eq!(err.optional_tests_passed, 0);
}

#[test]
fn long_password_faces_optional_rules_when_passphrases_are_off() {
    let tester = OwaspTester::new(TestConfig { allow_passphrase: false, ..Default::default() });
    let err = tester.validate_password("abcdefghijklmnopqrstu").unwrap_err();
    assert!(!err.is_passphrase);
    assert!(err.required_test_errors.is_empty());
    assert_eq!(
        err.optional_test_errors,
        vec![
            "Password must contain at least one uppercase letter".to_string(),
            "Password must contain at least 1 digits".to_string(),
            "[abcdefghijklmnopqrstu] Password must contain at least one special character"
                .to_string(),
        ]
    );
    assert_eq!(err.optional_tests_passed, 1);
    let err = tester.validate_password("Hack the planet! Hack the planet!").unwrap_err();
    assert_eq!(err.errors, vec!["Password must contain at least 1 digits".to_string()]);
    assert_eq!(err.optional_tests_passed, 3);
}

#[test]
fn each_optional_rule_gives_its_own_message() {
    let tester = OwaspTester::default();
    let cases = [
        ("L0VESSEXSECRE+GOD", "Password must contain at least one lowercase letter".to_string()),
        ("l0vesexsecre+god", "Password must contain at least one uppercase letter".to_string()),
        ("LoveSexSecre+tGod", "Password must contain at least 1 digits".to_string()),
        (
            "L0veSexSecreGod",
            "[L0veSexSecreGod] Password must contain at least one special character".to_string(),
        ),
    ];
    for (password, message) in cases {
        let err = tester.validate_password(password).unwrap_err();
        assert_eq!(err.errors, vec![message.clone()]);
        assert_eq!(err.optional_test_errors, vec![message]);
        assert!(err.required_test_errors.is_empty());
        assert_eq!(err.optional_tests_passed, 3);
    }
}

#[test]
fn length_is_counted_in_bytes() {
    let tester = OwaspTester::default();
    // Nine characters, ten bytes.
    let password = "P\u{e4}ssw0rd+";
    assert_eq!(password.chars().count(), 9);
    assert_eq!(password.len(), 10);
    assert!(tester.validate_password("P\u{e4}ssw0rd+").is_ok());
    assert!(tester.validate_password("Passw0rd+").is_err());
}

#[test]
fn letters_outside_ascii_do_not_count() {
    let password = "\u{e4}\u{e4}\u{c4}\u{c4}1+\u{e4}\u{c4}";
    let err = OwaspTester::default().validate_password(password).unwrap_err();
    assert!(err.required_test_errors.is_empty());
    assert_eq!(err.optional_test_errors.len(), 2);
    assert_eq!(err.optional_tests_passed, 2);
}

#[test]
fn evaluating_twice_gives_the_same_report() {
    let tester = OwaspTester::default();
    for password in ["", "abc", "L0^eSexxxx", "L0veSexSecreGod"] {
        let first = tester.validate_password(password).unwrap_err();
        let second = tester.validate_password(password).unwrap_err();
        assert!(same_report(&first, &second));
    }
    assert!(tester.validate_password("L0veSexSecre+God").is_ok());
    assert!(tester.validate_password("L0veSexSecre+God").is_ok());
}

#[test]
fn two_testers_of_one_config_agree() {
    let config = TestConfig { allow_passphrase: false, min_length: 4, ..Default::default() };
    let one = OwaspTester::new(config);
    let other = OwaspTester::new(config);
    for password in ["", "abc", "abcd", "L0^eSexxxx", "abcdefghijklmnopqrstu"] {
        let first = one.validate_password(password).unwrap_err();
        let second = other.validate_password(password).unwrap_err();
        assert!(same_report(&first, &second));
    }
    assert!(one.validate_password("aB3+").is_ok());
    assert!(other.validate_password("aB3+").is_ok());
}

#[test]
fn unsatisfiable_policy_rejects_on_one_bound_or_the_other() {
    let config = TestConfig { min_length: 10, max_length: 5, ..Default::default() };
    let tester = OwaspTester::new(config);
    let err = tester.validate_password("aB3+aB3").unwrap_err();
    assert_eq!(
        err.required_test_errors,
        vec![
            "Password must be at least 10 characters long".to_string(),
            "Password must be at most 5 characters long".to_string(),
        ]
    );
    assert!(tester.validate_password("aB3+").is_err());
    assert!(tester.validate_password("aB3+aB3+aB3+").is_err());
}
