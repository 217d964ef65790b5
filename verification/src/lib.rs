//! A password-strength checklist after the OWASP guideline.
//!
//! An [`OwaspTester`] holds two lists of rules. The required rules are run on
//! every password. The optional rules are run unless the password is a
//! passphrase: a password longer than the configured threshold, where the
//! configuration allows passphrases. A password is accepted when no rule that
//! was run rejects it; otherwise the messages of the rejecting rules come
//! back in a [`FailedTestResult`].
//!
//! Lengths are counted in bytes of the UTF-8 encoding. Letters and digits are
//! the ASCII ones only.

use vstd::prelude::*;

pub mod laws;
pub mod passwordtests;
pub mod text;

use passwordtests::has_lowercase_letters::HasLowercaseLetters;
use passwordtests::has_special_chars::HasSpecialChars;
use passwordtests::has_uppercase_letters::HasUppercaseLetters;
use passwordtests::max_length::MaxLengthTest;
use passwordtests::max_repeating_chars::MaxRepeatingChars;
use passwordtests::min_digits::MinDigits;
use passwordtests::min_length::MinLength;
use passwordtests::{failures, lemma_failures_and_passes, passes, PasswordTest, Rule};
use text::{byte_len, byte_length};

verus! {

/// The thresholds of a policy.
///
/// A policy with `min_length > max_length` accepts no password: every
/// password is then too short or too long.
#[derive(Debug, Clone, Copy)]
pub struct TestConfig {
    /// Whether a long password is a passphrase, which the optional rules are
    /// not run on.
    pub allow_passphrase: bool,
    /// The greatest length a password may have.
    pub max_length: usize,
    /// The least length a password may have.
    pub min_length: usize,
    /// A password longer than this is a passphrase.
    pub min_phrase_length: usize,
    /// The number of optional rules a strong password is meant to pass. It
    /// is carried with the policy and decides nothing: a password is
    /// accepted when no rule that was run rejects it.
    pub min_optional_tests_to_pass: usize,
}

/// The policy of the guideline: passphrases allowed, 10 to 128 bytes, a
/// passphrase from 21 bytes on, four optional rules.
pub open spec fn default_config() -> TestConfig {
    TestConfig {
        allow_passphrase: true,
        max_length: 128,
        min_length: 10,
        min_phrase_length: 20,
        min_optional_tests_to_pass: 4,
    }
}

impl Default for TestConfig {
    fn default() -> (config: Self)
        ensures
            config == default_config(),
    {
        TestConfig {
            allow_passphrase: true,
            max_length: 128,
            min_length: 10,
            min_phrase_length: 20,
            min_optional_tests_to_pass: 4,
        }
    }
}

/// The rules that are run on every password under `config`: the two length
/// bounds, and no character three times in a row.
pub open spec fn required_rules(config: TestConfig) -> Seq<Rule> {
    seq![
        Rule::MinLength(MinLength { min_length: config.min_length }),
        Rule::MaxLength(MaxLengthTest { max_length: config.max_length }),
        Rule::MaxRepeatingChars(MaxRepeatingChars { max_repeating_chars: 3 }),
    ]
}

/// The rules that a passphrase is spared: a lowercase letter, an uppercase
/// letter, one digit, a special character.
pub open spec fn optional_rules() -> Seq<Rule> {
    seq![
        Rule::HasLowercaseLetters(HasLowercaseLetters {  }),
        Rule::HasUppercaseLetters(HasUppercaseLetters {  }),
        Rule::MinDigits(MinDigits { min_digits: 1 }),
        Rule::HasSpecialChars(HasSpecialChars {  }),
    ]
}

/// The texts of a list of strings.
pub open spec fn texts(strings: Seq<String>) -> Seq<Seq<char>> {
    strings.map_values(|s: String| s@)
}

/// What a [`FailedTestResult`] holds, as plain values.
pub struct Verdict {
    pub errors: Seq<Seq<char>>,
    pub required_test_errors: Seq<Seq<char>>,
    pub optional_test_errors: Seq<Seq<char>>,
    pub is_passphrase: bool,
    pub strong: bool,
    pub optional_tests_passed: nat,
}

/// Why a password was rejected.
#[derive(Debug, Clone)]
pub struct FailedTestResult {
    /// The messages of all rules that rejected the password: those of the
    /// required rules, then those of the optional rules.
    pub errors: Vec<String>,
    /// The messages of the required rules that rejected the password.
    pub required_test_errors: Vec<String>,
    /// The messages of the optional rules that rejected the password; empty
    /// for a passphrase.
    pub optional_test_errors: Vec<String>,
    /// Whether the password is a passphrase.
    pub is_passphrase: bool,
    /// Whether no rule rejected the password.
    pub strong: bool,
    /// The number of optional rules that accepted the password; 0 for a
    /// passphrase, on which none was run.
    pub optional_tests_passed: u32,
}

impl View for FailedTestResult {
    type V = Verdict;

    open spec fn view(&self) -> Verdict {
        Verdict {
            errors: texts(self.errors@),
            required_test_errors: texts(self.required_test_errors@),
            optional_test_errors: texts(self.optional_test_errors@),
            is_passphrase: self.is_passphrase,
            strong: self.strong,
            optional_tests_passed: self.optional_tests_passed as nat,
        }
    }
}

/// The result of an evaluation, as plain values.
pub open spec fn result_view(res: Result<(), FailedTestResult>) -> Result<(), Verdict> {
    match res {
        Ok(_) => Ok(()),
        Err(e) => Err(e@),
    }
}

/// A policy with its rules.
pub struct OwaspTester {
    pub config: TestConfig,
    pub required_tests: Vec<Rule>,
    pub optional_tests: Vec<Rule>,
}

/// Runs `rules` on `password` in order. The message of each rule that rejects
/// it goes to the end of `errors` and of `group_errors`; the rules that
/// accept it are counted.
fn run_rules(
    rules: &Vec<Rule>,
    password: &str,
    errors: &mut Vec<String>,
    group_errors: &mut Vec<String>,
) -> (passed: usize)
    ensures
        texts(final(errors)@) == texts(old(errors)@) + failures(rules@, password@),
        texts(final(group_errors)@) == texts(old(group_errors)@) + failures(rules@, password@),
        passed == passes(rules@, password@),
{
    let ghost errors_before = errors@;
    let ghost group_before = group_errors@;
    let mut passed: usize = 0;
    let mut i: usize = 0;
    assert(texts(errors@) =~= texts(errors_before) + failures(rules@.take(0), password@));
    assert(texts(group_errors@) =~= texts(group_before) + failures(rules@.take(0), password@));
    while i < rules.len()
        invariant
            i <= rules@.len(),
            texts(errors@) == texts(errors_before) + failures(rules@.take(i as int), password@),
            texts(group_errors@) == texts(group_before) + failures(
                rules@.take(i as int),
                password@,
            ),
            passed == passes(rules@.take(i as int), password@),
            passed <= i,
        decreases rules@.len() - i,
    {
        let ghost done = rules@.take(i as int);
        let ghost next = rules@.take(i + 1);
        assert(next.drop_last() =~= done);
        assert(next.last() == rules@[i as int]);
        match rules[i].test(password) {
            Ok(_) => {
                passed += 1;
            },
            Err(e) => {
                let ghost errors_so_far = errors@;
                let ghost group_so_far = group_errors@;
                errors.push(e.clone());
                group_errors.push(e);
                assert(texts(errors@) =~= texts(errors_so_far).push(e@));
                assert(texts(group_errors@) =~= texts(group_so_far).push(e@));
                assert(texts(errors@) =~= texts(errors_before) + failures(next, password@));
                assert(texts(group_errors@) =~= texts(group_before) + failures(next, password@));
            },
        }
        i += 1;
    }
    assert(rules@.take(i as int) =~= rules@);
    passed
}

impl OwaspTester {
    /// Whether this is the tester of `config`: it holds `config` and the
    /// rules that `config` asks for, in their order.
    pub open spec fn built_from(&self, config: TestConfig) -> bool {
        &&& self.config == config
        &&& self.required_tests@ == required_rules(config)
        &&& self.optional_tests@ == optional_rules()
    }

    /// Whether `password` is a passphrase: passphrases are allowed and it is
    /// longer than the threshold.
    pub open spec fn is_passphrase(&self, password: Seq<char>) -> bool {
        self.config.allow_passphrase && byte_len(password) > self.config.min_phrase_length
    }

    /// The messages of the required rules that reject `password`.
    pub open spec fn required_failures(&self, password: Seq<char>) -> Seq<Seq<char>> {
        failures(self.required_tests@, password)
    }

    /// The messages of the optional rules that reject `password`; none for a
    /// passphrase.
    pub open spec fn optional_failures(&self, password: Seq<char>) -> Seq<Seq<char>> {
        if self.is_passphrase(password) {
            Seq::empty()
        } else {
            failures(self.optional_tests@, password)
        }
    }

    /// The number of optional rules that accept `password`; 0 for a
    /// passphrase.
    pub open spec fn optional_passes(&self, password: Seq<char>) -> nat {
        if self.is_passphrase(password) {
            0
        } else {
            passes(self.optional_tests@, password)
        }
    }

    /// Whether `password` is accepted: no rule that is run on it rejects it.
    pub open spec fn accepts(&self, password: Seq<char>) -> bool {
        self.required_failures(password).len() == 0 && self.optional_failures(password).len() == 0
    }

    /// What is reported of `password` when it is rejected.
    pub open spec fn verdict(&self, password: Seq<char>) -> Verdict {
        Verdict {
            errors: self.required_failures(password) + self.optional_failures(password),
            required_test_errors: self.required_failures(password),
            optional_test_errors: self.optional_failures(password),
            is_passphrase: self.is_passphrase(password),
            strong: self.accepts(password),
            optional_tests_passed: self.optional_passes(password),
        }
    }

    /// The result of evaluating `password`.
    pub open spec fn outcome(&self, password: Seq<char>) -> Result<(), Verdict> {
        if self.accepts(password) {
            Ok(())
        } else {
            Err(self.verdict(password))
        }
    }

    /// The tester of `config`.
    pub fn new(config: TestConfig) -> (tester: Self)
        ensures
            tester.built_from(config),
    {
        let mut required_tests: Vec<Rule> = Vec::new();
        required_tests.push(Rule::MinLength(MinLength { min_length: config.min_length }));
        required_tests.push(Rule::MaxLength(MaxLengthTest { max_length: config.max_length }));
        required_tests.push(Rule::MaxRepeatingChars(MaxRepeatingChars { max_repeating_chars: 3 }));
        let mut optional_tests: Vec<Rule> = Vec::new();
        optional_tests.push(Rule::HasLowercaseLetters(HasLowercaseLetters {  }));
        optional_tests.push(Rule::HasUppercaseLetters(HasUppercaseLetters {  }));
        optional_tests.push(Rule::MinDigits(MinDigits { min_digits: 1 }));
        optional_tests.push(Rule::HasSpecialChars(HasSpecialChars {  }));
        assert(required_tests@ =~= required_rules(config));
        assert(optional_tests@ =~= optional_rules());
        OwaspTester { config, required_tests, optional_tests }
    }

    /// Evaluates `password`: `Ok` when it is accepted, else what is reported
    /// of it. Every text is a legal password.
    ///
    /// The optional rules are counted in 32 bits, so there may not be more of
    /// them than such a count can hold.
    pub fn validate_password(&self, password: &str) -> (res: Result<(), FailedTestResult>)
        requires
            self.optional_tests@.len() <= u32::MAX,
        ensures
            result_view(res) == self.outcome(password@),
            res is Ok <==> self.accepts(password@),
    {
        let mut errors: Vec<String> = Vec::new();
        let mut required_test_errors: Vec<String> = Vec::new();
        let mut optional_test_errors: Vec<String> = Vec::new();
        let mut optional_tests_passed: u32 = 0;
        let mut is_passphrase = false;
        run_rules(&self.required_tests, password, &mut errors, &mut required_test_errors);
        if self.config.allow_passphrase && byte_length(password) > self.config.min_phrase_length {
            is_passphrase = true;
        } else {
            let passed =
                run_rules(&self.optional_tests, password, &mut errors, &mut optional_test_errors);
            proof {
                lemma_failures_and_passes(self.optional_tests@, password@);
            }
            optional_tests_passed = passed as u32;
        }
        proof {
            let required = self.required_failures(password@);
            let optional = self.optional_failures(password@);
            assert(texts(required_test_errors@) =~= required);
            assert(texts(optional_test_errors@) =~= optional);
            assert(texts(errors@) =~= required + optional);
            assert(texts(errors@).len() == errors@.len());
        }
        let strong = errors.len() == 0;
        if strong {
            Ok(())
        } else {
            Err(
                FailedTestResult {
                    errors,
                    required_test_errors,
                    optional_test_errors,
                    is_passphrase,
                    strong,
                    optional_tests_passed,
                },
            )
        }
    }
}

impl Default for OwaspTester {
    fn default() -> (tester: Self)
        ensures
            tester.built_from(default_config()),
    {
        OwaspTester::new(TestConfig::default())
    }
}

} // verus!
