//! What holds of every evaluation, proved from the definitions.

use crate::passwordtests::has_lowercase_letters::HasLowercaseLetters;
use crate::passwordtests::has_special_chars::{is_special_char, special_chars, HasSpecialChars};
use crate::passwordtests::has_uppercase_letters::HasUppercaseLetters;
use crate::passwordtests::max_length::MaxLengthTest;
use crate::passwordtests::max_repeating_chars::{has_run, MaxRepeatingChars};
use crate::passwordtests::min_digits::MinDigits;
use crate::passwordtests::min_length::MinLength;
use crate::passwordtests::{
    all_accept, failures, lemma_failures_and_passes, lemma_failures_push,
    lemma_no_failures_iff_all_accept, passes, report, PasswordTest, Rule,
};
use crate::text::{byte_len, numbered};
use crate::{
    default_config, optional_rules, required_rules, result_view, FailedTestResult, OwaspTester,
    TestConfig,
};
use vstd::prelude::*;

verus! {

/// The messages of the required rules are the reports of the least length,
/// of the greatest length and of the repeated character, in this order.
pub proof fn lemma_required_failures(config: TestConfig, password: Seq<char>)
    ensures
        failures(required_rules(config), password) == report(
            Rule::MinLength(MinLength { min_length: config.min_length }),
            password,
        ) + report(Rule::MaxLength(MaxLengthTest { max_length: config.max_length }), password)
            + report(
            Rule::MaxRepeatingChars(MaxRepeatingChars { max_repeating_chars: 3 }),
            password,
        ),
{
    let a = Rule::MinLength(MinLength { min_length: config.min_length });
    let b = Rule::MaxLength(MaxLengthTest { max_length: config.max_length });
    let c = Rule::MaxRepeatingChars(MaxRepeatingChars { max_repeating_chars: 3 });
    let none = Seq::<Rule>::empty();
    assert(required_rules(config) =~= none.push(a).push(b).push(c));
    lemma_failures_push(none, a, password);
    lemma_failures_push(none.push(a), b, password);
    lemma_failures_push(none.push(a).push(b), c, password);
    assert(failures(required_rules(config), password) =~= report(a, password) + report(
        b,
        password,
    ) + report(c, password));
}

/// The messages of the optional rules are the reports of the four rules, in
/// their order, and the rules that add none are the ones counted as passed.
pub proof fn lemma_optional_failures(password: Seq<char>)
    ensures
        failures(optional_rules(), password) == report(optional_rules()[0], password) + report(
            optional_rules()[1],
            password,
        ) + report(optional_rules()[2], password) + report(optional_rules()[3], password),
        failures(optional_rules(), password).len() + passes(optional_rules(), password) == 4,
{
    let a = optional_rules()[0];
    let b = optional_rules()[1];
    let c = optional_rules()[2];
    let d = optional_rules()[3];
    let none = Seq::<Rule>::empty();
    assert(optional_rules() =~= none.push(a).push(b).push(c).push(d));
    lemma_failures_push(none, a, password);
    lemma_failures_push(none.push(a), b, password);
    lemma_failures_push(none.push(a).push(b), c, password);
    lemma_failures_push(none.push(a).push(b).push(c), d, password);
    assert(failures(optional_rules(), password) =~= report(a, password) + report(b, password)
        + report(c, password) + report(d, password));
    lemma_failures_and_passes(optional_rules(), password);
}

/// A password shorter than the least length is rejected. Where it holds no
/// character three times in a row, and the least length is not above the
/// greatest, the required rules give one message: that of the least length.
pub proof fn law_too_short(tester: OwaspTester, config: TestConfig, password: Seq<char>)
    requires
        tester.built_from(config),
        byte_len(password) < config.min_length,
    ensures
        tester.outcome(password) is Err,
        tester.required_failures(password).len() >= 1,
        tester.required_failures(password)[0] == numbered(
            "Password must be at least "@,
            config.min_length as nat,
            " characters long"@,
        ),
        config.min_length <= config.max_length && !has_run(password, 3)
            ==> tester.required_failures(password).len() == 1,
{
    lemma_required_failures(config, password);
}

/// A password longer than the greatest length is rejected. Where it holds no
/// character three times in a row, and the least length is not above the
/// greatest, the required rules give one message: that of the greatest
/// length.
pub proof fn law_too_long(tester: OwaspTester, config: TestConfig, password: Seq<char>)
    requires
        tester.built_from(config),
        byte_len(password) > config.max_length,
    ensures
        tester.outcome(password) is Err,
        config.min_length <= config.max_length && !has_run(password, 3)
            ==> tester.required_failures(password) == seq![
            numbered(
                "Password must be at most "@,
                config.max_length as nat,
                " characters long"@,
            ),
        ],
{
    lemma_required_failures(config, password);
}

/// The message of the repeated character is that of neither length bound,
/// whatever the bound.
pub proof fn lemma_repeat_message_is_distinct(n: nat)
    ensures
        numbered("Password must not contain "@, 3, " or more repeating characters"@) != numbered(
            "Password must be at least "@,
            n,
            " characters long"@,
        ),
        numbered("Password must not contain "@, 3, " or more repeating characters"@) != numbered(
            "Password must be at most "@,
            n,
            " characters long"@,
        ),
{
    reveal_strlit("Password must not contain ");
    reveal_strlit("Password must be at least ");
    reveal_strlit("Password must be at most ");
    let repeat = numbered("Password must not contain "@, 3, " or more repeating characters"@);
    let least = numbered("Password must be at least "@, n, " characters long"@);
    let most = numbered("Password must be at most "@, n, " characters long"@);
    assert(repeat[14] == 'n');
    assert(least[14] == 'b');
    assert(most[14] == 'b');
}

/// A password that holds a character three times in a row is rejected, and
/// the required rules give the message of the repeated character once: it is
/// their last message, and none of those before it.
pub proof fn law_repeated_character(tester: OwaspTester, config: TestConfig, password: Seq<char>)
    requires
        tester.built_from(config),
        has_run(password, 3),
    ensures
        tester.outcome(password) is Err,
        tester.required_failures(password).len() >= 1,
        tester.required_failures(password).last() == numbered(
            "Password must not contain "@,
            3,
            " or more repeating characters"@,
        ),
        forall|i: int|
            0 <= i < tester.required_failures(password).len() - 1
                ==> #[trigger] tester.required_failures(password)[i] != numbered(
                "Password must not contain "@,
                3,
                " or more repeating characters"@,
            ),
{
    lemma_required_failures(config, password);
    lemma_repeat_message_is_distinct(config.min_length as nat);
    lemma_repeat_message_is_distinct(config.max_length as nat);
}

/// A policy whose least length is above its greatest accepts no password.
pub proof fn law_unsatisfiable_policy(tester: OwaspTester, config: TestConfig, password: Seq<char>)
    requires
        tester.built_from(config),
        config.min_length > config.max_length,
    ensures
        tester.outcome(password) is Err,
{
    lemma_required_failures(config, password);
}

/// The number of optional rules that a policy names as to be passed decides
/// nothing: two policies that differ in it alone give the same result.
pub proof fn law_min_optional_tests_decides_nothing(
    one: OwaspTester,
    other: OwaspTester,
    config: TestConfig,
    count: usize,
    password: Seq<char>,
)
    requires
        one.built_from(config),
        other.built_from((TestConfig { min_optional_tests_to_pass: count, ..config })),
    ensures
        one.outcome(password) == other.outcome(password),
{
}

/// A password is accepted exactly when every required rule accepts it and,
/// unless it is a passphrase, every optional rule does.
pub proof fn law_accepted_iff_no_rule_rejects(tester: OwaspTester, password: Seq<char>)
    ensures
        tester.outcome(password) is Ok <==> all_accept(tester.required_tests@, password) && (
        tester.is_passphrase(password) || all_accept(tester.optional_tests@, password)),
{
    lemma_no_failures_iff_all_accept(tester.required_tests@, password);
    lemma_no_failures_iff_all_accept(tester.optional_tests@, password);
}

/// Where passphrases are allowed, a password longer than the threshold is
/// spared the optional rules: none of them gives a message, none is counted,
/// and the password is accepted exactly when its length is within the bounds
/// and it holds no character three times in a row.
pub proof fn law_passphrase(tester: OwaspTester, config: TestConfig, password: Seq<char>)
    requires
        tester.built_from(config),
        config.allow_passphrase,
        byte_len(password) > config.min_phrase_length,
    ensures
        tester.is_passphrase(password),
        tester.optional_failures(password) == Seq::<Seq<char>>::empty(),
        tester.optional_passes(password) == 0,
        tester.outcome(password) is Ok <==> config.min_length <= byte_len(password)
            <= config.max_length && !has_run(password, 3),
        tester.outcome(password) is Err ==> tester.outcome(password)->Err_0.errors
            == tester.required_failures(password),
{
    lemma_required_failures(config, password);
    assert(tester.required_failures(password) + Seq::<Seq<char>>::empty()
        =~= tester.required_failures(password));
}

/// Under the default policy a password of 21 to 128 bytes that holds no
/// character three times in a row is accepted, whatever its characters.
pub proof fn law_default_passphrase(tester: OwaspTester, password: Seq<char>)
    requires
        tester.built_from(default_config()),
        21 <= byte_len(password) <= 128,
        !has_run(password, 3),
    ensures
        tester.outcome(password) is Ok,
{
    law_passphrase(tester, default_config(), password);
}

/// Where passphrases are not allowed, every password faces the four optional
/// rules, however long it is: each of them gives its message or is counted as
/// passed.
pub proof fn law_no_passphrase(tester: OwaspTester, config: TestConfig, password: Seq<char>)
    requires
        tester.built_from(config),
        !config.allow_passphrase,
    ensures
        !tester.is_passphrase(password),
        tester.optional_failures(password) == failures(optional_rules(), password),
        tester.optional_failures(password).len() <= 4,
        tester.optional_failures(password).len() + tester.optional_passes(password) == 4,
{
    lemma_optional_failures(password);
}

/// The optional rules do not depend on one another: on a password that is no
/// passphrase each gives its own report, whatever the others say.
pub proof fn law_optional_rules_are_independent(
    tester: OwaspTester,
    config: TestConfig,
    password: Seq<char>,
)
    requires
        tester.built_from(config),
        !tester.is_passphrase(password),
    ensures
        tester.optional_failures(password) == report(
            Rule::HasLowercaseLetters(HasLowercaseLetters {  }),
            password,
        ) + report(Rule::HasUppercaseLetters(HasUppercaseLetters {  }), password) + report(
            Rule::MinDigits(MinDigits { min_digits: 1 }),
            password,
        ) + report(Rule::HasSpecialChars(HasSpecialChars {  }), password),
        tester.optional_failures(password).len() + tester.optional_passes(password) == 4,
{
    lemma_optional_failures(password);
}

/// A password that is no passphrase, that the required rules accept and that
/// exactly one optional rule, the one at `missed`, rejects: it is rejected
/// with that rule's message and no other, and the other three rules are
/// counted as passed.
pub proof fn law_one_optional_rule_missed(
    tester: OwaspTester,
    config: TestConfig,
    password: Seq<char>,
    missed: int,
)
    requires
        tester.built_from(config),
        !tester.is_passphrase(password),
        tester.required_failures(password).len() == 0,
        0 <= missed < 4,
        forall|k: int|
            0 <= k < 4 ==> (#[trigger] optional_rules()[k].rejects(password) <==> k == missed),
    ensures
        tester.outcome(password) is Err,
        tester.outcome(password)->Err_0.required_test_errors.len() == 0,
        tester.outcome(password)->Err_0.optional_test_errors == seq![
            optional_rules()[missed].message(password),
        ],
        tester.outcome(password)->Err_0.errors == seq![optional_rules()[missed].message(password)],
        tester.outcome(password)->Err_0.optional_tests_passed == 3,
{
    lemma_optional_failures(password);
    let opt = optional_rules();
    assert(opt[0].rejects(password) <==> 0 == missed);
    assert(opt[1].rejects(password) <==> 1 == missed);
    assert(opt[2].rejects(password) <==> 2 == missed);
    assert(opt[3].rejects(password) <==> 3 == missed);
    assert(tester.optional_failures(password) =~= seq![opt[missed].message(password)]);
    assert(tester.required_failures(password) + tester.optional_failures(password)
        =~= seq![opt[missed].message(password)]);
}

/// One special character anywhere in a password satisfies the rule that asks
/// for one.
pub proof fn law_special_char_satisfies(password: Seq<char>, at: int)
    requires
        0 <= at < password.len(),
        is_special_char(password[at]),
    ensures
        !(HasSpecialChars {  }).rejects(password),
        report(Rule::HasSpecialChars(HasSpecialChars {  }), password) == Seq::<Seq<char>>::empty(),
{
}

/// Each of the listed special characters, put between any two texts, makes a
/// password that satisfies the rule that asks for one.
pub proof fn law_listed_character_satisfies(before: Seq<char>, which: int, after: Seq<char>)
    requires
        0 <= which < special_chars().len(),
    ensures
        is_special_char(special_chars()[which]),
        !(HasSpecialChars {  }).rejects(before + seq![special_chars()[which]] + after),
{
    let password = before + seq![special_chars()[which]] + after;
    assert(password[before.len() as int] == special_chars()[which]);
}

/// A password that the required rules accept, that holds a lowercase letter,
/// an uppercase letter and a digit, is accepted as soon as it holds one
/// special character.
pub proof fn law_special_char_completes(
    tester: OwaspTester,
    config: TestConfig,
    password: Seq<char>,
    at: int,
)
    requires
        tester.built_from(config),
        tester.required_failures(password).len() == 0,
        !(HasLowercaseLetters {  }).rejects(password),
        !(HasUppercaseLetters {  }).rejects(password),
        !(MinDigits { min_digits: 1 }).rejects(password),
        0 <= at < password.len(),
        is_special_char(password[at]),
    ensures
        tester.outcome(password) is Ok,
{
    lemma_optional_failures(password);
}

/// What is reported of a password hangs together: the combined messages are
/// the required ones followed by the optional ones; the password is strong
/// exactly when there is no message; of a passphrase no optional rule gives a
/// message or is counted. A rejected password is never reported strong.
pub proof fn law_verdict_is_consistent(tester: OwaspTester, password: Seq<char>)
    ensures
        tester.verdict(password).errors == tester.verdict(password).required_test_errors
            + tester.verdict(password).optional_test_errors,
        tester.verdict(password).strong <==> tester.verdict(password).errors.len() == 0,
        tester.verdict(password).strong <==> tester.verdict(password).required_test_errors.len()
            == 0 && tester.verdict(password).optional_test_errors.len() == 0,
        tester.verdict(password).is_passphrase ==> tester.verdict(
            password,
        ).optional_test_errors.len() == 0 && tester.verdict(password).optional_tests_passed == 0,
        tester.outcome(password) is Err ==> !tester.outcome(password)->Err_0.strong,
{
}

/// Evaluation is a function of the tester and the password: two results of
/// evaluating one password with one tester are equal, field for field.
pub proof fn law_evaluation_is_deterministic(
    tester: OwaspTester,
    password: Seq<char>,
    first: Result<(), FailedTestResult>,
    second: Result<(), FailedTestResult>,
)
    requires
        result_view(first) == tester.outcome(password),
        result_view(second) == tester.outcome(password),
    ensures
        result_view(first) == result_view(second),
        first is Ok <==> second is Ok,
        first is Err ==> first->Err_0@ == second->Err_0@,
{
}

/// Two testers of one configuration hold the same rules and give the same
/// result on every password.
pub proof fn law_testers_of_one_config_agree(
    one: OwaspTester,
    other: OwaspTester,
    config: TestConfig,
    password: Seq<char>,
)
    requires
        one.built_from(config),
        other.built_from(config),
    ensures
        one.config == other.config,
        one.required_tests@ == other.required_tests@,
        one.optional_tests@ == other.optional_tests@,
        one.outcome(password) == other.outcome(password),
{
}

} // verus!
