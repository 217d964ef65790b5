//! The rules a password is held to. Each rule is a small value that owns its
//! threshold, if it has one, and answers one question about a password.

use vstd::prelude::*;

pub mod has_lowercase_letters;
pub mod has_special_chars;
pub mod has_uppercase_letters;
pub mod max_length;
pub mod max_repeating_chars;
pub mod min_digits;
pub mod min_length;

use has_lowercase_letters::HasLowercaseLetters;
use has_special_chars::HasSpecialChars;
use has_uppercase_letters::HasUppercaseLetters;
use max_length::MaxLengthTest;
use max_repeating_chars::MaxRepeatingChars;
use min_digits::MinDigits;
use min_length::MinLength;

verus! {

/// One check of a password. A rule either accepts the password or rejects it
/// with a message for the person who chose it; it keeps no state between
/// calls.
pub trait PasswordTest {
    /// Whether the rule rejects `password`.
    spec fn rejects(&self, password: Seq<char>) -> bool;

    /// The message the rule gives when it rejects `password`.
    spec fn message(&self, password: Seq<char>) -> Seq<char>;

    /// Checks `password`: `Ok` when the rule accepts it, else the rule's
    /// message.
    fn test(&self, password: &str) -> (res: Result<(), String>)
        ensures
            res is Err <==> self.rejects(password@),
            res is Err ==> res->Err_0@ == self.message(password@),
    ;
}

/// Any one of the rules, so that rules of different kinds can stand in one
/// list.
pub enum Rule {
    MinLength(MinLength),
    MaxLength(MaxLengthTest),
    MaxRepeatingChars(MaxRepeatingChars),
    HasLowercaseLetters(HasLowercaseLetters),
    HasUppercaseLetters(HasUppercaseLetters),
    MinDigits(MinDigits),
    HasSpecialChars(HasSpecialChars),
}

impl PasswordTest for Rule {
    open spec fn rejects(&self, password: Seq<char>) -> bool {
        match self {
            Rule::MinLength(r) => r.rejects(password),
            Rule::MaxLength(r) => r.rejects(password),
            Rule::MaxRepeatingChars(r) => r.rejects(password),
            Rule::HasLowercaseLetters(r) => r.rejects(password),
            Rule::HasUppercaseLetters(r) => r.rejects(password),
            Rule::MinDigits(r) => r.rejects(password),
            Rule::HasSpecialChars(r) => r.rejects(password),
        }
    }

    open spec fn message(&self, password: Seq<char>) -> Seq<char> {
        match self {
            Rule::MinLength(r) => r.message(password),
            Rule::MaxLength(r) => r.message(password),
            Rule::MaxRepeatingChars(r) => r.message(password),
            Rule::HasLowercaseLetters(r) => r.message(password),
            Rule::HasUppercaseLetters(r) => r.message(password),
            Rule::MinDigits(r) => r.message(password),
            Rule::HasSpecialChars(r) => r.message(password),
        }
    }

    fn test(&self, password: &str) -> (res: Result<(), String>) {
        match self {
            Rule::MinLength(r) => r.test(password),
            Rule::MaxLength(r) => r.test(password),
            Rule::MaxRepeatingChars(r) => r.test(password),
            Rule::HasLowercaseLetters(r) => r.test(password),
            Rule::HasUppercaseLetters(r) => r.test(password),
            Rule::MinDigits(r) => r.test(password),
            Rule::HasSpecialChars(r) => r.test(password),
        }
    }
}

/// The messages of the rules among `rules` that reject `password`, in the
/// order of the rules.
pub open spec fn failures(rules: Seq<Rule>, password: Seq<char>) -> Seq<Seq<char>>
    decreases rules.len(),
{
    if rules.len() == 0 {
        Seq::empty()
    } else if rules.last().rejects(password) {
        failures(rules.drop_last(), password).push(rules.last().message(password))
    } else {
        failures(rules.drop_last(), password)
    }
}

/// The number of rules among `rules` that accept `password`.
pub open spec fn passes(rules: Seq<Rule>, password: Seq<char>) -> nat
    decreases rules.len(),
{
    if rules.len() == 0 {
        0
    } else if rules.last().rejects(password) {
        passes(rules.drop_last(), password)
    } else {
        passes(rules.drop_last(), password) + 1
    }
}

/// What one rule adds to the messages: its message where it rejects
/// `password`, else nothing.
pub open spec fn report(rule: Rule, password: Seq<char>) -> Seq<Seq<char>> {
    if rule.rejects(password) {
        seq![rule.message(password)]
    } else {
        Seq::empty()
    }
}

/// A rule at the end of a list adds its report at the end of the messages,
/// and counts as passed where it adds none.
pub proof fn lemma_failures_push(rules: Seq<Rule>, rule: Rule, password: Seq<char>)
    ensures
        failures(rules.push(rule), password) == failures(rules, password) + report(rule, password),
        passes(rules.push(rule), password) == passes(rules, password) + (if rule.rejects(
            password,
        ) {
            0nat
        } else {
            1nat
        }),
{
    assert(rules.push(rule).drop_last() =~= rules);
    assert(failures(rules.push(rule), password) =~= failures(rules, password) + report(
        rule,
        password,
    ));
}

/// Every rule either adds a message or counts as passed.
pub proof fn lemma_failures_and_passes(rules: Seq<Rule>, password: Seq<char>)
    ensures
        failures(rules, password).len() + passes(rules, password) == rules.len(),
    decreases rules.len(),
{
    if rules.len() > 0 {
        lemma_failures_and_passes(rules.drop_last(), password);
    }
}

/// Whether every rule among `rules` accepts `password`.
pub open spec fn all_accept(rules: Seq<Rule>, password: Seq<char>) -> bool {
    forall|i: int| 0 <= i < rules.len() ==> !(#[trigger] rules[i]).rejects(password)
}

/// No rule of a list gives a message exactly when every rule of it accepts
/// the password: the order of the rules decides the order of the messages
/// and nothing else.
pub proof fn lemma_no_failures_iff_all_accept(rules: Seq<Rule>, password: Seq<char>)
    ensures
        failures(rules, password).len() == 0 <==> all_accept(rules, password),
    decreases rules.len(),
{
    if rules.len() > 0 {
        let front = rules.drop_last();
        lemma_no_failures_iff_all_accept(front, password);
        if failures(rules, password).len() == 0 {
            assert forall|i: int| 0 <= i < rules.len() implies !(#[trigger] rules[i]).rejects(
                password,
            ) by {
                if i < rules.len() - 1 {
                    assert(rules[i] == front[i]);
                }
            }
        } else if !rules.last().rejects(password) {
            let i = choose|i: int| 0 <= i < front.len() && (#[trigger] front[i]).rejects(password);
            assert(rules[i] == front[i]);
        }
    }
}

} // verus!
