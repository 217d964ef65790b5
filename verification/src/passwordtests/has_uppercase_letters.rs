use crate::passwordtests::PasswordTest;
use vstd::prelude::*;
use vstd::string::StringExecFns;

verus! {

/// Whether `c` is one of the letters `A` to `Z`.
pub open spec fn is_uppercase(c: char) -> bool {
    'A' <= c && c <= 'Z'
}

/// Rejects a password without any of the letters `A` to `Z`.
pub struct HasUppercaseLetters {}

impl PasswordTest for HasUppercaseLetters {
    open spec fn rejects(&self, password: Seq<char>) -> bool {
        forall|i: int| 0 <= i < password.len() ==> !is_uppercase(#[trigger] password[i])
    }

    open spec fn message(&self, password: Seq<char>) -> Seq<char> {
        "Password must contain at least one uppercase letter"@
    }

    fn test(&self, password: &str) -> (res: Result<(), String>) {
        for c in it: password.chars()
            invariant
                it.seq() == password@,
                forall|j: int| 0 <= j < it.index() ==> !is_uppercase(#[trigger] password@[j]),
        {
            if 'A' <= c && c <= 'Z' {
                return Ok(());
            }
        }
        Err(String::from_str("Password must contain at least one uppercase letter"))
    }
}

} // verus!
