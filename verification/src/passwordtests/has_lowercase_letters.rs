use crate::passwordtests::PasswordTest;
use vstd::prelude::*;
use vstd::string::StringExecFns;

verus! {

/// Whether `c` is one of the letters `a` to `z`.
pub open spec fn is_lowercase(c: char) -> bool {
    'a' <= c && c <= 'z'
}

/// Rejects a password without any of the letters `a` to `z`.
pub struct HasLowercaseLetters {}

impl PasswordTest for HasLowercaseLetters {
    open spec fn rejects(&self, password: Seq<char>) -> bool {
        forall|i: int| 0 <= i < password.len() ==> !is_lowercase(#[trigger] password[i])
    }

    open spec fn message(&self, password: Seq<char>) -> Seq<char> {
        "Password must contain at least one lowercase letter"@
    }

    fn test(&self, password: &str) -> (res: Result<(), String>) {
        for c in it: password.chars()
            invariant
                it.seq() == password@,
                forall|j: int| 0 <= j < it.index() ==> !is_lowercase(#[trigger] password@[j]),
        {
            if 'a' <= c && c <= 'z' {
                return Ok(());
            }
        }
        Err(String::from_str("Password must contain at least one lowercase letter"))
    }
}

} // verus!
