use crate::passwordtests::PasswordTest;
use crate::text::{byte_len, byte_length, numbered, numbered_message};
use vstd::prelude::*;

verus! {

/// Rejects a password of fewer than `min_length` bytes.
pub struct MinLength {
    pub min_length: usize,
}

impl PasswordTest for MinLength {
    open spec fn rejects(&self, password: Seq<char>) -> bool {
        byte_len(password) < self.min_length
    }

    open spec fn message(&self, password: Seq<char>) -> Seq<char> {
        numbered("Password must be at least "@, self.min_length as nat, " characters long"@)
    }

    fn test(&self, password: &str) -> (res: Result<(), String>) {
        if byte_length(password) < self.min_length {
            Err(numbered_message("Password must be at least ", self.min_length, " characters long"))
        } else {
            Ok(())
        }
    }
}

} // verus!
