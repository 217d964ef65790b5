use crate::passwordtests::PasswordTest;
use crate::text::{byte_len, byte_length, numbered, numbered_message};
use vstd::prelude::*;

verus! {

/// Rejects a password of more than `max_length` bytes.
pub struct MaxLengthTest {
    pub max_length: usize,
}

impl PasswordTest for MaxLengthTest {
    open spec fn rejects(&self, password: Seq<char>) -> bool {
        byte_len(password) > self.max_length
    }

    open spec fn message(&self, password: Seq<char>) -> Seq<char> {
        numbered("Password must be at most "@, self.max_length as nat, " characters long"@)
    }

    fn test(&self, password: &str) -> (res: Result<(), String>) {
        if byte_length(password) > self.max_length {
            Err(numbered_message("Password must be at most ", self.max_length, " characters long"))
        } else {
            Ok(())
        }
    }
}

} // verus!
