use crate::passwordtests::PasswordTest;
use crate::text::{chars_of, numbered, numbered_message};
use vstd::prelude::*;

verus! {

/// Whether `c` is one of the digits `0` to `9`.
pub open spec fn is_digit(c: char) -> bool {
    '0' <= c && c <= '9'
}

/// The number of digits among the characters of `s`.
pub open spec fn digit_count(s: Seq<char>) -> nat {
    s.filter(|c: char| is_digit(c)).len()
}

/// Counts the digits in `text`.
pub fn count_digits(text: &str) -> (count: usize)
    ensures
        count == digit_count(text@),
{
    let chars = chars_of(text);
    let mut count: usize = 0;
    let mut i: usize = 0;
    while i < chars.len()
        invariant
            i <= chars.len(),
            count <= i,
            count == digit_count(chars@.take(i as int)),
        decreases chars.len() - i,
    {
        proof {
            reveal(Seq::filter);
            assert(chars@.take(i + 1).drop_last() =~= chars@.take(i as int));
        }
        let c = chars[i];
        if '0' <= c && c <= '9' {
            count += 1;
        }
        i += 1;
    }
    assert(chars@.take(i as int) =~= chars@);
    count
}

/// Rejects a password with fewer than `min_digits` digits.
pub struct MinDigits {
    pub min_digits: usize,
}

impl PasswordTest for MinDigits {
    open spec fn rejects(&self, password: Seq<char>) -> bool {
        digit_count(password) < self.min_digits
    }

    open spec fn message(&self, password: Seq<char>) -> Seq<char> {
        numbered("Password must contain at least "@, self.min_digits as nat, " digits"@)
    }

    fn test(&self, password: &str) -> (res: Result<(), String>) {
        if count_digits(password) < self.min_digits {
            Err(numbered_message("Password must contain at least ", self.min_digits, " digits"))
        } else {
            Ok(())
        }
    }
}

} // verus!
