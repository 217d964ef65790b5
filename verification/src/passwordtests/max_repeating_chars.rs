use crate::passwordtests::PasswordTest;
use crate::text::{chars_of, numbered, numbered_message};
use vstd::prelude::*;

verus! {

/// Whether the `n` characters of `s` from `start` on are all the same.
pub open spec fn is_run(s: Seq<char>, start: int, n: int) -> bool {
    forall|j: int| start <= j < start + n ==> #[trigger] s[j] == s[start]
}

/// Whether some window of exactly `n` consecutive characters of `s` holds one
/// character only. A text shorter than `n` has no window; the empty window
/// (`n` is zero) exists in every text and holds no two different characters.
pub open spec fn has_run(s: Seq<char>, n: nat) -> bool {
    exists|start: int| 0 <= start && start + n <= s.len() && #[trigger] is_run(s, start, n as int)
}

/// Decides `has_run` in one pass, by the length of the run that ends at each
/// position.
pub fn contains_run(chars: &Vec<char>, n: usize) -> (found: bool)
    ensures
        found == has_run(chars@, n as nat),
{
    if n == 0 {
        assert(is_run(chars@, 0, 0));
        return true;
    }
    let mut i: usize = 0;
    let mut run: usize = 0;
    while i < chars.len()
        invariant
            n > 0,
            i <= chars.len(),
            run <= i,
            run < n,
            i > 0 ==> run > 0,
            forall|j: int| i - run <= j < i ==> #[trigger] chars@[j] == chars@[i - 1],
            i - run > 0 ==> chars@[i - run - 1] != chars@[i - 1],
            forall|k: int| 0 <= k && k + n <= i ==> !#[trigger] is_run(chars@, k, n as int),
        decreases chars.len() - i,
    {
        if i > 0 && chars[i] == chars[i - 1] {
            run += 1;
        } else {
            run = 1;
        }
        i += 1;
        if run >= n {
            assert(is_run(chars@, i - n, n as int));
            return true;
        }
        assert forall|k: int| 0 <= k && k + n <= i implies !#[trigger] is_run(
            chars@,
            k,
            n as int,
        ) by {
            if k + n == i && is_run(chars@, k, n as int) {
                let before = i - run - 1;
                assert(k <= before);
                assert(chars@[before] == chars@[k]);
                assert(chars@[before + 1] == chars@[k]);
                assert(chars@[before + 1] == chars@[i - 1]);
            }
        }
    }
    false
}

/// Rejects a password in which one character stands `max_repeating_chars`
/// times in a row.
pub struct MaxRepeatingChars {
    pub max_repeating_chars: usize,
}

impl PasswordTest for MaxRepeatingChars {
    open spec fn rejects(&self, password: Seq<char>) -> bool {
        has_run(password, self.max_repeating_chars as nat)
    }

    open spec fn message(&self, password: Seq<char>) -> Seq<char> {
        numbered(
            "Password must not contain "@,
            self.max_repeating_chars as nat,
            " or more repeating characters"@,
        )
    }

    fn test(&self, password: &str) -> (res: Result<(), String>) {
        let chars = chars_of(password);
        if contains_run(&chars, self.max_repeating_chars) {
            Err(
                numbered_message(
                    "Password must not contain ",
                    self.max_repeating_chars,
                    " or more repeating characters",
                ),
            )
        } else {
            Ok(())
        }
    }
}

} // verus!
