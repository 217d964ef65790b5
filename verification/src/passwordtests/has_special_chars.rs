use crate::passwordtests::PasswordTest;
use vstd::prelude::*;
use vstd::string::StringExecFns;

verus! {

/// The special characters: the punctuation of ASCII and, last, the space.
pub open spec fn special_chars() -> Seq<char> {
    "!\"#$%&'()*+,-./:;<=>?@[\\]^_`{|}~ "@
}

/// Whether `c` is a special character.
pub open spec fn is_special_char(c: char) -> bool {
    special_chars().contains(c)
}

/// The special characters are the characters of ASCII from the space to `~`
/// that are neither letters nor digits.
pub proof fn lemma_special_chars_by_range(c: char)
    ensures
        is_special_char(c) <==> (' ' <= c <= '/' || ':' <= c <= '@' || '[' <= c <= '`' || '{' <= c
            <= '~'),
{
    reveal_strlit("!\"#$%&'()*+,-./:;<=>?@[\\]^_`{|}~ ");
    let list = special_chars();
    assert(list.len() == 33);
    assert(list[0] == '!');
    assert(list[1] == '"');
    assert(list[2] == '#');
    assert(list[3] == '$');
    assert(list[4] == '%');
    assert(list[5] == '&');
    assert(list[6] == '\'');
    assert(list[7] == '(');
    assert(list[8] == ')');
    assert(list[9] == '*');
    assert(list[10] == '+');
    assert(list[11] == ',');
    assert(list[12] == '-');
    assert(list[13] == '.');
    assert(list[14] == '/');
    assert(list[15] == ':');
    assert(list[16] == ';');
    assert(list[17] == '<');
    assert(list[18] == '=');
    assert(list[19] == '>');
    assert(list[20] == '?');
    assert(list[21] == '@');
    assert(list[22] == '[');
    assert(list[23] == '\\');
    assert(list[24] == ']');
    assert(list[25] == '^');
    assert(list[26] == '_');
    assert(list[27] == '`');
    assert(list[28] == '{');
    assert(list[29] == '|');
    assert(list[30] == '}');
    assert(list[31] == '~');
    assert(list[32] == ' ');
}

/// Decides `is_special_char`, by the four ranges that the special characters
/// fill.
pub fn special_char(c: char) -> (special: bool)
    ensures
        special == is_special_char(c),
{
    proof {
        lemma_special_chars_by_range(c);
    }
    (' ' <= c && c <= '/') || (':' <= c && c <= '@') || ('[' <= c && c <= '`') || ('{' <= c && c
        <= '~')
}

/// The message for a password without special characters: it quotes the
/// password in square brackets.
pub open spec fn missing_special_message(password: Seq<char>) -> Seq<char> {
    "["@ + password + "] Password must contain at least one special character"@
}

/// Rejects a password without any special character.
pub struct HasSpecialChars {}

impl PasswordTest for HasSpecialChars {
    open spec fn rejects(&self, password: Seq<char>) -> bool {
        forall|i: int| 0 <= i < password.len() ==> !is_special_char(#[trigger] password[i])
    }

    open spec fn message(&self, password: Seq<char>) -> Seq<char> {
        missing_special_message(password)
    }

    fn test(&self, password: &str) -> (res: Result<(), String>) {
        for c in it: password.chars()
            invariant
                it.seq() == password@,
                forall|j: int| 0 <= j < it.index() ==> !is_special_char(#[trigger] password@[j]),
        {
            if special_char(c) {
                return Ok(());
            }
        }
        let mut m = String::from_str("[");
        m.append(password);
        m.append("] Password must contain at least one special character");
        Err(m)
    }
}

} // verus!
