//! The grammar of the identifiers of aircraft and of flights.
//!
//! An identifier is one to 255 characters out of `-`, `_`, `.`, the decimal
//! digits and the unaccented Latin letters, and it does not spell the word
//! `null`, in any letter case, anywhere. Quotes, semicolons and blanks are
//! therefore never part of an identifier.

use vstd::prelude::*;
use vstd::string::*;
use crate::error::StringError;

verus! {

/// The longest identifier, in characters.
pub const MAX_IDENTIFIER_LENGTH: usize = 255;

/// Whether `c` may stand in an identifier.
pub open spec fn allowed_char(c: char) -> bool {
    ||| '0' <= c <= '9'
    ||| 'A' <= c <= 'Z'
    ||| 'a' <= c <= 'z'
    ||| c == '-'
    ||| c == '_'
    ||| c == '.'
}

/// Whether `s` has an admissible length and holds admissible characters only.
pub open spec fn matches_grammar(s: Seq<char>) -> bool {
    &&& 1 <= s.len() <= MAX_IDENTIFIER_LENGTH
    &&& forall|i: int| 0 <= i < s.len() ==> allowed_char(#[trigger] s[i])
}

/// Whether the four characters of `s` from position `i` on spell `null`,
/// whatever their case.
pub open spec fn spells_null_at(s: Seq<char>, i: int) -> bool {
    &&& 0 <= i
    &&& i + 4 <= s.len()
    &&& (s[i] == 'n' || s[i] == 'N')
    &&& (s[i + 1] == 'u' || s[i + 1] == 'U')
    &&& (s[i + 2] == 'l' || s[i + 2] == 'L')
    &&& (s[i + 3] == 'l' || s[i + 3] == 'L')
}

/// Whether `s` spells `null` somewhere.
pub open spec fn contains_null(s: Seq<char>) -> bool {
    exists|i: int| spells_null_at(s, i)
}

/// Whether `s` is an identifier.
pub open spec fn valid_identifier(s: Seq<char>) -> bool {
    matches_grammar(s) && !contains_null(s)
}

/// What the check of `s` answers.
pub open spec fn check_string_spec(s: Seq<char>) -> Result<(), StringError> {
    if !matches_grammar(s) {
        Err(StringError::Mismatch)
    } else if contains_null(s) {
        Err(StringError::ContainsForbidden)
    } else {
        Ok(())
    }
}

/// Whether the byte `b` encodes an admissible character.
pub open spec fn allowed_byte(b: u8) -> bool {
    ||| 0x30 <= b <= 0x39
    ||| 0x41 <= b <= 0x5a
    ||| 0x61 <= b <= 0x7a
    ||| b == 0x2d
    ||| b == 0x5f
    ||| b == 0x2e
}

fn is_allowed_byte(b: u8) -> (r: bool)
    ensures
        r == allowed_byte(b),
{
    (0x30 <= b && b <= 0x39) || (0x41 <= b && b <= 0x5a) || (0x61 <= b && b <= 0x7a) || b == 0x2d
        || b == 0x5f || b == 0x2e
}

/// An ASCII character is admissible exactly when its byte is.
proof fn lemma_allowed_byte(c: char)
    requires
        c <= '\u{7f}',
    ensures
        allowed_byte(c as u8) == allowed_char(c),
{
}

/// Checks `string` against the identifier grammar.
pub fn check_string(string: &str) -> (r: Result<(), StringError>)
    ensures
        r == check_string_spec(string@),
        r is Ok <==> valid_identifier(string@),
{
    broadcast use vstd::string::is_ascii_spec_bytes;

    if !string.is_ascii() {
        return Err(StringError::Mismatch);
    }
    let bytes = string.as_bytes();
    let n: usize = bytes.len();
    if n == 0 || n > MAX_IDENTIFIER_LENGTH {
        return Err(StringError::Mismatch);
    }
    let mut i: usize = 0;
    while i < n
        invariant
            i <= n,
            n == bytes@.len(),
            n == string@.len(),
            is_ascii(string),
            forall|k: int| 0 <= k < n ==> bytes@[k] == string@[k] as u8,
            forall|k: int| 0 <= k < i ==> allowed_char(#[trigger] string@[k]),
        decreases n - i,
    {
        let allowed: bool = is_allowed_byte(bytes[i]);
        proof {
            lemma_allowed_byte(string@[i as int]);
        }
        if !allowed {
            return Err(StringError::Mismatch);
        }
        i += 1;
    }
    let mut j: usize = 0;
    while j + 4 <= n
        invariant
            j <= n <= MAX_IDENTIFIER_LENGTH,
            n == bytes@.len(),
            n == string@.len(),
            is_ascii(string),
            matches_grammar(string@),
            forall|k: int| 0 <= k < n ==> bytes@[k] == string@[k] as u8,
            forall|k: int| 0 <= k < j ==> !spells_null_at(string@, k),
        decreases n - j,
    {
        let spells: bool = (bytes[j] == 0x6e || bytes[j] == 0x4e) && (bytes[j + 1] == 0x75 || bytes[j
            + 1] == 0x55) && (bytes[j + 2] == 0x6c || bytes[j + 2] == 0x4c) && (bytes[j + 3]
            == 0x6c || bytes[j + 3] == 0x4c);
        proof {
            let s = string@;
            let k = j as int;
            assert(s[k] <= '\u{7f}' && s[k + 1] <= '\u{7f}' && s[k + 2] <= '\u{7f}' && s[k + 3]
                <= '\u{7f}');
            assert(spells == spells_null_at(s, k));
        }
        if spells {
            return Err(StringError::ContainsForbidden);
        }
        j += 1;
    }
    Ok(())
}

/// Whether `s` holds a quote, a double quote, a semicolon or a blank, or is
/// longer than 255 characters.
pub open spec fn hazardous(s: Seq<char>) -> bool {
    s.len() > 255 || exists|i: int|
        0 <= i < s.len() && (s[i] == '\'' || s[i] == '"' || s[i] == ';' || s[i] == ' ')
}

/// A string that holds a quote, a double quote, a semicolon or a blank, or
/// that is longer than 255 characters, is no identifier.
pub proof fn lemma_hazardous_strings_rejected(s: Seq<char>)
    requires
        hazardous(s),
    ensures
        !valid_identifier(s),
        check_string_spec(s) == Err::<(), StringError>(StringError::Mismatch),
{
}

} // verus!
