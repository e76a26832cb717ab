//! The casing policy evaluator: whether a name's leading character violates
//! the configured direction, and the minimally corrected name.

use vstd::prelude::*;
use vstd::string::*;

verus! {

/// Whether a character has the Unicode `Uppercase` property, as
/// `char::is_uppercase` reports it.
pub uninterp spec fn char_is_uppercase(c: char) -> bool;

/// Whether a character has the Unicode `Lowercase` property, as
/// `char::is_lowercase` reports it.
pub uninterp spec fn char_is_lowercase(c: char) -> bool;

/// The full Unicode uppercase mapping of a character, one or more characters.
pub uninterp spec fn upper_mapping(c: char) -> Seq<char>;

/// The full Unicode lowercase mapping of a character, one or more characters.
pub uninterp spec fn lower_mapping(c: char) -> Seq<char>;

/// Relies on `char::is_uppercase`: whether the character has the Unicode
/// `Uppercase` property; the result depends on the character alone.
#[verifier::external_body]
fn is_uppercase_char(c: char) -> (r: bool)
    ensures
        r == char_is_uppercase(c),
{
    c.is_uppercase()
}

/// Relies on `char::is_lowercase`: whether the character has the Unicode
/// `Lowercase` property; the result depends on the character alone.
#[verifier::external_body]
fn is_lowercase_char(c: char) -> (r: bool)
    ensures
        r == char_is_lowercase(c),
{
    c.is_lowercase()
}

/// Relies on `char::to_uppercase`: the uppercase mapping of the character as
/// one or more characters, depending on the character alone.
#[verifier::external_body]
fn to_uppercase_string(c: char) -> (r: String)
    ensures
        r@ == upper_mapping(c),
        r@.len() >= 1,
{
    c.to_uppercase().to_string()
}

/// Relies on `char::to_lowercase`: the lowercase mapping of the character as
/// one or more characters, depending on the character alone.
#[verifier::external_body]
fn to_lowercase_string(c: char) -> (r: String)
    ensures
        r@ == lower_mapping(c),
        r@.len() >= 1,
{
    c.to_lowercase().to_string()
}

/// A name violates the convention exactly when its first character carries
/// the case opposite to the configured direction; a first character with no
/// case never violates either direction.
pub open spec fn wrong_casing(name: Seq<char>, use_uppercase: bool) -> bool {
    if use_uppercase {
        char_is_lowercase(name[0])
    } else {
        char_is_uppercase(name[0])
    }
}

/// The case mapping that the configured direction applies to a leading
/// character.
pub open spec fn case_mapping(c: char, use_uppercase: bool) -> Seq<char> {
    if use_uppercase {
        upper_mapping(c)
    } else {
        lower_mapping(c)
    }
}

/// The corrected name: the (possibly multi-character) converted first
/// character, concatenated with the unchanged remainder.
pub open spec fn corrected(name: Seq<char>, use_uppercase: bool) -> Seq<char> {
    case_mapping(name[0], use_uppercase) + name.skip(1)
}

/// Whether `string`'s leading character is mis-cased for the configured
/// direction.
pub fn is_wrong_casing(string: &str, use_uppercase: bool) -> (r: bool)
    requires
        string@.len() > 0,
    ensures
        r == wrong_casing(string@, use_uppercase),
{
    let first_char = string.get_char(0);
    if use_uppercase {
        is_lowercase_char(first_char)
    } else {
        is_uppercase_char(first_char)
    }
}

/// The name with its first character's case converted to the configured
/// direction and every remaining character unchanged.
pub fn correct_name_casing(string: &str, use_uppercase: bool) -> (r: String)
    requires
        string@.len() > 0,
    ensures
        r@ == corrected(string@, use_uppercase),
{
    let len = string.unicode_len();
    let first_char = string.get_char(0);
    let rest_chars = string.substring_char(1, len);
    let prefix = if use_uppercase {
        to_uppercase_string(first_char)
    } else {
        to_lowercase_string(first_char)
    };
    let r = prefix.concat(rest_chars);
    proof {
        assert(string@.subrange(1, string@.len() as int) =~= string@.skip(1));
    }
    r
}

} // verus!
