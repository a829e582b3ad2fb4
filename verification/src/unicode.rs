//! Character classification of the standard library, as used by the client's
//! rules. The tables behind these functions are Unicode's; only the facts that
//! the documentation and the Unicode database give for ASCII are stated.

use vstd::prelude::*;

verus! {

/// Result of `char::is_numeric`: the char has a general category for numbers.
pub uninterp spec fn char_is_numeric(c: char) -> bool;

/// Result of `char::is_lowercase`: the char has the Unicode `Lowercase` property.
pub uninterp spec fn char_is_lowercase(c: char) -> bool;

/// Result of `char::is_uppercase`: the char has the Unicode `Uppercase` property.
pub uninterp spec fn char_is_uppercase(c: char) -> bool;

/// Result of `char::is_whitespace`: the char has the Unicode `White_Space` property.
pub uninterp spec fn char_is_whitespace(c: char) -> bool;

/// ASCII digits.
pub open spec fn is_ascii_digit(c: char) -> bool {
    '0' <= c && c <= '9'
}

/// ASCII lowercase letters.
pub open spec fn is_ascii_lower(c: char) -> bool {
    'a' <= c && c <= 'z'
}

/// ASCII uppercase letters.
pub open spec fn is_ascii_upper(c: char) -> bool {
    'A' <= c && c <= 'Z'
}

/// ASCII characters with the `White_Space` property: tab, line feed,
/// vertical tab, form feed, carriage return and space.
pub open spec fn is_ascii_white_space(c: char) -> bool {
    ('\t' <= c && c <= '\r') || c == ' '
}

/// Calls `char::is_numeric`. Claims that the answer is the named result and
/// that, among ASCII characters, exactly the digits `0`-`9` are numeric.
#[verifier::external_body]
pub(crate) fn is_numeric(c: char) -> (res: bool)
    ensures
        res == char_is_numeric(c),
        (c as u32) < 128 ==> (res <==> is_ascii_digit(c)),
{
    c.is_numeric()
}

/// Calls `char::is_lowercase`. Claims that the answer is the named result and
/// that, among ASCII characters, exactly `a`-`z` are lowercase.
#[verifier::external_body]
pub(crate) fn is_lowercase(c: char) -> (res: bool)
    ensures
        res == char_is_lowercase(c),
        (c as u32) < 128 ==> (res <==> is_ascii_lower(c)),
{
    c.is_lowercase()
}

/// Calls `char::is_uppercase`. Claims that the answer is the named result and
/// that, among ASCII characters, exactly `A`-`Z` are uppercase.
#[verifier::external_body]
pub(crate) fn is_uppercase(c: char) -> (res: bool)
    ensures
        res == char_is_uppercase(c),
        (c as u32) < 128 ==> (res <==> is_ascii_upper(c)),
{
    c.is_uppercase()
}

/// Calls `char::is_whitespace`. Claims that the answer is the named result and
/// that, among ASCII characters, exactly tab, line feed, vertical tab, form
/// feed, carriage return and space are white space.
#[verifier::external_body]
pub(crate) fn is_whitespace(c: char) -> (res: bool)
    ensures
        res == char_is_whitespace(c),
        (c as u32) < 128 ==> (res <==> is_ascii_white_space(c)),
{
    c.is_whitespace()
}

} // verus!
