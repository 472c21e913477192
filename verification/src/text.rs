//! Character classification and small string-building helpers shared by the
//! filename and feed modules.

use vstd::prelude::*;

verus! {

/// What `char::is_alphanumeric` returns: the Unicode alphanumeric
/// classification of a character, a function of the character alone.
pub uninterp spec fn is_alnum(c: char) -> bool;

/// Relies on char::is_alphanumeric, for the Unicode classification of a
/// single character.
#[verifier::external_body]
pub(crate) fn is_alnum_char(c: char) -> (r: bool)
    ensures
        r == is_alnum(c),
{
    c.is_alphanumeric()
}

/// Relies on String::push: appends one character to the string.
#[verifier::external_body]
pub(crate) fn push_char(s: &mut String, c: char)
    ensures
        final(s)@ == old(s)@.push(c),
{
    s.push(c);
}

/// A character is kept by filename generation when it is alphanumeric, a
/// space, a hyphen or an underscore.
pub open spec fn spec_allowed_char(c: char) -> bool {
    is_alnum(c) || c == ' ' || c == '-' || c == '_'
}

/// Whether a character may appear in a generated filename.
pub fn allowed_char(c: char) -> (r: bool)
    ensures
        r == spec_allowed_char(c),
{
    is_alnum_char(c) || c == ' ' || c == '-' || c == '_'
}

/// The views of a sequence of strings.
pub open spec fn str_models(s: Seq<String>) -> Seq<Seq<char>> {
    s.map_values(|x: String| x@)
}

/// `base` and `name` joined with a single path separator.
pub open spec fn spec_join_path(base: Seq<char>, name: Seq<char>) -> Seq<char> {
    base + "/"@ + name
}

/// Joins a directory and a file name with a path separator.
pub fn join_path(base: &str, name: &str) -> (r: String)
    ensures
        r@ == spec_join_path(base@, name@),
{
    base.to_owned().concat("/").concat(name)
}

} // verus!
