//! Naming for downloaded cover art. Fetching and converting the image is
//! network and codec work done by the surrounding application; the library
//! fixes the file name the converted image is saved under.

use vstd::prelude::*;
use crate::text::{is_alnum, is_alnum_char, push_char};

verus! {

/// How one character of a podcast name is sanitized for a filename:
/// alphanumeric characters, hyphens and underscores are kept, everything
/// else becomes an underscore.
pub open spec fn spec_sanitize_char(c: char) -> char {
    if is_alnum(c) || c == '-' || c == '_' {
        c
    } else {
        '_'
    }
}

/// A podcast name sanitized character by character.
pub open spec fn spec_sanitize_filename(s: Seq<char>) -> Seq<char> {
    s.map_values(|c: char| spec_sanitize_char(c))
}

/// Sanitizes a podcast name for use in a filename: every character that is
/// not alphanumeric, a hyphen or an underscore becomes an underscore.
pub fn sanitize_filename(name: &str) -> (r: String)
    ensures
        r@ == spec_sanitize_filename(name@),
{
    broadcast use Seq::lemma_push_map_commute, Seq::lemma_take_succ_push;

    let n = name.unicode_len();
    let mut out = String::new();
    let mut i: usize = 0;
    while i < n
        invariant
            i <= n,
            n as nat == name@.len(),
            out@ == spec_sanitize_filename(name@.take(i as int)),
        decreases n - i,
    {
        let c = name.get_char(i);
        if is_alnum_char(c) || c == '-' || c == '_' {
            push_char(&mut out, c);
        } else {
            push_char(&mut out, '_');
        }
        i = i + 1;
    }
    proof {
        assert(name@.take(n as int) =~= name@);
    }
    out
}

/// The file name a podcast's converted cover art is saved under.
pub open spec fn spec_cover_filename(name: Seq<char>) -> Seq<char> {
    spec_sanitize_filename(name) + "_cover.png"@
}

/// The file name for a podcast's cover art: the sanitized podcast name with
/// a fixed suffix.
pub fn cover_filename(podcast_name: &str) -> (r: String)
    ensures
        r@ == spec_cover_filename(podcast_name@),
{
    sanitize_filename(podcast_name).concat("_cover.png")
}

} // verus!
