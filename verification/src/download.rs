//! Filename generation and extension extraction for downloaded episodes.
//!
//! A filename is derived from the episode title by keeping only alphanumeric
//! characters, spaces, hyphens and underscores, trimming spaces, truncating
//! to 100 characters, trimming again, and appending the extension.

use vstd::prelude::*;
use crate::text::{allowed_char, is_alnum, is_alnum_char, push_char, spec_allowed_char};

verus! {

broadcast use {
    Seq::lemma_filter_push,
    Seq::lemma_filter_len_push,
    Seq::lemma_take_succ_push,
    Seq::lemma_filter_pred,
    Seq::lemma_filter_len,
};

/// The characters of `s` that may appear in a filename, in order.
pub open spec fn spec_keep_allowed(s: Seq<char>) -> Seq<char> {
    s.filter(|c: char| spec_allowed_char(c))
}

/// `s` without its leading spaces.
pub open spec fn spec_trim_left(s: Seq<char>) -> Seq<char>
    decreases s.len(),
{
    if s.len() > 0 && s[0] == ' ' {
        spec_trim_left(s.drop_first())
    } else {
        s
    }
}

/// `s` without its trailing spaces.
pub open spec fn spec_trim_right(s: Seq<char>) -> Seq<char>
    decreases s.len(),
{
    if s.len() > 0 && s.last() == ' ' {
        spec_trim_right(s.drop_last())
    } else {
        s
    }
}

/// `s` without leading and trailing spaces.
pub open spec fn spec_trim(s: Seq<char>) -> Seq<char> {
    spec_trim_right(spec_trim_left(s))
}

/// `s` cut down to its first `n` characters, where it is longer.
pub open spec fn spec_truncate(s: Seq<char>, n: int) -> Seq<char> {
    if s.len() <= n {
        s
    } else {
        s.take(n)
    }
}

/// The sanitized stem a title yields: disallowed characters stripped, spaces
/// trimmed, truncated to 100 characters, trailing spaces trimmed again.
pub open spec fn spec_filename_base(title: Seq<char>) -> Seq<char> {
    spec_trim(spec_truncate(spec_trim(spec_keep_allowed(title)), 100))
}

/// The filename a title and an extension yield: the sanitized stem, a dot,
/// and the extension.
pub open spec fn spec_generate_filename(title: Seq<char>, ext: Seq<char>) -> Seq<char> {
    spec_filename_base(title) + "."@ + ext
}

/// Keeps only the characters of `s` that may appear in a filename.
fn keep_allowed(s: &str) -> (r: String)
    ensures
        r@ == spec_keep_allowed(s@),
{
    let n = s.unicode_len();
    let mut out = String::new();
    let mut i: usize = 0;
    while i < n
        invariant
            i <= n,
            n as nat == s@.len(),
            out@ == spec_keep_allowed(s@.take(i as int)),
        decreases n - i,
    {
        let c = s.get_char(i);
        if allowed_char(c) {
            push_char(&mut out, c);
        }
        i = i + 1;
    }
    proof {
        assert(s@.take(n as int) =~= s@);
    }
    out
}

/// Removes leading and trailing spaces.
fn trim_spaces(s: &str) -> (r: String)
    ensures
        r@ == spec_trim(s@),
{
    let n = s.unicode_len();
    let mut start: usize = 0;
    proof {
        assert(s@.skip(0) =~= s@);
    }
    while start < n && s.get_char(start) == ' '
        invariant
            start <= n,
            n as nat == s@.len(),
            spec_trim_left(s@) == spec_trim_left(s@.skip(start as int)),
        decreases n - start,
    {
        proof {
            assert(s@.skip(start as int)[0] == s@[start as int]);
            assert(s@.skip(start as int).drop_first() =~= s@.skip(start + 1));
        }
        start = start + 1;
    }
    proof {
        if start < n {
            assert(s@.skip(start as int)[0] == s@[start as int]);
            assert(s@[start as int] != ' ');
        }
        assert(spec_trim_left(s@) == s@.skip(start as int));
    }
    let mut end: usize = n;
    proof {
        assert(s@.subrange(start as int, end as int) =~= s@.skip(start as int));
    }
    while end > start && s.get_char(end - 1) == ' '
        invariant
            start <= end <= n,
            n as nat == s@.len(),
            spec_trim_left(s@) == s@.skip(start as int),
            spec_trim(s@) == spec_trim_right(s@.subrange(start as int, end as int)),
        decreases end,
    {
        proof {
            let sub = s@.subrange(start as int, end as int);
            assert(sub.last() == s@[end - 1]);
            assert(sub.drop_last() =~= s@.subrange(start as int, end - 1));
        }
        end = end - 1;
    }
    proof {
        let sub = s@.subrange(start as int, end as int);
        if end > start {
            assert(sub.last() == s@[end - 1]);
            assert(s@[end - 1] != ' ');
        }
        assert(spec_trim_right(sub) == sub);
    }
    s.substring_char(start, end).to_owned()
}

/// Derives a safe filename from an episode title: disallowed characters are
/// stripped, spaces trimmed, the stem truncated to 100 characters and
/// trimmed again, and the extension appended after a dot.
pub fn generate_filename(title: &str, extension: &str) -> (r: String)
    ensures
        r@ == spec_generate_filename(title@, extension@),
{
    let kept = keep_allowed(title);
    let trimmed = trim_spaces(kept.as_str());
    let limited: String = if trimmed.as_str().unicode_len() > 100 {
        trimmed.as_str().substring_char(0, 100).to_owned()
    } else {
        trimmed
    };
    let base = trim_spaces(limited.as_str());
    base.concat(".").concat(extension)
}

/// Trimming from the right yields a prefix: it only removes trailing spaces,
/// and what remains ends with a non-space.
proof fn lemma_trim_right_prefix(s: Seq<char>)
    ensures
        spec_trim_right(s).len() <= s.len(),
        spec_trim_right(s) == s.take(spec_trim_right(s).len() as int),
        spec_trim_right(s).len() > 0 ==> spec_trim_right(s).last() != ' ',
    decreases s.len(),
{
    if s.len() > 0 && s.last() == ' ' {
        lemma_trim_right_prefix(s.drop_last());
        assert(s.drop_last() =~= s.take(s.len() - 1));
        assert(s.take(s.len() - 1).take(spec_trim_right(s).len() as int) =~= s.take(
            spec_trim_right(s).len() as int,
        ));
    } else {
        assert(s.take(s.len() as int) =~= s);
    }
}

/// Trimming from the left yields a suffix: it only removes leading spaces,
/// and what remains starts with a non-space.
proof fn lemma_trim_left_suffix(s: Seq<char>)
    ensures
        spec_trim_left(s).len() <= s.len(),
        spec_trim_left(s) == s.skip(s.len() - spec_trim_left(s).len()),
        spec_trim_left(s).len() > 0 ==> spec_trim_left(s)[0] != ' ',
    decreases s.len(),
{
    if s.len() > 0 && s[0] == ' ' {
        lemma_trim_left_suffix(s.drop_first());
        assert(s.drop_first() =~= s.skip(1));
        assert(s.skip(1).skip(s.len() - 1 - spec_trim_left(s).len()) =~= s.skip(
            s.len() - spec_trim_left(s).len(),
        ));
    } else {
        assert(s.skip(0) =~= s);
    }
}

/// A filter whose predicate holds of every character returns the sequence
/// unchanged.
proof fn lemma_keep_all_allowed(s: Seq<char>)
    requires
        forall|i: int| 0 <= i < s.len() ==> spec_allowed_char(#[trigger] s[i]),
    ensures
        spec_keep_allowed(s) == s,
    decreases s.len(),
{
    if s.len() == 0 {
        assert(s.filter(|c: char| spec_allowed_char(c)) =~= s) by {
            reveal(Seq::filter);
        }
    } else {
        lemma_keep_all_allowed(s.drop_last());
        assert(spec_allowed_char(s.last()));
        assert(s.filter(|c: char| spec_allowed_char(c)) == s.drop_last().filter(
            |c: char| spec_allowed_char(c),
        ).push(s.last())) by {
            reveal(Seq::filter);
        }
        assert(s.drop_last().push(s.last()) =~= s);
    }
}

/// On a title that is already clean — only allowed characters, no leading or
/// trailing space, at most 100 characters — filename generation changes
/// nothing: the result is the title, a dot, and the extension.
pub proof fn lemma_generate_filename_clean(title: Seq<char>, ext: Seq<char>)
    requires
        forall|i: int| 0 <= i < title.len() ==> spec_allowed_char(#[trigger] title[i]),
        title.len() <= 100,
        title.len() > 0 ==> title[0] != ' ' && title.last() != ' ',
    ensures
        spec_filename_base(title) == title,
        spec_generate_filename(title, ext) == title + "."@ + ext,
{
    lemma_keep_all_allowed(title);
    assert(spec_trim_left(title) == title);
    assert(spec_trim_right(title) == title);
    assert(spec_truncate(title, 100) == title);
}

/// The sanitized stem is idempotent: running a generated stem through the
/// sanitizer again returns it unchanged.
pub proof fn lemma_filename_base_idempotent(title: Seq<char>)
    ensures
        spec_filename_base(spec_filename_base(title)) == spec_filename_base(title),
{
    let k = spec_keep_allowed(title);
    let tl = spec_trim_left(k);
    let u = spec_trim_right(tl);
    let v = spec_truncate(u, 100);
    let vl = spec_trim_left(v);
    let b = spec_trim_right(vl);
    assert(b == spec_filename_base(title));
    lemma_trim_left_suffix(k);
    lemma_trim_right_prefix(tl);
    lemma_trim_left_suffix(v);
    lemma_trim_right_prefix(vl);
    // every character of the stem is an allowed character of the kept title
    assert forall|i: int| 0 <= i < b.len() implies spec_allowed_char(#[trigger] b[i]) by {
        assert(b[i] == vl[i]);
        let shift = v.len() - vl.len();
        assert(vl[i] == v[i + shift]);
        assert(v[i + shift] == u[i + shift]);
        assert(u[i + shift] == tl[i + shift]);
        let shift2 = k.len() - tl.len();
        assert(tl[i + shift] == k[i + shift + shift2]);
        assert(spec_allowed_char(k[i + shift + shift2]));
    }
    // the stem is short, and starts and ends with a non-space
    assert(b.len() <= 100);
    if b.len() > 0 {
        assert(b[0] == vl[0]);
        assert(b[0] != ' ');
        assert(b.last() != ' ');
    }
    lemma_generate_filename_clean(b, Seq::empty());
}

/// What stands after the last dot of `s`, or all of `s` when it holds no
/// dot.
pub open spec fn spec_after_last_dot(s: Seq<char>) -> Seq<char>
    decreases s.len(),
{
    if s.len() == 0 {
        s
    } else if s.last() == '.' {
        Seq::empty()
    } else {
        spec_after_last_dot(s.drop_last()).push(s.last())
    }
}

/// What stands before the first question mark of `s`.
pub open spec fn spec_before_query(s: Seq<char>) -> Seq<char>
    decreases s.len(),
{
    if s.len() == 0 {
        s
    } else if s[0] == '?' {
        Seq::empty()
    } else {
        seq![s[0]] + spec_before_query(s.drop_first())
    }
}

/// A candidate extension is accepted when it has at most 10 characters, all
/// alphanumeric.
pub open spec fn spec_valid_extension(e: Seq<char>) -> bool {
    e.len() <= 10 && forall|i: int| 0 <= i < e.len() ==> is_alnum(#[trigger] e[i])
}

/// The extension a URL yields: the part after its last dot, cut at the first
/// question mark, accepted only when it looks like a real extension.
pub open spec fn spec_extract_extension(url: Seq<char>) -> Option<Seq<char>> {
    let e = spec_before_query(spec_after_last_dot(url));
    if spec_valid_extension(e) {
        Some(e)
    } else {
        None
    }
}

/// Extracts a file extension from a URL: the substring after the last dot,
/// with any query string stripped, accepted only if it is at most 10
/// characters and purely alphanumeric.
#[verifier::rlimit(60)]
pub fn extract_extension(url: &str) -> (r: Option<String>)
    ensures
        match r {
            Some(e) => spec_extract_extension(url@) == Some(e@),
            None => spec_extract_extension(url@) is None,
        },
{
    let n = url.unicode_len();
    let mut start: usize = n;
    proof {
        assert(url@.take(n as int) =~= url@);
        assert(url@.skip(n as int) =~= Seq::<char>::empty());
        assert(spec_after_last_dot(url@) + Seq::<char>::empty() =~= spec_after_last_dot(url@));
    }
    while start > 0 && url.get_char(start - 1) != '.'
        invariant
            start <= n,
            n as nat == url@.len(),
            spec_after_last_dot(url@) == spec_after_last_dot(url@.take(start as int)) + url@.skip(
                start as int,
            ),
        decreases start,
    {
        proof {
            let t = url@.take(start as int);
            assert(t.last() == url@[start - 1]);
            assert(t.drop_last() =~= url@.take(start - 1));
            assert(spec_after_last_dot(t) == spec_after_last_dot(url@.take(start - 1)).push(
                url@[start - 1],
            ));
            assert(spec_after_last_dot(url@.take(start - 1)).push(url@[start - 1]) + url@.skip(
                start as int,
            ) =~= spec_after_last_dot(url@.take(start - 1)) + url@.skip(start - 1));
        }
        start = start - 1;
    }
    proof {
        if start == 0 {
            assert(url@.take(0) =~= Seq::<char>::empty());
            assert(spec_after_last_dot(Seq::<char>::empty()) + url@.skip(0) =~= url@.skip(
                0,
            ));
        } else {
            let t = url@.take(start as int);
            assert(t.last() == url@[start - 1]);
            assert(t.last() == '.');
            assert(Seq::<char>::empty() + url@.skip(start as int) =~= url@.skip(start as int));
        }
        assert(spec_after_last_dot(url@) == url@.skip(start as int));
    }
    let mut end: usize = start;
    while end < n && url.get_char(end) != '?'
        invariant
            start <= end <= n,
            n as nat == url@.len(),
            spec_after_last_dot(url@) == url@.skip(start as int),
            spec_before_query(url@.skip(start as int)) == url@.subrange(start as int, end as int)
                + spec_before_query(url@.skip(end as int)),
        decreases n - end,
    {
        proof {
            let t = url@.skip(end as int);
            assert(t[0] == url@[end as int]);
            assert(t.drop_first() =~= url@.skip(end + 1));
            assert(spec_before_query(t) == seq![url@[end as int]] + spec_before_query(
                url@.skip(end + 1),
            ));
            assert(url@.subrange(start as int, end as int) + (seq![url@[end as int]]
                + spec_before_query(url@.skip(end + 1))) =~= url@.subrange(start as int, end + 1)
                + spec_before_query(url@.skip(end + 1)));
        }
        end = end + 1;
    }
    proof {
        let t = url@.skip(end as int);
        if end == n {
            assert(t =~= Seq::<char>::empty());
        } else {
            assert(t[0] == url@[end as int]);
            assert(t[0] == '?');
        }
        assert(spec_before_query(t) =~= Seq::<char>::empty());
        assert(url@.subrange(start as int, end as int) + Seq::<char>::empty() =~= url@.subrange(
            start as int,
            end as int,
        ));
        assert(spec_before_query(spec_after_last_dot(url@)) == url@.subrange(
            start as int,
            end as int,
        ));
    }
    if end - start > 10 {
        proof {
            let e = url@.subrange(start as int, end as int);
            assert(e.len() == end - start);
            assert(!spec_valid_extension(e));
        }
        return None;
    }
    let mut i: usize = start;
    while i < end
        invariant
            start <= i <= end <= n,
            end - start <= 10,
            n as nat == url@.len(),
            spec_before_query(spec_after_last_dot(url@)) == url@.subrange(
                start as int,
                end as int,
            ),
            forall|j: int| start <= j < i ==> is_alnum(#[trigger] url@[j]),
        decreases end - i,
    {
        if !is_alnum_char(url.get_char(i)) {
            proof {
                let e = url@.subrange(start as int, end as int);
                assert(e[i - start as int] == url@[i as int]);
                assert(!is_alnum(e[i - start as int]));
                assert(!spec_valid_extension(e));
            }
            return None;
        }
        i = i + 1;
    }
    proof {
        let e = url@.subrange(start as int, end as int);
        assert forall|j: int| 0 <= j < e.len() implies is_alnum(#[trigger] e[j]) by {
            assert(e[j] == url@[start + j]);
        }
        assert(spec_valid_extension(e));
    }
    Some(url.substring_char(start, end).to_owned())
}

} // verus!
