//! Inference of a short project name from a remote locator.
//!
//! A locator is recognized by one of a fixed set of prefixes (URL schemes,
//! or a path beginning with `.` or `/`).  The name is what stands after the
//! last path separator, cut at the first `.` so that a `.git` suffix falls
//! away.  The platform's native separator is tried first; when the locator
//! has no occurrence of it, the other common separator is tried instead.

use crate::strutil::first_index_of_char;
use crate::strutil::last_index_of_char;
use crate::strutil::lemma_index_of_first_agrees;
use crate::strutil::lemma_index_of_last_agrees;
use crate::strutil::str_contains_char;
use crate::strutil::str_starts_with;
use vstd::prelude::*;

verus! {

/// The path separator native to the platform this tool is built for.
pub const NATIVE_PATH_SEPARATOR: char = '/';

/// A locator is an acceptable remote descriptor: one of the known URL
/// schemes, or a filesystem path starting at `.` or `/`.
pub open spec fn valid_remote_spec(s: Seq<char>) -> bool {
    ||| "ssh://"@.is_prefix_of(s)
    ||| "git://"@.is_prefix_of(s)
    ||| "http://"@.is_prefix_of(s)
    ||| "https://"@.is_prefix_of(s)
    ||| "ftp://"@.is_prefix_of(s)
    ||| "sftp://"@.is_prefix_of(s)
    ||| "file://"@.is_prefix_of(s)
    ||| "."@.is_prefix_of(s)
    ||| "/"@.is_prefix_of(s)
}

/// Decides whether a locator is an acceptable remote descriptor.
pub fn is_valid_remote_repo(remote_repo: &String) -> (r: bool)
    ensures
        r == valid_remote_spec(remote_repo@),
{
    let s: &str = remote_repo.as_str();
    str_starts_with(s, "ssh://") || str_starts_with(s, "git://") || str_starts_with(s, "http://")
        || str_starts_with(s, "https://") || str_starts_with(s, "ftp://") || str_starts_with(
        s,
        "sftp://",
    ) || str_starts_with(s, "file://") || str_starts_with(s, ".") || str_starts_with(s, "/")
}

/// Everything after the last occurrence of `sep`; the whole sequence when
/// there is none.
pub open spec fn after_last_sep_spec(s: Seq<char>, sep: char) -> Seq<char> {
    match s.index_of_last(sep) {
        Some(i) => s.subrange(i + 1, s.len() as int),
        None => s,
    }
}

/// Everything before the first occurrence of `sep`; the whole sequence when
/// there is none.
pub open spec fn before_first_sep_spec(s: Seq<char>, sep: char) -> Seq<char> {
    match s.index_of_first(sep) {
        Some(i) => s.subrange(0, i),
        None => s,
    }
}

/// Strips everything up to and through the last `slash_type` in `s`.
pub fn get_string_after_last_slash(s: String, slash_type: char) -> (r: String)
    ensures
        r@ == after_last_sep_spec(s@, slash_type),
{
    let sr: &str = s.as_str();
    let n: usize = sr.unicode_len();
    match last_index_of_char(sr, slash_type) {
        Some(i) => {
            proof {
                lemma_index_of_last_agrees(s@, slash_type, i as int);
            }
            sr.substring_char(i + 1, n).to_owned()
        },
        None => {
            proof {
                s@.index_of_last_ensures(slash_type);
                if s@.contains(slash_type) {
                    assert(false);
                }
            }
            s
        },
    }
}

/// Strips everything from the first `.` in `s` onward.
pub fn get_string_before_first_dot(s: String) -> (r: String)
    ensures
        r@ == before_first_sep_spec(s@, '.'),
{
    let sr: &str = s.as_str();
    match first_index_of_char(sr, '.') {
        Some(i) => {
            proof {
                lemma_index_of_first_agrees(s@, '.', i as int);
            }
            sr.substring_char(0, i).to_owned()
        },
        None => {
            proof {
                s@.index_of_first_ensures('.');
                if s@.contains('.') {
                    assert(false);
                }
            }
            s
        },
    }
}

/// The name one separator yields: empty unless the locator is recognized,
/// one trailing separator trimmed, empty again when the separator never
/// occurs, and otherwise the piece after the last separator, cut at the
/// first dot.
pub open spec fn repo_name_with_sep_spec(s: Seq<char>, sep: char) -> Seq<char> {
    if !valid_remote_spec(s) {
        Seq::empty()
    } else {
        let t = if s.len() > 0 && s.last() == sep {
            s.drop_last()
        } else {
            s
        };
        if !t.contains(sep) {
            Seq::empty()
        } else {
            before_first_sep_spec(after_last_sep_spec(t, sep), '.')
        }
    }
}

/// Attempts to read a project name out of a locator with one separator.
pub fn try_get_repo_name_with_slash_type(remote_repo: &String, slash_type: char) -> (r: String)
    ensures
        r@ == repo_name_with_sep_spec(remote_repo@, slash_type),
{
    if !is_valid_remote_repo(remote_repo) {
        return String::new();
    }
    let sr: &str = remote_repo.as_str();
    let n: usize = sr.unicode_len();
    let trimmed: String = if n > 0 && sr.get_char(n - 1) == slash_type {
        sr.substring_char(0, n - 1).to_owned()
    } else {
        remote_repo.clone()
    };
    if !str_contains_char(trimmed.as_str(), slash_type) {
        return String::new();
    }
    let after = get_string_after_last_slash(trimmed, slash_type);
    get_string_before_first_dot(after)
}

/// The separator tried when the native one yields nothing.
pub open spec fn other_sep_spec(sep: char) -> char {
    if sep == '/' {
        '\\'
    } else {
        '/'
    }
}

/// The inferred project name: the native separator's result when it is
/// non-empty, otherwise the other separator's result when that one is
/// non-empty, otherwise nothing.
pub open spec fn inferred_repo_name_spec(s: Seq<char>, native_sep: char) -> Option<Seq<char>> {
    let native = repo_name_with_sep_spec(s, native_sep);
    let fallback = repo_name_with_sep_spec(s, other_sep_spec(native_sep));
    if native.len() > 0 {
        Some(native)
    } else if fallback.len() > 0 {
        Some(fallback)
    } else {
        None
    }
}

/// Infers the project name, trying `native_sep` first and falling back to
/// the other separator; `None` is the fatal case the caller must report.
pub fn try_get_repo_name_with_separator(remote_repo: String, native_sep: char) -> (r: Option<
    String,
>)
    ensures
        r.deep_view() == inferred_repo_name_spec(remote_repo@, native_sep),
{
    let next_sep: char = if native_sep == '/' {
        '\\'
    } else {
        '/'
    };
    let mut repo_name: String = try_get_repo_name_with_slash_type(&remote_repo, native_sep);
    if repo_name.as_str().is_empty() {
        repo_name = try_get_repo_name_with_slash_type(&remote_repo, next_sep);
    }
    if repo_name.as_str().is_empty() {
        None
    } else {
        Some(repo_name)
    }
}

/// Infers the project name with the platform's native separator first.
pub fn try_get_repo_name_from_remote_repo(remote_repo: String) -> (r: Option<String>)
    ensures
        r.deep_view() == inferred_repo_name_spec(remote_repo@, NATIVE_PATH_SEPARATOR),
{
    try_get_repo_name_with_separator(remote_repo, NATIVE_PATH_SEPARATOR)
}

/// A locator that no accepted prefix classifies yields no name under any
/// separator, so inference reports the fatal case.
pub proof fn lemma_unrecognized_locator_is_fatal(s: Seq<char>, native_sep: char)
    requires
        !valid_remote_spec(s),
    ensures
        inferred_repo_name_spec(s, native_sep) is None,
{
}

/// When the native separator yields nothing but the other one yields a
/// name, inference still succeeds, with the other separator's name.
pub proof fn lemma_alternate_separator_fallback(s: Seq<char>, native_sep: char)
    requires
        repo_name_with_sep_spec(s, native_sep).len() == 0,
        repo_name_with_sep_spec(s, other_sep_spec(native_sep)).len() > 0,
    ensures
        inferred_repo_name_spec(s, native_sep) == Some(
            repo_name_with_sep_spec(s, other_sep_spec(native_sep)),
        ),
{
}

} // verus!
