//! Paths below the installation root, and the free-space rule.

use vstd::prelude::*;
use vstd::string::{StrSliceExecFns, StringExecFns};

verus! {

/// Whether `c` separates the components of a path on any supported platform.
pub open spec fn is_separator(c: char) -> bool {
    c == '/' || c == '\\'
}

/// Whether `path` ends in a path separator.
pub open spec fn ends_with_separator(path: Seq<char>) -> bool {
    path.len() > 0 && is_separator(path.last())
}

/// `path` without its last character where that is a separator. At most one
/// separator is taken off.
pub open spec fn without_trailing_separator(path: Seq<char>) -> Seq<char> {
    if ends_with_separator(path) {
        path.drop_last()
    } else {
        path
    }
}

/// The path of `tail` below `base`, where `tail` begins with its own
/// separator: `base` loses a trailing separator, then `tail` follows.
pub open spec fn joined_path(base: Seq<char>, tail: Seq<char>) -> Seq<char> {
    without_trailing_separator(base) + tail
}

/// `path` ending in a backslash: one is added unless it ends in one.
pub open spec fn ending_in_backslash(path: Seq<char>) -> Seq<char> {
    if path.len() > 0 && path.last() == '\\' {
        path
    } else {
        path.push('\\')
    }
}

/// Whether `available` bytes satisfy a demand of `required` bytes.
pub open spec fn enough_space(available: u64, required: u64) -> bool {
    required <= available
}

/// Tells whether `path` ends in a path separator.
pub fn has_trailing_separator(path: &str) -> (ends: bool)
    ensures
        ends == ends_with_separator(path@),
{
    let length = path.unicode_len();
    if length == 0 {
        return false;
    }
    let last = path.get_char(length - 1);
    last == '/' || last == '\\'
}

/// Takes one trailing separator off `path`, if it has one.
pub fn strip_trailing_separator(path: &str) -> (stripped: &str)
    ensures
        stripped@ == without_trailing_separator(path@),
{
    if has_trailing_separator(path) {
        let length = path.unicode_len();
        let stripped = path.substring_char(0, length - 1);
        assert(stripped@ =~= path@.drop_last());
        stripped
    } else {
        path
    }
}

/// Makes `path` end in a backslash, as the paths of directories on Windows
/// are written.
pub fn with_trailing_backslash(path: &str) -> (ended: String)
    ensures
        ended@ == ending_in_backslash(path@),
{
    let mut ended = path.to_owned();
    let length = path.unicode_len();
    if length == 0 || path.get_char(length - 1) != '\\' {
        proof {
            reveal_strlit("\\");
        }
        ended.append("\\");
        assert(ended@ =~= path@.push('\\'));
    }
    ended
}

/// Joins `tail`, which begins with its own separator, to `base`.
pub fn join_path(base: &str, tail: &str) -> (path: String)
    ensures
        path@ == joined_path(base@, tail@),
{
    let mut path = strip_trailing_separator(base).to_owned();
    path.append(tail);
    path
}

/// The free-space rule: a demand of `required` bytes is met where at least
/// that many are `available`. A demand that is not met is a warning to the
/// workflows, never a reason to stop.
pub fn has_free_space(available: u64, required: u64) -> (enough: bool)
    ensures
        enough == enough_space(available, required),
{
    required <= available
}

} // verus!
