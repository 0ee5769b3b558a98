//! Where the configuration lives, and paths that begin with a tilde.
//!
//! A path is a text whose components are separated by `/`. Between two
//! components any number of separators may stand, and a component that is
//! a single dot stands for nothing: both are passed over where a path is
//! cut or compared. Nothing here looks at the file system or at the
//! environment: the home directory is handed in.

use vstd::prelude::*;
use crate::text::chars_of;

verus! {

/// Whether `path` has, at `at`, a separator or a component that is a
/// single dot.
pub open spec fn is_passed_over(path: Seq<char>, at: int) -> bool {
    path[at] == '/' || (path[at] == '.' && (at + 1 == path.len() || path[at + 1] == '/'))
}

/// Whether `path` has, just before `to`, a separator or a component that
/// is a single dot, where a component begins at `start`.
pub open spec fn is_passed_over_before(path: Seq<char>, start: int, to: int) -> bool {
    path[to - 1] == '/' || (path[to - 1] == '.' && (to - 1 == start || path[to - 2] == '/'))
}

/// The position at or after `from` where the next component of `path`
/// begins that is neither empty nor a single dot; the length of `path`
/// where there is none. `from` is the beginning of `path` or follows the
/// end of a component.
pub open spec fn skip_empty(path: Seq<char>, from: int) -> int
    decreases path.len() - from,
{
    if from < 0 || from >= path.len() {
        path.len() as int
    } else if is_passed_over(path, from) {
        skip_empty(path, from + 1)
    } else {
        from
    }
}

/// The position, between `start` and `to`, where the last component of
/// `path` before `to` ends that is neither empty nor a single dot; `start`
/// where there is none. A component begins at `start`.
pub open spec fn trim_end(path: Seq<char>, start: int, to: int) -> int
    decreases to - start,
{
    if to <= start || to > path.len() {
        start
    } else if is_passed_over_before(path, start, to) {
        trim_end(path, start, to - 1)
    } else {
        to
    }
}

/// Whether the first component of `path` is a tilde.
pub open spec fn begins_with_tilde(path: Seq<char>) -> bool {
    path.len() > 0 && path[0] == '~' && (path.len() == 1 || path[1] == '/')
}

/// What follows the first component of `path`, from the beginning of its
/// next component to the end of its last one. Empty where the first
/// component is all there is.
pub open spec fn after_first(path: Seq<char>) -> Seq<char> {
    let start = skip_empty(path, 1);
    path.subrange(start, trim_end(path, start, path.len() as int))
}

/// Whether `path` is the root directory and nothing more.
pub open spec fn is_root(path: Seq<char>) -> bool {
    path.len() > 0 && path[0] == '/' && skip_empty(path, 1) == path.len()
}

/// `rest` below the directory `base`: a separator is put between the two
/// unless `base` is empty or ends with one. A `rest` that begins with a
/// separator starts at the root and stands alone.
pub open spec fn joined(base: Seq<char>, rest: Seq<char>) -> Seq<char> {
    if rest.len() > 0 && rest[0] == '/' {
        rest
    } else if base.len() > 0 && base.last() != '/' {
        base + seq!['/'] + rest
    } else {
        base + rest
    }
}

/// `path` with a leading tilde replaced by the home directory.
///
/// A path whose first component is no tilde stays as it is. Otherwise
/// there is no answer without a home directory; a tilde alone is the home
/// directory; and what follows the tilde is put below the home directory,
/// or stands alone where the home directory is the root.
pub open spec fn expanded(path: Seq<char>, home: Option<Seq<char>>) -> Option<Seq<char>> {
    if !begins_with_tilde(path) {
        Some(path)
    } else {
        match home {
            None => None,
            Some(home) => if after_first(path).len() == 0 {
                Some(home)
            } else if is_root(home) {
                Some(after_first(path))
            } else {
                Some(joined(home, after_first(path)))
            },
        }
    }
}

/// The directory that holds the configuration: the application's own
/// directory below the platform's configuration directory, or, without
/// one, a hidden directory below the home directory.
pub open spec fn config_dir_of(platform: Option<Seq<char>>, home: Option<Seq<char>>) -> Option<Seq<char>> {
    match platform {
        Some(base) => Some(joined(base, "github-update"@)),
        None => match home {
            Some(home) => Some(joined(home, ".github-update"@)),
            None => None,
        },
    }
}

/// `text` is the text `of`, if there is one, and nothing if there is none.
pub open spec fn is_text(text: Option<String>, of: Option<Seq<char>>) -> bool {
    match of {
        Some(chars) => text matches Some(t) && t@ == chars,
        None => text is None,
    }
}

/// The text of `text`, if there is one.
pub open spec fn text_of(text: Option<&str>) -> Option<Seq<char>> {
    match text {
        Some(t) => Some(t@),
        None => None,
    }
}

/// Where `skip_empty` stops there is the beginning of a component that is
/// neither empty nor a single dot, or the end of the path.
pub proof fn lemma_skip_empty_stops(path: Seq<char>, from: int)
    requires
        0 <= from <= path.len(),
    ensures
        from <= skip_empty(path, from) <= path.len(),
        skip_empty(path, from) < path.len() ==> !is_passed_over(path, skip_empty(path, from)),
    decreases path.len() - from,
{
    if from < path.len() && is_passed_over(path, from) {
        lemma_skip_empty_stops(path, from + 1);
    }
}

/// Where `trim_end` stops there is the end of a component that is neither
/// empty nor a single dot, or the position it began from.
pub proof fn lemma_trim_end_stops(path: Seq<char>, start: int, to: int)
    requires
        0 <= start <= to <= path.len(),
    ensures
        start <= trim_end(path, start, to) <= to,
        trim_end(path, start, to) > start ==> !is_passed_over_before(path, start, trim_end(path, start, to)),
    decreases to - start,
{
    if to > start && is_passed_over_before(path, start, to) {
        lemma_trim_end_stops(path, start, to - 1);
    }
}

/// What follows the first component neither begins nor ends with a
/// separator.
pub proof fn lemma_after_first_is_trimmed(path: Seq<char>)
    requires
        after_first(path).len() > 0,
    ensures
        after_first(path).first() != '/',
        after_first(path).last() != '/',
{
    if path.len() >= 1 {
        let start = skip_empty(path, 1);
        lemma_skip_empty_stops(path, 1);
        lemma_trim_end_stops(path, start, path.len() as int);
    }
}

/// What follows a tilde always ends up below the home directory, with
/// exactly one separator between the two, unless the home directory is the
/// root or empty.
pub proof fn lemma_expanded_below_home(path: Seq<char>, home: Seq<char>)
    requires
        begins_with_tilde(path),
        after_first(path).len() > 0,
        home.len() > 0,
        !is_root(home),
    ensures
        expanded(path, Some(home)) == Some(
            if home.last() == '/' {
                home + after_first(path)
            } else {
                home + seq!['/'] + after_first(path)
            },
        ),
{
    lemma_after_first_is_trimmed(path);
}

fn passed_over(path: &Vec<char>, at: usize) -> (passed: bool)
    requires
        at < path.len(),
    ensures
        passed == is_passed_over(path@, at as int),
{
    path[at] == '/' || (path[at] == '.' && (at + 1 == path.len() || path[at + 1] == '/'))
}

fn passed_over_before(path: &Vec<char>, start: usize, to: usize) -> (passed: bool)
    requires
        start < to <= path.len(),
    ensures
        passed == is_passed_over_before(path@, start as int, to as int),
{
    path[to - 1] == '/' || (path[to - 1] == '.' && (to - 1 == start || path[to - 2] == '/'))
}

fn skip_from(path: &Vec<char>, from: usize) -> (start: usize)
    requires
        from <= path.len(),
    ensures
        start == skip_empty(path@, from as int),
        from <= start <= path.len(),
{
    let mut start: usize = from;
    while start < path.len() && passed_over(path, start)
        invariant
            from <= start <= path.len(),
            skip_empty(path@, start as int) == skip_empty(path@, from as int),
        decreases path.len() - start,
    {
        start += 1;
    }
    start
}

fn trim_to(path: &Vec<char>, start: usize) -> (end: usize)
    requires
        start <= path.len(),
    ensures
        end == trim_end(path@, start as int, path.len() as int),
        start <= end <= path.len(),
{
    let mut end: usize = path.len();
    while end > start && passed_over_before(path, start, end)
        invariant
            start <= end <= path.len(),
            trim_end(path@, start as int, end as int) == trim_end(path@, start as int, path.len() as int),
        decreases end - start,
    {
        end -= 1;
    }
    end
}

/// `rest` below the directory `base`.
pub fn join(base: &str, rest: &str) -> (path: String)
    ensures
        path@ == joined(base@, rest@),
{
    let chars = chars_of(base);
    let rest_chars = chars_of(rest);
    proof {
        reveal_strlit("/");
        assert("/"@ =~= seq!['/']);
    }
    if rest_chars.len() > 0 && rest_chars[0] == '/' {
        String::from_str(rest)
    } else if chars.len() > 0 && chars[chars.len() - 1] != '/' {
        String::from_str(base).concat("/").concat(rest)
    } else {
        String::from_str(base).concat(rest)
    }
}

/// `path` with a leading tilde replaced by the home directory `home`.
pub fn expand_tilde(path: &str, home: Option<&str>) -> (full: Option<String>)
    ensures
        is_text(full, expanded(path@, text_of(home))),
{
    let chars = chars_of(path);
    if !(chars.len() > 0 && chars[0] == '~' && (chars.len() == 1 || chars[1] == '/')) {
        return Some(String::from_str(path));
    }
    match home {
        None => None,
        Some(home) => {
            let start = skip_from(&chars, 1);
            let end = trim_to(&chars, start);
            if start == end {
                Some(String::from_str(home))
            } else {
                let rest = path.substring_char(start, end);
                let home_chars = chars_of(home);
                if home_chars.len() > 0 && home_chars[0] == '/' && skip_from(&home_chars, 1) == home_chars.len() {
                    Some(String::from_str(rest))
                } else {
                    Some(join(home, rest))
                }
            }
        },
    }
}

/// The directory that holds the configuration, from the platform's
/// configuration directory and the home directory, as far as either is
/// known.
pub fn config_dir(platform: Option<&str>, home: Option<&str>) -> (dir: Option<String>)
    ensures
        is_text(dir, config_dir_of(text_of(platform), text_of(home))),
{
    match platform {
        Some(base) => Some(join(base, "github-update")),
        None => match home {
            Some(home) => Some(join(home, ".github-update")),
            None => None,
        },
    }
}

/// The configuration file in the directory `dir`.
pub fn config_file(dir: &str) -> (file: String)
    ensures
        file@ == joined(dir@, "config.toml"@),
{
    join(dir, "config.toml")
}

} // verus!
