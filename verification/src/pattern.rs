//! Patterns that asset names are matched against.
//!
//! The patterns are regular expressions in the syntax of the `regex` crate,
//! and that crate does the matching. What it answers is taken on trust and
//! enters the contracts of this library under two names, `regex_accepts` and
//! `regex_finds`.

use vstd::prelude::*;

verus! {

/// Whether `regex::Regex::new` returns an expression for `pattern`, rather
/// than an error.
pub uninterp spec fn regex_accepts(pattern: Seq<char>) -> bool;

/// Whether `regex::Regex::find`, called on the expression that `pattern`
/// compiles to, finds a match anywhere in `haystack`.
pub uninterp spec fn regex_finds(pattern: Seq<char>, haystack: Seq<char>) -> bool;

/// Calls `regex::Regex::new` and says whether it returned an expression.
///
/// Trusted: the answer depends on the pattern alone.
#[verifier::external_body]
fn regex_new_is_ok(pattern: &str) -> (accepted: bool)
    ensures
        accepted == regex_accepts(pattern@),
{
    regex::Regex::new(pattern).is_ok()
}

/// Calls `regex::Regex::find` on the expression that `regex::Regex::new`
/// returns for `pattern`, and says whether it found a match; nothing where
/// the pattern is not accepted.
///
/// Trusted: the answer depends on the pattern and the haystack alone.
#[verifier::external_body]
fn regex_find(pattern: &str, haystack: &str) -> (found: Option<bool>)
    ensures
        found is Some <==> regex_accepts(pattern@),
        found matches Some(hit) ==> hit == regex_finds(pattern@, haystack@),
{
    match regex::Regex::new(pattern) {
        Ok(expression) => Some(expression.find(haystack).is_some()),
        Err(_) => None,
    }
}

/// A pattern that is known to compile.
///
/// The text of the pattern is kept, not the compiled expression: what the
/// `regex` crate answers is stated over the text, so each question compiles
/// the text again. The lists that are searched here are short.
#[derive(Debug)]
pub struct AssetPattern {
    source: String,
}

impl View for AssetPattern {
    type V = Seq<char>;

    /// The text of the pattern.
    closed spec fn view(&self) -> Seq<char> {
        self.source@
    }
}

impl AssetPattern {
    #[verifier::type_invariant]
    spec fn compiles(&self) -> bool {
        regex_accepts(self.source@)
    }

    /// The pattern with the text `source`, where that text is accepted as a
    /// regular expression, and nothing where it is not.
    pub fn new(source: &str) -> (pattern: Option<AssetPattern>)
        ensures
            pattern is Some <==> regex_accepts(source@),
            pattern matches Some(p) ==> p@ == source@,
    {
        if regex_new_is_ok(source) {
            Some(AssetPattern { source: String::from_str(source) })
        } else {
            None
        }
    }

    /// The text of the pattern.
    pub fn as_str(&self) -> (source: &str)
        ensures
            source@ == self@,
    {
        self.source.as_str()
    }

    /// Whether the pattern matches anywhere in `haystack`.
    pub fn finds(&self, haystack: &str) -> (hit: bool)
        ensures
            hit == regex_finds(self@, haystack@),
    {
        proof {
            use_type_invariant(self);
        }
        match regex_find(self.source.as_str(), haystack) {
            Some(hit) => hit,
            None => {
                assert(false);
                false
            },
        }
    }
}

impl Clone for AssetPattern {
    fn clone(&self) -> (copy: AssetPattern)
        ensures
            copy@ == self@,
    {
        proof {
            use_type_invariant(self);
        }
        AssetPattern { source: self.source.clone() }
    }
}

} // verus!
