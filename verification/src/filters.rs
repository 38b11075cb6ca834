//! Suppression filters: compiled patterns that exclude files or namespaces
//! from reporting.

use vstd::prelude::*;

verus! {

#[verifier::external_type_specification]
#[verifier::external_body]
pub struct ExRegex(regex::Regex);

/// Whether `pattern`, read as a regular expression, is found anywhere in
/// `text` (an unanchored search).  The result is a function of the pattern
/// and the text alone.
pub uninterp spec fn regex_found_in(pattern: Seq<char>, text: Seq<char>) -> bool;

/// A compiled, reusable pattern matcher.  The `pattern` field records the
/// exact text the matcher was compiled from; the fields are private, so every
/// value of this type comes from [`CompiledRegex::compile`].
pub struct CompiledRegex {
    regex: regex::Regex,
    pattern: String,
}

impl View for CompiledRegex {
    type V = Seq<char>;

    closed spec fn view(&self) -> Seq<char> {
        self.pattern@
    }
}

impl CompiledRegex {
    /// Relies on `regex::Regex::new`: it compiles exactly the pattern text it
    /// is given, and returns an error on a pattern that is not a valid
    /// regular expression.
    #[verifier::external_body]
    pub fn compile(pattern: &str) -> (r: Option<CompiledRegex>)
        ensures
            r matches Some(c) ==> c@ == pattern@,
    {
        regex::Regex::new(pattern).ok().map(
            |regex| CompiledRegex { regex, pattern: pattern.to_owned() },
        )
    }

    /// Relies on `regex::Regex::is_match`: true exactly when the compiled
    /// pattern is found anywhere in `text`; a pure function of the pattern
    /// and the text.
    #[verifier::external_body]
    pub fn is_found_in(&self, text: &str) -> (r: bool)
        ensures
            r == regex_found_in(self@, text@),
    {
        self.regex.is_match(text)
    }
}

/// A suppression predicate a caller hands to a check.  Each check interprets
/// the filters against its own data: the current file's path and declared
/// namespaces for a syntax-tree check, each historically changed file's path
/// for a history check.
pub enum CheckFilter {
    /// Suppress every finding when the file path matches.
    IgnoreByFilePathRegex(CompiledRegex),
    /// Suppress every finding when a declared namespace matches.
    IgnoreByNameSpaceRegex(CompiledRegex),
}

} // verus!
