//! Regular-expression matching, delegated to `regex_lite`.

use vstd::prelude::*;

verus! {

/// `regex_lite::Regex`, held opaquely.
#[verifier::external_type_specification]
#[verifier::external_body]
pub struct ExRegex(regex_lite::Regex);

/// Whether `regex_lite` accepts `pattern` (parses it within its size limits).
pub uninterp spec fn regex_compiles(pattern: Seq<char>) -> bool;

/// Whether the regular expression `pattern` matches somewhere in `haystack`.
pub uninterp spec fn regex_finds(pattern: Seq<char>, haystack: Seq<char>) -> bool;

/// The text matched by the first capture group of the first match of the
/// regular expression `pattern` in `haystack`, if any.
pub uninterp spec fn regex_first_group(pattern: Seq<char>, haystack: Seq<char>) -> Option<Seq<char>>;

/// A compiled regular expression together with its source text.
pub struct CompiledPattern {
    pattern: String,
    compiled: regex_lite::Regex,
}

impl CompiledPattern {
    /// The source text of the expression.
    pub closed spec fn source(&self) -> Seq<char> {
        self.pattern@
    }
}

/// `regex_lite::Regex::new`: compiles `pattern`; `None` when it is rejected.
#[verifier::external_body]
pub(crate) fn compile_pattern(pattern: &str) -> (r: Option<CompiledPattern>)
    ensures
        r is Some <==> regex_compiles(pattern@),
        r matches Some(c) ==> c.source() == pattern@,
{
    match regex_lite::Regex::new(pattern) {
        Ok(re) => Some(CompiledPattern { pattern: pattern.to_string(), compiled: re }),
        Err(_) => None,
    }
}

impl CompiledPattern {
    /// `regex_lite::Regex::is_match`: whether the expression matches anywhere
    /// in `haystack`. The matching semantics are not restated; the result is
    /// named by [`regex_finds`].
    #[verifier::external_body]
    pub(crate) fn is_match(&self, haystack: &str) -> (b: bool)
        ensures
            b == regex_finds(self.source(), haystack@),
    {
        self.compiled.is_match(haystack)
    }
}

impl CompiledPattern {
    /// `regex_lite::Regex::captures` followed by `Captures::get(1)`: the text
    /// of the first capture group in the leftmost match.  Which text that is
    /// follows the crate's matching semantics, not restated here; the result
    /// is named by [`regex_first_group`], and there is none without a match.
    #[verifier::external_body]
    pub(crate) fn first_group(&self, haystack: &str) -> (g: Option<String>)
        ensures
            match g {
                Some(t) => regex_first_group(self.source(), haystack@) == Some(t@),
                None => regex_first_group(self.source(), haystack@) is None,
            },
            g is Some ==> regex_finds(self.source(), haystack@),
    {
        self.compiled.captures(haystack).and_then(|c| c.get(1)).map(|m| m.as_str().to_string())
    }
}

} // verus!
