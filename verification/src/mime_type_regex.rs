//! The mime type regex: a pattern compiled by fancy_regex, kept with its text.

use vstd::prelude::*;

verus! {

#[verifier::external_type_specification]
#[verifier::external_body]
pub struct ExRegex(fancy_regex::Regex);

#[verifier::external_type_specification]
#[verifier::external_body]
pub struct ExRegexError(fancy_regex::Error);

/// Whether `fancy_regex::Regex::new` accepts the pattern `pattern`.
pub uninterp spec fn fancy_regex_compiles(pattern: Seq<char>) -> bool;

/// A compiled mime type regex together with the pattern it was compiled from.
///
/// Its fields are private to this module, and `compile_regex` is the only code that
/// builds one: the regex and the pattern kept beside it always come from the same
/// call of `fancy_regex::Regex::new`.
#[derive(Debug, Clone)]
pub struct MimeTypeRegex {
    regex: fancy_regex::Regex,
    pattern: String,
}

impl View for MimeTypeRegex {
    type V = Seq<char>;

    /// The pattern the regex was compiled from.
    closed spec fn view(&self) -> Seq<char> {
        self.pattern@
    }
}

impl MimeTypeRegex {
    /// The pattern the regex was compiled from.
    pub fn as_str(&self) -> (s: &str)
        ensures
            s@ == self@,
    {
        self.pattern.as_str()
    }

    /// The compiled regex.
    pub fn regex(&self) -> &fancy_regex::Regex {
        &self.regex
    }
}

/// `Clone` of `fancy_regex::Regex`, which is derived and clones the compiled program.
/// Nothing is claimed of the copy.
pub assume_specification[ <fancy_regex::Regex as Clone>::clone ](regex: &fancy_regex::Regex) -> fancy_regex::Regex;

/// Calls `fancy_regex::Regex::new`, which parses and compiles the pattern with the
/// default options, and keeps the pattern beside the compiled regex. Claimed: it
/// succeeds exactly on the patterns that it accepts, which depends on the pattern
/// alone, and the kept pattern is the one compiled. Left unsaid: what the compiled
/// regex matches, and which error comes back.
#[verifier::external_body]
pub(crate) fn compile_regex(pattern: &str) -> (r: Result<MimeTypeRegex, fancy_regex::Error>)
    ensures
        r is Ok <==> fancy_regex_compiles(pattern@),
        r matches Ok(m) ==> m@ == pattern@,
{
    match fancy_regex::Regex::new(pattern) {
        Ok(regex) => Ok(MimeTypeRegex { regex, pattern: pattern.to_string() }),
        Err(e) => Err(e),
    }
}

} // verus!
