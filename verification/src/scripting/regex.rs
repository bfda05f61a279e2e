//! Regular expressions for scripts: compile a pattern once, then replace
//! its matches in texts.

use vstd::prelude::*;
use vstd::string::*;

verus! {

/// The error of `regex::Regex::new`, carried through as it is.
#[verifier::external_type_specification]
#[verifier::external_body]
pub struct ExPatternError(::regex::Error);

/// Whether `regex::Regex::new` accepts `pattern`: whether it is a valid
/// pattern whose compiled form stays within the crate's default size limit.
pub uninterp spec fn compiles(pattern: Seq<char>) -> bool;

/// A compiled regular expression. Its view is the pattern it was compiled
/// from.
///
/// It holds a `regex::Regex`, which is opaque to proofs: all that is known
/// of a value is what [`source_of`] and the contracts of the calls below say
/// of it.
#[verifier::external_body]
#[derive(Debug)]
pub struct Regex {
    regex: ::regex::Regex,
}

/// The pattern that a compiled expression was made from: what
/// `regex::Regex::as_str` returns for the expression it holds.
pub uninterp spec fn source_of(compiled: Regex) -> Seq<char>;

/// What `regex::Regex::replace_all` returns for the expression compiled from
/// `pattern`: `haystack` with every non-overlapping match replaced by
/// `replacement`, in which `$name` and `$N` stand for capture groups.
pub uninterp spec fn replaced(
    pattern: Seq<char>,
    haystack: Seq<char>,
    replacement: Seq<char>,
) -> Seq<char>;

/// Calls `regex::Regex::new`. The contract claims that the call succeeds
/// exactly on the patterns that [`compiles`] names, and that the compiled
/// expression remembers the pattern it was given.
#[verifier::external_body]
fn compile(pattern: &str) -> (result: Result<Regex, ::regex::Error>)
    ensures
        result is Ok <==> compiles(pattern@),
        result matches Ok(compiled) ==> source_of(compiled) == pattern@,
{
    match ::regex::Regex::new(pattern) {
        Ok(regex) => Ok(Regex { regex }),
        Err(error) => Err(error),
    }
}

/// Formats a `regex::Error` as its `Debug` implementation writes it. Nothing
/// is claimed of the text.
#[verifier::external_body]
fn describe(error: &::regex::Error) -> (text: String) {
    format!("{:?}", error)
}

/// Calls `regex::Regex::replace_all` with a text as the replacement. The
/// contract claims that the result depends on the expression's pattern, the
/// haystack and the replacement alone, and gives it the name [`replaced`].
#[verifier::external_body]
fn replace_matches(compiled: &Regex, haystack: &str, replacement: &str) -> (out: String)
    ensures
        out@ == replaced(source_of(*compiled), haystack@, replacement@),
{
    compiled.regex.replace_all(haystack, replacement).into_owned()
}

/// A pattern did not compile.
#[derive(Clone, Debug, PartialEq, Eq)]
pub struct RegexError {
    /// What the compiler said of the pattern.
    pub detail: String,
}

impl RegexError {
    /// The message: `Failed to compile regex: `, then the detail.
    pub open spec fn message_of(self) -> Seq<char> {
        "Failed to compile regex: "@ + self.detail@
    }

    /// The message of the error.
    pub fn message(&self) -> (text: String)
        ensures
            text@ == self.message_of(),
    {
        let mut text = String::from_str("Failed to compile regex: ");
        text.append(self.detail.as_str());
        text
    }
}

impl View for Regex {
    type V = Seq<char>;

    open spec fn view(&self) -> Seq<char> {
        source_of(*self)
    }
}

impl Regex {
    /// Compiles `re`. Succeeds exactly on the patterns that compile, with an
    /// expression for `re`.
    pub fn new(re: &str) -> (result: Result<Regex, RegexError>)
        ensures
            result is Ok <==> compiles(re@),
            result matches Ok(compiled) ==> compiled@ == re@,
    {
        match compile(re) {
            Ok(compiled) => Ok(compiled),
            Err(error) => Err(RegexError { detail: describe(&error) }),
        }
    }

    /// `haystack` with every match of the expression replaced by
    /// `replacement`.
    pub fn replace_all(&self, haystack: &str, replacement: &str) -> (out: String)
        ensures
            out@ == replaced(self@, haystack@, replacement@),
    {
        replace_matches(self, haystack, replacement)
    }
}

} // verus!
