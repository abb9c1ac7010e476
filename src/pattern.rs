//! Topic patterns: regular expressions compiled at subscribe time and
//! matched against topics anywhere in the text (unanchored).
use vstd::prelude::*;

verus! {

#[verifier::external_type_specification]
#[verifier::external_body]
pub struct ExRegex(regex::Regex);

/// Whether `regex::Regex::new` accepts the pattern text.
pub uninterp spec fn regex_accepts(pattern: Seq<char>) -> bool;

/// Whether the regular expression `pattern` matches somewhere in `haystack`.
pub uninterp spec fn regex_finds(pattern: Seq<char>, haystack: Seq<char>) -> bool;

/// Relies on regex::Regex::new: whether a pattern compiles depends on its
/// text alone; the error is turned into its message.
#[verifier::external_body]
fn compile(source: &str) -> (r: Result<regex::Regex, String>)
    ensures
        r is Ok <==> regex_accepts(source@),
{
    regex::Regex::new(source).map_err(|e| e.to_string())
}

/// The reason a pattern was refused.
#[derive(Debug)]
pub struct PatternError {
    pub message: String,
}

/// A compiled topic pattern together with the text it was compiled from.
pub struct Pattern {
    source: String,
    compiled: regex::Regex,
}

impl View for Pattern {
    type V = Seq<char>;

    closed spec fn view(&self) -> Seq<char> {
        self.source@
    }
}

impl Pattern {
    /// Compiles `source`; fails exactly when the regular expression is invalid.
    pub fn new(source: &str) -> (r: Result<Pattern, PatternError>)
        ensures
            r is Ok <==> regex_accepts(source@),
            r matches Ok(p) ==> p@ == source@,
    {
        match compile(source) {
            Ok(compiled) => Ok(Pattern { source: source.to_owned(), compiled }),
            Err(message) => Err(PatternError { message }),
        }
    }

    /// The text this pattern was compiled from.
    pub fn as_str(&self) -> (r: &str)
        ensures
            r@ == self@,
    {
        self.source.as_str()
    }

    /// Relies on regex::Regex::is_match: an unanchored search of the pattern
    /// (compiled from `self.source` in `Pattern::new`, the only constructor)
    /// in `topic`.
    #[verifier::external_body]
    pub(crate) fn is_match(&self, topic: &str) -> (r: bool)
        ensures
            r == regex_finds(self@, topic@),
    {
        self.compiled.is_match(topic)
    }
}

} // verus!
