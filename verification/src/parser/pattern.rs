use vstd::prelude::*;

verus! {

/// `regex::Regex`, a compiled pattern; nothing inside it is read here.
#[verifier::external_type_specification]
#[verifier::external_body]
pub struct ExRegex(regex::Regex);

/// `regex::Error`, why a pattern did not compile; it is only handed on.
#[verifier::external_type_specification]
#[verifier::external_body]
pub struct ExRegexError(regex::Error);

/// One match of a pattern in a text: the text that stands before the match,
/// and what each group of the pattern matched. Group 0 is the whole match.
#[derive(Debug, Clone, PartialEq)]
pub struct Capture {
    pub before: String,
    pub groups: Vec<Option<String>>,
}

/// What a `Capture` holds, as mathematical values.
pub struct CaptureModel {
    pub before: Seq<char>,
    pub groups: Seq<Option<Seq<char>>>,
}

impl DeepView for Capture {
    type V = CaptureModel;

    open spec fn deep_view(&self) -> CaptureModel {
        CaptureModel { before: self.before@, groups: self.groups.deep_view() }
    }
}

impl View for Capture {
    type V = CaptureModel;

    open spec fn view(&self) -> CaptureModel {
        self.deep_view()
    }
}

/// Whether `regex::Regex::new` accepts this pattern.
pub uninterp spec fn regex_compiles(pattern: Seq<char>) -> bool;

/// What a compiled regex was made from: its pattern together with the
/// options of its making. `regex::Regex::new`, the only maker that this
/// library calls, knows no options but the defaults, so that for its regexes
/// this is the text of the pattern (`regex::Regex::as_str`).
pub uninterp spec fn regex_source(re: regex::Regex) -> Seq<char>;

/// The matches that `regex::Regex::captures_iter` yields for a regex made
/// from `pattern` on `haystack`, from left to right.
pub uninterp spec fn regex_captures(pattern: Seq<char>, haystack: Seq<char>) -> Seq<CaptureModel>;

/// Calls `regex::Regex::new`. The contract claims that whether a pattern
/// compiles depends on the pattern alone, and that the regex that comes back
/// was made from this pattern.
#[verifier::external_body]
pub(crate) fn compile(pattern: &str) -> (r: Result<regex::Regex, regex::Error>)
    ensures
        r is Ok <==> regex_compiles(pattern@),
        r matches Ok(re) ==> regex_source(re) == pattern@,
{
    regex::Regex::new(pattern)
}

/// Calls `regex::Regex::captures_iter` and hands out each match as text:
/// the part of `haystack` before the match, and the text of every group
/// (`regex::Captures::iter`, which starts with the whole match). The contract
/// claims that the matches depend on the haystack and on what the regex was
/// made from, pattern and options, alone.
#[verifier::external_body]
pub(crate) fn captures_in(re: &regex::Regex, haystack: &str) -> (found: Vec<Capture>)
    ensures
        found.deep_view() == regex_captures(regex_source(*re), haystack@),
{
    re.captures_iter(haystack)
        .map(|c| Capture {
            before: haystack[..c.get(0).map_or(0, |m| m.start())].to_string(),
            groups: c.iter().map(|g| g.map(|m| m.as_str().to_string())).collect(),
        })
        .collect()
}

} // verus!
