//! The search engine's tie to the `regex` crate: pattern compilation and the
//! decomposition of a line into (prefix, matched, suffix) triples, one per
//! non-overlapping match occurrence, found left to right.

use vstd::prelude::*;

verus! {

#[verifier::external_type_specification]
#[verifier::external_body]
pub struct ExRegex(regex::Regex);

/// Whether `regex::Regex::new` accepts the pattern. Acceptance depends on
/// the pattern alone: a pattern is refused exactly when it is syntactically
/// invalid or would compile beyond the crate's default size limit.
pub uninterp spec fn pattern_accepted(pattern: Seq<char>) -> bool;

/// The (prefix, matched, suffix) decompositions of `text` against `pattern`:
/// one triple per match that `regex::Regex::find_iter` yields, in order. The
/// matches are non-overlapping, found left to right, case-sensitive, and
/// depend on pattern and text alone. Empty when nothing matches.
pub uninterp spec fn match_triples(pattern: Seq<char>, text: Seq<char>) -> Seq<
    (Seq<char>, Seq<char>, Seq<char>),
>;

/// The views of a vector of string triples, in order.
pub open spec fn triple_views(ts: Seq<(String, String, String)>) -> Seq<
    (Seq<char>, Seq<char>, Seq<char>),
> {
    ts.map_values(|t: (String, String, String)| (t.0@, t.1@, t.2@))
}

/// A compiled matcher, carrying the pattern it was compiled from.
pub(crate) struct Matcher {
    re: regex::Regex,
    pat: String,
}

impl Matcher {
    /// The pattern this matcher was compiled from.
    pub(crate) closed spec fn pattern(self) -> Seq<char> {
        self.pat@
    }

    /// Relies on `regex::Regex::new`: compiles the pattern, and fails exactly
    /// on a pattern the crate does not accept.
    #[verifier::external_body]
    pub(crate) fn new(pattern: &str) -> (r: Option<Matcher>)
        ensures
            r is Some <==> pattern_accepted(pattern@),
            r matches Some(m) ==> m.pattern() == pattern@,
    {
        match regex::Regex::new(pattern) {
            Ok(re) => Some(Matcher { re, pat: pattern.to_string() }),
            Err(_) => None,
        }
    }

    /// Relies on `regex::Regex::find_iter`: yields the successive
    /// non-overlapping matches in the line, left to right, each given by its
    /// byte offsets, which delimit the matched substring. Each match is
    /// returned as the text before it, the matched text, and the text after
    /// it.
    #[verifier::external_body]
    pub(crate) fn find_triples(&self, line: &str) -> (r: Vec<(String, String, String)>)
        ensures
            triple_views(r@) == match_triples(self.pattern(), line@),
            forall|i: int|
                0 <= i < r@.len() ==> (#[trigger] r@[i]).0@ + r@[i].1@ + r@[i].2@ == line@,
    {
        self.re.find_iter(line).map(
            |m| (line[..m.start()].to_string(), m.as_str().to_string(), line[m.end()..].to_string()),
        ).collect()
    }
}

} // verus!
