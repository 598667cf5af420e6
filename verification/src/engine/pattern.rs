//! Compiled check patterns, backed by the `regex` crate.
use vstd::prelude::*;

verus! {

#[verifier::external_type_specification]
#[verifier::external_body]
pub struct ExRegex(regex::Regex);

/// Name for whether `regex::Regex::new` accepts a pattern.
pub uninterp spec fn regex_compiles(pattern: Seq<char>) -> bool;

/// Name for the message of the error that `regex::Regex::new` reports.
pub uninterp spec fn regex_error_text(pattern: Seq<char>) -> Seq<char>;

/// Name for what `regex::Regex::is_match` answers.
pub uninterp spec fn regex_is_match(pattern: Seq<char>, text: Seq<char>) -> bool;

/// Name for what `regex::Regex::captures` returns, each group taken as its
/// matched text (`None` for a group that did not take part in the match).
pub uninterp spec fn regex_captures(pattern: Seq<char>, text: Seq<char>) -> Option<
    Seq<Option<Seq<char>>>,
>;

/// A compiled regular expression together with its source text.
///
/// Values are only made by [`Pattern::new`], so `compiled` is always the
/// compilation of `source`.
#[derive(Debug)]
pub struct Pattern {
    source: String,
    compiled: regex::Regex,
}

/// `Clone` for `regex::Regex`: an equivalent compiled regex (the value is
/// opaque here, so nothing more is claimed).
pub assume_specification[ <regex::Regex as std::clone::Clone>::clone ](r: &regex::Regex) -> regex::Regex;

impl Clone for Pattern {
    fn clone(&self) -> (r: Self)
        ensures
            r@ == self@,
    {
        Pattern { source: self.source.clone(), compiled: self.compiled.clone() }
    }
}

impl View for Pattern {
    type V = Seq<char>;

    closed spec fn view(&self) -> Seq<char> {
        self.source@
    }
}

/// `regex::Regex::new`: compiles `src`; on failure, the error's message.
/// Claims that it succeeds exactly on the patterns named by
/// `regex_compiles`, and that the result remembers its source text.
#[verifier::external_body]
fn compile(src: &str) -> (r: Result<Pattern, String>)
    ensures
        r is Ok <==> regex_compiles(src@),
        r matches Ok(p) ==> p@ == src@,
        r matches Err(m) ==> m@ == regex_error_text(src@),
{
    match regex::Regex::new(src) {
        Ok(compiled) => Ok(Pattern { source: src.to_string(), compiled }),
        Err(e) => Err(e.to_string()),
    }
}

/// `regex::Regex::is_match` on the compiled pattern.
#[verifier::external_body]
fn is_match_compiled(p: &Pattern, text: &str) -> (r: bool)
    ensures
        r == regex_is_match(p@, text@),
{
    p.compiled.is_match(text)
}

/// `regex::Regex::captures` on the compiled pattern, each group converted
/// to its matched text. Claims, as the crate documents, that there are
/// captures exactly when the pattern matches.
#[verifier::external_body]
fn captures_compiled(p: &Pattern, text: &str) -> (r: Option<Vec<Option<String>>>)
    ensures
        r is Some <==> regex_is_match(p@, text@),
        r is Some <==> regex_captures(p@, text@) is Some,
        r matches Some(groups) ==> regex_captures(p@, text@) matches Some(g) && g.len()
            == groups@.len() && forall|k: int|
            0 <= k < g.len() ==> match (#[trigger] groups@[k], g[k]) {
                (Some(a), Some(b)) => a@ == b,
                (None, None) => true,
                _ => false,
            },
{
    p.compiled.captures(text).map(
        |c| c.iter().map(|m| m.map(|m| m.as_str().to_string())).collect(),
    )
}

impl Pattern {
    /// Compiles a pattern; `Err` carries the compiler's message.
    pub fn new(src: &str) -> (r: Result<Pattern, String>)
        ensures
            r is Ok <==> regex_compiles(src@),
            r matches Ok(p) ==> p@ == src@,
            r matches Err(m) ==> m@ == regex_error_text(src@),
    {
        compile(src)
    }

    /// The source text of the pattern.
    pub fn as_str(&self) -> (r: &str)
        ensures
            r@ == self@,
    {
        self.source.as_str()
    }

    /// Whether the pattern matches somewhere in `text`.
    pub fn is_match(&self, text: &str) -> (r: bool)
        ensures
            r == regex_is_match(self@, text@),
    {
        is_match_compiled(self, text)
    }

    /// The groups of the first match in `text`, `None` when there is none.
    pub fn captures(&self, text: &str) -> (r: Option<Vec<Option<String>>>)
        ensures
            r is Some <==> regex_is_match(self@, text@),
            r is Some <==> regex_captures(self@, text@) is Some,
            r matches Some(groups) ==> regex_captures(self@, text@) matches Some(g) && g.len()
                == groups@.len() && forall|k: int|
                0 <= k < g.len() ==> match (#[trigger] groups@[k], g[k]) {
                    (Some(a), Some(b)) => a@ == b,
                    (None, None) => true,
                    _ => false,
                },
    {
        captures_compiled(self, text)
    }
}

} // verus!
