//! Regular expressions. The matching itself is the work of the `regex` crate;
//! this module gives its answers names, so that the contracts of the parser
//! can say exactly how each answer is used.

use vstd::prelude::*;

verus! {

/// What the leftmost-first match of `pattern` in `text` is, if there is one:
/// the character offset at which the match starts, the offset at which it
/// ends, and the text of each capture group in the order of the opening
/// parentheses, where the group took part in the match. There is no match
/// where the pattern does not compile.
pub uninterp spec fn regex_captures(pattern: Seq<char>, text: Seq<char>) -> Option<
    (int, int, Seq<Option<Seq<char>>>),
>;

/// The text in which every match of `pattern`, found from left to right
/// without overlap, is replaced by `replacement`, in which `$` followed by a
/// number or a name stands for a capture group; the text itself where the
/// pattern does not compile.
pub uninterp spec fn regex_replace_all(
    pattern: Seq<char>,
    text: Seq<char>,
    replacement: Seq<char>,
) -> Seq<char>;

/// Whether `pattern` matches somewhere in `text`.
pub open spec fn regex_matches(pattern: Seq<char>, text: Seq<char>) -> bool {
    regex_captures(pattern, text) is Some
}

/// A match cut out of its text.
pub struct Captured {
    /// The text in front of the match
    pub before: String,
    /// The text of the match
    pub matched: String,
    /// The text behind the match
    pub after: String,
    /// The text of each capture group, where it took part in the match
    pub groups: Vec<Option<String>>,
}

impl Captured {
    /// The match as offsets and group texts, within the text it was cut from.
    pub open spec fn located(&self) -> (int, int, Seq<Option<Seq<char>>>) {
        (
            self.before@.len() as int,
            (self.before@.len() + self.matched@.len()) as int,
            self.groups.deep_view(),
        )
    }

    /// The three pieces put together again.
    pub open spec fn whole(&self) -> Seq<char> {
        self.before@ + self.matched@ + self.after@
    }
}

/// Compiles `pattern` with `Regex::new` and searches `text` with
/// `Regex::captures`. The contract names the match and says that the pieces
/// handed back are the text in front of it, the match and the text behind it,
/// so that together they are the text again.
#[verifier::external_body]
pub(crate) fn captures(pattern: &str, text: &str) -> (r: Option<Captured>)
    ensures
        match r {
            Some(c) => regex_captures(pattern@, text@) == Some(c.located()) && c.whole() == text@,
            None => regex_captures(pattern@, text@) is None,
        },
{
    let re = regex::Regex::new(pattern).ok()?;
    let caps = re.captures(text)?;
    let whole = caps.get(0)?;
    Some(
        Captured {
            before: text[..whole.start()].to_string(),
            matched: whole.as_str().to_string(),
            after: text[whole.end()..].to_string(),
            groups: caps.iter().skip(1).map(|g| g.map(|m| m.as_str().to_string())).collect(),
        },
    )
}

/// Compiles `pattern` with `Regex::new` and calls `Regex::replace_all`. The
/// contract only names the result, which is a function of the three texts.
#[verifier::external_body]
pub(crate) fn replace_all(pattern: &str, text: &str, replacement: &str) -> (r: String)
    ensures
        r@ == regex_replace_all(pattern@, text@, replacement@),
{
    match regex::Regex::new(pattern) {
        Ok(re) => re.replace_all(text, replacement).into_owned(),
        Err(_) => text.to_string(),
    }
}

/// Whether `pattern` matches somewhere in `text`.
pub fn is_match(pattern: &str, text: &str) -> (r: bool)
    ensures
        r == regex_matches(pattern@, text@),
{
    captures(pattern, text).is_some()
}

} // verus!
