//! Regular-expression search, through the `regex` crate.

use vstd::prelude::*;
use vstd::string::*;

verus! {

/// The error of the `regex` crate: why a pattern was not accepted.
#[verifier::external_type_specification]
#[verifier::external_body]
pub struct ExRegexError(regex::Error);

/// Whether `regex::Regex::new` accepts `pattern`.
pub uninterp spec fn pattern_compiles(pattern: Seq<char>) -> bool;

/// The first match that `regex::Regex::find` reports for `pattern` in
/// `haystack`, as the offsets in characters of its start and of its end.
pub uninterp spec fn first_match(pattern: Seq<char>, haystack: Seq<char>) -> Option<(int, int)>;

/// A haystack cut in three at a match.
pub struct MatchSplit {
    pub before: String,
    pub matched: String,
    pub after: String,
}

/// Compiles `pattern` with `regex::Regex::new` and searches `haystack` with
/// `regex::Regex::find`. An error is the one that `new` returned. For a match
/// the three parts are the text before `Match::start`, the matched text
/// (`Match::as_str`) and the text from `Match::end` on: they make up the
/// haystack again, and the lengths of the first two are the offsets named by
/// `first_match`.
#[verifier::external_body]
pub(crate) fn find_first(pattern: &str, haystack: &str) -> (r: Result<
    Option<MatchSplit>,
    regex::Error,
>)
    ensures
        r is Ok <==> pattern_compiles(pattern@),
        r matches Ok(None) ==> first_match(pattern@, haystack@) is None,
        r matches Ok(Some(s)) ==> {
            &&& s.before@ + s.matched@ + s.after@ == haystack@
            &&& first_match(pattern@, haystack@) == Some(
                (s.before@.len() as int, (s.before@.len() + s.matched@.len()) as int),
            )
        },
{
    let re = regex::Regex::new(pattern)?;
    Ok(
        match re.find(haystack) {
            None => None,
            Some(m) => Some(
                MatchSplit {
                    before: haystack[..m.start()].to_string(),
                    matched: m.as_str().to_string(),
                    after: haystack[m.end()..].to_string(),
                },
            ),
        },
    )
}

/// The offsets of the first match lie inside the haystack, in order.
pub open spec fn match_in_bounds(haystack: Seq<char>, m: (int, int)) -> bool {
    0 <= m.0 <= m.1 <= haystack.len()
}

/// The part of `haystack` that the first match of `pattern` covers.
pub open spec fn matched_text(pattern: Seq<char>, haystack: Seq<char>) -> Option<Seq<char>> {
    match first_match(pattern, haystack) {
        Some(m) => if match_in_bounds(haystack, m) {
            Some(haystack.subrange(m.0, m.1))
        } else {
            None
        },
        None => None,
    }
}

/// `haystack` without the part that the first match of `pattern` covers.
pub open spec fn without_match(pattern: Seq<char>, haystack: Seq<char>) -> Seq<char> {
    match first_match(pattern, haystack) {
        Some(m) => if match_in_bounds(haystack, m) {
            haystack.subrange(0, m.0) + haystack.subrange(m.1, haystack.len() as int)
        } else {
            haystack
        },
        None => haystack,
    }
}

/// The matched text of a search, where it found a match.
pub fn text_of_match(found: Option<MatchSplit>) -> (r: Option<String>)
    ensures
        r.deep_view() == match found {
            Some(s) => Some(s.matched@),
            None => None,
        },
{
    match found {
        Some(s) => Some(s.matched),
        None => None,
    }
}

/// The haystack of a search without the text that was matched: what stood
/// before the match and what stood after it, or the whole of `haystack`
/// where nothing was found.
pub fn text_without_match(found: Option<MatchSplit>, haystack: &str) -> (r: String)
    ensures
        r@ == match found {
            Some(s) => s.before@ + s.after@,
            None => haystack@,
        },
{
    match found {
        Some(s) => s.before.concat(s.after.as_str()),
        None => haystack.to_owned(),
    }
}

/// Whether `pattern` compiles; an empty haystack is searched to find out.
pub fn pattern_is_valid(pattern: &str) -> (b: bool)
    ensures
        b == pattern_compiles(pattern@),
{
    find_first(pattern, "").is_ok()
}

/// The text that the first match of `pattern` covers in `haystack`.
pub fn find_text(pattern: &str, haystack: &str) -> (r: Option<String>)
    requires
        pattern_compiles(pattern@),
    ensures
        r.deep_view() == matched_text(pattern@, haystack@),
{
    match find_first(pattern, haystack) {
        Ok(found) => {
            proof {
                if let Some(s) = &found {
                    let b = s.before@.len() as int;
                    let e = b + s.matched@.len();
                    assert(haystack@.subrange(b, e) =~= s.matched@);
                }
            }
            text_of_match(found)
        },
        Err(_) => None,
    }
}

/// `haystack` with the text of the first match of `pattern` taken out.
pub fn remove_first(pattern: &str, haystack: &str) -> (r: String)
    requires
        pattern_compiles(pattern@),
    ensures
        r@ == without_match(pattern@, haystack@),
{
    match find_first(pattern, haystack) {
        Ok(found) => {
            proof {
                if let Some(s) = &found {
                    let b = s.before@.len() as int;
                    let e = b + s.matched@.len();
                    assert(haystack@.subrange(0, b) =~= s.before@);
                    assert(haystack@.subrange(e, haystack@.len() as int) =~= s.after@);
                }
            }
            text_without_match(found, haystack)
        },
        Err(_) => haystack.to_owned(),
    }
}

} // verus!
