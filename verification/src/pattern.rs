//! Regular-expression captures, through the `regex` crate.
use vstd::prelude::*;

verus! {

/// The groups that `regex` captures when `pattern` is searched for in
/// `text` (the leftmost-first match): `None` where the pattern does not
/// compile or does not match; otherwise one entry per group, group 0 (the
/// whole match) first, `None` for a group that took no part in the match.
pub uninterp spec fn regex_captures(pattern: Seq<char>, text: Seq<char>) -> Option<Seq<Option<Seq<char>>>>;

pub open spec fn group_view(g: Option<String>) -> Option<Seq<char>> {
    match g {
        Some(s) => Some(s@),
        None => None,
    }
}

pub open spec fn captures_view(c: Option<Vec<Option<String>>>) -> Option<Seq<Option<Seq<char>>>> {
    match c {
        Some(v) => Some(v@.map_values(|g: Option<String>| group_view(g))),
        None => None,
    }
}

/// `regex::Regex::new(pattern)` followed by `Regex::captures(text)`, each
/// group's text copied out. The result is named, not stated: it is what the
/// `regex` crate computes from the two texts.
#[verifier::external_body]
pub(crate) fn captures(pattern: &str, text: &str) -> (res: Option<Vec<Option<String>>>)
    ensures
        captures_view(res) == regex_captures(pattern@, text@),
{
    match regex::Regex::new(pattern) {
        Ok(re) => re.captures(text).map(|c| c.iter().map(|g| g.map(|m| m.as_str().to_string())).collect()),
        Err(_) => None,
    }
}

/// The whole texts of the successive non-overlapping matches of `pattern`
/// in `text`, in order (group 0 of each item of `Regex::captures_iter`);
/// `None` where the pattern does not compile.
pub uninterp spec fn regex_match_texts(pattern: Seq<char>, text: Seq<char>) -> Option<Seq<Seq<char>>>;

pub open spec fn texts_view(v: Option<Vec<String>>) -> Option<Seq<Seq<char>>> {
    match v {
        Some(v) => Some(v@.map_values(|t: String| t@)),
        None => None,
    }
}

/// `regex::Regex::new(pattern)` followed by `Regex::captures_iter(text)`,
/// the text of each match's group 0 (which every match has) copied out.
/// The result is named, not stated.
#[verifier::external_body]
pub(crate) fn match_texts(pattern: &str, text: &str) -> (res: Option<Vec<String>>)
    ensures
        texts_view(res) == regex_match_texts(pattern@, text@),
{
    match regex::Regex::new(pattern) {
        Ok(re) => Some(re.captures_iter(text).map(|c| c[0].to_string()).collect()),
        Err(_) => None,
    }
}

/// The text of the group called `name` in the first match of `pattern` in
/// `text`: `None` where the pattern does not compile or does not match,
/// `Some(None)` where no group of that name took part in the match.
pub uninterp spec fn regex_named_group(pattern: Seq<char>, text: Seq<char>, name: Seq<char>) -> Option<Option<Seq<char>>>;

pub open spec fn named_view(g: Option<Option<String>>) -> Option<Option<Seq<char>>> {
    match g {
        Some(inner) => Some(group_view(inner)),
        None => None,
    }
}

/// `regex::Regex::new(pattern)`, `Regex::captures(text)` and then
/// `Captures::name(name)`, the group's text copied out. The result is
/// named, not stated.
#[verifier::external_body]
pub(crate) fn named_group(pattern: &str, text: &str, name: &str) -> (res: Option<Option<String>>)
    ensures
        named_view(res) == regex_named_group(pattern@, text@, name@),
{
    match regex::Regex::new(pattern) {
        Ok(re) => re.captures(text).map(|c| c.name(name).map(|m| m.as_str().to_string())),
        Err(_) => None,
    }
}

} // verus!
