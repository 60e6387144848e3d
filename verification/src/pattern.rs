//! Searching a text for a pattern. The search itself is the work of the
//! `regex` crate; what it finds is named here, not spelled out.
use vstd::prelude::*;

verus! {

/// The failure of `regex` to compile a pattern.
#[verifier::external_type_specification]
#[verifier::external_body]
pub struct ExRegexError(regex::Error);

/// Whether `regex` accepts `pattern`, as `Regex::new` decides it.
pub uninterp spec fn compiles(pattern: Seq<char>) -> bool;

/// Whether `pattern` matches anywhere in `text`, as `Regex::is_match` decides it.
pub uninterp spec fn found(pattern: Seq<char>, text: Seq<char>) -> bool;

/// What the group `group` of `pattern` holds in the leftmost match in `text`,
/// as `Regex::captures` finds it; `None` if the pattern has no such group or
/// the group takes no part in that match. It is a name for texts in which the
/// pattern is found.
pub uninterp spec fn group_of_first_match(pattern: Seq<char>, group: nat, text: Seq<char>)
    -> Option<Seq<char>>;

/// `text` with every match of `pattern` replaced, as `Regex::replace_all`
/// computes it: by `with`, in which `$` and a name or number stand for what a
/// group matched. It is a name for texts in which the pattern is found.
pub uninterp spec fn replaced_matches(pattern: Seq<char>, text: Seq<char>, with: Seq<char>)
    -> Seq<char>;

/// What the group `group` of `pattern` holds in the leftmost match in `text`:
/// nothing where the pattern is not found.
pub open spec fn group_in(pattern: Seq<char>, group: nat, text: Seq<char>) -> Option<Seq<char>> {
    if found(pattern, text) {
        group_of_first_match(pattern, group, text)
    } else {
        None
    }
}

/// `text` with every match of `pattern` replaced: `text` itself where the
/// pattern is not found.
pub open spec fn replaced(pattern: Seq<char>, text: Seq<char>, with: Seq<char>) -> Seq<char> {
    if found(pattern, text) {
        replaced_matches(pattern, text, with)
    } else {
        text
    }
}

/// Compiles `pattern` with `Regex::new` and asks `Regex::is_match` whether it
/// matches anywhere in `text`. Fails exactly when the pattern does not
/// compile; the answer is the one that [`found`] names.
#[verifier::external_body]
pub(crate) fn is_match(pattern: &str, text: &str) -> (r: Result<bool, regex::Error>)
    ensures
        r is Ok <==> compiles(pattern@),
        r is Ok ==> r->Ok_0 == found(pattern@, text@),
{
    let re = regex::Regex::new(pattern)?;
    Ok(re.is_match(text))
}

/// Compiles `pattern` with `Regex::new`, searches `text` with
/// `Regex::captures` and copies what the group `group` matched. Fails exactly
/// when the pattern does not compile. Where the pattern is not found there is
/// no group; where it is, the answer is the one that
/// [`group_of_first_match`] names.
#[verifier::external_body]
pub(crate) fn capture(pattern: &str, group: usize, text: &str) -> (r: Result<
    Option<String>,
    regex::Error,
>)
    ensures
        r is Ok <==> compiles(pattern@),
        r is Ok ==> match group_in(pattern@, group as nat, text@) {
            Some(g) => r->Ok_0 is Some && r->Ok_0->Some_0@ == g,
            None => r->Ok_0 is None,
        },
        r is Ok && found(pattern@, text@) ==> match group_of_first_match(
            pattern@,
            group as nat,
            text@,
        ) {
            Some(g) => r->Ok_0 is Some && r->Ok_0->Some_0@ == g,
            None => r->Ok_0 is None,
        },
{
    let re = regex::Regex::new(pattern)?;
    let part = match re.captures(text) {
        Some(found) => found.get(group),
        None => None,
    };
    Ok(
        match part {
            Some(part) => Some(part.as_str().to_string()),
            None => None,
        },
    )
}

/// Compiles `pattern` with `Regex::new` and replaces its matches in `text`
/// with `Regex::replace_all`. Fails exactly when the pattern does not
/// compile. Where the pattern is not found the text comes back as it is;
/// where it is, the answer is the one that [`replaced_matches`] names.
#[verifier::external_body]
pub(crate) fn replace_all(pattern: &str, text: &str, with: &str) -> (r: Result<
    String,
    regex::Error,
>)
    ensures
        r is Ok <==> compiles(pattern@),
        r is Ok ==> r->Ok_0@ == replaced(pattern@, text@, with@),
        r is Ok && found(pattern@, text@) ==> r->Ok_0@ == replaced_matches(
            pattern@,
            text@,
            with@,
        ),
{
    let re = regex::Regex::new(pattern)?;
    Ok(re.replace_all(text, with).into_owned())
}

} // verus!
