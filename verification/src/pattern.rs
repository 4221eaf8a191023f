//! Matching texts against regular expressions, which the `fancy_regex` crate
//! compiles and runs; nothing of that is proved here.

use fancy_regex::Regex;
use vstd::prelude::*;

verus! {

/// The failure of `fancy_regex` to compile or to run a pattern.
#[verifier::external_type_specification]
#[verifier::external_body]
pub struct ExRegexError(fancy_regex::Error);

/// The groups of the first match of `pattern` in `text`: the whole match
/// first, then each group of the pattern with the text it took, where it
/// took part in the match. `Ok(None)` where nothing matches, `Err` where the
/// pattern does not compile or the search is given up.
pub uninterp spec fn captured(pattern: Seq<char>, text: Seq<char>) -> Result<
    Option<Seq<Option<Seq<char>>>>,
    (),
>;

/// `text` with every match of `pattern` replaced by the expansion of
/// `replacement`, in which `$1`, `$2`, ... stand for the groups of the
/// match. `None` where the pattern does not compile or the search is given
/// up.
pub uninterp spec fn replaced_all(pattern: Seq<char>, text: Seq<char>, replacement: Seq<char>) -> Option<
    Seq<char>,
>;

/// Compiles `pattern` with `Regex::new`, searches `text` with
/// `Regex::captures` and copies the groups out of `Captures::iter`. The
/// contract claims only that the outcome is a function of the two texts,
/// and that an error of either call is handed on.
#[verifier::external_body]
pub(crate) fn captures(pattern: &str, text: &str) -> (out: Result<
    Option<Vec<Option<String>>>,
    fancy_regex::Error,
>)
    ensures
        match out {
            Ok(found) => captured(pattern@, text@) == Ok::<_, ()>(found.deep_view()),
            Err(_) => captured(pattern@, text@) is Err,
        },
{
    let found = Regex::new(pattern)?.captures(text)?;
    Ok(found.map(|groups| groups.iter().map(|g| g.map(|m| m.as_str().to_string())).collect()))
}

/// Compiles `pattern` with `Regex::new` and runs `Regex::try_replacen`
/// without a limit, which is what `Regex::replace_all` runs. The contract
/// claims only that the outcome is a function of the three texts, and that
/// an error of either call is handed on.
#[verifier::external_body]
pub(crate) fn replace_all(pattern: &str, text: &str, replacement: &str) -> (out: Result<
    String,
    fancy_regex::Error,
>)
    ensures
        match out {
            Ok(changed) => replaced_all(pattern@, text@, replacement@) == Some(changed@),
            Err(_) => replaced_all(pattern@, text@, replacement@) is None,
        },
{
    let changed = Regex::new(pattern)?.try_replacen(text, 0, replacement)?;
    Ok(changed.into_owned())
}

} // verus!
