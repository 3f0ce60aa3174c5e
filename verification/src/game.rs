//! The game's releases, and the version that a build-info file names.

use vstd::prelude::*;
use vstd::string::StringExecFns;

verus! {

/// A release of the game.
#[derive(Clone, Copy, Debug, PartialEq, Eq, Structural)]
pub enum ReleaseType {
    /// The current retail release.
    Retail,
}

/// The pattern that finds the version in the text of a build-info file.
pub open spec fn version_pattern() -> Seq<char> {
    "text\\?\\|\\|\\|(?<version>.*?)\\|\\|"@
}

/// The name of the group that holds the version.
pub open spec fn version_group() -> Seq<char> {
    "version"@
}

/// What is shown in place of a version that could not be found.
pub open spec fn version_unknown() -> Seq<char> {
    "Internal Error"@
}

/// What the named group of a pattern holds in the first match that the
/// `regex` crate finds in a text; nothing where the pattern is refused,
/// matches nowhere, or matches without the group taking part.
pub uninterp spec fn named_capture(pattern: Seq<char>, group: Seq<char>, haystack: Seq<char>)
    -> Option<Seq<char>>;

/// Wraps `regex::Regex::captures`, on the regex that `Regex::new` compiles
/// from the pattern, and `Captures::name` on what it finds: the result is
/// the text of the named group in the first match. There is none where
/// `Regex::new` refuses the pattern, where `captures` finds no match, and
/// where `name` knows no such group or the group took no part.
#[verifier::external_body]
fn capture(pattern: &str, group: &str, haystack: &str) -> (found: Option<String>)
    ensures
        found is Some <==> named_capture(pattern@, group@, haystack@) is Some,
        found matches Some(text) ==> named_capture(pattern@, group@, haystack@) == Some(text@),
{
    let regex = regex::Regex::new(pattern).ok()?;
    let captures = regex.captures(haystack)?;
    Some(captures.name(group)?.as_str().to_owned())
}

/// The version that the text of a build-info file names, if the pattern
/// finds one.
pub fn find_game_version(build_info: &str) -> (found: Option<String>)
    ensures
        found is Some <==> named_capture(version_pattern(), version_group(), build_info@)
            is Some,
        found matches Some(text) ==> named_capture(
            version_pattern(),
            version_group(),
            build_info@,
        ) == Some(text@),
{
    capture("text\\?\\|\\|\\|(?<version>.*?)\\|\\|", "version", build_info)
}

/// The version to show: the one found, or the words that stand for a
/// version that could not be found.
pub fn version_or_error(found: Option<String>) -> (shown: String)
    ensures
        shown@ == match found {
            Some(version) => version@,
            None => version_unknown(),
        },
{
    match found {
        Some(version) => version,
        None => String::from_str("Internal Error"),
    }
}

/// The version of the game, from the text of its build-info file where that
/// could be read. There is always an answer: the version that the file
/// names, or the words that stand for a version that could not be found.
pub fn get_game_version(build_info: Option<&str>) -> (version: Option<String>)
    ensures
        version matches Some(shown) && shown@ == match build_info {
            Some(text) => match named_capture(version_pattern(), version_group(), text@) {
                Some(found) => found,
                None => version_unknown(),
            },
            None => version_unknown(),
        },
{
    let found = match build_info {
        Some(text) => find_game_version(text),
        None => None,
    };
    Some(version_or_error(found))
}

} // verus!
