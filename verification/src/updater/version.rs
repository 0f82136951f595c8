//! Versions of releases.
use semver::Version;
use std::cmp::Ordering;
use vstd::prelude::*;

use crate::text;
use crate::text::{chars_of, string_of, trim_chars};

verus! {

/// How one version stands to another.
#[derive(Debug, Clone, Copy, PartialEq, Eq, Structural)]
pub enum VersionOrder {
    Older,
    Same,
    Newer,
}

/// Whether `semver` reads a text as a version.
pub uninterp spec fn is_semver(text: Seq<char>) -> bool;

/// How the version in one text stands to the version in another, by `semver`; nothing if one of
/// them is no version.
pub uninterp spec fn semver_order(a: Seq<char>, b: Seq<char>) -> Option<VersionOrder>;

/// Whether a text is a version. Calls `semver::Version::parse`, and claims that the answer is a
/// function of the text; which texts are versions is left to that crate.
#[verifier::external_body]
pub(crate) fn is_version(text: &str) -> (r: bool)
    ensures
        r == is_semver(text@),
{
    Version::parse(text).is_ok()
}

/// Whether a version is at most as new as another.
pub open spec fn at_most(a: Seq<char>, b: Seq<char>) -> bool {
    semver_order(a, b) is Some && semver_order(a, b) != Some(VersionOrder::Newer)
}

/// Whether all versions that are at most as new as `b` are at most as new as `a`.
pub open spec fn covers(a: Seq<char>, b: Seq<char>) -> bool {
    forall|c: Seq<char>| #[trigger] at_most(c, b) ==> at_most(c, a)
}

/// How the version in one text stands to the version in another. Calls `cmp` of `semver::Version`
/// on what the texts are read as. Claims that the answer is a function of the texts, that there is
/// one for two versions and for nothing else, and of the order, which is total: a version is the
/// same as itself, and one that is at most as new as `b` is at most as new as `a` where `b` is.
#[verifier::external_body]
pub(crate) fn version_order(a: &str, b: &str) -> (r: Option<VersionOrder>)
    ensures
        r == semver_order(a@, b@),
        (r is Some) == (is_semver(a@) && is_semver(b@)),
        (a@ == b@ && r is Some) ==> r == Some(VersionOrder::Same),
        (r is Some && r != Some(VersionOrder::Older)) ==> covers(a@, b@),
{
    match (Version::parse(a), Version::parse(b)) {
        (Ok(left), Ok(right)) => match left.cmp(&right) {
            Ordering::Less => Some(VersionOrder::Older),
            Ordering::Equal => Some(VersionOrder::Same),
            Ordering::Greater => Some(VersionOrder::Newer),
        },
        _ => None,
    }
}

/// The version that a tag names: the tag without white space around it and without a letter for
/// version in front.
pub open spec fn tag_version(tag: Seq<char>) -> Seq<char> {
    let trimmed = text::trim(tag);
    if trimmed.len() > 0 && (trimmed[0] == 'v' || trimmed[0] == 'V') {
        trimmed.drop_first()
    } else {
        trimmed
    }
}

/// The version that a tag names, as text.
pub fn strip_tag(tag_name: &str) -> (r: String)
    ensures
        r@ == tag_version(tag_name@),
{
    let chars = chars_of(tag_name);
    let trimmed = trim_chars(chars.as_slice());
    if trimmed.len() > 0 && (trimmed[0] == 'v' || trimmed[0] == 'V') {
        let rest = vstd::slice::slice_subrange(trimmed, 1, trimmed.len());
        assert(rest@ =~= trimmed@.drop_first());
        string_of(rest)
    } else {
        string_of(trimmed)
    }
}

/// The version that a tag names, if it names one.
pub fn parse_release_version(tag_name: &str) -> (r: Option<String>)
    ensures
        match r {
            Some(version) => is_semver(tag_version(tag_name@)) && version@ == tag_version(
                tag_name@,
            ),
            None => !is_semver(tag_version(tag_name@)),
        },
{
    let version = strip_tag(tag_name);
    if is_version(&version) {
        Some(version)
    } else {
        None
    }
}

/// A tag names the version behind its letter, in either case; without a letter the tag is the
/// version. White space around it does not count, and only one letter does.
pub proof fn law_tag_names_its_version(before: Seq<char>, version: Seq<char>, after: Seq<char>)
    requires
        forall|i: int| 0 <= i < before.len() ==> text::is_space(#[trigger] before[i]),
        forall|i: int| 0 <= i < after.len() ==> text::is_space(#[trigger] after[i]),
        version.len() > 0,
        !text::is_space(version[0]),
        !text::is_space(version.last()),
    ensures
        tag_version(before + (seq!['v'] + version) + after) == version,
        tag_version(before + (seq!['V'] + version) + after) == version,
        version[0] != 'v' && version[0] != 'V' ==> tag_version(before + version + after) == version,
{
    let small = seq!['v'] + version;
    let large = seq!['V'] + version;
    assert(small.last() == version.last());
    assert(large.last() == version.last());
    text::law_white_space_around_is_trimmed(before, small, after);
    text::law_white_space_around_is_trimmed(before, large, after);
    text::law_white_space_around_is_trimmed(before, version, after);
    assert(small.drop_first() =~= version);
    assert(large.drop_first() =~= version);
}

} // verus!
