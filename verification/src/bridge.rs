//! The calls into code that is not verified here: the crates `node_semver`,
//! `semver` and `itertools`, and a few functions of the standard library.
//! Nothing in this file is proved. Each contract records what the function it
//! names is taken to do, over the models of the values that go in and come
//! out.

use std::cmp::Ordering;
use itertools::Itertools;
use vstd::prelude::*;
use crate::order::Precedence;
use crate::range::breaks_the_parser;
use crate::text::{joined, texts};
use crate::version::{version_precedence, version_text, Identifier, Version, VersionView};

verus! {

/// The error that `node_semver` reports for a text it cannot parse.
#[verifier::external_type_specification]
#[verifier::external_body]
pub struct ExSemverError(node_semver::SemverError);

/// A range as `node_semver` holds it.
#[verifier::external_type_specification]
#[verifier::external_body]
pub struct ExSemverRange(node_semver::Range);

/// What `node_semver::Version::parse` makes of `text`: the version, or nothing
/// where it reports an error.
pub uninterp spec fn parsed_version(text: Seq<char>) -> Option<VersionView>;

/// Whether `node_semver::Range::parse` accepts `text`, where it returns.
pub uninterp spec fn range_accepted(text: Seq<char>) -> bool;

/// Whether the range that `node_semver::Range::parse` makes of `range` is
/// satisfied by `version`, as `node_semver::Range::satisfies` decides it.
pub uninterp spec fn range_satisfied(range: Seq<char>, version: VersionView) -> bool;

/// The text that `node_semver` displays for the range that it makes of `range`.
pub uninterp spec fn range_display(range: Seq<char>) -> Seq<char>;

/// A parsed range together with the text it was parsed from. The fields are
/// private to this file, where a range is made by [`parse_range_text`] or
/// copied by [`range_clone`] and in no other way: so `inner` is always what
/// the parser made of `source`. The model of a range is that source text.
#[derive(Debug)]
pub struct VersionRange {
    source: String,
    inner: node_semver::Range,
}

impl View for VersionRange {
    type V = Seq<char>;

    closed spec fn view(&self) -> Seq<char> {
        self.source@
    }
}

/// Calls `node_semver::Version::parse` and moves the fields of the version it
/// returns into a [`Version`]. The result is named by [`parsed_version`]: the
/// same text always gives the same version or the same refusal.
#[verifier::external_body]
pub(crate) fn parse_version_text(text: &str) -> (r: Result<Version, node_semver::SemverError>)
    ensures
        r is Ok ==> parsed_version(text@) == Some(r->Ok_0@),
        r is Err ==> parsed_version(text@) is None,
{
    let lift = |id: node_semver::Identifier| match id {
        node_semver::Identifier::Numeric(n) => Identifier::Numeric(n),
        node_semver::Identifier::AlphaNumeric(s) => Identifier::AlphaNumeric(s),
    };
    node_semver::Version::parse(text).map(|v| Version {
        major: v.major,
        minor: v.minor,
        patch: v.patch,
        build: v.build.into_iter().map(lift).collect(),
        pre_release: v.pre_release.into_iter().map(lift).collect(),
    })
}

/// Compares copies of the two versions, in `node_semver`'s version type, with
/// that type's `Ord`: major, minor and patch number decide in
/// that order; then a version without pre-release tag sorts after one with a
/// tag, and two tags compare identifier by identifier, numbers before texts,
/// numbers by value and texts by their characters. Build tags play no part.
#[verifier::external_body]
pub(crate) fn version_compare(a: &Version, b: &Version) -> (p: Precedence)
    ensures
        p == version_precedence(a@, b@),
{
    let lower = |id: &Identifier| match id {
        Identifier::Numeric(n) => node_semver::Identifier::Numeric(*n),
        Identifier::AlphaNumeric(s) => node_semver::Identifier::AlphaNumeric(s.clone()),
    };
    let outside = |v: &Version| node_semver::Version {
        major: v.major, minor: v.minor, patch: v.patch,
        build: v.build.iter().map(lower).collect(),
        pre_release: v.pre_release.iter().map(lower).collect(),
    };
    match outside(a).cmp(&outside(b)) {
        Ordering::Less => Precedence::Lower,
        Ordering::Equal => Precedence::Same,
        Ordering::Greater => Precedence::Higher,
    }
}

/// Formats a copy of the version, in `node_semver`'s version type, with that
/// type's `Display`: the three numbers in decimal with dots
/// between them, then the pre-release tag after a hyphen and the build tag
/// after a plus sign, the identifiers of a tag with dots between them.
#[verifier::external_body]
pub(crate) fn version_to_string(version: &Version) -> (s: String)
    ensures
        s@ == version_text(version@),
{
    let lower = |id: &Identifier| match id {
        Identifier::Numeric(n) => node_semver::Identifier::Numeric(*n),
        Identifier::AlphaNumeric(s) => node_semver::Identifier::AlphaNumeric(s.clone()),
    };
    let outside = node_semver::Version {
        major: version.major,
        minor: version.minor,
        patch: version.patch,
        build: version.build.iter().map(lower).collect(),
        pre_release: version.pre_release.iter().map(lower).collect(),
    };
    outside.to_string()
}

/// Calls `node_semver::Range::parse` and keeps the range it returns beside the
/// text. It succeeds exactly on the texts that [`range_accepted`] names. The
/// parser has two places where it gives up without returning: after `=`, on
/// a partial version without a major number; and after `~` or `~>`, on one
/// without a major number or with a patch number but no minor number. A
/// number is missing where `x`, `X` or `*` stands in its place. The texts
/// that could lead there are left out.
#[verifier::external_body]
pub(crate) fn parse_range_text(text: &str) -> (r: Result<VersionRange, node_semver::SemverError>)
    requires
        !breaks_the_parser(text@),
    ensures
        r is Ok <==> range_accepted(text@),
        r is Ok ==> r->Ok_0@ == text@,
{
    node_semver::Range::parse(text).map(|inner| VersionRange { source: text.to_string(), inner })
}

/// Calls `node_semver::Range::satisfies` on a copy of `version` in
/// `node_semver`'s version type. The answer is named by [`range_satisfied`].
#[verifier::external_body]
pub(crate) fn range_satisfies(range: &VersionRange, version: &Version) -> (r: bool)
    ensures
        r == range_satisfied(range@, version@),
{
    let lower = |id: &Identifier| match id {
        Identifier::Numeric(n) => node_semver::Identifier::Numeric(*n),
        Identifier::AlphaNumeric(s) => node_semver::Identifier::AlphaNumeric(s.clone()),
    };
    range.inner.satisfies(&node_semver::Version {
        major: version.major,
        minor: version.minor,
        patch: version.patch,
        build: version.build.iter().map(lower).collect(),
        pre_release: version.pre_release.iter().map(lower).collect(),
    })
}

/// Formats the range with `node_semver`'s `Display`. The text is named by
/// [`range_display`].
#[verifier::external_body]
pub(crate) fn range_to_string(range: &VersionRange) -> (s: String)
    ensures
        s@ == range_display(range@),
{
    range.inner.to_string()
}

/// Copies the range with `node_semver::Range`'s `Clone`; the copy stands for
/// the same source text.
#[verifier::external_body]
pub(crate) fn range_clone(range: &VersionRange) -> (r: VersionRange)
    ensures
        r@ == range@,
{
    VersionRange { source: range.source.clone(), inner: range.inner.clone() }
}

/// Joins the strings with `itertools::Itertools::join`: the result is the
/// strings one after the other, with `separator` between each two, and empty
/// where there is no string.
#[verifier::external_body]
pub(crate) fn join_with(items: &Vec<String>, separator: &str) -> (text: String)
    ensures
        text@ == joined(texts(items@), separator@),
{
    items.iter().join(separator)
}

/// A version requirement as the `semver` crate holds it.
#[verifier::external_type_specification]
#[verifier::external_body]
pub struct ExVersionReq(semver::VersionReq);

/// The error that `semver` reports for a text it cannot parse.
#[verifier::external_type_specification]
#[verifier::external_body]
pub struct ExRequirementError(semver::Error);

/// Whether `semver::VersionReq::parse` accepts `text`.
pub uninterp spec fn requirement_accepted(text: Seq<char>) -> bool;

/// What `str::to_lowercase` makes of `text`.
pub uninterp spec fn lowercased(text: Seq<char>) -> Seq<char>;

/// `semver::VersionReq::parse` succeeds exactly on the texts that
/// [`requirement_accepted`] names: the same text is always accepted or
/// always refused.
pub assume_specification[ semver::VersionReq::parse ](text: &str) -> (r: Result<
    semver::VersionReq,
    semver::Error,
>)
    ensures
        r is Ok <==> requirement_accepted(text@),
;

/// `str::to_lowercase` returns the lowercase equivalent of the text, which
/// [`lowercased`] names.
pub assume_specification[ str::to_lowercase ](text: &str) -> (r: String)
    ensures
        r@ == lowercased(text@),
;

/// The requirement that every version meets: `semver::VersionReq::STAR`.
#[verifier::external_body]
pub(crate) fn any_requirement() -> semver::VersionReq {
    semver::VersionReq::STAR
}

/// The characters that `char::to_uppercase` yields for `c`.
pub uninterp spec fn uppercase_mapping(c: char) -> Seq<char>;

/// The characters that `char::to_lowercase` yields for `c`.
pub uninterp spec fn lowercase_mapping(c: char) -> Seq<char>;

/// Collects what `char::to_uppercase` yields for `c`. The mapping is the one
/// of the Unicode tables that the standard library carries; it is named by
/// [`uppercase_mapping`].
#[verifier::external_body]
pub(crate) fn uppercase_chars(c: char) -> (r: Vec<char>)
    ensures
        r@ == uppercase_mapping(c),
{
    c.to_uppercase().collect()
}

/// Collects what `char::to_lowercase` yields for `c`; it is named by
/// [`lowercase_mapping`].
#[verifier::external_body]
pub(crate) fn lowercase_chars(c: char) -> (r: Vec<char>)
    ensures
        r@ == lowercase_mapping(c),
{
    c.to_lowercase().collect()
}

/// `String::push` appends one character at the end of the string.
pub assume_specification[ String::push ](s: &mut String, ch: char)
    ensures
        final(s)@ == old(s)@.push(ch),
;

} // verus!
