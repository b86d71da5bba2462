//! Semantic versions: the data, its mathematical model, the precedence order
//! and the canonical text.

use vstd::prelude::*;
use crate::bridge::{parse_version_text, parsed_version, version_compare, version_to_string};
use crate::order::{
    char_order, flip, int_precedence, is_total_order, lemma_char_order, lemma_lexicographic_flip,
    lemma_lexicographic_reflexive, lemma_lexicographic_same_is_equal, lemma_lexicographic_transitive,
    lexicographic, Precedence,
};
use crate::text::{chars_of, copy_str, decimal, string_of};

verus! {

/// One dot-separated part of a pre-release or build tag.
#[derive(Debug)]
pub enum Identifier {
    /// A part made of digits only.
    Numeric(u64),
    /// A part with letters, digits or hyphens.
    AlphaNumeric(String),
}

/// The model of an [`Identifier`].
pub enum IdentifierView {
    Numeric(nat),
    AlphaNumeric(Seq<char>),
}

impl View for Identifier {
    type V = IdentifierView;

    open spec fn view(&self) -> IdentifierView {
        match self {
            Identifier::Numeric(n) => IdentifierView::Numeric(*n as nat),
            Identifier::AlphaNumeric(s) => IdentifierView::AlphaNumeric(s@),
        }
    }
}

/// A semantic version.
#[derive(Debug)]
pub struct Version {
    pub major: u64,
    pub minor: u64,
    pub patch: u64,
    pub build: Vec<Identifier>,
    pub pre_release: Vec<Identifier>,
}

/// The model of a [`Version`].
pub struct VersionView {
    pub major: nat,
    pub minor: nat,
    pub patch: nat,
    pub build: Seq<IdentifierView>,
    pub pre_release: Seq<IdentifierView>,
}

impl Clone for Identifier {
    fn clone(&self) -> (r: Identifier)
        ensures
            r@ == self@,
    {
        match self {
            Identifier::Numeric(n) => Identifier::Numeric(*n),
            Identifier::AlphaNumeric(s) => Identifier::AlphaNumeric(s.clone()),
        }
    }
}

/// The models of a sequence of identifiers.
pub open spec fn identifier_views(ids: Seq<Identifier>) -> Seq<IdentifierView> {
    ids.map_values(|id: Identifier| id@)
}

impl View for Version {
    type V = VersionView;

    open spec fn view(&self) -> VersionView {
        VersionView {
            major: self.major as nat,
            minor: self.minor as nat,
            patch: self.patch as nat,
            build: identifier_views(self.build@),
            pre_release: identifier_views(self.pre_release@),
        }
    }
}

/// A copy of a sequence of identifiers.
pub fn clone_identifiers(ids: &Vec<Identifier>) -> (r: Vec<Identifier>)
    ensures
        identifier_views(r@) == identifier_views(ids@),
{
    let mut r: Vec<Identifier> = Vec::new();
    let mut i: usize = 0;
    while i < ids.len()
        invariant
            i <= ids.len(),
            r.len() == i,
            forall|k: int| 0 <= k < i ==> r@[k]@ == ids@[k]@,
        decreases ids.len() - i,
    {
        r.push(ids[i].clone());
        i = i + 1;
    }
    proof {
        assert(identifier_views(r@) =~= identifier_views(ids@));
    }
    r
}

impl Clone for Version {
    fn clone(&self) -> (r: Version)
        ensures
            r@ == self@,
    {
        Version {
            major: self.major,
            minor: self.minor,
            patch: self.patch,
            build: clone_identifiers(&self.build),
            pre_release: clone_identifiers(&self.pre_release),
        }
    }
}

/// Precedence of two identifiers: numeric ones sort before alphanumeric ones,
/// numeric ones compare as numbers, alphanumeric ones character by character.
pub open spec fn identifier_precedence(a: IdentifierView, b: IdentifierView) -> Precedence {
    match (a, b) {
        (IdentifierView::Numeric(x), IdentifierView::Numeric(y)) => int_precedence(x as int, y as int),
        (IdentifierView::Numeric(_), IdentifierView::AlphaNumeric(_)) => Precedence::Lower,
        (IdentifierView::AlphaNumeric(_), IdentifierView::Numeric(_)) => Precedence::Higher,
        (IdentifierView::AlphaNumeric(x), IdentifierView::AlphaNumeric(y)) => lexicographic(
            x,
            y,
            char_order(),
        ),
    }
}

/// Precedence of identifiers, as a function value.
pub open spec fn identifier_order() -> spec_fn(IdentifierView, IdentifierView) -> Precedence {
    |p: IdentifierView, q: IdentifierView| identifier_precedence(p, q)
}

/// Precedence of two pre-release tags: a version without one sorts after the
/// same version with one; two tags compare identifier by identifier.
pub open spec fn pre_release_precedence(a: Seq<IdentifierView>, b: Seq<IdentifierView>) -> Precedence {
    if a.len() == 0 && b.len() == 0 {
        Precedence::Same
    } else if a.len() == 0 {
        Precedence::Higher
    } else if b.len() == 0 {
        Precedence::Lower
    } else {
        lexicographic(a, b, identifier_order())
    }
}

/// Precedence of two versions: major, minor and patch compare as numbers, in
/// that order; the pre-release tag breaks a tie; build metadata plays no part.
pub open spec fn version_precedence(a: VersionView, b: VersionView) -> Precedence {
    if a.major != b.major {
        int_precedence(a.major as int, b.major as int)
    } else if a.minor != b.minor {
        int_precedence(a.minor as int, b.minor as int)
    } else if a.patch != b.patch {
        int_precedence(a.patch as int, b.patch as int)
    } else {
        pre_release_precedence(a.pre_release, b.pre_release)
    }
}

/// Two versions have the same precedence exactly when they agree in all but
/// their build metadata.
pub open spec fn same_precedence(a: VersionView, b: VersionView) -> bool {
    &&& a.major == b.major
    &&& a.minor == b.minor
    &&& a.patch == b.patch
    &&& a.pre_release == b.pre_release
}

/// `a` sorts at or after `b`.
pub open spec fn at_least(a: VersionView, b: VersionView) -> bool {
    version_precedence(a, b) != Precedence::Lower
}

/// Precedence of identifiers is a total order.
pub proof fn lemma_identifier_order()
    ensures
        is_total_order(identifier_order()),
{
    let f = identifier_order();
    lemma_char_order();
    assert forall|x: IdentifierView| #[trigger] f(x, x) == Precedence::Same by {
        if let IdentifierView::AlphaNumeric(s) = x {
            lemma_lexicographic_reflexive(s, char_order());
        }
    }
    assert forall|x: IdentifierView, y: IdentifierView| #[trigger]
        f(x, y) == Precedence::Same implies x == y by {
        if let (IdentifierView::AlphaNumeric(s), IdentifierView::AlphaNumeric(t)) = (x, y) {
            lemma_lexicographic_same_is_equal(s, t, char_order());
        }
    }
    assert forall|x: IdentifierView, y: IdentifierView| #[trigger] f(x, y) == flip(f(y, x)) by {
        if let (IdentifierView::AlphaNumeric(s), IdentifierView::AlphaNumeric(t)) = (x, y) {
            lemma_lexicographic_flip(s, t, char_order());
        }
    }
    assert forall|x: IdentifierView, y: IdentifierView, z: IdentifierView|
        #[trigger] f(x, y) == Precedence::Lower && #[trigger] f(y, z)
            == Precedence::Lower implies f(x, z) == Precedence::Lower by {
        if let (
            IdentifierView::AlphaNumeric(s),
            IdentifierView::AlphaNumeric(t),
            IdentifierView::AlphaNumeric(u),
        ) = (x, y, z) {
            lemma_lexicographic_transitive(s, t, u, char_order());
        }
    }
}

/// A version has the same precedence as itself.
pub proof fn lemma_precedence_reflexive(a: VersionView)
    ensures
        version_precedence(a, a) == Precedence::Same,
{
    lemma_identifier_order();
    lemma_lexicographic_reflexive(a.pre_release, identifier_order());
}

/// Two versions tie exactly when they agree in all but their build metadata.
pub proof fn lemma_precedence_same(a: VersionView, b: VersionView)
    ensures
        version_precedence(a, b) == Precedence::Same <==> same_precedence(a, b),
{
    lemma_identifier_order();
    if same_precedence(a, b) {
        lemma_lexicographic_reflexive(a.pre_release, identifier_order());
    }
    if version_precedence(a, b) == Precedence::Same {
        if a.pre_release.len() > 0 {
            lemma_lexicographic_same_is_equal(a.pre_release, b.pre_release, identifier_order());
        } else {
            assert(a.pre_release =~= b.pre_release);
        }
    }
}

/// Comparing the other way round flips the outcome.
pub proof fn lemma_precedence_flip(a: VersionView, b: VersionView)
    ensures
        version_precedence(a, b) == flip(version_precedence(b, a)),
{
    lemma_identifier_order();
    lemma_lexicographic_flip(a.pre_release, b.pre_release, identifier_order());
}

/// If `a` sorts before `b` and `b` before `c`, then `a` sorts before `c`.
pub proof fn lemma_precedence_transitive(a: VersionView, b: VersionView, c: VersionView)
    requires
        version_precedence(a, b) == Precedence::Lower,
        version_precedence(b, c) == Precedence::Lower,
    ensures
        version_precedence(a, c) == Precedence::Lower,
{
    lemma_identifier_order();
    if a.major == b.major && b.major == c.major && a.minor == b.minor && b.minor == c.minor
        && a.patch == b.patch && b.patch == c.patch {
        if a.pre_release.len() > 0 && b.pre_release.len() > 0 && c.pre_release.len() > 0 {
            lemma_lexicographic_transitive(
                a.pre_release,
                b.pre_release,
                c.pre_release,
                identifier_order(),
            );
        }
    }
}

/// "Sorts at or after" chains.
pub proof fn lemma_at_least_transitive(a: VersionView, b: VersionView, c: VersionView)
    requires
        at_least(a, b),
        at_least(b, c),
    ensures
        at_least(a, c),
{
    lemma_precedence_flip(a, b);
    lemma_precedence_flip(b, c);
    lemma_precedence_flip(a, c);
    lemma_precedence_same(a, b);
    lemma_precedence_same(b, c);
    if version_precedence(a, b) == Precedence::Higher && version_precedence(b, c)
        == Precedence::Higher {
        lemma_precedence_transitive(c, b, a);
    }
}

/// Any two versions are comparable: one sorts at or after the other.
pub proof fn lemma_at_least_total(a: VersionView, b: VersionView)
    ensures
        at_least(a, b) || at_least(b, a),
{
    lemma_precedence_flip(a, b);
}

impl Version {
    /// Compares two versions by precedence.
    pub fn compare(&self, other: &Version) -> (p: Precedence)
        ensures
            p == version_precedence(self@, other@),
    {
        version_compare(self, other)
    }
}

/// The text of one identifier: a number in decimal, or the characters as they
/// are.
pub open spec fn identifier_text(id: IdentifierView) -> Seq<char> {
    match id {
        IdentifierView::Numeric(n) => decimal(n),
        IdentifierView::AlphaNumeric(s) => s,
    }
}

/// The identifiers' texts, each after the one-character mark that opens the
/// tag (before the first) or a dot (before the others).
pub open spec fn tag_text(mark: char, ids: Seq<IdentifierView>) -> Seq<char>
    decreases ids.len(),
{
    if ids.len() == 0 {
        Seq::empty()
    } else {
        tag_text(mark, ids.drop_last()) + seq![if ids.len() == 1 { mark } else { '.' }]
            + identifier_text(ids.last())
    }
}

/// The canonical text of a version: `major.minor.patch`, then the pre-release
/// tag after a hyphen and the build tag after a plus sign, where there are any.
pub open spec fn version_text(v: VersionView) -> Seq<char> {
    decimal(v.major) + seq!['.'] + decimal(v.minor) + seq!['.'] + decimal(v.patch) + tag_text(
        '-',
        v.pre_release,
    ) + tag_text('+', v.build)
}

impl Version {
    /// The canonical text of the version.
    pub fn to_string(&self) -> (s: String)
        ensures
            s@ == version_text(self@),
    {
        version_to_string(self)
    }
}

/// A text that is no version or no range. It carries the text as it was given.
#[derive(Debug)]
pub struct ParseError {
    pub input: String,
}

/// `s` without the `v` that distribution file names put before a version.
pub open spec fn without_v_prefix(s: Seq<char>) -> Seq<char> {
    if s.len() > 0 && s[0] == 'v' {
        s.drop_first()
    } else {
        s
    }
}

/// What a text stands for as a version: the parser's reading of the text
/// after one leading `v`, if there is one, has been taken off.
pub open spec fn version_of_text(s: Seq<char>) -> Option<VersionView> {
    parsed_version(without_v_prefix(s))
}

/// Parses a version, with or without a leading `v`.
pub fn parse_version_str(version_str: &str) -> (r: Result<Version, ParseError>)
    ensures
        r is Ok <==> version_of_text(version_str@) is Some,
        r is Ok ==> Some(r->Ok_0@) == version_of_text(version_str@),
        r is Err ==> r->Err_0.input@ == version_str@,
{
    let chars = chars_of(version_str);
    let parsed = if chars.len() > 0 && chars[0] == 'v' {
        let clean = string_of(&chars, 1, chars.len());
        proof {
            assert(chars@.subrange(1, chars.len() as int) =~= chars@.drop_first());
        }
        parse_version_text(clean.as_str())
    } else {
        parse_version_text(version_str)
    };
    match parsed {
        Ok(version) => Ok(version),
        Err(_) => Err(ParseError { input: copy_str(version_str) }),
    }
}

impl Version {
    /// Parses a version, with or without a leading `v`.
    pub fn parse(s: &str) -> (r: Result<Version, ParseError>)
        ensures
            r is Ok <==> version_of_text(s@) is Some,
            r is Ok ==> Some(r->Ok_0@) == version_of_text(s@),
            r is Err ==> r->Err_0.input@ == s@,
    {
        parse_version_str(s)
    }
}

} // verus!
