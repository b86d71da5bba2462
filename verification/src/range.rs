//! Version ranges: parsing a range expression and asking whether a version
//! satisfies it.

use vstd::prelude::*;
use crate::bridge::{
    parse_range_text, range_accepted, range_clone, range_display, range_satisfied, range_satisfies,
    range_to_string, VersionRange,
};
use crate::text::{chars_of, copy_str, is_decimal_digit};
use crate::version::{ParseError, Version, VersionView};

verus! {

/// A space or a tab.
pub open spec fn is_blank(c: char) -> bool {
    c == ' ' || c == '\t'
}

/// One of the three characters that stand for any number.
pub open spec fn is_wildcard(c: char) -> bool {
    c == 'x' || c == 'X' || c == '*'
}

/// A character that may stand between an operator and the first number: a
/// blank, the `>` of `~>`, or the `v` before a version.
pub open spec fn is_lead(c: char) -> bool {
    is_blank(c) || c == '>' || c == 'v'
}

/// The first position from `from` on that holds no lead character.
pub open spec fn after_lead(text: Seq<char>, from: int) -> int
    decreases text.len() - from,
{
    if 0 <= from < text.len() && is_lead(text[from]) {
        after_lead(text, from + 1)
    } else {
        from
    }
}

/// The first position from `from` on that holds no digit.
pub open spec fn after_digits(text: Seq<char>, from: int) -> int
    decreases text.len() - from,
{
    if 0 <= from < text.len() && is_decimal_digit(text[from]) {
        after_digits(text, from + 1)
    } else {
        from
    }
}

/// What follows `from` opens with a wildcard, lead characters aside.
pub open spec fn opens_with_wildcard(text: Seq<char>, from: int) -> bool {
    let at = after_lead(text, from);
    0 <= at < text.len() && is_wildcard(text[at])
}

/// What follows `from` is, lead characters aside, a number, a wildcard in
/// the place of the minor number, and a digit in the place of the patch
/// number.
pub open spec fn skips_the_minor(text: Seq<char>, from: int) -> bool {
    let start = after_lead(text, from);
    let dot = after_digits(text, start);
    &&& 0 <= start < dot
    &&& dot + 3 < text.len()
    &&& text[dot] == '.'
    &&& is_wildcard(text[dot + 1])
    &&& text[dot + 2] == '.'
    &&& is_decimal_digit(text[dot + 3])
}

/// At `at` stands an `=` that is no part of `>=` or `<=`, with a wildcard in
/// the place of the major number; or a `~`, with a wildcard in the place of
/// the major number, or in that of the minor number before a numeric patch.
pub open spec fn breaks_the_parser_at(text: Seq<char>, at: int) -> bool {
    ||| {
        &&& text[at] == '='
        &&& at == 0 || (text[at - 1] != '>' && text[at - 1] != '<')
        &&& opens_with_wildcard(text, at + 1)
    }
    ||| {
        &&& text[at] == '~'
        &&& opens_with_wildcard(text, at + 1) || skips_the_minor(text, at + 1)
    }
}

/// The texts that are kept from the range parser of `node_semver`, which
/// does not return on some of them: those with an `=` or a `~` before a
/// partial version that the parser has no case for. Every such text is
/// refused as no range.
pub open spec fn breaks_the_parser(text: Seq<char>) -> bool {
    exists|at: int| 0 <= at < text.len() && breaks_the_parser_at(text, at)
}

/// What counts as a range: a text that is not kept from the parser, and that
/// the parser accepts.
pub open spec fn is_range(text: Seq<char>) -> bool {
    !breaks_the_parser(text) && range_accepted(text)
}

/// The first position from `from` on that holds no lead character.
fn skip_lead(chars: &Vec<char>, from: usize) -> (at: usize)
    requires
        from <= chars.len(),
    ensures
        at == after_lead(chars@, from as int),
        from <= at <= chars.len(),
{
    let mut at: usize = from;
    while at < chars.len() && (chars[at] == ' ' || chars[at] == '\t' || chars[at] == '>' || chars[at]
        == 'v')
        invariant
            from <= at <= chars.len(),
            after_lead(chars@, from as int) == after_lead(chars@, at as int),
        decreases chars.len() - at,
    {
        at = at + 1;
    }
    at
}

/// The first position from `from` on that holds no digit.
fn skip_digits(chars: &Vec<char>, from: usize) -> (at: usize)
    requires
        from <= chars.len(),
    ensures
        at == after_digits(chars@, from as int),
        from <= at <= chars.len(),
{
    let mut at: usize = from;
    while at < chars.len() && chars[at] >= '0' && chars[at] <= '9'
        invariant
            from <= at <= chars.len(),
            after_digits(chars@, from as int) == after_digits(chars@, at as int),
        decreases chars.len() - at,
    {
        at = at + 1;
    }
    at
}

/// Whether `c` is a wildcard.
fn wildcard(c: char) -> (b: bool)
    ensures
        b == is_wildcard(c),
{
    c == 'x' || c == 'X' || c == '*'
}

/// Whether what follows `from` opens with a wildcard.
fn wildcard_opens(chars: &Vec<char>, from: usize) -> (b: bool)
    requires
        from <= chars.len(),
    ensures
        b == opens_with_wildcard(chars@, from as int),
{
    let at = skip_lead(chars, from);
    at < chars.len() && wildcard(chars[at])
}

/// Whether what follows `from` has a wildcard minor before a numeric patch.
fn minor_skipped(chars: &Vec<char>, from: usize) -> (b: bool)
    requires
        from <= chars.len(),
    ensures
        b == skips_the_minor(chars@, from as int),
{
    let start = skip_lead(chars, from);
    let dot = skip_digits(chars, start);
    start < dot && chars.len() - dot > 3 && chars[dot] == '.' && wildcard(chars[dot + 1]) && chars[dot
        + 2] == '.' && chars[dot + 3] >= '0' && chars[dot + 3] <= '9'
}

/// Whether `text` is kept from the range parser.
pub fn must_not_be_parsed(text: &str) -> (b: bool)
    ensures
        b == breaks_the_parser(text@),
{
    let chars = chars_of(text);
    let mut at: usize = 0;
    while at < chars.len()
        invariant
            at <= chars.len(),
            chars@ == text@,
            forall|k: int| 0 <= k < at ==> !breaks_the_parser_at(chars@, k),
        decreases chars.len() - at,
    {
        let c = chars[at];
        if c == '=' {
            let free = at == 0 || (chars[at - 1] != '>' && chars[at - 1] != '<');
            if free && wildcard_opens(&chars, at + 1) {
                assert(breaks_the_parser_at(chars@, at as int));
                return true;
            }
        } else if c == '~' {
            if wildcard_opens(&chars, at + 1) || minor_skipped(&chars, at + 1) {
                assert(breaks_the_parser_at(chars@, at as int));
                return true;
            }
        }
        at = at + 1;
    }
    false
}

/// Parses a range expression. A text that is no range is refused, and so is
/// one that is kept from the parser; the error carries the text.
pub fn parse_range(value: &str) -> (r: Result<VersionRange, ParseError>)
    ensures
        r is Ok <==> is_range(value@),
        r is Ok ==> r->Ok_0@ == value@,
        r is Err ==> r->Err_0.input@ == value@,
{
    if must_not_be_parsed(value) {
        return Err(ParseError { input: copy_str(value) });
    }
    match parse_range_text(value) {
        Ok(range) => Ok(range),
        Err(_) => Err(ParseError { input: copy_str(value) }),
    }
}

impl VersionRange {
    /// Whether `version` lies in the range.
    pub open spec fn admits(&self, version: VersionView) -> bool {
        range_satisfied(self@, version)
    }

    /// The canonical text of the range.
    pub open spec fn text(&self) -> Seq<char> {
        range_display(self@)
    }

    /// Parses a range expression. The error carries the text that was refused.
    pub fn parse(value: &str) -> (r: Result<VersionRange, ParseError>)
        ensures
            r is Ok <==> is_range(value@),
            r is Ok ==> r->Ok_0@ == value@,
            r is Err ==> r->Err_0.input@ == value@,
    {
        parse_range(value)
    }

    /// Whether `version` lies in the range.
    pub fn satisfies(&self, version: &Version) -> (r: bool)
        ensures
            r == self.admits(version@),
    {
        range_satisfies(self, version)
    }

    /// The canonical text of the range.
    pub fn to_string(&self) -> (s: String)
        ensures
            s@ == self.text(),
    {
        range_to_string(self)
    }
}

impl Clone for VersionRange {
    fn clone(&self) -> (r: VersionRange)
        ensures
            r@ == self@,
    {
        range_clone(self)
    }
}

} // verus!
