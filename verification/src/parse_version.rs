//! Showing what a range expression is read as.

use vstd::prelude::*;
use crate::bridge::range_display;
use crate::engine::{Failure, FailureKind, FailureView};
use crate::files::VersionFile;
use crate::range::{is_range, parse_range};
use crate::text::copy_str;

verus! {

/// The command that shows what a range expression is read as.
#[derive(Debug)]
pub struct ParseVersionCommand {
    /// The expression. Where it is missing, the range of the version file of
    /// the project is shown.
    pub version: Option<String>,
}

/// `count` spaces.
pub open spec fn spaces(count: int) -> Seq<char> {
    Seq::new(
        if count > 0 {
            count as nat
        } else {
            0
        },
        |i: int| ' ',
    )
}

/// `text` in the middle of a field of `width` characters: spaces fill the
/// field on both sides, and the odd one goes to the right. A text that is
/// longer than the field stays as it is.
pub open spec fn centered(text: Seq<char>, width: int) -> Seq<char> {
    if text.len() >= width {
        text
    } else {
        let left = (width - text.len()) / 2;
        spaces(left) + text + spaces(width - text.len() - left)
    }
}

/// The number of bytes that `text` takes in UTF-8.
pub open spec fn byte_length(text: Seq<char>) -> int {
    (vstd::utf8::encode_utf8(text).len() as usize) as int
}

/// What is shown for an expression that is a range: the expression and an
/// arrow, each in the middle of a field as wide as the canonical text of the
/// range, and below them that text.
pub open spec fn reading(expression: Seq<char>) -> Seq<char> {
    let canonical = range_display(expression);
    let width = byte_length(canonical);
    centered(expression, width) + "\n"@ + centered("⬇"@, width) + "\n"@ + canonical
}

/// What the command shows: for a given expression, its reading, or that it
/// is no range; without one, the canonical text of the range of the version
/// file.
pub open spec fn shown(given: Option<Seq<char>>, file: Option<VersionFile>) -> Option<Seq<char>> {
    match given {
        Some(expression) => if is_range(expression) {
            Some(reading(expression))
        } else {
            Some("Failed to parse `"@ + expression + "`"@)
        },
        None => match file {
            Some(file) => Some(range_display(file.range_spec())),
            None => None,
        },
    }
}

/// Appends `count` spaces to `out`.
fn push_spaces(out: &mut String, count: usize)
    ensures
        final(out)@ == old(out)@ + spaces(count as int),
{
    let ghost start = out@;
    let mut i: usize = 0;
    proof {
        assert(start + spaces(0) =~= start);
    }
    while i < count
        invariant
            i <= count,
            out@ == start + spaces(i as int),
        decreases count - i,
    {
        out.push(' ');
        i = i + 1;
        proof {
            assert(start + spaces(i as int) =~= (start + spaces(i - 1)).push(' '));
        }
    }
}

/// Appends `text`, in the middle of a field of `width` characters, to `out`.
fn push_centered(out: &mut String, text: &str, width: usize)
    ensures
        final(out)@ == old(out)@ + centered(text@, width as int),
{
    let ghost start = out@;
    let length = text.unicode_len();
    if length >= width {
        out.append(text);
    } else {
        let left = (width - length) / 2;
        push_spaces(out, left);
        out.append(text);
        push_spaces(out, width - length - left);
        proof {
            assert(out@ =~= start + centered(text@, width as int));
        }
    }
}

impl ParseVersionCommand {
    /// What the command shows. It fails where there is neither an expression
    /// nor a version file.
    pub fn output(&self, file: Option<VersionFile>) -> (r: Result<String, Failure>)
        ensures
            ({
                let given = match self.version {
                    Some(expression) => Some(expression@),
                    None => None,
                };
                match r {
                    Ok(text) => shown(given, file) == Some(text@),
                    Err(failure) => shown(given, file) is None && failure@ == (FailureView {
                        kind: FailureKind::NothingToParse,
                        detail: ""@,
                    }),
                }
            }),
    {
        match &self.version {
            None => match file {
                Some(file) => {
                    let range = file.range();
                    Ok(range.to_string())
                },
                None => Err(Failure::new(FailureKind::NothingToParse, "")),
            },
            Some(expression) => {
                match parse_range(expression.as_str()) {
                    Ok(range) => {
                        let canonical = range.to_string();
                        let width = canonical.as_str().len();
                        let mut text = String::new();
                        push_centered(&mut text, expression.as_str(), width);
                        text.append("\n");
                        push_centered(&mut text, "⬇", width);
                        text.append("\n");
                        text.append(canonical.as_str());
                        proof {
                            assert(width as int == byte_length(canonical@));
                            assert(text@ =~= reading(expression@));
                        }
                        Ok(text)
                    },
                    Err(error) => {
                        let mut text = copy_str("Failed to parse `");
                        text.append(error.input.as_str());
                        text.append("`");
                        Ok(text)
                    },
                }
            },
        }
    }
}

} // verus!
