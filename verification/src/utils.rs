//! Yes-or-no questions: the text of the prompt and the reading of the answer.

use vstd::prelude::*;
use crate::bridge::{lowercase_chars, lowercase_mapping, uppercase_chars, uppercase_mapping};
use crate::text::{chars_of, copy_str};

verus! {

/// The first character of `mapping`, or `c` where the mapping is empty.
pub open spec fn first_or(mapping: Seq<char>, c: char) -> char {
    if mapping.len() > 0 {
        mapping[0]
    } else {
        c
    }
}

/// The letter `c` in the case that `uppercase` asks for.
pub open spec fn cased(c: char, uppercase: bool) -> char {
    if uppercase {
        first_or(uppercase_mapping(c), c)
    } else {
        first_or(lowercase_mapping(c), c)
    }
}

/// The first character of `mapping`, or `c` where the mapping is empty.
pub fn first_of(mapping: &Vec<char>, c: char) -> (r: char)
    ensures
        r == first_or(mapping@, c),
{
    if mapping.len() > 0 {
        mapping[0]
    } else {
        c
    }
}

/// Puts `c` in upper case if `uppercase` is set, in lower case otherwise.
pub fn uppercase_if_true(c: char, uppercase: bool) -> (r: char)
    ensures
        r == cased(c, uppercase),
{
    let mapping = if uppercase {
        uppercase_chars(c)
    } else {
        lowercase_chars(c)
    };
    first_of(&mapping, c)
}

/// The line that asks `question`: the question, then the two answers in
/// parentheses, the default one in upper case.
pub open spec fn question_text(question: Seq<char>, default_choice: bool) -> Seq<char> {
    question + seq![' ', '(', cased('y', default_choice), '/', cased('n', !default_choice), ')']
}

/// The line that asks `question`.
pub fn confirm_question(question: &str, default_choice: bool) -> (line: String)
    ensures
        line@ == question_text(question@, default_choice),
{
    let mut line = copy_str(question);
    line.push(' ');
    line.push('(');
    line.push(uppercase_if_true('y', default_choice));
    line.push('/');
    line.push(uppercase_if_true('n', !default_choice));
    line.push(')');
    proof {
        assert(line@ =~= question_text(question@, default_choice));
    }
    line
}

/// White space, as Unicode defines it.
pub open spec fn is_white_space(c: char) -> bool {
    let n = c as int;
    ||| 0x09 <= n <= 0x0d
    ||| n == 0x20
    ||| n == 0x85
    ||| n == 0xa0
    ||| n == 0x1680
    ||| 0x2000 <= n <= 0x200a
    ||| n == 0x2028
    ||| n == 0x2029
    ||| n == 0x202f
    ||| n == 0x205f
    ||| n == 0x3000
}

/// Whether `c` is white space.
pub fn white_space(c: char) -> (b: bool)
    ensures
        b == is_white_space(c),
{
    let n: u32 = c as u32;
    (0x09 <= n && n <= 0x0d) || n == 0x20 || n == 0x85 || n == 0xa0 || n == 0x1680 || (0x2000 <= n
        && n <= 0x200a) || n == 0x2028 || n == 0x2029 || n == 0x202f || n == 0x205f || n == 0x3000
}

/// The position of the first character of `s` that is no white space, or the
/// length of `s` where there is none.
pub open spec fn first_visible(s: Seq<char>) -> int
    decreases s.len(),
{
    if s.len() == 0 || !is_white_space(s[0]) {
        0
    } else {
        1 + first_visible(s.drop_first())
    }
}

/// What an answer means: `default_choice` where the answer is blank or begins
/// with a character outside ASCII; otherwise whether it begins with `y` or `Y`.
pub open spec fn choice_of(answer: Seq<char>, default_choice: bool) -> bool {
    let at = first_visible(answer);
    if at >= answer.len() || answer[at] as int >= 128 {
        default_choice
    } else {
        answer[at] == 'y' || answer[at] == 'Y'
    }
}

/// Reads the answer to a yes-or-no question.
pub fn confirm_choice(answer: &str, default_choice: bool) -> (r: bool)
    ensures
        r == choice_of(answer@, default_choice),
{
    let chars = chars_of(answer);
    let mut i: usize = 0;
    proof {
        assert(chars@.skip(0) =~= chars@);
    }
    while i < chars.len() && white_space(chars[i])
        invariant
            i <= chars.len(),
            first_visible(chars@) == i + first_visible(chars@.skip(i as int)),
        decreases chars.len() - i,
    {
        proof {
            assert(chars@.skip(i as int).drop_first() =~= chars@.skip(i + 1));
        }
        i = i + 1;
    }
    proof {
        let rest = chars@.skip(i as int);
        if i < chars.len() {
            assert(rest[0] == chars@[i as int]);
        }
        assert(first_visible(rest) == 0);
    }
    if i >= chars.len() {
        return default_choice;
    }
    let c = chars[i];
    if c >= '\u{80}' {
        default_choice
    } else {
        c == 'y' || c == 'Y'
    }
}

} // verus!
