//! Character sequences: the model that every string of the crate is stated in,
//! and the small executable helpers that build and inspect strings.

use vstd::prelude::*;

verus! {

/// A decimal digit.
pub open spec fn is_decimal_digit(c: char) -> bool {
    '0' <= c <= '9'
}

/// The character that stands for the decimal digit `d`.
pub open spec fn digit_char(d: nat) -> char
    recommends
        d < 10,
{
    ((d + 48) as u8) as char
}

/// The decimal notation of `n`, without leading zeros.
pub open spec fn decimal(n: nat) -> Seq<char>
    decreases n,
{
    if n < 10 {
        seq![digit_char(n)]
    } else {
        decimal(n / 10).push(digit_char(n % 10))
    }
}

/// The characters of `s`, one by one.
pub fn chars_of(s: &str) -> (v: Vec<char>)
    ensures
        v@ == s@,
{
    let mut v: Vec<char> = Vec::new();
    for c in it: s.chars()
        invariant
            v@ == it.seq().take(it.index() as int),
            it.seq() == s@,
    {
        v.push(c);
    }
    v
}

/// The string made of the characters `chars[from..to]`.
pub(crate) fn string_of(chars: &Vec<char>, from: usize, to: usize) -> (s: String)
    requires
        from <= to <= chars.len(),
    ensures
        s@ == chars@.subrange(from as int, to as int),
{
    let mut s = String::new();
    let mut i: usize = from;
    while i < to
        invariant
            from <= i <= to <= chars.len(),
            s@ == chars@.subrange(from as int, i as int),
        decreases to - i,
    {
        s.push(chars[i]);
        i = i + 1;
        proof {
            assert(chars@.subrange(from as int, i as int) == chars@.subrange(from as int, i - 1).push(
                chars@[i - 1],
            ));
        }
    }
    s
}

/// `name` placed under the directory `base`: the two are joined by one `/`,
/// which is left out where `base` is empty or already ends with one.
pub open spec fn path_join(base: Seq<char>, name: Seq<char>) -> Seq<char> {
    if base.len() == 0 {
        name
    } else if base.last() == '/' {
        base + name
    } else {
        base + seq!['/'] + name
    }
}

/// The path of `name` under the directory `base`.
pub fn join_path(base: &str, name: &str) -> (path: String)
    ensures
        path@ == path_join(base@, name@),
{
    let chars = chars_of(base);
    let mut path = copy_str(base);
    if chars.len() > 0 && chars[chars.len() - 1] != '/' {
        path.push('/');
    }
    path.append(name);
    proof {
        assert(path@ =~= path_join(base@, name@));
    }
    path
}

/// The texts of a sequence of strings.
pub open spec fn texts(strings: Seq<String>) -> Seq<Seq<char>> {
    strings.map_values(|s: String| s@)
}

/// The texts of `items` in one text, with `separator` between each two.
pub open spec fn joined(items: Seq<Seq<char>>, separator: Seq<char>) -> Seq<char>
    decreases items.len(),
{
    if items.len() == 0 {
        Seq::empty()
    } else if items.len() == 1 {
        items[0]
    } else {
        joined(items.drop_last(), separator) + separator + items.last()
    }
}

/// What a text is cut at.
#[derive(Clone, Copy, Debug, PartialEq, Eq, Structural)]
pub enum Separator {
    /// A slash or a backslash: between the components of a path.
    Path,
    /// A space.
    Space,
    /// A line feed.
    Line,
}

/// Whether a text is cut at `c`.
pub open spec fn separates(kind: Separator, c: char) -> bool {
    match kind {
        Separator::Path => c == '/' || c == '\\',
        Separator::Space => c == ' ',
        Separator::Line => c == '\n',
    }
}

/// The pieces of `s` between the separators. A text with `n` separators has
/// `n + 1` pieces; pieces may be empty.
pub open spec fn split(s: Seq<char>, kind: Separator) -> Seq<Seq<char>>
    decreases s.len(),
{
    if s.len() == 0 {
        seq![Seq::empty()]
    } else {
        let before = split(s.drop_last(), kind);
        if separates(kind, s.last()) {
            before.push(Seq::empty())
        } else {
            before.drop_last().push(before.last().push(s.last()))
        }
    }
}

/// A split text has at least one piece.
pub proof fn lemma_split_nonempty(s: Seq<char>, kind: Separator)
    ensures
        split(s, kind).len() >= 1,
    decreases s.len(),
{
    if s.len() > 0 {
        lemma_split_nonempty(s.drop_last(), kind);
    }
}

/// A text without a separator is one piece.
pub proof fn lemma_split_of_one_piece(s: Seq<char>, kind: Separator)
    requires
        forall|k: int| 0 <= k < s.len() ==> !separates(kind, #[trigger] s[k]),
    ensures
        split(s, kind) == seq![s],
    decreases s.len(),
{
    if s.len() > 0 {
        lemma_split_of_one_piece(s.drop_last(), kind);
        assert(s.drop_last().push(s.last()) =~= s);
        assert(seq![s.drop_last()].last() == s.drop_last());
        assert(seq![s.drop_last()].drop_last().push(s) =~= seq![s]);
    } else {
        assert(Seq::<char>::empty() =~= s);
    }
}

/// A text without a separator, put behind another text, goes to the last
/// piece of that text.
pub proof fn lemma_split_with_tail(s: Seq<char>, tail: Seq<char>, kind: Separator)
    requires
        forall|k: int| 0 <= k < tail.len() ==> !separates(kind, #[trigger] tail[k]),
    ensures
        split(s + tail, kind) == split(s, kind).drop_last().push(split(s, kind).last() + tail),
    decreases tail.len(),
{
    lemma_split_nonempty(s, kind);
    let pieces = split(s, kind);
    if tail.len() == 0 {
        assert(s + tail =~= s);
        assert(pieces.last() + tail =~= pieces.last());
        assert(pieces.drop_last().push(pieces.last()) =~= pieces);
    } else {
        let front = tail.drop_last();
        lemma_split_with_tail(s, front, kind);
        assert((s + tail).drop_last() =~= s + front);
        assert((s + tail).last() == tail.last());
        let before = split(s + front, kind);
        assert(before.last() == pieces.last() + front);
        assert(before.drop_last() =~= pieces.drop_last());
        assert((pieces.last() + front).push(tail.last()) =~= pieces.last() + tail);
    }
}

/// The last piece of a path that was joined is the name that was put under
/// the directory, if the name holds no separator.
pub proof fn lemma_joined_path_ends_with_name(base: Seq<char>, name: Seq<char>)
    requires
        forall|k: int| 0 <= k < name.len() ==> !separates(Separator::Path, #[trigger] name[k]),
    ensures
        split(path_join(base, name), Separator::Path).len() >= 1,
        split(path_join(base, name), Separator::Path).last() == name,
        base.len() > 0 ==> split(path_join(base, name), Separator::Path).drop_last() == if base.last()
            == '/' {
            split(base, Separator::Path).drop_last()
        } else {
            split(base, Separator::Path)
        },
{
    let kind = Separator::Path;
    if base.len() == 0 {
        lemma_split_of_one_piece(name, kind);
    } else if base.last() == '/' {
        lemma_split_with_tail(base, name, kind);
        lemma_split_nonempty(base.drop_last(), kind);
        assert(split(base, kind).last() =~= Seq::<char>::empty());
        assert(Seq::<char>::empty() + name =~= name);
    } else {
        let slashed = base + seq!['/'];
        assert(slashed.drop_last() =~= base);
        assert(slashed.last() == '/');
        lemma_split_with_tail(slashed, name, kind);
        assert(Seq::<char>::empty() + name =~= name);
        assert(split(slashed, kind).drop_last() =~= split(base, kind));
    }
}

/// Whether a text is cut at `c`.
pub fn is_separator(kind: Separator, c: char) -> (b: bool)
    ensures
        b == separates(kind, c),
{
    match kind {
        Separator::Path => c == '/' || c == '\\',
        Separator::Space => c == ' ',
        Separator::Line => c == '\n',
    }
}

/// Cuts `s` at the separators.
pub fn split_text(s: &str, kind: Separator) -> (parts: Vec<String>)
    ensures
        texts(parts@) == split(s@, kind),
        parts.len() >= 1,
{
    let chars = chars_of(s);
    let mut parts: Vec<String> = Vec::new();
    let mut current = String::new();
    let mut i: usize = 0;
    proof {
        assert(chars@.take(0) =~= Seq::<char>::empty());
        assert(texts(parts@).push(current@) =~= split(chars@.take(0), kind));
    }
    while i < chars.len()
        invariant
            i <= chars.len(),
            chars@ == s@,
            texts(parts@).push(current@) == split(chars@.take(i as int), kind),
        decreases chars.len() - i,
    {
        let c = chars[i];
        let ghost before = texts(parts@);
        let ghost piece = current@;
        proof {
            let next = chars@.take(i + 1);
            assert(next.drop_last() =~= chars@.take(i as int));
            assert(next.last() == c);
            assert(before.push(piece).drop_last() =~= before);
        }
        if is_separator(kind, c) {
            proof {
                assert(texts(parts@.push(current)) =~= before.push(piece));
            }
            parts.push(current);
            current = String::new();
        } else {
            current.push(c);
        }
        i = i + 1;
    }
    proof {
        assert(chars@.take(chars.len() as int) =~= chars@);
        assert(texts(parts@.push(current)) =~= texts(parts@).push(current@));
    }
    parts.push(current);
    parts
}

/// Whether `s` begins with `prefix`.
pub fn starts_with(s: &str, prefix: &str) -> (b: bool)
    ensures
        b == prefix@.is_prefix_of(s@),
{
    let text = chars_of(s);
    let head = chars_of(prefix);
    if head.len() > text.len() {
        return false;
    }
    let mut i: usize = 0;
    while i < head.len()
        invariant
            i <= head.len() <= text.len(),
            text@ == s@,
            head@ == prefix@,
            forall|k: int| 0 <= k < i ==> text@[k] == head@[k],
        decreases head.len() - i,
    {
        if text[i] != head[i] {
            proof {
                if prefix@.is_prefix_of(s@) {
                    assert(s@.subrange(0, prefix@.len() as int)[i as int] == s@[i as int]);
                }
            }
            return false;
        }
        i = i + 1;
    }
    proof {
        assert(s@.subrange(0, prefix@.len() as int) =~= prefix@);
    }
    true
}

/// A copy of `s`.
pub fn copy_str(s: &str) -> (r: String)
    ensures
        r@ == s@,
{
    s.to_owned()
}

/// Whether two strings hold the same characters.
pub fn str_equal(a: &str, b: &str) -> (r: bool)
    ensures
        r == (a@ == b@),
{
    let x = chars_of(a);
    let y = chars_of(b);
    if x.len() != y.len() {
        return false;
    }
    let mut i: usize = 0;
    while i < x.len()
        invariant
            i <= x.len(),
            x.len() == y.len(),
            x@ == a@,
            y@ == b@,
            forall|k: int| 0 <= k < i ==> x@[k] == y@[k],
        decreases x.len() - i,
    {
        if x[i] != y[i] {
            return false;
        }
        i = i + 1;
    }
    proof {
        assert(x@ =~= y@);
    }
    true
}

} // verus!
