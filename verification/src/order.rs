//! Three-way comparison and the lexicographic order it induces on sequences.

use vstd::prelude::*;

verus! {

/// The outcome of comparing a left value with a right one.
#[derive(Clone, Copy, Debug, PartialEq, Eq, Structural)]
pub enum Precedence {
    /// The left value sorts before the right one.
    Lower,
    /// Neither sorts before the other.
    Same,
    /// The left value sorts after the right one.
    Higher,
}

/// The outcome seen from the other side.
pub open spec fn flip(p: Precedence) -> Precedence {
    match p {
        Precedence::Lower => Precedence::Higher,
        Precedence::Same => Precedence::Same,
        Precedence::Higher => Precedence::Lower,
    }
}

/// Numeric comparison.
pub open spec fn int_precedence(a: int, b: int) -> Precedence {
    if a < b {
        Precedence::Lower
    } else if a == b {
        Precedence::Same
    } else {
        Precedence::Higher
    }
}

/// Comparison of two characters by code point.
pub open spec fn char_precedence(a: char, b: char) -> Precedence {
    int_precedence(a as int, b as int)
}

/// Lexicographic comparison: the first position at which the elements differ
/// decides; a proper prefix sorts before the longer sequence.
pub open spec fn lexicographic<T>(a: Seq<T>, b: Seq<T>, f: spec_fn(T, T) -> Precedence) -> Precedence
    decreases a.len(),
{
    if a.len() == 0 {
        if b.len() == 0 {
            Precedence::Same
        } else {
            Precedence::Lower
        }
    } else if b.len() == 0 {
        Precedence::Higher
    } else {
        match f(a[0], b[0]) {
            Precedence::Same => lexicographic(a.drop_first(), b.drop_first(), f),
            decided => decided,
        }
    }
}

/// `f` is a total order whose ties are equalities.
pub open spec fn is_total_order<T>(f: spec_fn(T, T) -> Precedence) -> bool {
    &&& forall|x: T| #[trigger] f(x, x) == Precedence::Same
    &&& forall|x: T, y: T| #[trigger] f(x, y) == Precedence::Same ==> x == y
    &&& forall|x: T, y: T| #[trigger] f(x, y) == flip(f(y, x))
    &&& forall|x: T, y: T, z: T|
        #[trigger] f(x, y) == Precedence::Lower && #[trigger] f(y, z) == Precedence::Lower ==> f(x, z)
            == Precedence::Lower
}

/// A sequence compares as `Same` with itself.
pub proof fn lemma_lexicographic_reflexive<T>(a: Seq<T>, f: spec_fn(T, T) -> Precedence)
    requires
        is_total_order(f),
    ensures
        lexicographic(a, a, f) == Precedence::Same,
    decreases a.len(),
{
    if a.len() > 0 {
        lemma_lexicographic_reflexive(a.drop_first(), f);
    }
}

/// Two sequences that compare as `Same` are equal.
pub proof fn lemma_lexicographic_same_is_equal<T>(a: Seq<T>, b: Seq<T>, f: spec_fn(T, T) -> Precedence)
    requires
        is_total_order(f),
        lexicographic(a, b, f) == Precedence::Same,
    ensures
        a == b,
    decreases a.len(),
{
    if a.len() > 0 {
        lemma_lexicographic_same_is_equal(a.drop_first(), b.drop_first(), f);
        assert(a =~= seq![a[0]] + a.drop_first());
        assert(b =~= seq![b[0]] + b.drop_first());
    } else {
        assert(a =~= b);
    }
}

/// Swapping the two sequences flips the outcome.
pub proof fn lemma_lexicographic_flip<T>(a: Seq<T>, b: Seq<T>, f: spec_fn(T, T) -> Precedence)
    requires
        is_total_order(f),
    ensures
        lexicographic(a, b, f) == flip(lexicographic(b, a, f)),
    decreases a.len(),
{
    if a.len() > 0 && b.len() > 0 {
        lemma_lexicographic_flip(a.drop_first(), b.drop_first(), f);
        assert(f(a[0], b[0]) == flip(f(b[0], a[0])));
    }
}

/// `Lower` chains: if `a` sorts before `b` and `b` before `c`, then `a` sorts
/// before `c`.
pub proof fn lemma_lexicographic_transitive<T>(
    a: Seq<T>,
    b: Seq<T>,
    c: Seq<T>,
    f: spec_fn(T, T) -> Precedence,
)
    requires
        is_total_order(f),
        lexicographic(a, b, f) == Precedence::Lower,
        lexicographic(b, c, f) == Precedence::Lower,
    ensures
        lexicographic(a, c, f) == Precedence::Lower,
    decreases a.len(),
{
    if a.len() > 0 {
        let ab = f(a[0], b[0]);
        let bc = f(b[0], c[0]);
        if ab == Precedence::Same && bc == Precedence::Same {
            lemma_lexicographic_transitive(a.drop_first(), b.drop_first(), c.drop_first(), f);
        } else {
            assert(f(b[0], a[0]) == flip(ab));
            assert(f(c[0], b[0]) == flip(bc));
        }
    }
}

/// Comparison by code point, as a function value.
pub open spec fn char_order() -> spec_fn(char, char) -> Precedence {
    |x: char, y: char| char_precedence(x, y)
}

/// Comparison by code point is a total order on characters.
pub proof fn lemma_char_order()
    ensures
        is_total_order(char_order()),
{
}

} // verus!
