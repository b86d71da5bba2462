//! Where the entries of a distribution archive go. The archives hold one
//! folder at the top, named after the release; an installation holds what is
//! in that folder, and nothing may land outside the installation.

use vstd::prelude::*;
use crate::text::{
    chars_of, copy_str, join_path, path_join, separates, split, split_text, str_equal, texts,
    Separator,
};

verus! {

/// A component that says something: not empty, and not the `.` that stands
/// for the directory itself.
pub open spec fn says_something(component: Seq<char>) -> bool {
    component.len() > 0 && component != "."@
}

/// The components of an entry's path that say something, in their order.
pub open spec fn meaningful(components: Seq<Seq<char>>) -> Seq<Seq<char>> {
    components.filter(|c: Seq<char>| says_something(c))
}

/// Whether a path leads, or could lead, out of the directory it is taken
/// from: it starts at the root, or one of its components is `..`.
pub open spec fn escapes(path: Seq<char>) -> bool {
    ||| path.len() > 0 && separates(Separator::Path, path[0])
    ||| meaningful(split(path, Separator::Path)).contains(".."@)
}

/// Where an entry goes.
pub enum EntryPlace {
    /// The entry is the folder at the top of the archive, or nothing at all:
    /// there is nothing to write.
    Top,
    /// The entry goes under the installation, at the path with these
    /// components.
    Inside(Seq<Seq<char>>),
    /// The entry would leave the installation.
    Outside,
}

/// Where the entry with the path `path` goes: the path without its first
/// component.
pub open spec fn entry_place(path: Seq<char>) -> EntryPlace {
    let names = meaningful(split(path, Separator::Path));
    if escapes(path) {
        EntryPlace::Outside
    } else if names.len() <= 1 {
        EntryPlace::Top
    } else {
        EntryPlace::Inside(names.drop_first())
    }
}

/// The path with the components `names` under `base`.
pub open spec fn under(base: Seq<char>, names: Seq<Seq<char>>) -> Seq<char>
    decreases names.len(),
{
    if names.len() == 0 {
        base
    } else {
        path_join(under(base, names.drop_last()), names.last())
    }
}

/// A plain name: not empty, neither `.` nor `..`, and without a slash or a
/// backslash in it. Going down by a plain name never leads out of a
/// directory.
pub open spec fn is_plain_name(name: Seq<char>) -> bool {
    &&& name.len() > 0
    &&& name != "."@
    &&& name != ".."@
    &&& forall|k: int| 0 <= k < name.len() ==> !separates(Separator::Path, #[trigger] name[k])
}

/// No piece of a split text holds a separator.
pub proof fn lemma_pieces_hold_no_separator(s: Seq<char>, kind: Separator)
    ensures
        forall|i: int, k: int|
            0 <= i < split(s, kind).len() && 0 <= k < split(s, kind)[i].len() ==> !separates(
                kind,
                #[trigger] split(s, kind)[i][k],
            ),
    decreases s.len(),
{
    if s.len() > 0 {
        lemma_pieces_hold_no_separator(s.drop_last(), kind);
        crate::text::lemma_split_nonempty(s.drop_last(), kind);
        let before = split(s.drop_last(), kind);
        let after = split(s, kind);
        assert forall|i: int, k: int| 0 <= i < after.len() && 0 <= k < after[i].len() implies !separates(
            kind,
            #[trigger] after[i][k],
        ) by {
            if separates(kind, s.last()) {
                if i < before.len() {
                    assert(after[i][k] == before[i][k]);
                }
            } else {
                if i < before.len() - 1 {
                    assert(after[i][k] == before[i][k]);
                } else if k < before.last().len() {
                    assert(after[i][k] == before[before.len() - 1][k]);
                }
            }
        }
    }
}

/// What is written goes under the installation: the path of an entry that is
/// placed inside is made of plain names, and of one at least.
pub proof fn lemma_inside_is_made_of_plain_names(path: Seq<char>)
    ensures
        entry_place(path) matches EntryPlace::Inside(names) ==> names.len() > 0 && forall|i: int|
            0 <= i < names.len() ==> is_plain_name(#[trigger] names[i]),
{
    if let EntryPlace::Inside(names) = entry_place(path) {
        let parts = split(path, Separator::Path);
        let keep = |c: Seq<char>| says_something(c);
        let kept = parts.filter(keep);
        lemma_pieces_hold_no_separator(path, Separator::Path);
        assert forall|i: int| 0 <= i < names.len() implies is_plain_name(#[trigger] names[i]) by {
            assert(names[i] == kept[i + 1]);
            parts.lemma_filter_pred(keep, i + 1);
            assert(kept.contains(kept[i + 1]));
            parts.lemma_filter_contains_rev(keep, kept[i + 1]);
            let at = choose|at: int| 0 <= at < parts.len() && parts[at] == kept[i + 1];
            assert forall|k: int| 0 <= k < names[i].len() implies !separates(
                Separator::Path,
                #[trigger] names[i][k],
            ) by {
                assert(names[i][k] == split(path, Separator::Path)[at][k]);
            }
        }
    }
}

/// Where an entry goes.
#[derive(Debug)]
pub enum EntryTarget {
    /// There is nothing to write.
    Top,
    /// The entry goes under the installation, at the path with these
    /// components.
    Inside(Vec<String>),
    /// The entry would leave the installation.
    Outside,
}

impl View for EntryTarget {
    type V = EntryPlace;

    open spec fn view(&self) -> EntryPlace {
        match self {
            EntryTarget::Top => EntryPlace::Top,
            EntryTarget::Inside(names) => EntryPlace::Inside(texts(names@)),
            EntryTarget::Outside => EntryPlace::Outside,
        }
    }
}

/// Where the entry with the path `path` goes.
pub fn entry_target(path: &str) -> (target: EntryTarget)
    ensures
        target@ == entry_place(path@),
{
    let chars = chars_of(path);
    let absolute = chars.len() > 0 && (chars[0] == '/' || chars[0] == '\\');
    let components = split_text(path, Separator::Path);
    let ghost all = texts(components@);
    let ghost keep = |c: Seq<char>| says_something(c);
    let mut names: Vec<String> = Vec::new();
    let mut climbs = false;
    proof {
        reveal(Seq::filter);
        assert(all.take(0).filter(keep) =~= Seq::<Seq<char>>::empty());
        assert(texts(names@) =~= Seq::<Seq<char>>::empty());
    }
    for component in it: components.into_iter()
        invariant
            texts(it.seq()) == all,
            keep == (|c: Seq<char>| says_something(c)),
            texts(names@) == all.take(it.index() as int).filter(keep),
            climbs == texts(names@).contains(".."@),
    {
        let ghost before = texts(names@);
        proof {
            reveal(Seq::filter);
            let next = all.take(it.index() + 1);
            assert(next.drop_last() =~= all.take(it.index() as int));
            assert(next.last() == component@);
        }
        let empty = component.as_str().is_empty();
        if !empty && !str_equal(component.as_str(), ".") {
            if str_equal(component.as_str(), "..") {
                climbs = true;
            }
            proof {
                assert(texts(names@.push(component)) =~= before.push(component@));
                let after = before.push(component@);
                assert(after[after.len() - 1] == component@);
                if before.contains(".."@) {
                    let k = choose|k: int| 0 <= k < before.len() && before[k] == ".."@;
                    assert(after[k] == ".."@);
                }
                if after.contains(".."@) && component@ != ".."@ {
                    let k = choose|k: int| 0 <= k < after.len() && after[k] == ".."@;
                    assert(before[k] == ".."@);
                }
            }
            names.push(component);
        }
    }
    proof {
        assert(all.take(all.len() as int) =~= all);
    }
    if absolute || climbs {
        EntryTarget::Outside
    } else if names.len() <= 1 {
        EntryTarget::Top
    } else {
        let ghost whole = texts(names@);
        let top = names.remove(0);
        proof {
            assert(texts(names@) =~= whole.drop_first());
        }
        EntryTarget::Inside(names)
    }
}

/// The path with the components `names` under `base`.
pub fn path_under(base: &str, names: &Vec<String>) -> (path: String)
    ensures
        path@ == under(base@, texts(names@)),
{
    let ghost all = texts(names@);
    let mut path = copy_str(base);
    let mut i: usize = 0;
    proof {
        assert(all.take(0) =~= Seq::<Seq<char>>::empty());
    }
    while i < names.len()
        invariant
            i <= names.len(),
            all == texts(names@),
            path@ == under(base@, all.take(i as int)),
        decreases names.len() - i,
    {
        proof {
            let next = all.take(i + 1);
            assert(next.drop_last() =~= all.take(i as int));
            assert(next.last() == names@[i as int]@);
        }
        path = join_path(path.as_str(), names[i].as_str());
        i = i + 1;
    }
    proof {
        assert(all.take(names.len() as int) =~= all);
    }
    path
}

} // verus!
