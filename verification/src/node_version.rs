//! Published and installed versions of Node.js, and the queries that pick
//! among them.

use std::collections::HashMap;
use vstd::prelude::*;
use crate::bridge::{range_satisfied, VersionRange};
use crate::config::Config;
use crate::order::Precedence;
use crate::platform::Target;
use crate::select::{first_flagged, first_yes, keep_flagged, lemma_flagged_is_filter};
use crate::sorting::{
    is_descending, lemma_sort_descending, sort_descending, sort_versions_descending, version_views,
};
use crate::text::{copy_str, join_path, path_join, texts};
use crate::version::{
    at_least, lemma_at_least_transitive, lemma_precedence_flip, lemma_precedence_same,
    parse_version_str, same_precedence, version_of_text, version_precedence, version_text, Version,
    VersionView,
};

verus! {

/// Anything that stands for one version of Node.js.
pub trait NodeVersion {
    /// The model of the version.
    spec fn version_view(&self) -> VersionView;

    /// The version.
    fn version(&self) -> (version: &Version)
        ensures
            version@ == self.version_view(),
    ;
}

/// Compares what two values stand for, by precedence.
pub fn compare_versions<A: NodeVersion, B: NodeVersion>(a: &A, b: &B) -> (p: Precedence)
    ensures
        p == version_precedence(a.version_view(), b.version_view()),
{
    a.version().compare(b.version())
}

/// Whether two values stand for the same version, build metadata aside.
pub fn same_version<A: NodeVersion, B: NodeVersion>(a: &A, b: &B) -> (same: bool)
    ensures
        same == same_precedence(a.version_view(), b.version_view()),
{
    proof {
        lemma_precedence_same(a.version_view(), b.version_view());
    }
    matches!(a.version().compare(b.version()), Precedence::Same)
}

/// The versions of `versions` that lie in the range with the text `range`, in
/// their order.
pub open spec fn matching<V: NodeVersion>(versions: Seq<V>, range: Seq<char>) -> Seq<V> {
    versions.filter(|v: V| range_satisfied(range, v.version_view()))
}

/// For each of `versions`, whether it lies in `version_range`.
pub fn matches_of<V: NodeVersion>(versions: &Vec<V>, version_range: &VersionRange) -> (flags: Vec<
    bool,
>)
    ensures
        flags.len() == versions.len(),
        forall|i: int|
            0 <= i < versions.len() ==> flags[i] == range_satisfied(
                version_range@,
                (#[trigger] versions[i]).version_view(),
            ),
{
    let mut flags: Vec<bool> = Vec::new();
    let mut i: usize = 0;
    while i < versions.len()
        invariant
            i <= versions.len(),
            flags.len() == i,
            forall|k: int|
                0 <= k < i ==> flags[k] == range_satisfied(
                    version_range@,
                    (#[trigger] versions[k]).version_view(),
                ),
        decreases versions.len() - i,
    {
        flags.push(version_range.satisfies(versions[i].version()));
        i = i + 1;
    }
    flags
}

/// Keeps the versions that lie in `version_range`, in their order.
pub fn filter_version_req<V: NodeVersion>(versions: Vec<V>, version_range: &VersionRange) -> (kept:
    Vec<V>)
    ensures
        kept@ == matching(versions@, version_range@),
{
    let flags = matches_of(&versions, version_range);
    proof {
        lemma_flagged_is_filter(
            versions@,
            flags@,
            |v: V| range_satisfied(version_range@, v.version_view()),
        );
    }
    keep_flagged(versions, &flags)
}

/// The major number of `versions[j]`.
pub open spec fn major_at<V: NodeVersion>(versions: Seq<V>, j: int) -> nat {
    versions[j].version_view().major
}

/// Among the first `upto` versions, `versions[k]` is the latest of its major
/// version: none of them with the same major number sorts after it, and
/// those behind it sort before it.
pub open spec fn is_latest_among<V: NodeVersion>(versions: Seq<V>, upto: int, k: int) -> bool {
    &&& 0 <= k < upto <= versions.len()
    &&& forall|j: int|
        0 <= j < upto && #[trigger] major_at(versions, j) == major_at(versions, k) ==> {
            &&& at_least(versions[k].version_view(), versions[j].version_view())
            &&& j > k ==> version_precedence(versions[j].version_view(), versions[k].version_view())
                == Precedence::Lower
        }
}

/// `versions[k]` is the latest of its major version.
pub open spec fn is_latest_of_major<V: NodeVersion>(versions: Seq<V>, k: int) -> bool {
    is_latest_among(versions, versions.len() as int, k)
}

/// Some position in `chosen` is that of a version with the major number of
/// `versions[j]`.
pub open spec fn covers_major<V: NodeVersion>(versions: Seq<V>, chosen: Seq<usize>, j: int) -> bool {
    exists|i: int|
        0 <= i < chosen.len() && major_at(versions, #[trigger] chosen[i] as int) == major_at(
            versions,
            j,
        )
}

/// `chosen` holds, for each major version that occurs in `versions`, the
/// position of the latest version of that major, and nothing else.
pub open spec fn picks_latest_of_each_major<V: NodeVersion>(
    versions: Seq<V>,
    chosen: Seq<usize>,
) -> bool {
    &&& forall|i: int|
        0 <= i < chosen.len() ==> is_latest_of_major(versions, #[trigger] chosen[i] as int)
    &&& forall|j: int| 0 <= j < versions.len() ==> #[trigger] covers_major(versions, chosen, j)
    &&& forall|a: int, b: int|
        0 <= a < b < chosen.len() ==> major_at(versions, #[trigger] chosen[a] as int) != major_at(
            versions,
            #[trigger] chosen[b] as int,
        )
}

/// The positions of the latest version of each major version, in the order
/// in which the major versions first occur.
pub fn latest_positions<V: NodeVersion>(versions: &[V]) -> (chosen: Vec<usize>)
    ensures
        picks_latest_of_each_major(versions@, chosen@),
{
    let ghost all = versions@;
    let mut slots: HashMap<u64, usize> = HashMap::new();
    let mut chosen: Vec<usize> = Vec::new();
    let mut p: usize = 0;
    while p < versions.len()
        invariant
            p <= versions.len(),
            all == versions@,
            forall|i: int|
                0 <= i < chosen.len() ==> is_latest_among(all, p as int, #[trigger] chosen[i] as int),
            forall|j: int|
                0 <= j < p ==> #[trigger] major_at(all, j) <= u64::MAX && slots@.contains_key(
                    major_at(all, j) as u64,
                ),
            forall|m: u64| #[trigger]
                slots@.contains_key(m) ==> slots@[m] < chosen.len() && major_at(
                    all,
                    chosen[slots@[m] as int] as int,
                ) == m,
            forall|i: int|
                0 <= i < chosen.len() ==> slots@.contains_key(
                    major_at(all, #[trigger] chosen[i] as int) as u64,
                ) && slots@[major_at(all, chosen[i] as int) as u64] == i,
        decreases versions.len() - p,
    {
        let major: u64 = versions[p].version().major;
        let ghost here = all[p as int].version_view();
        let ghost old_chosen = chosen@;
        let ghost old_slots = slots@;
        assert(major_at(all, p as int) == major);
        proof {
            lemma_precedence_same(here, here);
            assert forall|i: int| 0 <= i < old_chosen.len() implies major_at(
                all,
                #[trigger] old_chosen[i] as int,
            ) <= u64::MAX by {
                assert(is_latest_among(all, p as int, old_chosen[i] as int));
                assert(major_at(all, old_chosen[i] as int) <= u64::MAX);
            }
        }
        match slots.get(&major) {
            Some(slot) => {
                let slot: usize = *slot;
                let current: usize = chosen[slot];
                let ghost held = all[current as int].version_view();
                proof {
                    lemma_precedence_flip(here, held);
                    assert(is_latest_among(all, p as int, current as int));
                }
                if matches!(
                    versions[p].version().compare(versions[current].version()),
                    Precedence::Lower
                ) {
                } else {
                    chosen.set(slot, p);
                    proof {
                        assert forall|j: int|
                            0 <= j < p + 1 && #[trigger] major_at(all, j) == major implies at_least(
                            here,
                            all[j].version_view(),
                        ) by {
                            if j < p {
                                assert(at_least(held, all[j].version_view()));
                                lemma_at_least_transitive(here, held, all[j].version_view());
                            }
                        }
                    }
                }
                proof {
                    assert forall|i: int| 0 <= i < chosen.len() implies is_latest_among(
                        all,
                        p + 1,
                        #[trigger] chosen[i] as int,
                    ) by {
                        assert(is_latest_among(all, p as int, old_chosen[i] as int));
                        if i != slot {
                            let m = major_at(all, old_chosen[i] as int) as u64;
                            assert(old_slots.contains_key(m) && old_slots[m] == i);
                        }
                    }
                    assert forall|i: int| 0 <= i < chosen.len() implies slots@.contains_key(
                        major_at(all, #[trigger] chosen[i] as int) as u64,
                    ) && slots@[major_at(all, chosen[i] as int) as u64] == i by {
                        let m = major_at(all, old_chosen[i] as int) as u64;
                        assert(old_slots.contains_key(m) && old_slots[m] == i);
                    }
                }
            },
            None => {
                chosen.push(p);
                slots.insert(major, chosen.len() - 1);
                proof {
                    assert forall|j: int| 0 <= j < p implies #[trigger] major_at(all, j)
                        != major by {
                        assert(old_slots.contains_key(major_at(all, j) as u64));
                    }
                    assert forall|i: int| 0 <= i < chosen.len() implies is_latest_among(
                        all,
                        p + 1,
                        #[trigger] chosen[i] as int,
                    ) by {
                        if i < old_chosen.len() {
                            assert(is_latest_among(all, p as int, old_chosen[i] as int));
                            let m = major_at(all, old_chosen[i] as int) as u64;
                            assert(old_slots.contains_key(m) && old_slots[m] == i);
                        }
                    }
                    assert forall|i: int| 0 <= i < chosen.len() implies slots@.contains_key(
                        major_at(all, #[trigger] chosen[i] as int) as u64,
                    ) && slots@[major_at(all, chosen[i] as int) as u64] == i by {
                        if i < old_chosen.len() {
                            let m = major_at(all, old_chosen[i] as int) as u64;
                            assert(old_slots.contains_key(m) && old_slots[m] == i);
                        }
                    }
                    assert forall|m: u64| #[trigger] slots@.contains_key(m) implies slots@[m]
                        < chosen.len() && major_at(all, chosen[slots@[m] as int] as int) == m by {
                        if m != major {
                            assert(old_slots.contains_key(m));
                        }
                    }
                }
            },
        }
        p = p + 1;
    }
    proof {
        assert forall|j: int| 0 <= j < all.len() implies #[trigger] covers_major(
            all,
            chosen@,
            j,
        ) by {
            let m = major_at(all, j) as u64;
            assert(slots@.contains_key(m));
            let i = slots@[m] as int;
            assert(major_at(all, chosen[i] as int) == m);
        }
        assert forall|a: int, b: int| 0 <= a < b < chosen.len() implies major_at(
            all,
            #[trigger] chosen[a] as int,
        ) != major_at(all, #[trigger] chosen[b] as int) by {
            let ma = major_at(all, chosen[a] as int) as u64;
            let mb = major_at(all, chosen[b] as int) as u64;
            assert(slots@.contains_key(ma) && slots@[ma] == a);
            assert(slots@.contains_key(mb) && slots@[mb] == b);
        }
        assert forall|i: int| 0 <= i < chosen.len() implies is_latest_of_major(
            all,
            #[trigger] chosen[i] as int,
        ) by {
            assert(is_latest_among(all, p as int, chosen[i] as int));
        }
    }
    chosen
}

/// For each major version that occurs in `versions`, the latest version of
/// that major. Which of them comes first is left open.
pub fn get_latest_of_each_major<V: NodeVersion>(versions: &[V]) -> (latest: Vec<&V>)
    ensures
        exists|chosen: Seq<usize>|
            {
                &&& picks_latest_of_each_major(versions@, chosen)
                &&& latest.len() == chosen.len()
                &&& forall|i: int|
                    0 <= i < latest.len() ==> *(#[trigger] latest[i]) == versions[chosen[i] as int]
            },
{
    let chosen = latest_positions(versions);
    let mut latest: Vec<&V> = Vec::new();
    let mut i: usize = 0;
    proof {
        assert forall|k: int| 0 <= k < chosen.len() implies (#[trigger] chosen[k]) < versions.len() by {
            assert(is_latest_of_major(versions@, chosen[k] as int));
        }
    }
    while i < chosen.len()
        invariant
            i <= chosen.len(),
            latest.len() == i,
            forall|k: int| 0 <= k < chosen.len() ==> (#[trigger] chosen[k]) < versions.len(),
            forall|k: int| 0 <= k < i ==> *(#[trigger] latest[k]) == versions[chosen[k] as int],
        decreases chosen.len() - i,
    {
        latest.push(&versions[chosen[i]]);
        i = i + 1;
    }
    latest
}

/// A version that is published for download.
#[derive(Debug)]
pub struct OnlineNodeVersion {
    pub version: Version,
    /// The day of the release, as the index gives it.
    pub release_date: String,
    /// The names of the files that the release offers.
    pub files: Vec<String>,
}

impl NodeVersion for OnlineNodeVersion {
    open spec fn version_view(&self) -> VersionView {
        self.version@
    }

    fn version(&self) -> (version: &Version) {
        &self.version
    }
}

impl OnlineNodeVersion {
    /// A published version.
    pub fn new(version: Version, release_date: String, files: Vec<String>) -> (online: Self)
        ensures
            online.version == version,
            online.release_date == release_date,
            online.files == files,
    {
        OnlineNodeVersion { version, release_date, files }
    }

    /// The address of the index of the published versions.
    pub fn index_url() -> (url: &'static str)
        ensures
            url@ == "https://nodejs.org/dist/index.json"@,
    {
        "https://nodejs.org/dist/index.json"
    }

    /// The name of the archive of this version for `target`:
    /// `node-v{version}-{platform}-{arch}{ext}`.
    pub open spec fn file_spec(&self, target: Target) -> Seq<char> {
        "node-v"@ + version_text(self.version@) + "-"@ + target.platform.name_spec() + "-"@
            + target.arch.name_spec() + target.platform.archive_ext_spec()
    }

    /// The address of the archive of this version for `target`:
    /// `https://nodejs.org/dist/v{version}/{file}`.
    pub open spec fn download_url_spec(&self, target: Target) -> Seq<char> {
        "https://nodejs.org/dist/v"@ + version_text(self.version@) + "/"@ + self.file_spec(target)
    }

    /// The directory that this version is installed in.
    pub fn install_path(&self, config: &Config) -> (path: String)
        ensures
            path@ == path_join(config.versions_dir_spec(), version_text(self.version@)),
    {
        let versions_dir = config.get_versions_dir();
        let name = self.version.to_string();
        join_path(versions_dir.as_str(), name.as_str())
    }

    /// The name of the archive of this version for `target`.
    pub fn file(&self, target: Target) -> (name: String)
        ensures
            name@ == self.file_spec(target),
    {
        let mut name = copy_str("node-v");
        let version = self.version.to_string();
        name.append(version.as_str());
        name.append("-");
        name.append(target.platform.name());
        name.append("-");
        name.append(target.arch.name());
        name.append(target.platform.archive_ext());
        name
    }

    /// The address of the archive of this version for `target`.
    pub fn download_url(&self, target: Target) -> (url: String)
        ensures
            url@ == self.download_url_spec(target),
    {
        let file_name = self.file(target);
        let mut url = copy_str("https://nodejs.org/dist/v");
        let version = self.version.to_string();
        url.append(version.as_str());
        url.append("/");
        url.append(file_name.as_str());
        url
    }

    /// The canonical text of the version.
    pub fn to_string(&self) -> (s: String)
        ensures
            s@ == version_text(self.version@),
    {
        self.version.to_string()
    }
}

/// A version that is present under the versions directory.
#[derive(Debug)]
pub struct InstalledNodeVersion {
    pub version: Version,
    /// The directory that holds the installation.
    pub path: String,
}

impl NodeVersion for InstalledNodeVersion {
    open spec fn version_view(&self) -> VersionView {
        self.version@
    }

    fn version(&self) -> (version: &Version) {
        &self.version
    }
}

impl Clone for InstalledNodeVersion {
    fn clone(&self) -> (copy: InstalledNodeVersion)
        ensures
            copy.version@ == self.version@,
            copy.path@ == self.path@,
    {
        InstalledNodeVersion { version: self.version.clone(), path: self.path.clone() }
    }
}

/// One entry of the versions directory.
#[derive(Debug)]
pub struct DirectoryEntry {
    pub name: String,
    /// Whether the entry is a directory.
    pub is_directory: bool,
}

/// The names of the entries that are directories, in their order.
pub open spec fn subdirectories(entries: Seq<DirectoryEntry>) -> Seq<Seq<char>>
    decreases entries.len(),
{
    if entries.len() == 0 {
        Seq::empty()
    } else if entries.last().is_directory {
        subdirectories(entries.drop_last()).push(entries.last().name@)
    } else {
        subdirectories(entries.drop_last())
    }
}

/// The names of the entries that are directories, in their order.
pub fn directory_names(entries: &Vec<DirectoryEntry>) -> (names: Vec<String>)
    ensures
        texts(names@) == subdirectories(entries@),
{
    let mut names: Vec<String> = Vec::new();
    let mut i: usize = 0;
    proof {
        assert(entries@.take(0) =~= Seq::<DirectoryEntry>::empty());
        assert(texts(names@) =~= Seq::<Seq<char>>::empty());
    }
    while i < entries.len()
        invariant
            i <= entries.len(),
            texts(names@) == subdirectories(entries@.take(i as int)),
        decreases entries.len() - i,
    {
        let ghost before = texts(names@);
        proof {
            let next = entries@.take(i + 1);
            assert(next.drop_last() =~= entries@.take(i as int));
            assert(next.last() == entries@[i as int]);
        }
        if entries[i].is_directory {
            let name = entries[i].name.clone();
            proof {
                assert(texts(names@.push(name)) =~= before.push(name@));
            }
            names.push(name);
        }
        i = i + 1;
    }
    proof {
        assert(entries@.take(entries.len() as int) =~= entries@);
    }
    names
}

/// A subdirectory is listed by its name, and nothing else is: the names of
/// the subdirectories are exactly those of the entries that are directories.
pub proof fn lemma_subdirectories(entries: Seq<DirectoryEntry>, name: Seq<char>)
    ensures
        subdirectories(entries).contains(name) <==> exists|i: int|
            0 <= i < entries.len() && (#[trigger] entries[i]).is_directory && entries[i].name@
                == name,
    decreases entries.len(),
{
    if entries.len() > 0 {
        let front = entries.drop_last();
        let last = entries.last();
        lemma_subdirectories(front, name);
        let before = subdirectories(front);
        let after = subdirectories(entries);
        if after.contains(name) {
            let at = choose|at: int| 0 <= at < after.len() && after[at] == name;
            if at < before.len() {
                assert(before[at] == name);
                let i = choose|i: int|
                    0 <= i < front.len() && (#[trigger] front[i]).is_directory && front[i].name@
                        == name;
                assert(entries[i] == front[i]);
            } else {
                assert(entries[entries.len() - 1].is_directory);
            }
        }
        if exists|i: int|
            0 <= i < entries.len() && (#[trigger] entries[i]).is_directory && entries[i].name@
                == name {
            let i = choose|i: int|
                0 <= i < entries.len() && (#[trigger] entries[i]).is_directory && entries[i].name@
                    == name;
            if i < front.len() {
                assert(front[i] == entries[i]);
                let at = choose|at: int| 0 <= at < before.len() && before[at] == name;
                assert(after[at] == name);
            } else {
                assert(after[before.len() as int] == name);
            }
        }
    }
}

/// The versions that the names stand for, in the order of the names; a name
/// that is no version is passed over.
pub open spec fn versions_among(names: Seq<Seq<char>>) -> Seq<VersionView>
    decreases names.len(),
{
    if names.len() == 0 {
        Seq::empty()
    } else {
        match version_of_text(names.last()) {
            Some(version) => versions_among(names.drop_last()).push(version),
            None => versions_among(names.drop_last()),
        }
    }
}

/// The installed versions that a directory with these entries holds, from the
/// highest to the lowest.
pub open spec fn installed_versions(names: Seq<Seq<char>>) -> Seq<VersionView> {
    sort_descending(versions_among(names))
}

/// Whether one of `names` is read as `version`.
pub open spec fn names_version(names: Seq<Seq<char>>, version: VersionView) -> bool {
    exists|i: int| 0 <= i < names.len() && version_of_text(#[trigger] names[i]) == Some(version)
}

/// The versions among the names are those that a name is read as.
pub proof fn lemma_versions_among(names: Seq<Seq<char>>, version: VersionView)
    ensures
        versions_among(names).contains(version) <==> names_version(names, version),
    decreases names.len(),
{
    if names.len() > 0 {
        let front = names.drop_last();
        lemma_versions_among(front, version);
        let before = versions_among(front);
        if versions_among(names).contains(version) {
            let at = choose|at: int|
                0 <= at < versions_among(names).len() && versions_among(names)[at] == version;
            if at < before.len() {
                assert(before[at] == version);
                let i = choose|i: int|
                    0 <= i < front.len() && version_of_text(#[trigger] front[i]) == Some(version);
                assert(names[i] == front[i]);
            } else {
                assert(version_of_text(names[names.len() - 1]) == Some(version));
            }
        }
        if names_version(names, version) {
            let i = choose|i: int|
                0 <= i < names.len() && version_of_text(#[trigger] names[i]) == Some(version);
            if i < front.len() {
                assert(front[i] == names[i]);
                let at = choose|at: int| 0 <= at < before.len() && before[at] == version;
                assert(versions_among(names)[at] == version);
            } else {
                assert(versions_among(names) == before.push(version));
                assert(versions_among(names)[before.len() as int] == version);
            }
        }
    }
}

/// The listing holds exactly the versions that the name of an entry is read
/// as: a version whose directory is gone is not listed, and one whose
/// directory is there is.
pub proof fn lemma_listing_holds_the_entries(names: Seq<Seq<char>>, version: VersionView)
    ensures
        installed_versions(names).contains(version) <==> names_version(names, version),
{
    broadcast use vstd::seq_lib::group_to_multiset_ensures;

    lemma_versions_among(names, version);
    lemma_sort_descending(versions_among(names));
    let found = versions_among(names);
    let listed = installed_versions(names);
    assert(listed.to_multiset().count(version) == found.to_multiset().count(version));
}

/// The versions of a sequence of installed versions.
pub open spec fn versions_of(installed: Seq<InstalledNodeVersion>) -> Seq<VersionView> {
    installed.map_values(|v: InstalledNodeVersion| v.version@)
}

/// The versions among `versions` that lie in the range with the text `range`,
/// in their order.
pub open spec fn versions_in(versions: Seq<VersionView>, range: Seq<char>) -> Seq<VersionView> {
    versions.filter(|v: VersionView| range_satisfied(range, v))
}

/// The versions of the installed versions in a range are the versions in
/// that range among theirs.
pub proof fn lemma_matching_versions(installed: Seq<InstalledNodeVersion>, range: Seq<char>)
    ensures
        versions_of(matching(installed, range)) == versions_in(versions_of(installed), range),
    decreases installed.len(),
{
    reveal(Seq::filter);
    let keeps = |v: InstalledNodeVersion| range_satisfied(range, v.version_view());
    let admits = |v: VersionView| range_satisfied(range, v);
    if installed.len() == 0 {
        assert(versions_of(installed) =~= Seq::<VersionView>::empty());
        assert(versions_of(matching(installed, range)) =~= Seq::<VersionView>::empty());
    } else {
        let front = installed.drop_last();
        lemma_matching_versions(front, range);
        assert(versions_of(installed).drop_last() =~= versions_of(front));
        assert(versions_of(installed).last() == installed.last().version@);
        if keeps(installed.last()) {
            assert(versions_of(front.filter(keeps).push(installed.last())) =~= versions_of(
                front.filter(keeps),
            ).push(installed.last().version@));
        }
    }
}

/// The position of the first version of `versions` that lies in the range
/// with the text `range`, or the length of `versions` where none does.
pub open spec fn first_match(versions: Seq<VersionView>, range: Seq<char>) -> int
    decreases versions.len(),
{
    if versions.len() == 0 || range_satisfied(range, versions[0]) {
        0
    } else {
        1 + first_match(versions.drop_first(), range)
    }
}

/// Where the answers say of each version whether it lies in the range, the
/// first yes is at the first match.
pub proof fn lemma_first_yes_is_first_match(
    flags: Seq<bool>,
    versions: Seq<VersionView>,
    range: Seq<char>,
)
    requires
        flags.len() == versions.len(),
        forall|i: int|
            0 <= i < versions.len() ==> flags[i] == range_satisfied(range, #[trigger] versions[i]),
    ensures
        first_yes(flags) == first_match(versions, range),
    decreases versions.len(),
{
    if versions.len() > 0 {
        assert(flags[0] == range_satisfied(range, versions[0]));
        if !flags[0] {
            let rest = versions.drop_first();
            assert forall|i: int| 0 <= i < rest.len() implies flags.drop_first()[i]
                == range_satisfied(range, #[trigger] rest[i]) by {
                assert(rest[i] == versions[i + 1]);
            }
            lemma_first_yes_is_first_match(flags.drop_first(), rest, range);
        }
    }
}

/// `first_match` is a position of `versions` or its length; nothing before it
/// lies in the range, and the version at it does.
pub proof fn lemma_first_match(versions: Seq<VersionView>, range: Seq<char>)
    ensures
        0 <= first_match(versions, range) <= versions.len(),
        forall|j: int|
            0 <= j < first_match(versions, range) ==> !range_satisfied(range, #[trigger] versions[j]),
        first_match(versions, range) < versions.len() ==> range_satisfied(
            range,
            versions[first_match(versions, range)],
        ),
    decreases versions.len(),
{
    if versions.len() == 0 || range_satisfied(range, versions[0]) {
    } else {
        let rest = versions.drop_first();
        lemma_first_match(rest, range);
        assert forall|j: int| 0 <= j < first_match(versions, range) implies !range_satisfied(
            range,
            #[trigger] versions[j],
        ) by {
            if j > 0 {
                assert(versions[j] == rest[j - 1]);
            }
        }
    }
}

/// Whether some version of `versions` agrees with `version` in all but its
/// build metadata.
pub open spec fn holds_version(versions: Seq<VersionView>, version: VersionView) -> bool {
    exists|i: int| 0 <= i < versions.len() && same_precedence(#[trigger] versions[i], version)
}

impl InstalledNodeVersion {
    /// The installation lies in the directory named after the version, under
    /// the versions directory of `config`.
    pub open spec fn wf(&self, config: &Config) -> bool {
        self.path@ == path_join(config.versions_dir_spec(), version_text(self.version@))
    }

    /// The directory named after the version, under the versions directory.
    pub fn get_dir_path(&self, config: &Config) -> (path: String)
        ensures
            path@ == path_join(config.versions_dir_spec(), version_text(self.version@)),
    {
        let versions_dir = config.get_versions_dir();
        let name = self.version.to_string();
        join_path(versions_dir.as_str(), name.as_str())
    }

    /// The canonical text of the version.
    pub fn to_string(&self) -> (s: String)
        ensures
            s@ == version_text(self.version@),
    {
        self.version.to_string()
    }

    /// The installed versions that the versions `found` make, from the highest
    /// to the lowest, each with its directory under the versions directory.
    pub fn installed_from(config: &Config, found: Vec<Version>) -> (installed: Vec<
        InstalledNodeVersion,
    >)
        ensures
            versions_of(installed@) == sort_descending(version_views(found@)),
            is_descending(versions_of(installed@)),
            versions_of(installed@).to_multiset() == version_views(found@).to_multiset(),
            forall|i: int| 0 <= i < installed.len() ==> (#[trigger] installed[i]).wf(config),
    {
        proof {
            lemma_sort_descending(version_views(found@));
        }
        let sorted = sort_versions_descending(found);
        let versions_dir = config.get_versions_dir();
        let ghost all = version_views(sorted@);
        let mut installed: Vec<InstalledNodeVersion> = Vec::new();
        for version in it: sorted.into_iter()
            invariant
                version_views(it.seq()) == all,
                versions_dir@ == config.versions_dir_spec(),
                versions_of(installed@) == all.take(it.index() as int),
                installed.len() == it.index(),
                forall|k: int| 0 <= k < installed.len() ==> (#[trigger] installed[k]).wf(config),
        {
            let ghost before = installed@;
            let name = version.to_string();
            let path = join_path(versions_dir.as_str(), name.as_str());
            let entry = InstalledNodeVersion { version, path };
            proof {
                let at = it.index() as int;
                assert(all[at] == it.seq()[at]@);
                assert(entry.version@ == all[at]);
                let after = versions_of(before.push(entry));
                assert(after.len() == at + 1);
                assert forall|k: int| 0 <= k < after.len() implies after[k] == all.take(at + 1)[k] by {
                    if k < at {
                        assert(after[k] == versions_of(before)[k]);
                    }
                }
                assert(after =~= all.take(at + 1));
            }
            installed.push(entry);
        }
        proof {
            assert(all.take(all.len() as int) =~= all);
        }
        installed
    }

    /// The installed versions, from the highest to the lowest, given the
    /// entries of the versions directory. Only its subdirectories count: a
    /// file is passed over whatever its name, and so is a subdirectory whose
    /// name is no version.
    pub fn list(config: &Config, entries: &Vec<DirectoryEntry>) -> (installed: Vec<
        InstalledNodeVersion,
    >)
        ensures
            versions_of(installed@) == installed_versions(subdirectories(entries@)),
            is_descending(versions_of(installed@)),
            versions_of(installed@).to_multiset() == versions_among(
                subdirectories(entries@),
            ).to_multiset(),
            forall|i: int| 0 <= i < installed.len() ==> (#[trigger] installed[i]).wf(config),
    {
        let names = directory_names(entries);
        Self::list_names(config, &names)
    }

    /// The installed versions, from the highest to the lowest, given the names
    /// of the subdirectories of the versions directory. A name that is no
    /// version is passed over.
    pub fn list_names(config: &Config, entries: &Vec<String>) -> (installed: Vec<
        InstalledNodeVersion,
    >)
        ensures
            versions_of(installed@) == installed_versions(texts(entries@)),
            is_descending(versions_of(installed@)),
            versions_of(installed@).to_multiset() == versions_among(texts(entries@)).to_multiset(),
            forall|i: int| 0 <= i < installed.len() ==> (#[trigger] installed[i]).wf(config),
    {
        let ghost names = texts(entries@);
        let mut found: Vec<Version> = Vec::new();
        let mut i: usize = 0;
        proof {
            assert(names.take(0) =~= Seq::<Seq<char>>::empty());
        }
        while i < entries.len()
            invariant
                i <= entries.len(),
                names == texts(entries@),
                version_views(found@) == versions_among(names.take(i as int)),
            decreases entries.len() - i,
        {
            let ghost before = version_views(found@);
            proof {
                let next = names.take(i + 1);
                assert(next.drop_last() =~= names.take(i as int));
                assert(next.last() == entries@[i as int]@);
            }
            if let Ok(version) = parse_version_str(entries[i].as_str()) {
                proof {
                    assert(version_views(found@.push(version)) =~= before.push(version@));
                }
                found.push(version);
            }
            i = i + 1;
        }
        proof {
            assert(names.take(entries.len() as int) =~= names);
        }
        Self::installed_from(config, found)
    }

    /// The first of `installed` that lies in `range`.
    pub fn find_among(installed: &Vec<InstalledNodeVersion>, range: &VersionRange) -> (found: Option<
        usize,
    >)
        ensures
            match found {
                Some(at) => at == first_match(versions_of(installed@), range@) && at < installed.len(),
                None => first_match(versions_of(installed@), range@) == installed.len(),
            },
    {
        let flags = matches_of(installed, range);
        proof {
            assert forall|i: int| 0 <= i < installed.len() implies flags@[i] == range_satisfied(
                range@,
                #[trigger] versions_of(installed@)[i],
            ) by {
                assert(versions_of(installed@)[i] == installed@[i].version_view());
            }
            lemma_first_yes_is_first_match(flags@, versions_of(installed@), range@);
        }
        first_flagged(&flags)
    }

    /// The highest installed version that lies in `range`, given the entries
    /// of the versions directory.
    pub fn find_matching(
        config: &Config,
        entries: &Vec<DirectoryEntry>,
        range: &VersionRange,
    ) -> (found: Option<InstalledNodeVersion>)
        ensures
            ({
                let versions = installed_versions(subdirectories(entries@));
                let at = first_match(versions, range@);
                match found {
                    Some(installed) => {
                        &&& at < versions.len()
                        &&& installed.version@ == versions[at]
                        &&& installed.wf(config)
                        &&& range.admits(installed.version@)
                        &&& forall|j: int|
                            0 <= j < versions.len() && range.admits(#[trigger] versions[j])
                                ==> at_least(installed.version@, versions[j])
                    },
                    None => {
                        &&& at == versions.len()
                        &&& forall|j: int|
                            0 <= j < versions.len() ==> !range.admits(#[trigger] versions[j])
                    },
                }
            }),
    {
        let installed = Self::list(config, entries);
        let ghost versions = versions_of(installed@);
        proof {
            lemma_first_match(versions, range@);
            lemma_sort_descending(versions_among(subdirectories(entries@)));
        }
        match Self::find_among(&installed, range) {
            Some(at) => {
                let found = installed[at].clone();
                proof {
                    assert(versions[at as int] == installed@[at as int].version@);
                    assert forall|j: int|
                        0 <= j < versions.len() && range.admits(#[trigger] versions[j]) implies at_least(
                        found.version@,
                        versions[j],
                    ) by {
                        if j == at {
                            lemma_precedence_same(versions[j], versions[j]);
                        }
                    }
                }
                Some(found)
            },
            None => None,
        }
    }

    /// Whether `version` is among `installed`, build metadata aside.
    pub fn is_among(installed: &Vec<InstalledNodeVersion>, version: &Version) -> (r: bool)
        ensures
            r == holds_version(versions_of(installed@), version@),
    {
        let ghost versions = versions_of(installed@);
        let mut i: usize = 0;
        while i < installed.len()
            invariant
                i <= installed.len(),
                versions == versions_of(installed@),
                forall|k: int| 0 <= k < i ==> !same_precedence(#[trigger] versions[k], version@),
            decreases installed.len() - i,
        {
            proof {
                lemma_precedence_same(installed@[i as int].version@, version@);
                assert(versions[i as int] == installed@[i as int].version@);
            }
            if matches!(installed[i].version.compare(version), Precedence::Same) {
                return true;
            }
            i = i + 1;
        }
        false
    }

    /// Whether `version` is installed, given the entries of the versions
    /// directory.
    pub fn is_installed(config: &Config, entries: &Vec<DirectoryEntry>, version: &Version) -> (r:
        bool)
        ensures
            r == holds_version(installed_versions(subdirectories(entries@)), version@),
    {
        let installed = Self::list(config, entries);
        Self::is_among(&installed, version)
    }
}

} // verus!
