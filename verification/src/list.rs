//! The overview of what is installed and what is published.

use vstd::prelude::*;
use crate::bridge::{join_with, range_satisfied, VersionRange};
use crate::config::Config;
use crate::node_version::{
    filter_version_req, installed_versions, lemma_matching_versions, subdirectories, versions_in,
    versions_of, DirectoryEntry, InstalledNodeVersion, NodeVersion, OnlineNodeVersion,
};
use crate::order::Precedence;
use crate::sorting::{
    is_descending, lemma_sort_descending, sort_descending, sort_versions_descending, version_views,
};
use crate::text::{copy_str, joined, texts};
use crate::version::{
    at_least, lemma_precedence_reflexive, version_precedence, version_text, Version, VersionView,
};

verus! {

/// The command that lists versions.
#[derive(Debug)]
pub struct ListCommand {
    /// Whether to list the installed versions only.
    pub local: bool,
    /// The range that the installed versions are held against.
    pub filter: Option<VersionRange>,
}

/// How the installed versions of one major version stand to the latest
/// published one.
#[derive(Debug)]
pub enum VersionStatus<'p> {
    /// One of them is the latest, or later.
    Latest,
    /// None is installed.
    NotInstalled,
    /// All of them are older than the latest, which is this one.
    Outdated(&'p Version),
}

/// The kinds of [`VersionStatus`].
#[derive(Clone, Copy, Debug, PartialEq, Eq, Structural)]
pub enum StatusKind {
    Latest,
    NotInstalled,
    Outdated,
}

/// Whether every version of `mine` sorts before `latest`.
pub open spec fn all_older(mine: Seq<VersionView>, latest: VersionView) -> bool {
    forall|i: int|
        0 <= i < mine.len() ==> version_precedence(#[trigger] mine[i], latest) == Precedence::Lower
}

/// How the installed versions `mine` stand to `latest`.
pub open spec fn status_of(mine: Seq<VersionView>, latest: VersionView) -> StatusKind {
    if mine.len() == 0 {
        StatusKind::NotInstalled
    } else if all_older(mine, latest) {
        StatusKind::Outdated
    } else {
        StatusKind::Latest
    }
}

/// The sign that stands for a status.
pub open spec fn status_sign(status: StatusKind) -> char {
    match status {
        StatusKind::Latest => '✅',
        StatusKind::NotInstalled => '〰',
        StatusKind::Outdated => '⏫',
    }
}

/// What a status adds to its line: for an outdated version, an arrow and the
/// latest version.
pub open spec fn status_note(status: StatusKind, latest: VersionView) -> Seq<char> {
    match status {
        StatusKind::Outdated => "-> "@ + version_text(latest),
        _ => Seq::empty(),
    }
}

impl<'p> VersionStatus<'p> {
    /// The kind of the status.
    pub open spec fn kind(&self) -> StatusKind {
        match self {
            VersionStatus::Latest => StatusKind::Latest,
            VersionStatus::NotInstalled => StatusKind::NotInstalled,
            VersionStatus::Outdated(_) => StatusKind::Outdated,
        }
    }

    /// The status of the installed versions `versions` of one major version
    /// whose latest published version is `latest`.
    pub fn from(versions: &Vec<&InstalledNodeVersion>, latest: &'p Version) -> (status: VersionStatus<
        'p,
    >)
        ensures
            status.kind() == status_of(
                versions@.map_values(|v: &InstalledNodeVersion| v.version@),
                latest@,
            ),
            status matches VersionStatus::Outdated(version) ==> version@ == latest@,
    {
        let ghost mine = versions@.map_values(|v: &InstalledNodeVersion| v.version@);
        if versions.len() == 0 {
            return VersionStatus::NotInstalled;
        }
        let mut i: usize = 0;
        while i < versions.len()
            invariant
                i <= versions.len(),
                mine == versions@.map_values(|v: &InstalledNodeVersion| v.version@),
                forall|k: int|
                    0 <= k < i ==> version_precedence(#[trigger] mine[k], latest@)
                        == Precedence::Lower,
            decreases versions.len() - i,
        {
            if !matches!(versions[i].version.compare(latest), Precedence::Lower) {
                proof {
                    assert(mine[i as int] == versions@[i as int].version@);
                }
                return VersionStatus::Latest;
            }
            i = i + 1;
        }
        VersionStatus::Outdated(latest)
    }

    /// The sign that stands for the status.
    pub fn to_emoji(&self) -> (sign: char)
        ensures
            sign == status_sign(self.kind()),
    {
        match self {
            VersionStatus::Latest => '✅',
            VersionStatus::NotInstalled => '〰',
            VersionStatus::Outdated(_) => '⏫',
        }
    }

    /// What the status adds to its line.
    pub fn to_version_string(&self) -> (note: String)
        ensures
            note@ == match self {
                VersionStatus::Outdated(version) => status_note(StatusKind::Outdated, version@),
                _ => Seq::empty(),
            },
    {
        match self {
            VersionStatus::Outdated(version) => {
                let mut note = copy_str("-> ");
                let text = version.to_string();
                note.append(text.as_str());
                note
            },
            _ => String::new(),
        }
    }
}

/// Of a descending sequence of versions, the first of each major version:
/// the latest of that major.
pub open spec fn leaders(sorted: Seq<VersionView>) -> Seq<VersionView>
    decreases sorted.len(),
{
    if sorted.len() == 0 {
        Seq::empty()
    } else if sorted.len() >= 2 && sorted[sorted.len() - 2].major == sorted.last().major {
        leaders(sorted.drop_last())
    } else {
        leaders(sorted.drop_last()).push(sorted.last())
    }
}

/// `leader` occurs in `sorted`, and no version of `sorted` with its major
/// number sorts after it.
pub open spec fn leads_its_major(sorted: Seq<VersionView>, leader: VersionView) -> bool {
    &&& sorted.contains(leader)
    &&& forall|j: int|
        0 <= j < sorted.len() && (#[trigger] sorted[j]).major == leader.major ==> at_least(
            leader,
            sorted[j],
        )
}

/// Some version of `leaders` has the major number `major`.
pub open spec fn has_major(leaders: Seq<VersionView>, major: nat) -> bool {
    exists|k: int| 0 <= k < leaders.len() && (#[trigger] leaders[k]).major == major
}

/// The leaders of a descending sequence are the latest version of each major
/// version: each of them is the highest of its major, every major version
/// has its leader, and the leaders come with strictly falling major numbers.
pub proof fn lemma_leaders(sorted: Seq<VersionView>)
    requires
        is_descending(sorted),
    ensures
        forall|k: int|
            0 <= k < leaders(sorted).len() ==> leads_its_major(sorted, #[trigger] leaders(sorted)[k]),
        forall|j: int|
            0 <= j < sorted.len() ==> has_major(leaders(sorted), (#[trigger] sorted[j]).major),
        forall|a: int, b: int|
            0 <= a < b < leaders(sorted).len() ==> (#[trigger] leaders(sorted)[a]).major > (
            #[trigger] leaders(sorted)[b]).major,
        forall|k: int|
            0 <= k < leaders(sorted).len() && sorted.len() > 0 ==> (#[trigger] leaders(
                sorted,
            )[k]).major >= sorted.last().major,
    decreases sorted.len(),
{
    if sorted.len() > 0 {
        let front = sorted.drop_last();
        let last = sorted.last();
        let end = sorted.len() - 1;
        assert forall|i: int, j: int| 0 <= i < j < front.len() implies at_least(
            #[trigger] front[i],
            #[trigger] front[j],
        ) by {
            assert(at_least(sorted[i], sorted[j]));
        }
        lemma_leaders(front);
        let before = leaders(front);
        let after = leaders(sorted);
        assert forall|j: int| 0 <= j < end implies (#[trigger] sorted[j]).major >= last.major by {
            assert(at_least(sorted[j], sorted[end]));
        }
        lemma_precedence_reflexive(last);
        let repeats = sorted.len() >= 2 && sorted[end - 1].major == last.major;
        assert forall|k: int| 0 <= k < after.len() implies leads_its_major(
            sorted,
            #[trigger] after[k],
        ) by {
            if k < before.len() {
                assert(after[k] == before[k]);
                assert(leads_its_major(front, before[k]));
                let i = choose|i: int| 0 <= i < front.len() && front[i] == before[k];
                assert(sorted[i] == before[k]);
                assert forall|j: int|
                    0 <= j < sorted.len() && (#[trigger] sorted[j]).major
                        == before[k].major implies at_least(before[k], sorted[j]) by {
                    if j < end {
                        assert(front[j] == sorted[j]);
                    } else {
                        assert(at_least(sorted[i], sorted[end]));
                    }
                }
            } else {
                assert(after[k] == last);
                assert(sorted[end] == last);
                assert forall|j: int|
                    0 <= j < sorted.len() && (#[trigger] sorted[j]).major == last.major implies at_least(
                    last,
                    sorted[j],
                ) by {
                    if j < end {
                        assert(at_least(sorted[j], sorted[end - 1]) || j == end - 1) by {
                            if j < end - 1 {
                                assert(at_least(sorted[j], sorted[end - 1]));
                            }
                        }
                        assert(sorted[j].major >= sorted[end - 1].major);
                        assert(sorted[end - 1].major >= last.major) by {
                            assert(at_least(sorted[end - 1], sorted[end]));
                        }
                        assert(false);
                    }
                }
            }
        }
        assert forall|j: int| 0 <= j < sorted.len() implies has_major(
            after,
            (#[trigger] sorted[j]).major,
        ) by {
            if j < end {
                assert(front[j] == sorted[j]);
                assert(has_major(before, front[j].major));
                let k = choose|k: int|
                    0 <= k < before.len() && (#[trigger] before[k]).major == front[j].major;
                assert(after[k].major == sorted[j].major);
            } else if repeats {
                assert(front[end - 1] == sorted[end - 1]);
                assert(has_major(before, front[end - 1].major));
                let k = choose|k: int|
                    0 <= k < before.len() && (#[trigger] before[k]).major == front[end - 1].major;
                assert(after[k].major == sorted[j].major);
            } else {
                assert(after[after.len() - 1].major == sorted[j].major);
            }
        }
        assert forall|k: int| 0 <= k < after.len() implies (#[trigger] after[k]).major
            >= last.major by {
            if k < before.len() {
                assert(after[k] == before[k]);
                assert(before[k].major >= front.last().major);
                assert(front.last() == sorted[end - 1]);
                assert(at_least(sorted[end - 1], sorted[end]));
            }
        }
        assert forall|a: int, b: int| 0 <= a < b < after.len() implies (#[trigger] after[a]).major > (
        #[trigger] after[b]).major by {
            if b < before.len() {
                assert(after[a] == before[a] && after[b] == before[b]);
            } else {
                assert(after[a] == before[a]);
                assert(before[a].major >= front.last().major);
                assert(front.last() == sorted[end - 1]);
                assert(at_least(sorted[end - 1], sorted[end]));
            }
        }
    }
}

/// The latest published version of each major version, from the highest to
/// the lowest.
pub open spec fn latest_per_major(online: Seq<VersionView>) -> Seq<VersionView> {
    leaders(sort_descending(online))
}

/// The latest version of each major version is what the name says: each is
/// one of `online` that no version of `online` with its major number sorts
/// after; each major number of `online` has one; and they come with strictly
/// falling major numbers, so from the highest to the lowest.
pub proof fn lemma_latest_per_major(online: Seq<VersionView>)
    ensures
        forall|k: int|
            0 <= k < latest_per_major(online).len() ==> leads_its_major(
                online,
                #[trigger] latest_per_major(online)[k],
            ),
        forall|j: int|
            0 <= j < online.len() ==> has_major(latest_per_major(online), (#[trigger] online[j]).major),
        forall|a: int, b: int|
            0 <= a < b < latest_per_major(online).len() ==> (#[trigger] latest_per_major(
                online,
            )[a]).major > (#[trigger] latest_per_major(online)[b]).major,
{
    broadcast use vstd::seq_lib::group_to_multiset_ensures;

    let sorted = sort_descending(online);
    let latest = latest_per_major(online);
    lemma_sort_descending(online);
    lemma_leaders(sorted);
    assert forall|v: VersionView| sorted.contains(v) <==> online.contains(v) by {
        assert(sorted.to_multiset().count(v) == online.to_multiset().count(v));
    }
    assert forall|k: int| 0 <= k < latest.len() implies leads_its_major(
        online,
        #[trigger] latest[k],
    ) by {
        assert(leads_its_major(sorted, latest[k]));
        assert forall|j: int|
            0 <= j < online.len() && (#[trigger] online[j]).major == latest[k].major implies at_least(
            latest[k],
            online[j],
        ) by {
            assert(online.contains(online[j]));
            let i = choose|i: int| 0 <= i < sorted.len() && sorted[i] == online[j];
            assert(sorted[i].major == latest[k].major);
        }
    }
    assert forall|j: int| 0 <= j < online.len() implies has_major(
        latest,
        (#[trigger] online[j]).major,
    ) by {
        assert(online.contains(online[j]));
        let i = choose|i: int| 0 <= i < sorted.len() && sorted[i] == online[j];
        assert(has_major(latest, sorted[i].major));
    }
}

/// The versions of `installed` with the major number `major`, in their order.
pub open spec fn of_major(installed: Seq<VersionView>, major: nat) -> Seq<VersionView> {
    installed.filter(|v: VersionView| v.major == major)
}

/// The line of one major version: the sign of the status; the highest
/// installed version of that major, or the latest published one where none is
/// installed; and the note of the status.
pub open spec fn major_line(mine: Seq<VersionView>, latest: VersionView) -> Seq<char> {
    let status = status_of(mine, latest);
    let shown = if mine.len() == 0 {
        latest
    } else {
        mine[0]
    };
    seq![status_sign(status), ' '] + version_text(shown) + seq![' '] + status_note(status, latest)
}

/// The lines of the overview: one for each of the first five of `latest` and
/// for each further one of which a version is installed.
pub open spec fn overview_lines(installed: Seq<VersionView>, latest: Seq<VersionView>) -> Seq<
    Seq<char>,
>
    decreases latest.len(),
{
    if latest.len() == 0 {
        Seq::empty()
    } else {
        let before = overview_lines(installed, latest.drop_last());
        let mine = of_major(installed, latest.last().major);
        if latest.len() <= 5 || mine.len() > 0 {
            before.push(major_line(mine, latest.last()))
        } else {
            before
        }
    }
}

/// The overview of the installed versions and of the latest published
/// version of each major version.
pub open spec fn overview(installed: Seq<VersionView>, online: Seq<VersionView>) -> Seq<char> {
    joined(overview_lines(installed, latest_per_major(online)), "\n"@)
}

/// The versions of a sequence of published versions.
pub open spec fn online_views(online: Seq<OnlineNodeVersion>) -> Seq<VersionView> {
    online.map_values(|v: OnlineNodeVersion| v.version@)
}

/// The texts of the versions, one per line.
pub open spec fn version_lines(versions: Seq<VersionView>) -> Seq<char> {
    joined(versions.map_values(|v: VersionView| version_text(v)), "\n"@)
}

/// The latest published version of each major version, from the highest to
/// the lowest.
pub fn latest_of_each_major(online: &Vec<OnlineNodeVersion>) -> (latest: Vec<Version>)
    ensures
        version_views(latest@) == latest_per_major(online_views(online@)),
{
    let mut all: Vec<Version> = Vec::new();
    let mut i: usize = 0;
    while i < online.len()
        invariant
            i <= online.len(),
            all.len() == i,
            version_views(all@) == online_views(online@).take(i as int),
        decreases online.len() - i,
    {
        let ghost before = version_views(all@);
        let copy = online[i].version.clone();
        proof {
            let after = version_views(all@.push(copy));
            let goal = online_views(online@).take(i + 1);
            assert(copy@ == online_views(online@)[i as int]);
            assert forall|k: int| 0 <= k < after.len() implies after[k] == goal[k] by {
                if k < i {
                    assert(after[k] == before[k]);
                }
            }
            assert(after =~= goal);
        }
        all.push(copy);
        i = i + 1;
    }
    proof {
        assert(online_views(online@).take(online.len() as int) =~= online_views(online@));
    }
    let sorted = sort_versions_descending(all);
    let ghost views = version_views(sorted@);
    let mut latest: Vec<Version> = Vec::new();
    let mut previous: Option<u64> = None;
    proof {
        assert(views.take(0) =~= Seq::<VersionView>::empty());
        assert(version_views(latest@) =~= Seq::<VersionView>::empty());
    }
    for version in it: sorted.into_iter()
        invariant
            version_views(it.seq()) == views,
            version_views(latest@) == leaders(views.take(it.index() as int)),
            match previous {
                Some(major) => it.index() > 0 && views[it.index() - 1].major == major,
                None => it.index() == 0,
            },
    {
        let ghost at = it.index() as int;
        let ghost before = version_views(latest@);
        proof {
            let next = views.take(at + 1);
            assert(next.drop_last() =~= views.take(at));
            assert(views[at] == it.seq()[at]@);
            assert(next.last() == version@);
            if at > 0 {
                assert(next[next.len() - 2] == views[at - 1]);
            }
        }
        let major: u64 = version.major;
        let repeats = match previous {
            Some(seen) => seen == major,
            None => false,
        };
        if !repeats {
            proof {
                assert(version_views(latest@.push(version)) =~= before.push(version@));
            }
            latest.push(version);
        }
        previous = Some(major);
    }
    proof {
        assert(views.take(views.len() as int) =~= views);
    }
    latest
}

impl ListCommand {
    /// The installed versions that the command is about: all of them, or
    /// those in the range of the command. `entries` holds the entries of the
    /// versions directory.
    pub fn installed(&self, config: &Config, entries: &Vec<DirectoryEntry>) -> (installed: Vec<
        InstalledNodeVersion,
    >)
        ensures
            versions_of(installed@) == match self.filter {
                Some(range) => versions_in(installed_versions(subdirectories(entries@)), range@),
                None => installed_versions(subdirectories(entries@)),
            },
            forall|i: int| 0 <= i < installed.len() ==> (#[trigger] installed[i]).wf(config),
    {
        let all = InstalledNodeVersion::list(config, entries);
        match &self.filter {
            Some(range) => {
                let ghost listed = all@;
                let kept = filter_version_req(all, range);
                proof {
                    lemma_matching_versions(listed, range@);
                    assert forall|i: int| 0 <= i < kept.len() implies (#[trigger] kept[i]).wf(
                        config,
                    ) by {
                        assert(kept@.contains(kept@[i]));
                        listed.lemma_filter_contains_rev(
                            |v: InstalledNodeVersion| range_satisfied(range@, v.version_view()),
                            kept@[i],
                        );
                        let at = choose|at: int| 0 <= at < listed.len() && listed[at] == kept@[i];
                        assert(listed[at].wf(config));
                    }
                }
                kept
            },
            None => all,
        }
    }

    /// The installed versions, one per line.
    pub fn local_listing(installed: &Vec<InstalledNodeVersion>) -> (text: String)
        ensures
            text@ == version_lines(versions_of(installed@)),
    {
        let mut lines: Vec<String> = Vec::new();
        let mut i: usize = 0;
        while i < installed.len()
            invariant
                i <= installed.len(),
                lines.len() == i,
                forall|k: int|
                    0 <= k < i ==> (#[trigger] lines[k])@ == version_text(installed[k].version@),
            decreases installed.len() - i,
        {
            lines.push(installed[i].to_string());
            i = i + 1;
        }
        proof {
            assert(texts(lines@) =~= versions_of(installed@).map_values(
                |v: VersionView| version_text(v),
            ));
        }
        join_with(&lines, "\n")
    }

    /// The line of one major version.
    fn line(mine: &Vec<&InstalledNodeVersion>, latest: &Version) -> (line: String)
        ensures
            line@ == major_line(
                mine@.map_values(|v: &InstalledNodeVersion| v.version@),
                latest@,
            ),
    {
        let ghost views = mine@.map_values(|v: &InstalledNodeVersion| v.version@);
        let status = VersionStatus::from(mine, latest);
        let shown = if mine.len() == 0 {
            latest.to_string()
        } else {
            proof {
                assert(views[0] == mine@[0].version@);
            }
            mine[0].to_string()
        };
        let mut line = String::new();
        line.push(status.to_emoji());
        line.push(' ');
        line.append(shown.as_str());
        line.push(' ');
        let note = status.to_version_string();
        line.append(note.as_str());
        proof {
            assert(line@ =~= major_line(views, latest@));
        }
        line
    }

    /// The overview of the installed versions `installed` and of the latest
    /// published version of each major version.
    pub fn listing(installed: &Vec<InstalledNodeVersion>, online: &Vec<OnlineNodeVersion>) -> (text:
        String)
        ensures
            text@ == overview(versions_of(installed@), online_views(online@)),
    {
        let latest = latest_of_each_major(online);
        let ghost mine_views = versions_of(installed@);
        let ghost rows = version_views(latest@);
        let mut lines: Vec<String> = Vec::new();
        let mut i: usize = 0;
        proof {
            assert(rows.take(0) =~= Seq::<VersionView>::empty());
            assert(texts(lines@) =~= Seq::<Seq<char>>::empty());
        }
        while i < latest.len()
            invariant
                i <= latest.len(),
                rows == version_views(latest@),
                mine_views == versions_of(installed@),
                texts(lines@) == overview_lines(mine_views, rows.take(i as int)),
            decreases latest.len() - i,
        {
            let major: u64 = latest[i].major;
            let ghost wanted = |v: VersionView| v.major == major as nat;
            let mut mine: Vec<&InstalledNodeVersion> = Vec::new();
            let mut k: usize = 0;
            proof {
                reveal(Seq::filter);
                assert(mine_views.take(0).filter(wanted) =~= Seq::<VersionView>::empty());
                assert(mine@.map_values(|v: &InstalledNodeVersion| v.version@) =~= Seq::<
                    VersionView,
                >::empty());
            }
            while k < installed.len()
                invariant
                    k <= installed.len(),
                    mine_views == versions_of(installed@),
                    wanted == (|v: VersionView| v.major == major as nat),
                    mine@.map_values(|v: &InstalledNodeVersion| v.version@) == mine_views.take(
                        k as int,
                    ).filter(wanted),
                decreases installed.len() - k,
            {
                let ghost held = mine@.map_values(|v: &InstalledNodeVersion| v.version@);
                proof {
                    reveal(Seq::filter);
                    let next = mine_views.take(k + 1);
                    assert(next.drop_last() =~= mine_views.take(k as int));
                    assert(next.last() == installed@[k as int].version@);
                }
                if installed[k].version.major == major {
                    proof {
                        assert(mine@.push(&installed@[k as int]).map_values(
                            |v: &InstalledNodeVersion| v.version@,
                        ) =~= held.push(installed@[k as int].version@));
                    }
                    mine.push(&installed[k]);
                }
                k = k + 1;
            }
            proof {
                assert(mine_views.take(installed.len() as int) =~= mine_views);
                let next = rows.take(i + 1);
                assert(next.drop_last() =~= rows.take(i as int));
                assert(next.last() == latest@[i as int]@);
                assert(next.len() == i + 1);
            }
            if i < 5 || mine.len() > 0 {
                let ghost before = texts(lines@);
                let line = Self::line(&mine, &latest[i]);
                proof {
                    assert(texts(lines@.push(line)) =~= before.push(line@));
                }
                lines.push(line);
            }
            i = i + 1;
        }
        proof {
            assert(rows.take(latest.len() as int) =~= rows);
        }
        join_with(&lines, "\n")
    }
}

} // verus!
