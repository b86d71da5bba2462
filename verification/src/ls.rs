//! The short listing: what is installed, and the newest published version of
//! each major version.

use std::collections::HashSet;
use vstd::prelude::*;
use crate::bridge::{any_requirement, join_with, lowercased, requirement_accepted};
use crate::node_version::{versions_of, InstalledNodeVersion, OnlineNodeVersion};
use crate::text::{copy_str, joined, str_equal, texts};
use crate::version::{version_text, VersionView};

verus! {

/// Whether a text is fit to filter the listing by: the word `lts` in any
/// case, or a version requirement.
pub open spec fn is_filter(value: Seq<char>) -> bool {
    lowercased(value) == "lts"@ || requirement_accepted(value)
}

/// Checks a filter of the listing.
pub fn validate_filter(value: &str) -> (r: Result<(), String>)
    ensures
        r is Ok <==> is_filter(value@),
        r is Err ==> r->Err_0@ == "Invalid version."@,
{
    let lower = value.to_lowercase();
    if str_equal(lower.as_str(), "lts") {
        return Ok(());
    }
    match semver::VersionReq::parse(value) {
        Ok(_) => Ok(()),
        Err(_) => Err(copy_str("Invalid version.")),
    }
}

/// The short listing.
#[derive(Debug)]
pub struct Ls {
    /// The ranges of the major versions with long-term support.
    pub lts_version_strings: Vec<&'static str>,
    /// The requirements that those ranges stand for.
    pub lts_version_reqs: Vec<semver::VersionReq>,
}

/// How many of `texts` are version requirements.
pub open spec fn accepted_among(texts: Seq<Seq<char>>) -> nat
    decreases texts.len(),
{
    if texts.len() == 0 {
        0
    } else {
        accepted_among(texts.drop_last()) + if requirement_accepted(texts.last()) {
            1nat
        } else {
            0nat
        }
    }
}

/// The texts of a sequence of string slices.
pub open spec fn slices(strings: Seq<&'static str>) -> Seq<Seq<char>> {
    strings.map_values(|s: &'static str| s@)
}

/// Whether the position `k` of `majors` is the first with its number.
pub open spec fn first_of_its_major(majors: Seq<nat>, k: int) -> bool {
    forall|j: int| 0 <= j < k ==> #[trigger] majors[j] != majors[k]
}

/// The first of each major version, in the order of `versions`.
pub open spec fn first_of_each_major(versions: Seq<OnlineNodeVersion>) -> Seq<OnlineNodeVersion>
    decreases versions.len(),
{
    if versions.len() == 0 {
        Seq::empty()
    } else {
        let before = first_of_each_major(versions.drop_last());
        let majors = versions.map_values(|v: OnlineNodeVersion| v.version@.major);
        if first_of_its_major(majors, versions.len() - 1) {
            before.push(versions.last())
        } else {
            before
        }
    }
}

/// The lines of the published versions: the version, directly followed by
/// the day of its release.
pub open spec fn release_lines(versions: Seq<OnlineNodeVersion>) -> Seq<Seq<char>> {
    versions.map_values(|v: OnlineNodeVersion| version_text(v.version@) + v.release_date@)
}

/// The short listing: the installed versions, one per line, and the
/// published versions, or a note that they could not be had.
pub open spec fn short_listing(
    installed: Seq<VersionView>,
    online: Option<Seq<OnlineNodeVersion>>,
) -> Seq<char> {
    "Installed versions:\n"@ + joined(
        installed.map_values(|v: VersionView| version_text(v)),
        "\n"@,
    ) + "\n\nAvailable for download:\n"@ + (match online {
        Some(versions) => joined(release_lines(first_of_each_major(versions)), "\n"@),
        None => "Could not fetch versions..."@,
    }) + "\n\nSpecify a version range to show more results.\ne.g. `nvm ls 12`"@
}

impl Ls {
    /// The short listing with the ranges of the major versions that have
    /// long-term support, and a requirement for each of them that is one.
    pub fn init() -> (ls: Self)
        ensures
            slices(ls.lts_version_strings@) == seq![">=10, <11"@, ">=12, <13"@, ">=14, <15"@],
            ls.lts_version_reqs.len() == accepted_among(slices(ls.lts_version_strings@)),
    {
        let mut strings: Vec<&'static str> = Vec::new();
        strings.push(">=10, <11");
        strings.push(">=12, <13");
        strings.push(">=14, <15");
        let ghost all = slices(strings@);
        let mut reqs: Vec<semver::VersionReq> = Vec::new();
        let mut i: usize = 0;
        proof {
            assert(all =~= seq![">=10, <11"@, ">=12, <13"@, ">=14, <15"@]);
            assert(all.take(0) =~= Seq::<Seq<char>>::empty());
        }
        while i < strings.len()
            invariant
                i <= strings.len(),
                all == slices(strings@),
                reqs.len() <= i,
                reqs.len() == accepted_among(all.take(i as int)),
            decreases strings.len() - i,
        {
            proof {
                let next = all.take(i + 1);
                assert(next.drop_last() =~= all.take(i as int));
                assert(next.last() == strings@[i as int]@);
            }
            if let Ok(requirement) = semver::VersionReq::parse(strings[i]) {
                reqs.push(requirement);
            }
            i = i + 1;
        }
        proof {
            assert(all.take(strings.len() as int) =~= all);
        }
        Ls { lts_version_strings: strings, lts_version_reqs: reqs }
    }

    /// Reads a filter of the listing: the word `lts` in any case stands for
    /// the requirement that every version meets.
    pub fn validate_filter(value: &str) -> (r: Result<semver::VersionReq, String>)
        ensures
            r is Ok <==> is_filter(value@),
            r is Err ==> r->Err_0@ == "Invalid version."@,
    {
        let lower = value.to_lowercase();
        if str_equal(lower.as_str(), "lts") {
            return Ok(any_requirement());
        }
        match semver::VersionReq::parse(value) {
            Ok(requirement) => Ok(requirement),
            Err(_) => Err(copy_str("Invalid version.")),
        }
    }

    /// Keeps the first of each major version.
    pub fn filter_major_versions(versions: Vec<OnlineNodeVersion>) -> (kept: Vec<OnlineNodeVersion>)
        ensures
            kept@ == first_of_each_major(versions@),
    {
        let ghost all = versions@;
        let ghost majors = all.map_values(|v: OnlineNodeVersion| v.version@.major);
        let mut found_major_versions: HashSet<u64> = HashSet::new();
        let mut kept: Vec<OnlineNodeVersion> = Vec::new();
        proof {
            assert(all.take(0) =~= Seq::<OnlineNodeVersion>::empty());
        }
        for version in it: versions.into_iter()
            invariant
                it.seq() == all,
                majors == all.map_values(|v: OnlineNodeVersion| v.version@.major),
                kept@ == first_of_each_major(all.take(it.index() as int)),
                forall|m: u64|
                    found_major_versions@.contains(m) <==> exists|j: int|
                        0 <= j < it.index() && #[trigger] majors[j] == m,
        {
            let ghost at = it.index() as int;
            let major: u64 = version.version.major;
            let ghost seen = found_major_versions@;
            proof {
                let next = all.take(at + 1);
                assert(next.drop_last() =~= all.take(at));
                assert(next.last() == version);
                let local = next.map_values(|v: OnlineNodeVersion| v.version@.major);
                assert(majors[at] == major);
                assert forall|j: int| 0 <= j <= at implies local[j] == majors[j] by {}
                if first_of_its_major(local, at) {
                    if seen.contains(major) {
                        let j = choose|j: int| 0 <= j < at && #[trigger] majors[j] == major;
                        assert(local[j] != local[at]);
                    }
                } else {
                    let j = choose|j: int| 0 <= j < at && #[trigger] local[j] == local[at];
                    assert(majors[j] == major);
                }
                assert(first_of_its_major(local, at) == !seen.contains(major));
            }
            if !found_major_versions.contains(&major) {
                found_major_versions.insert(major);
                kept.push(version);
            }
            proof {
                assert forall|m: u64|
                    found_major_versions@.contains(m) <==> exists|j: int|
                        0 <= j < at + 1 && #[trigger] majors[j] == m by {
                    if m == major {
                        assert(majors[at] == m);
                    } else if seen.contains(m) {
                        let j = choose|j: int| 0 <= j < at && #[trigger] majors[j] == m;
                        assert(0 <= j < at + 1 && majors[j] == m);
                    }
                }
            }
        }
        proof {
            assert(all.take(all.len() as int) =~= all);
        }
        kept
    }

    /// The short listing. `online` holds the published versions, or nothing
    /// where they could not be had.
    pub fn output(installed: &Vec<InstalledNodeVersion>, online: Option<Vec<OnlineNodeVersion>>) -> (text:
        String)
        ensures
            text@ == short_listing(
                versions_of(installed@),
                match online {
                    Some(versions) => Some(versions@),
                    None => None,
                },
            ),
    {
        let mut names: Vec<String> = Vec::new();
        let mut i: usize = 0;
        while i < installed.len()
            invariant
                i <= installed.len(),
                names.len() == i,
                forall|k: int|
                    0 <= k < i ==> (#[trigger] names[k])@ == version_text(installed[k].version@),
            decreases installed.len() - i,
        {
            names.push(installed[i].to_string());
            i = i + 1;
        }
        proof {
            assert(texts(names@) =~= versions_of(installed@).map_values(
                |v: VersionView| version_text(v),
            ));
        }
        let mut text = copy_str("Installed versions:\n");
        let mine = join_with(&names, "\n");
        text.append(mine.as_str());
        text.append("\n\nAvailable for download:\n");
        match online {
            Some(versions) => {
                let kept = Self::filter_major_versions(versions);
                let mut lines: Vec<String> = Vec::new();
                let mut k: usize = 0;
                while k < kept.len()
                    invariant
                        k <= kept.len(),
                        lines.len() == k,
                        forall|j: int|
                            0 <= j < k ==> (#[trigger] lines[j])@ == version_text(kept[j].version@)
                                + kept[j].release_date@,
                    decreases kept.len() - k,
                {
                    let mut line = kept[k].to_string();
                    line.append(kept[k].release_date.as_str());
                    lines.push(line);
                    k = k + 1;
                }
                proof {
                    assert(texts(lines@) =~= release_lines(kept@));
                }
                let theirs = join_with(&lines, "\n");
                text.append(theirs.as_str());
            },
            None => {
                text.append("Could not fetch versions...");
            },
        }
        text.append("\n\nSpecify a version range to show more results.\ne.g. `nvm ls 12`");
        text
    }
}

} // verus!
