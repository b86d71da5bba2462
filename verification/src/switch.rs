//! The link to the active version: reading which version it points at, and
//! pointing it at another.

use vstd::prelude::*;
use crate::bridge::{range_display, VersionRange};
use crate::command::{given_xor_file, no_version_given, range_xor_file};
use crate::config::Config;
use crate::engine::{
    failure_at, path_and_reason, unexpected, unexpected_event, Action, ActionView, Event, EventView,
    Failure, FailureKind, FailureView, Step, StepView,
};
use crate::files::VersionFile;
use crate::node_version::{
    first_match, installed_versions, subdirectories, DirectoryEntry, InstalledNodeVersion,
};
use crate::order::Precedence;
use crate::platform::Platform;
use crate::text::{copy_str, join_path, path_join, split, split_text, texts, Separator};
use crate::version::{
    lemma_precedence_same, parse_version_str, same_precedence, version_of_text, version_text,
    Version, VersionView,
};

verus! {

/// The version of the last of `names` that is a version.
pub open spec fn last_version(names: Seq<Seq<char>>) -> Option<VersionView>
    decreases names.len(),
{
    if names.len() == 0 {
        None
    } else {
        match version_of_text(names.last()) {
            Some(version) => Some(version),
            None => last_version(names.drop_last()),
        }
    }
}

/// The version that a link target belongs to: that of the last component of
/// the path that is a version.
pub open spec fn embedded_version(target: Seq<char>) -> Option<VersionView> {
    last_version(split(target, Separator::Path))
}

/// The active version, given what the link points at.
pub open spec fn current_spec(link_target: Option<Seq<char>>) -> Option<VersionView> {
    match link_target {
        Some(target) => embedded_version(target),
        None => None,
    }
}

/// The active version, given what the link points at; none where there is no
/// link or its target names no version.
pub fn current(link_target: Option<&str>) -> (active: Option<Version>)
    ensures
        match active {
            Some(version) => current_spec(
                match link_target {
                    Some(target) => Some(target@),
                    None => None,
                },
            ) == Some(version@),
            None => current_spec(
                match link_target {
                    Some(target) => Some(target@),
                    None => None,
                },
            ) is None,
        },
{
    match link_target {
        None => None,
        Some(target) => {
            let names = split_text(target, Separator::Path);
            let ghost all = texts(names@);
            let mut i: usize = names.len();
            proof {
                assert(all.take(i as int) =~= all);
            }
            while i > 0
                invariant
                    i <= names.len(),
                    all == texts(names@),
                    all == split(target@, Separator::Path),
                    link_target == Some(target),
                    last_version(all) == last_version(all.take(i as int)),
                decreases i,
            {
                proof {
                    let upto = all.take(i as int);
                    assert(upto.drop_last() =~= all.take(i - 1));
                    assert(upto.last() == names@[i - 1]@);
                }
                i = i - 1;
                if let Ok(version) = parse_version_str(names[i].as_str()) {
                    proof {
                        assert(version_of_text(all[i as int]) == Some(version@));
                        assert(last_version(all.take(i + 1)) == Some(version@));
                    }
                    return Some(version);
                }
            }
            None
        },
    }
}

impl InstalledNodeVersion {
    /// Whether this is the active version, given what the link points at.
    pub fn is_selected(&self, link_target: Option<&str>) -> (selected: bool)
        ensures
            selected == match current_spec(
                match link_target {
                    Some(target) => Some(target@),
                    None => None,
                },
            ) {
                Some(active) => same_precedence(active, self.version@),
                None => false,
            },
    {
        match current(link_target) {
            Some(active) => {
                proof {
                    lemma_precedence_same(active@, self.version@);
                }
                matches!(active.compare(&self.version), Precedence::Same)
            },
            None => false,
        }
    }
}

/// The command that makes an installed version the active one.
#[derive(Debug)]
pub struct SwitchCommand {
    /// The range to pick the version from. Where it is missing, the version
    /// file of the project says which.
    pub version: Option<VersionRange>,
}

/// The failure of a command that found no installed version in the range
/// with the text `range`.
pub open spec fn not_installed(range: Seq<char>) -> FailureView {
    FailureView { kind: FailureKind::NotInstalled, detail: range_display(range) }
}

impl SwitchCommand {
    /// Picks the version to switch to: the highest installed version in the
    /// range, which is the given one or the one of the version file. It fails
    /// where not exactly one of the two is there, and where no installed
    /// version lies in the range.
    pub fn resolve(
        &self,
        config: &Config,
        entries: &Vec<DirectoryEntry>,
        file: Option<VersionFile>,
    ) -> (r: Result<InstalledNodeVersion, Failure>)
        ensures
            ({
                let versions = installed_versions(subdirectories(entries@));
                match given_xor_file(self.version, file) {
                    None => r is Err && r->Err_0@ == no_version_given(),
                    Some(range) => {
                        let at = first_match(versions, range);
                        match r {
                            Ok(found) => at < versions.len() && found.version@ == versions[at]
                                && found.wf(config),
                            Err(failure) => at == versions.len() && failure@ == not_installed(range),
                        }
                    },
                }
            }),
    {
        match range_xor_file(&self.version, file) {
            Err(failure) => Err(failure),
            Ok(filter) => {
                match InstalledNodeVersion::find_matching(config, entries, &filter) {
                    Some(found) => Ok(found),
                    None => {
                        let text = filter.to_string();
                        Err(Failure::new(FailureKind::NotInstalled, text.as_str()))
                    },
                }
            },
        }
    }
}

/// Whether to try out, before anything else, that links can be created: on
/// Windows, when the installation root did not exist before this run.
pub fn needs_link_probe(config: &Config, root_existed: bool) -> (needed: bool)
    ensures
        needed == (config.target.platform == Platform::Windows && !root_existed),
{
    match config.target.platform {
        Platform::Windows => !root_existed,
        _ => false,
    }
}

/// What the trial of a link comes to: a failure that tells how to get the
/// right to create links, where the link could not be created.
pub fn link_probe_verdict(created: bool) -> (r: Result<(), Failure>)
    ensures
        created ==> r is Ok,
        !created ==> r is Err && r->Err_0@ == (FailureView {
            kind: FailureKind::LinkPermission,
            detail: ""@,
        }),
{
    if created {
        Ok(())
    } else {
        Err(Failure::new(FailureKind::LinkPermission, ""))
    }
}

/// Where an activation stands.
#[derive(Clone, Copy, Debug, PartialEq, Eq, Structural)]
pub enum SwitchState {
    /// Nothing has been done yet.
    Ready,
    /// The link is being read.
    Probing,
    /// The old link is being removed.
    Removing,
    /// The new link is being created.
    Linking,
    /// The link points at the version.
    Active,
    /// The activation has failed.
    Failed,
}

/// One activation: the version to make active, and the paths involved.
#[derive(Debug)]
pub struct Activation {
    /// The canonical text of the version.
    pub name: String,
    /// The path of the link to the active version.
    pub link: String,
    /// What the link is to point at.
    pub target: String,
    /// Whether the version is installed.
    pub installed: bool,
}

/// What the link of `config` points at when the version named `name` is
/// active: the directory of the version, or its `bin` directory on the
/// platforms that keep the programs there.
pub open spec fn link_target(config: &Config, name: Seq<char>) -> Seq<char> {
    let directory = path_join(config.versions_dir_spec(), name);
    if config.target.platform.links_to_bin_spec() {
        path_join(directory, "bin"@)
    } else {
        directory
    }
}

/// The line that reports a switch.
pub open spec fn switched_line(name: Seq<char>) -> Seq<char> {
    "Switched to "@ + name
}

impl Activation {
    /// The next turn of the activation.
    pub open spec fn next(&self, state: SwitchState, event: EventView) -> StepView<SwitchState> {
        let fail = |failure: FailureView|
            StepView {
                state: SwitchState::Failed,
                lines: Seq::empty(),
                action: ActionView::Fail { failure },
            };
        let link = StepView {
            state: SwitchState::Linking,
            lines: Seq::empty(),
            action: ActionView::CreateLink { target: self.target@, path: self.link@ },
        };
        match (state, event) {
            (SwitchState::Ready, EventView::Start) => if self.installed {
                StepView {
                    state: SwitchState::Probing,
                    lines: Seq::empty(),
                    action: ActionView::ProbeLink { path: self.link@ },
                }
            } else {
                fail(FailureView { kind: FailureKind::NotInstalled, detail: self.name@ })
            },
            (SwitchState::Probing, EventView::Link { target: Some(_) }) => StepView {
                state: SwitchState::Removing,
                lines: Seq::empty(),
                action: ActionView::RemoveLink { path: self.link@ },
            },
            (SwitchState::Probing, EventView::Link { target: None }) => link,
            (SwitchState::Removing, EventView::Done) => link,
            (SwitchState::Removing, EventView::Failed { reason }) => fail(
                FailureView {
                    kind: FailureKind::IndirectionRemoval,
                    detail: path_and_reason(self.link@, reason),
                },
            ),
            (SwitchState::Linking, EventView::Done) => StepView {
                state: SwitchState::Active,
                lines: seq![switched_line(self.name@)],
                action: ActionView::Succeed,
            },
            (SwitchState::Linking, EventView::Failed { reason }) => fail(
                FailureView { kind: FailureKind::Io, detail: path_and_reason(self.link@, reason) },
            ),
            _ => fail(unexpected_event()),
        }
    }

    /// The activation of `version`, given the entries of the versions
    /// directory.
    pub fn new(config: &Config, entries: &Vec<DirectoryEntry>, version: &Version) -> (activation:
        Activation)
        ensures
            activation.name@ == version_text(version@),
            activation.link@ == config.shims_dir_spec(),
            activation.target@ == link_target(config, version_text(version@)),
            activation.installed == crate::node_version::holds_version(
                installed_versions(subdirectories(entries@)),
                version@,
            ),
    {
        let name = version.to_string();
        let versions_dir = config.get_versions_dir();
        let directory = join_path(versions_dir.as_str(), name.as_str());
        let target = if config.target.platform.links_to_bin() {
            join_path(directory.as_str(), "bin")
        } else {
            directory
        };
        Activation {
            name,
            link: config.get_shims_dir(),
            target,
            installed: InstalledNodeVersion::is_installed(config, entries, version),
        }
    }

    /// The next turn of the activation: what to do after `event` has come in
    /// `state`.
    pub fn step(&self, state: SwitchState, event: &Event) -> (step: Step<SwitchState>)
        ensures
            step@ == self.next(state, event@),
    {
        match (state, event) {
            (SwitchState::Ready, Event::Start) => {
                if self.installed {
                    Step::quiet(SwitchState::Probing, Action::ProbeLink { path: self.link.clone() })
                } else {
                    Step::failing(
                        SwitchState::Failed,
                        Failure::new(FailureKind::NotInstalled, self.name.as_str()),
                    )
                }
            },
            (SwitchState::Probing, Event::Link { target: Some(_) }) => Step::quiet(
                SwitchState::Removing,
                Action::RemoveLink { path: self.link.clone() },
            ),
            (SwitchState::Probing, Event::Link { target: None }) => Step::quiet(
                SwitchState::Linking,
                Action::CreateLink { target: self.target.clone(), path: self.link.clone() },
            ),
            (SwitchState::Removing, Event::Done) => Step::quiet(
                SwitchState::Linking,
                Action::CreateLink { target: self.target.clone(), path: self.link.clone() },
            ),
            (SwitchState::Removing, Event::Failed { reason }) => Step::failing(SwitchState::Failed, 
                failure_at(FailureKind::IndirectionRemoval, self.link.as_str(), reason.as_str()),
            ),
            (SwitchState::Linking, Event::Done) => {
                let mut line = copy_str("Switched to ");
                line.append(self.name.as_str());
                Step::saying(SwitchState::Active, line, Action::Succeed)
            },
            (SwitchState::Linking, Event::Failed { reason }) => Step::failing(SwitchState::Failed, 
                failure_at(FailureKind::Io, self.link.as_str(), reason.as_str()),
            ),
            _ => Step::failing(SwitchState::Failed, unexpected()),
        }
    }
}

} // verus!
