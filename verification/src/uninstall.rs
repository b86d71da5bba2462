//! Removing an installed version, with care for the one that is active.

use vstd::prelude::*;
use crate::bridge::VersionRange;
use crate::config::Config;
use crate::engine::{
    failure_at, path_and_reason, unexpected, unexpected_event, Action, ActionView, Event, EventView,
    Failure, FailureKind, FailureView, Step, StepView,
};
use crate::node_version::{
    first_match, installed_versions, subdirectories, DirectoryEntry, InstalledNodeVersion,
};
use crate::switch::{current_spec, not_installed};
use crate::text::{copy_str, join_path, path_join};
use crate::version::{same_precedence, version_text};

verus! {

/// The command that removes an installed version.
#[derive(Debug)]
pub struct UninstallCommand {
    /// The range to pick the version from.
    pub version: VersionRange,
}

impl UninstallCommand {
    /// Picks the version to remove: the highest installed version in the
    /// range. It fails where no installed version lies in the range.
    pub fn resolve(&self, config: &Config, entries: &Vec<DirectoryEntry>) -> (r: Result<
        InstalledNodeVersion,
        Failure,
    >)
        ensures
            ({
                let versions = installed_versions(subdirectories(entries@));
                let at = first_match(versions, self.version@);
                match r {
                    Ok(found) => at < versions.len() && found.version@ == versions[at] && found.wf(
                        config,
                    ),
                    Err(failure) => at == versions.len() && failure@ == not_installed(self.version@),
                }
            }),
    {
        match InstalledNodeVersion::find_matching(config, entries, &self.version) {
            Some(found) => Ok(found),
            None => {
                let text = self.version.to_string();
                Err(Failure::new(FailureKind::NotInstalled, text.as_str()))
            },
        }
    }
}

impl InstalledNodeVersion {
    /// What takes the installation off the disk: the removal of its
    /// directory.
    pub fn uninstall(&self, config: &Config) -> (action: Action)
        ensures
            action@ == (ActionView::RemoveTree {
                path: path_join(config.versions_dir_spec(), version_text(self.version@)),
            }),
    {
        Action::RemoveTree { path: self.get_dir_path(config) }
    }

    /// What leaves no version active: the removal of the link.
    pub fn deselect(config: &Config) -> (action: Action)
        ensures
            action@ == (ActionView::RemoveLink { path: config.shims_dir_spec() }),
    {
        Action::RemoveLink { path: config.get_shims_dir() }
    }

    /// The two programs that an installation must hold, under the directory
    /// `programs`.
    pub fn required_files(config: &Config, programs: &str) -> (files: (String, String))
        ensures
            files.0@ == path_join(programs@, config.target.platform.node_program_spec()),
            files.1@ == path_join(programs@, config.target.platform.npm_program_spec()),
    {
        (
            join_path(programs, config.target.platform.node_program()),
            join_path(programs, config.target.platform.npm_program()),
        )
    }

    /// Checks an installation: `missing` is the first of the required files
    /// that is not there, if one is not. It fails exactly where a file is
    /// missing, and names the file and the version.
    pub fn validate(&self, missing: Option<&str>) -> (r: Result<(), Failure>)
        ensures
            match missing {
                Some(file) => r is Err && r->Err_0@ == (FailureView {
                    kind: FailureKind::Io,
                    detail: missing_file_text(file@, version_text(self.version@)),
                }),
                None => r is Ok,
            },
    {
        match missing {
            Some(file) => {
                let mut detail = copy_str("\"");
                detail.append(file);
                detail.append("\" is not preset for \"");
                let name = self.version.to_string();
                detail.append(name.as_str());
                detail.append("\"");
                Err(Failure { kind: FailureKind::Io, detail })
            },
            None => Ok(()),
        }
    }
}

/// The words that say that `file` is missing from the installation of the
/// version named `name`.
pub open spec fn missing_file_text(file: Seq<char>, name: Seq<char>) -> Seq<char> {
    "\""@ + file + "\" is not preset for \""@ + name + "\""@
}

/// Where a removal stands.
#[derive(Clone, Copy, Debug, PartialEq, Eq, Structural)]
pub enum UninstallState {
    /// Nothing has been done yet.
    Ready,
    /// The user is being asked whether to remove the active version.
    Confirming,
    /// The link to the active version is being removed.
    Deselecting,
    /// The directory of the version is being removed.
    Removing,
    /// The version is gone.
    Uninstalled,
    /// The user declined; nothing was changed.
    Kept,
    /// The removal has failed.
    Failed,
}

/// One removal: the version to remove, and what is known of it.
#[derive(Debug)]
pub struct Removal {
    /// The canonical text of the version.
    pub name: String,
    /// The directory of the version.
    pub directory: String,
    /// The path of the link to the active version.
    pub link: String,
    /// Whether the version is the active one.
    pub selected: bool,
    /// Whether to go ahead without asking.
    pub force: bool,
}

/// The line that says that the version is the active one.
pub open spec fn selected_line(name: Seq<char>) -> Seq<char> {
    name + " is currently selected."@
}

/// The line that reports a removal.
pub open spec fn uninstalled_line(name: Seq<char>) -> Seq<char> {
    "Uninstalled "@ + name + "!"@
}

impl Removal {
    /// The next turn of the removal.
    pub open spec fn next(&self, state: UninstallState, event: EventView) -> StepView<UninstallState> {
        let deselect = ActionView::RemoveLink { path: self.link@ };
        let remove = ActionView::RemoveTree { path: self.directory@ };
        let fail = |failure: FailureView|
            StepView {
                state: UninstallState::Failed,
                lines: Seq::empty(),
                action: ActionView::Fail { failure },
            };
        match (state, event) {
            (UninstallState::Ready, EventView::Start) => if !self.selected {
                StepView { state: UninstallState::Removing, lines: Seq::empty(), action: remove }
            } else if self.force {
                StepView {
                    state: UninstallState::Deselecting,
                    lines: seq![selected_line(self.name@)],
                    action: deselect,
                }
            } else {
                StepView {
                    state: UninstallState::Confirming,
                    lines: seq![selected_line(self.name@)],
                    action: ActionView::Ask {
                        question: "Are you sure you want to uninstall it?"@,
                        default_choice: false,
                    },
                }
            },
            (UninstallState::Confirming, EventView::Answer { yes }) => if yes {
                StepView { state: UninstallState::Deselecting, lines: Seq::empty(), action: deselect }
            } else {
                StepView {
                    state: UninstallState::Kept,
                    lines: Seq::empty(),
                    action: ActionView::Succeed,
                }
            },
            (UninstallState::Confirming, EventView::Failed { reason }) => fail(
                FailureView { kind: FailureKind::Io, detail: reason },
            ),
            (UninstallState::Deselecting, EventView::Done) => StepView {
                state: UninstallState::Removing,
                lines: Seq::empty(),
                action: remove,
            },
            (UninstallState::Deselecting, EventView::Failed { reason }) => fail(
                FailureView {
                    kind: FailureKind::IndirectionRemoval,
                    detail: path_and_reason(self.link@, reason),
                },
            ),
            (UninstallState::Removing, EventView::Done) => StepView {
                state: UninstallState::Uninstalled,
                lines: seq![uninstalled_line(self.name@)],
                action: ActionView::Succeed,
            },
            (UninstallState::Removing, EventView::Failed { reason }) => fail(
                FailureView {
                    kind: FailureKind::Io,
                    detail: path_and_reason(self.directory@, reason),
                },
            ),
            _ => fail(unexpected_event()),
        }
    }

    /// The removal of `installed`, given what the link to the active version
    /// points at.
    pub fn new(config: &Config, installed: &InstalledNodeVersion, link_target: Option<&str>) -> (removal:
        Removal)
        ensures
            removal.name@ == version_text(installed.version@),
            removal.directory@ == path_join(
                config.versions_dir_spec(),
                version_text(installed.version@),
            ),
            removal.link@ == config.shims_dir_spec(),
            removal.force == config.force,
            removal.selected == match current_spec(
                match link_target {
                    Some(target) => Some(target@),
                    None => None,
                },
            ) {
                Some(active) => same_precedence(active, installed.version@),
                None => false,
            },
    {
        Removal {
            name: installed.to_string(),
            directory: installed.get_dir_path(config),
            link: config.get_shims_dir(),
            selected: installed.is_selected(link_target),
            force: config.force,
        }
    }

    /// The line that says that the version is the active one.
    fn selected(&self) -> (line: String)
        ensures
            line@ == selected_line(self.name@),
    {
        let mut line = self.name.clone();
        line.append(" is currently selected.");
        line
    }

    /// The next turn of the removal: what to do after `event` has come in
    /// `state`.
    pub fn step(&self, state: UninstallState, event: &Event) -> (step: Step<UninstallState>)
        ensures
            step@ == self.next(state, event@),
    {
        match (state, event) {
            (UninstallState::Ready, Event::Start) => {
                if !self.selected {
                    Step::quiet(
                        UninstallState::Removing,
                        Action::RemoveTree { path: self.directory.clone() },
                    )
                } else if self.force {
                    Step::saying(
                        UninstallState::Deselecting,
                        self.selected(),
                        Action::RemoveLink { path: self.link.clone() },
                    )
                } else {
                    Step::saying(
                        UninstallState::Confirming,
                        self.selected(),
                        Action::Ask {
                            question: copy_str("Are you sure you want to uninstall it?"),
                            default_choice: false,
                        },
                    )
                }
            },
            (UninstallState::Confirming, Event::Answer { yes }) => {
                if *yes {
                    Step::quiet(
                        UninstallState::Deselecting,
                        Action::RemoveLink { path: self.link.clone() },
                    )
                } else {
                    Step::quiet(UninstallState::Kept, Action::Succeed)
                }
            },
            (UninstallState::Confirming, Event::Failed { reason }) => Step::failing(
                UninstallState::Failed,
                Failure::new(FailureKind::Io, reason.as_str()),
            ),
            (UninstallState::Deselecting, Event::Done) => Step::quiet(
                UninstallState::Removing,
                Action::RemoveTree { path: self.directory.clone() },
            ),
            (UninstallState::Deselecting, Event::Failed { reason }) => Step::failing(
                UninstallState::Failed,
                failure_at(FailureKind::IndirectionRemoval, self.link.as_str(), reason.as_str()),
            ),
            (UninstallState::Removing, Event::Done) => {
                let mut line = copy_str("Uninstalled ");
                line.append(self.name.as_str());
                line.append("!");
                Step::saying(UninstallState::Uninstalled, line, Action::Succeed)
            },
            (UninstallState::Removing, Event::Failed { reason }) => Step::failing(
                UninstallState::Failed,
                failure_at(FailureKind::Io, self.directory.as_str(), reason.as_str()),
            ),
            _ => Step::failing(UninstallState::Failed, unexpected()),
        }
    }
}

} // verus!
