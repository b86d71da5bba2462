//! Installing a published version: choosing it, then downloading and
//! unpacking its archive so that either the whole installation is there
//! afterwards or nothing of it.

use vstd::prelude::*;
use crate::archive::{entry_place, entry_target, path_under, under, EntryPlace, EntryTarget};
use crate::bridge::{range_display, VersionRange};
use crate::command::{given_or_file, no_version_given, range_or_file};
use crate::config::Config;
use crate::engine::{
    failure_at, path_and_reason, unexpected, unexpected_event, Action, ActionView, Event, EventView,
    Failure, FailureKind, FailureView, Step, StepView,
};
use crate::files::VersionFile;
use crate::node_version::{
    filter_version_req, holds_version, installed_versions, matching, subdirectories,
    DirectoryEntry, InstalledNodeVersion, OnlineNodeVersion,
};
use crate::text::{copy_str, join_path, path_join, texts};
use crate::version::{version_text, Version};

verus! {

/// The command that installs a published version.
#[derive(Debug)]
pub struct InstallCommand {
    /// The range to pick the version from. Where it is missing, the version
    /// file of the project says which.
    pub version: Option<VersionRange>,
    /// Whether to offer to switch to the version once it is installed.
    pub switch: bool,
    /// Whether to enable corepack once the version is installed.
    pub enable_corepack: bool,
}

/// What an install command comes to.
#[derive(Debug)]
pub enum InstallPlan {
    /// The version is installed already: there is only `line` to print.
    Skip { line: String },
    /// The version is to be installed.
    Install { installation: Installation },
}

/// One installation: the version, where its archive is, and where it goes.
#[derive(Debug)]
pub struct Installation {
    pub version: Version,
    /// The canonical text of the version.
    pub name: String,
    /// The address of the archive.
    pub url: String,
    /// The directory that the version is installed in.
    pub destination: String,
    /// Whether the directory exists already and is to be replaced.
    pub replace: bool,
    /// The Node.js program of the installation.
    pub node: String,
    /// The npm program of the installation.
    pub npm: String,
}

/// Whether to switch to a version that was just installed.
#[derive(Clone, Copy, Debug, PartialEq, Eq, Structural)]
pub enum SwitchWish {
    /// Leave the active version as it is.
    No,
    /// Switch without asking.
    Yes,
    /// Ask first.
    Ask,
}

/// The failure of a command that found no published version in the range
/// with the text `range`.
pub open spec fn not_found(range: Seq<char>) -> FailureView {
    FailureView { kind: FailureKind::NotFound, detail: range_display(range) }
}

/// The line that says that the version is installed already.
pub open spec fn skipping_line(name: Seq<char>) -> Seq<char> {
    name + " is already installed - skipping..."@
}

/// The line that announces a download.
pub open spec fn downloading_line(url: Seq<char>) -> Seq<char> {
    "Downloading from "@ + url + "..."@
}

/// The words that say that the entry with the path `path` would be written
/// outside the installation.
pub open spec fn leaves_installation(path: Seq<char>) -> Seq<char> {
    path + " leaves the installation"@
}

/// The directory of an installation that holds its programs: the `bin`
/// directory on the platforms that have one, the installation itself on the
/// others.
pub open spec fn programs_dir(config: &Config, destination: Seq<char>) -> Seq<char> {
    if config.target.platform.links_to_bin_spec() {
        path_join(destination, "bin"@)
    } else {
        destination
    }
}

impl Installation {
    /// The installation is the one of `online` under `config`; `present` says
    /// whether the version is installed already.
    pub open spec fn is_for(&self, config: &Config, online: &OnlineNodeVersion, present: bool) -> bool {
        let name = version_text(online.version@);
        let destination = path_join(config.versions_dir_spec(), name);
        &&& self.version@ == online.version@
        &&& self.name@ == name
        &&& self.url@ == online.download_url_spec(config.target)
        &&& self.destination@ == destination
        &&& self.replace == present
        &&& self.node@ == path_join(
            programs_dir(config, destination),
            config.target.platform.node_program_spec(),
        )
        &&& self.npm@ == path_join(
            programs_dir(config, destination),
            config.target.platform.npm_program_spec(),
        )
    }

    /// The installation of `online` under `config`.
    pub fn new(config: &Config, online: &OnlineNodeVersion, present: bool) -> (installation:
        Installation)
        ensures
            installation.is_for(config, online, present),
    {
        let destination = online.install_path(config);
        let programs = if config.target.platform.links_to_bin() {
            join_path(destination.as_str(), "bin")
        } else {
            destination.clone()
        };
        Installation {
            version: online.version.clone(),
            name: online.version.to_string(),
            url: online.download_url(config.target),
            node: join_path(programs.as_str(), config.target.platform.node_program()),
            npm: join_path(programs.as_str(), config.target.platform.npm_program()),
            destination,
            replace: present,
        }
    }
}

impl InstallCommand {
    /// The range to install from: the given one, or else the one of the
    /// version file. It fails where there is neither.
    pub fn filter(&self, file: Option<VersionFile>) -> (r: Result<VersionRange, Failure>)
        ensures
            r is Ok ==> given_or_file(self.version, file) == Some(r->Ok_0@),
            r is Err ==> given_or_file(self.version, file) is None && r->Err_0@
                == no_version_given(),
    {
        range_or_file(&self.version, file)
    }

    /// Decides what to do with `chosen`, the published version to install,
    /// given whether it is installed already. Without a version the command
    /// fails, and names the range by `range_text`. Where the version is
    /// installed already, there is nothing to do unless `force` is set; then
    /// the installation is replaced.
    pub fn decide(
        config: &Config,
        range_text: &str,
        chosen: Option<&OnlineNodeVersion>,
        present: bool,
    ) -> (r: Result<InstallPlan, Failure>)
        ensures
            match chosen {
                None => r is Err && r->Err_0@ == (FailureView {
                    kind: FailureKind::NotFound,
                    detail: range_text@,
                }),
                Some(online) => match r {
                    Ok(InstallPlan::Skip { line }) => {
                        &&& present
                        &&& !config.force
                        &&& line@ == skipping_line(version_text(online.version@))
                    },
                    Ok(InstallPlan::Install { installation }) => {
                        &&& !present || config.force
                        &&& installation.is_for(config, online, present)
                    },
                    Err(_) => false,
                },
            },
    {
        match chosen {
            None => Err(Failure::new(FailureKind::NotFound, range_text)),
            Some(online) => {
                if present && !config.force {
                    let mut line = online.version.to_string();
                    line.append(" is already installed - skipping...");
                    Ok(InstallPlan::Skip { line })
                } else {
                    let installation = Installation::new(config, online, present);
                    Ok(InstallPlan::Install { installation })
                }
            },
        }
    }

    /// Decides what to do: the first of the published versions that lies in
    /// the range is the one to install. It fails where none lies in the
    /// range. Where the version is installed already, there is nothing to do
    /// unless `force` is set; then the installation is replaced.
    pub fn plan(
        &self,
        config: &Config,
        filter: &VersionRange,
        online: Vec<OnlineNodeVersion>,
        entries: &Vec<DirectoryEntry>,
    ) -> (r: Result<InstallPlan, Failure>)
        ensures
            ({
                let candidates = matching(online@, filter@);
                if candidates.len() == 0 {
                    r is Err && r->Err_0@ == not_found(filter@)
                } else {
                    let chosen = candidates[0];
                    let present = holds_version(
                        installed_versions(subdirectories(entries@)),
                        chosen.version@,
                    );
                    match r {
                        Ok(InstallPlan::Skip { line }) => {
                            &&& present
                            &&& !config.force
                            &&& line@ == skipping_line(version_text(chosen.version@))
                        },
                        Ok(InstallPlan::Install { installation }) => {
                            &&& !present || config.force
                            &&& installation.is_for(config, &chosen, present)
                        },
                        Err(_) => false,
                    }
                }
            }),
    {
        let candidates = filter_version_req(online, filter);
        let text = filter.to_string();
        if candidates.len() == 0 {
            Self::decide(config, text.as_str(), None, false)
        } else {
            let chosen = &candidates[0];
            let present = InstalledNodeVersion::is_installed(config, entries, &chosen.version);
            Self::decide(config, text.as_str(), Some(chosen), present)
        }
    }

    /// Whether to switch to the version once it is installed: always with
    /// `force`, after a question where the command asks for it, and not
    /// otherwise.
    pub fn switch_wish(&self, config: &Config) -> (wish: SwitchWish)
        ensures
            wish == if config.force {
                SwitchWish::Yes
            } else if self.switch {
                SwitchWish::Ask
            } else {
                SwitchWish::No
            },
    {
        if config.force {
            SwitchWish::Yes
        } else if self.switch {
            SwitchWish::Ask
        } else {
            SwitchWish::No
        }
    }

    /// The question whether to switch to the version named `name`.
    pub fn switch_question(name: &str) -> (question: String)
        ensures
            question@ == "Switch to "@ + name@ + "?"@,
    {
        let mut question = copy_str("Switch to ");
        question.append(name);
        question.append("?");
        question
    }

    /// The corepack program of the installation in `destination`, where the
    /// command asks for corepack to be enabled.
    pub fn corepack_program(&self, config: &Config, destination: &str) -> (program: Option<String>)
        ensures
            match program {
                Some(path) => self.enable_corepack && path@ == path_join(
                    destination@,
                    config.target.platform.corepack_program_spec(),
                ),
                None => !self.enable_corepack,
            },
    {
        if self.enable_corepack {
            Some(join_path(destination, config.target.platform.corepack_program()))
        } else {
            None
        }
    }

    /// The lines that say that corepack could not be enabled.
    pub fn corepack_warning(reason: &str) -> (line: String)
        ensures
            line@ == "⚠️ Failed to automatically enable corepack!\n"@ + reason@,
    {
        let mut line = copy_str("⚠️ Failed to automatically enable corepack!\n");
        line.append(reason);
        line
    }
}

/// Where an installation stands.
#[derive(Debug)]
pub enum InstallState {
    /// Nothing has been done yet.
    Pending,
    /// The archive is being requested.
    Downloading,
    /// The installation that is there already is being removed.
    Clearing,
    /// The directory of the installation is being created.
    Preparing,
    /// The next entry of the archive is being read.
    Extracting,
    /// An entry is being written.
    Writing,
    /// The programs of the installation are being looked for.
    Verifying,
    /// What was unpacked so far is being removed, because of `failure`.
    CleaningUp { failure: Failure },
    /// The installation is complete.
    Installed,
    /// The installation has failed.
    Failed,
}

/// The model of an [`InstallState`].
pub enum InstallStateView {
    Pending,
    Downloading,
    Clearing,
    Preparing,
    Extracting,
    Writing,
    Verifying,
    CleaningUp { failure: FailureView },
    Installed,
    Failed,
}

impl View for InstallState {
    type V = InstallStateView;

    open spec fn view(&self) -> InstallStateView {
        match self {
            InstallState::Pending => InstallStateView::Pending,
            InstallState::Downloading => InstallStateView::Downloading,
            InstallState::Clearing => InstallStateView::Clearing,
            InstallState::Preparing => InstallStateView::Preparing,
            InstallState::Extracting => InstallStateView::Extracting,
            InstallState::Writing => InstallStateView::Writing,
            InstallState::Verifying => InstallStateView::Verifying,
            InstallState::CleaningUp { failure } => InstallStateView::CleaningUp { failure: failure@ },
            InstallState::Installed => InstallStateView::Installed,
            InstallState::Failed => InstallStateView::Failed,
        }
    }
}

impl Installation {
    /// The step that gives up on what was unpacked: the directory is removed,
    /// and `failure` is reported once it is gone.
    pub open spec fn clean_up(&self, failure: FailureView) -> StepView<InstallStateView> {
        StepView {
            state: InstallStateView::CleaningUp { failure },
            lines: Seq::empty(),
            action: ActionView::RemoveTree { path: self.destination@ },
        }
    }

    /// The next turn of the installation.
    pub open spec fn next(&self, state: InstallStateView, event: EventView) -> StepView<
        InstallStateView,
    > {
        let fail = |failure: FailureView|
            StepView {
                state: InstallStateView::Failed,
                lines: Seq::empty(),
                action: ActionView::Fail { failure },
            };
        let quiet = |state: InstallStateView, action: ActionView|
            StepView { state, lines: Seq::empty(), action };
        let prepare = ActionView::CreateDir { path: self.destination@ };
        let extraction = |reason: Seq<char>|
            self.clean_up(FailureView { kind: FailureKind::Extraction, detail: reason });
        match (state, event) {
            (InstallStateView::Pending, EventView::Start) => StepView {
                state: InstallStateView::Downloading,
                lines: seq![downloading_line(self.url@)],
                action: ActionView::Fetch { url: self.url@ },
            },
            (InstallStateView::Downloading, EventView::Done) => if self.replace {
                StepView {
                    state: InstallStateView::Clearing,
                    lines: seq!["Extracting..."@],
                    action: ActionView::RemoveTree { path: self.destination@ },
                }
            } else {
                StepView {
                    state: InstallStateView::Preparing,
                    lines: seq!["Extracting..."@],
                    action: prepare,
                }
            },
            (InstallStateView::Downloading, EventView::Failed { reason }) => fail(
                FailureView { kind: FailureKind::Network, detail: self.name@ },
            ),
            (InstallStateView::Clearing, EventView::Done) => quiet(
                InstallStateView::Preparing,
                prepare,
            ),
            (InstallStateView::Clearing, EventView::Failed { reason }) => fail(
                FailureView {
                    kind: FailureKind::Io,
                    detail: path_and_reason(self.destination@, reason),
                },
            ),
            (InstallStateView::Preparing, EventView::Done) => quiet(
                InstallStateView::Extracting,
                ActionView::NextEntry,
            ),
            (InstallStateView::Preparing, EventView::Failed { reason }) => self.clean_up(
                FailureView {
                    kind: FailureKind::Io,
                    detail: path_and_reason(self.destination@, reason),
                },
            ),
            (InstallStateView::Extracting, EventView::Entry { path }) => match entry_place(path) {
                EntryPlace::Top => quiet(InstallStateView::Extracting, ActionView::NextEntry),
                EntryPlace::Inside(names) => quiet(
                    InstallStateView::Writing,
                    ActionView::WriteEntry { path: under(self.destination@, names) },
                ),
                EntryPlace::Outside => extraction(leaves_installation(path)),
            },
            (InstallStateView::Extracting, EventView::EndOfArchive) => quiet(
                InstallStateView::Verifying,
                ActionView::CheckFiles { first: self.node@, second: self.npm@ },
            ),
            (InstallStateView::Extracting, EventView::Failed { reason }) => extraction(reason),
            (InstallStateView::Writing, EventView::Done) => quiet(
                InstallStateView::Extracting,
                ActionView::NextEntry,
            ),
            (InstallStateView::Writing, EventView::Failed { reason }) => extraction(reason),
            (InstallStateView::Verifying, EventView::Done) => quiet(
                InstallStateView::Installed,
                ActionView::Succeed,
            ),
            (InstallStateView::Verifying, EventView::Failed { reason }) => extraction(reason),
            (InstallStateView::CleaningUp { failure }, EventView::Done) => fail(failure),
            (InstallStateView::CleaningUp { failure }, EventView::Failed { reason }) => fail(
                FailureView {
                    kind: FailureKind::Io,
                    detail: path_and_reason(self.destination@, reason),
                },
            ),
            _ => fail(unexpected_event()),
        }
    }

    /// The step that gives up on what was unpacked.
    fn cleaning_up(&self, failure: Failure) -> (step: Step<InstallState>)
        ensures
            step.state@ == self.clean_up(failure@).state,
            texts(step.lines@) == self.clean_up(failure@).lines,
            step.action@ == self.clean_up(failure@).action,
    {
        Step::quiet(
            InstallState::CleaningUp { failure },
            Action::RemoveTree { path: self.destination.clone() },
        )
    }

    /// The next turn of the installation: what to do after `event` has come
    /// in `state`.
    pub fn step(&self, state: InstallState, event: &Event) -> (step: Step<InstallState>)
        ensures
            step.state@ == self.next(state@, event@).state,
            texts(step.lines@) == self.next(state@, event@).lines,
            step.action@ == self.next(state@, event@).action,
    {
        match (state, event) {
            (InstallState::Pending, Event::Start) => {
                let mut line = copy_str("Downloading from ");
                line.append(self.url.as_str());
                line.append("...");
                Step::saying(InstallState::Downloading, line, Action::Fetch { url: self.url.clone() })
            },
            (InstallState::Downloading, Event::Done) => {
                if self.replace {
                    Step::saying(
                        InstallState::Clearing,
                        copy_str("Extracting..."),
                        Action::RemoveTree { path: self.destination.clone() },
                    )
                } else {
                    Step::saying(
                        InstallState::Preparing,
                        copy_str("Extracting..."),
                        Action::CreateDir { path: self.destination.clone() },
                    )
                }
            },
            (InstallState::Downloading, Event::Failed { reason }) => Step::failing(
                InstallState::Failed,
                Failure::new(FailureKind::Network, self.name.as_str()),
            ),
            (InstallState::Clearing, Event::Done) => Step::quiet(
                InstallState::Preparing,
                Action::CreateDir { path: self.destination.clone() },
            ),
            (InstallState::Clearing, Event::Failed { reason }) => Step::failing(
                InstallState::Failed,
                failure_at(FailureKind::Io, self.destination.as_str(), reason.as_str()),
            ),
            (InstallState::Preparing, Event::Done) => Step::quiet(
                InstallState::Extracting,
                Action::NextEntry,
            ),
            (InstallState::Preparing, Event::Failed { reason }) => self.cleaning_up(
                failure_at(FailureKind::Io, self.destination.as_str(), reason.as_str()),
            ),
            (InstallState::Extracting, Event::Entry { path }) => {
                match entry_target(path.as_str()) {
                    EntryTarget::Top => Step::quiet(InstallState::Extracting, Action::NextEntry),
                    EntryTarget::Inside(names) => Step::quiet(
                        InstallState::Writing,
                        Action::WriteEntry { path: path_under(self.destination.as_str(), &names) },
                    ),
                    EntryTarget::Outside => {
                        let mut detail = path.clone();
                        detail.append(" leaves the installation");
                        self.cleaning_up(Failure { kind: FailureKind::Extraction, detail })
                    },
                }
            },
            (InstallState::Extracting, Event::EndOfArchive) => Step::quiet(
                InstallState::Verifying,
                Action::CheckFiles { first: self.node.clone(), second: self.npm.clone() },
            ),
            (InstallState::Extracting, Event::Failed { reason }) => self.cleaning_up(
                Failure::new(FailureKind::Extraction, reason.as_str()),
            ),
            (InstallState::Writing, Event::Done) => Step::quiet(
                InstallState::Extracting,
                Action::NextEntry,
            ),
            (InstallState::Writing, Event::Failed { reason }) => self.cleaning_up(
                Failure::new(FailureKind::Extraction, reason.as_str()),
            ),
            (InstallState::Verifying, Event::Done) => Step::quiet(
                InstallState::Installed,
                Action::Succeed,
            ),
            (InstallState::Verifying, Event::Failed { reason }) => self.cleaning_up(
                Failure::new(FailureKind::Extraction, reason.as_str()),
            ),
            (InstallState::CleaningUp { failure }, Event::Done) => Step::failing(
                InstallState::Failed,
                failure,
            ),
            (InstallState::CleaningUp { failure }, Event::Failed { reason }) => Step::failing(
                InstallState::Failed,
                failure_at(FailureKind::Io, self.destination.as_str(), reason.as_str()),
            ),
            _ => Step::failing(InstallState::Failed, unexpected()),
        }
    }
}

} // verus!
