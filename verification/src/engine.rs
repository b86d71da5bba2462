//! The vocabulary shared by the operations that change the disk: what can go
//! wrong, what the surrounding program is asked to do, what it reports back,
//! and a model of the part of the disk that the operations care about.

use vstd::prelude::*;
use crate::text::{copy_str, texts};
use crate::version::ParseError;

verus! {

/// The kinds of failure.
#[derive(Clone, Copy, Debug, PartialEq, Eq, Structural)]
pub enum FailureKind {
    /// A text is no version or no range; the detail is the text.
    Parse,
    /// No version or version file was given.
    NoVersionGiven,
    /// There is no text to parse.
    NothingToParse,
    /// A download failed; the detail is the version that was asked for.
    Network,
    /// No published version lies in the range; the detail is the range.
    NotFound,
    /// No installed version lies in the range; the detail is the range.
    NotInstalled,
    /// An archive entry could not be written or points outside the
    /// installation; the detail says which.
    Extraction,
    /// A file operation failed; the detail names the path and the cause.
    Io,
    /// The link to the active version could not be removed; the detail names
    /// the link and the cause.
    IndirectionRemoval,
    /// The system does not let this user create links.
    LinkPermission,
}

/// A failure: its kind and what it is about.
#[derive(Debug)]
pub struct Failure {
    pub kind: FailureKind,
    pub detail: String,
}

/// The model of a [`Failure`].
pub struct FailureView {
    pub kind: FailureKind,
    pub detail: Seq<char>,
}

impl View for Failure {
    type V = FailureView;

    open spec fn view(&self) -> FailureView {
        FailureView { kind: self.kind, detail: self.detail@ }
    }
}

impl Clone for Failure {
    fn clone(&self) -> (copy: Failure)
        ensures
            copy@ == self@,
    {
        Failure { kind: self.kind, detail: self.detail.clone() }
    }
}

/// The line that reports a failure.
pub open spec fn failure_text(failure: FailureView) -> Seq<char> {
    match failure.kind {
        FailureKind::Parse => "Failed to parse `"@ + failure.detail + "`"@,
        FailureKind::NoVersionGiven =>
            "You did not pass a version and we did not find any version files (package.json#engines, .nvmrc) in the current directory."@,
        FailureKind::NothingToParse => "Did not get a version"@,
        FailureKind::Network => "Failed to download version: "@ + failure.detail,
        FailureKind::NotFound => "Did not find a version matching `"@ + failure.detail + "`!"@,
        FailureKind::NotInstalled => failure.detail + " is not installed."@,
        FailureKind::Extraction => "Failed to extract the archive: "@ + failure.detail,
        FailureKind::Io => failure.detail,
        FailureKind::IndirectionRemoval => "Could not remove old symlink at "@ + failure.detail,
        FailureKind::LinkPermission =>
            "You do not seem to have permissions to create symlinks.\nThis is most likely due to Windows requiring Admin access for it unless you enable Developer Mode.\n\nEither run the program as Administrator or enable Developer Mode:\nhttps://docs.microsoft.com/en-us/windows/apps/get-started/enable-your-device-for-development#active-developer-mode\n\nRead more:\nhttps://blogs.windows.com/windowsdeveloper/2016/12/02/symlinks-windows-10"@,
    }
}

impl Failure {
    /// A failure of `kind` about `detail`.
    pub fn new(kind: FailureKind, detail: &str) -> (failure: Failure)
        ensures
            failure@ == (FailureView { kind, detail: detail@ }),
    {
        Failure { kind, detail: copy_str(detail) }
    }

    /// The failure that a text which is no version or no range makes.
    pub fn of_parse_error(error: &ParseError) -> (failure: Failure)
        ensures
            failure@ == (FailureView { kind: FailureKind::Parse, detail: error.input@ }),
    {
        Failure { kind: FailureKind::Parse, detail: error.input.clone() }
    }

    /// The line that reports the failure.
    pub fn message(&self) -> (line: String)
        ensures
            line@ == failure_text(self@),
    {
        match self.kind {
            FailureKind::Parse => {
                let mut line = copy_str("Failed to parse `");
                line.append(self.detail.as_str());
                line.append("`");
                line
            },
            FailureKind::NoVersionGiven => copy_str(
                "You did not pass a version and we did not find any version files (package.json#engines, .nvmrc) in the current directory.",
            ),
            FailureKind::NothingToParse => copy_str("Did not get a version"),
            FailureKind::Network => {
                let mut line = copy_str("Failed to download version: ");
                line.append(self.detail.as_str());
                line
            },
            FailureKind::NotFound => {
                let mut line = copy_str("Did not find a version matching `");
                line.append(self.detail.as_str());
                line.append("`!");
                line
            },
            FailureKind::NotInstalled => {
                let mut line = self.detail.clone();
                line.append(" is not installed.");
                line
            },
            FailureKind::Extraction => {
                let mut line = copy_str("Failed to extract the archive: ");
                line.append(self.detail.as_str());
                line
            },
            FailureKind::Io => self.detail.clone(),
            FailureKind::IndirectionRemoval => {
                let mut line = copy_str("Could not remove old symlink at ");
                line.append(self.detail.as_str());
                line
            },
            FailureKind::LinkPermission => copy_str(
                "You do not seem to have permissions to create symlinks.\nThis is most likely due to Windows requiring Admin access for it unless you enable Developer Mode.\n\nEither run the program as Administrator or enable Developer Mode:\nhttps://docs.microsoft.com/en-us/windows/apps/get-started/enable-your-device-for-development#active-developer-mode\n\nRead more:\nhttps://blogs.windows.com/windowsdeveloper/2016/12/02/symlinks-windows-10",
            ),
        }
    }

    /// The line that the program ends with: `Error: ` and the message.
    pub fn report(&self) -> (line: String)
        ensures
            line@ == "Error: "@ + failure_text(self@),
    {
        let mut line = copy_str("Error: ");
        let message = self.message();
        line.append(message.as_str());
        line
    }
}

/// What the surrounding program is asked to do next.
#[derive(Debug)]
pub enum Action {
    /// Request `url` and keep the response as the archive at hand.
    Fetch { url: String },
    /// Create the directory `path`, with its parents.
    CreateDir { path: String },
    /// Read the next entry of the archive at hand and report its path.
    NextEntry,
    /// Write the entry that was read last to `path`.
    WriteEntry { path: String },
    /// Check that `first` and `second` both exist.
    CheckFiles { first: String, second: String },
    /// Remove the directory `path` with all it holds.
    RemoveTree { path: String },
    /// Read the link at `path`.
    ProbeLink { path: String },
    /// Remove the link at `path`.
    RemoveLink { path: String },
    /// Create a link at `path` that points at `target`.
    CreateLink { target: String, path: String },
    /// Ask a yes-or-no question.
    Ask { question: String, default_choice: bool },
    /// Nothing is left to do: the operation has succeeded.
    Succeed,
    /// Nothing is left to do: the operation has failed.
    Fail { failure: Failure },
}

/// The model of an [`Action`].
pub enum ActionView {
    Fetch { url: Seq<char> },
    CreateDir { path: Seq<char> },
    NextEntry,
    WriteEntry { path: Seq<char> },
    CheckFiles { first: Seq<char>, second: Seq<char> },
    RemoveTree { path: Seq<char> },
    ProbeLink { path: Seq<char> },
    RemoveLink { path: Seq<char> },
    CreateLink { target: Seq<char>, path: Seq<char> },
    Ask { question: Seq<char>, default_choice: bool },
    Succeed,
    Fail { failure: FailureView },
}

impl View for Action {
    type V = ActionView;

    open spec fn view(&self) -> ActionView {
        match self {
            Action::Fetch { url } => ActionView::Fetch { url: url@ },
            Action::CreateDir { path } => ActionView::CreateDir { path: path@ },
            Action::NextEntry => ActionView::NextEntry,
            Action::WriteEntry { path } => ActionView::WriteEntry { path: path@ },
            Action::CheckFiles { first, second } => ActionView::CheckFiles {
                first: first@,
                second: second@,
            },
            Action::RemoveTree { path } => ActionView::RemoveTree { path: path@ },
            Action::ProbeLink { path } => ActionView::ProbeLink { path: path@ },
            Action::RemoveLink { path } => ActionView::RemoveLink { path: path@ },
            Action::CreateLink { target, path } => ActionView::CreateLink {
                target: target@,
                path: path@,
            },
            Action::Ask { question, default_choice } => ActionView::Ask {
                question: question@,
                default_choice: *default_choice,
            },
            Action::Succeed => ActionView::Succeed,
            Action::Fail { failure } => ActionView::Fail { failure: failure@ },
        }
    }
}

/// What the surrounding program reports back.
#[derive(Debug)]
pub enum Event {
    /// The operation begins.
    Start,
    /// The action was carried out.
    Done,
    /// The action failed; `reason` is what the system said.
    Failed { reason: String },
    /// The next entry of the archive has the path `path`.
    Entry { path: String },
    /// The archive has no further entry.
    EndOfArchive,
    /// The link points at `target`, or there is no link.
    Link { target: Option<String> },
    /// The answer to the question.
    Answer { yes: bool },
}

/// The model of an [`Event`].
pub enum EventView {
    Start,
    Done,
    Failed { reason: Seq<char> },
    Entry { path: Seq<char> },
    EndOfArchive,
    Link { target: Option<Seq<char>> },
    Answer { yes: bool },
}

impl View for Event {
    type V = EventView;

    open spec fn view(&self) -> EventView {
        match self {
            Event::Start => EventView::Start,
            Event::Done => EventView::Done,
            Event::Failed { reason } => EventView::Failed { reason: reason@ },
            Event::Entry { path } => EventView::Entry { path: path@ },
            Event::EndOfArchive => EventView::EndOfArchive,
            Event::Link { target } => EventView::Link {
                target: match target {
                    Some(target) => Some(target@),
                    None => None,
                },
            },
            Event::Answer { yes } => EventView::Answer { yes: *yes },
        }
    }
}

/// One turn of an operation: the state it is in now, the lines to print, and
/// what to do next.
#[derive(Debug)]
pub struct Step<S> {
    pub state: S,
    pub lines: Vec<String>,
    pub action: Action,
}

/// The model of a [`Step`].
pub struct StepView<S> {
    pub state: S,
    pub lines: Seq<Seq<char>>,
    pub action: ActionView,
}

impl<S> Step<S> {
    /// The model of the step.
    pub open spec fn view(&self) -> StepView<S> {
        StepView { state: self.state, lines: texts(self.lines@), action: self.action@ }
    }

    /// A step that goes on in `state` with `action` and prints nothing.
    pub fn quiet(state: S, action: Action) -> (step: Step<S>)
        ensures
            step@ == (StepView { state, lines: Seq::empty(), action: action@ }),
    {
        let lines: Vec<String> = Vec::new();
        proof {
            assert(texts(lines@) =~= Seq::<Seq<char>>::empty());
        }
        Step { state, lines, action }
    }

    /// A step that prints `line` and goes on in `state` with `action`.
    pub fn saying(state: S, line: String, action: Action) -> (step: Step<S>)
        ensures
            step@ == (StepView { state, lines: seq![line@], action: action@ }),
    {
        let mut lines: Vec<String> = Vec::new();
        lines.push(line);
        proof {
            assert(texts(lines@) =~= seq![line@]);
        }
        Step { state, lines, action }
    }

    /// A step that ends the operation in `state` with `failure`.
    pub fn failing(state: S, failure: Failure) -> (step: Step<S>)
        ensures
            step@ == (StepView {
                state,
                lines: Seq::empty(),
                action: ActionView::Fail { failure: failure@ },
            }),
    {
        Self::quiet(state, Action::Fail { failure })
    }
}

/// The failure that answers an event that was not asked for.
pub open spec fn unexpected_event() -> FailureView {
    FailureView {
        kind: FailureKind::Io,
        detail: "The operation was handed an event that it did not ask for."@,
    }
}

/// The failure that answers an event that was not asked for.
pub fn unexpected() -> (failure: Failure)
    ensures
        failure@ == unexpected_event(),
{
    Failure::new(FailureKind::Io, "The operation was handed an event that it did not ask for.")
}

/// `path` and `reason` with a colon and a space between them.
pub open spec fn path_and_reason(path: Seq<char>, reason: Seq<char>) -> Seq<char> {
    path + ": "@ + reason
}

/// A failure of `kind` at `path` for `reason`.
pub fn failure_at(kind: FailureKind, path: &str, reason: &str) -> (failure: Failure)
    ensures
        failure@ == (FailureView { kind, detail: path_and_reason(path@, reason@) }),
{
    let mut detail = copy_str(path);
    detail.append(": ");
    detail.append(reason);
    Failure { kind, detail }
}

/// The part of the disk that the operations care about: the directories that
/// exist, and the target of the link to the active version, if the link
/// exists.
pub struct Disk {
    pub directories: Set<Seq<char>>,
    pub link: Option<Seq<char>>,
}

/// The disk after `action` has been carried out on `disk`.
pub open spec fn carried_out(disk: Disk, action: ActionView) -> Disk {
    match action {
        ActionView::CreateDir { path } => Disk {
            directories: disk.directories.insert(path),
            ..disk
        },
        ActionView::RemoveTree { path } => Disk {
            directories: disk.directories.remove(path),
            ..disk
        },
        ActionView::RemoveLink { path } => Disk { link: None, ..disk },
        ActionView::CreateLink { target, path } => Disk { link: Some(target), ..disk },
        _ => disk,
    }
}

} // verus!
