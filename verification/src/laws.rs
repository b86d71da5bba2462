//! What holds of the operations as a whole, proved from the contracts of
//! their parts.

use vstd::prelude::*;
use crate::bridge::parsed_version;
use crate::config::Config;
use crate::engine::{carried_out, ActionView, Disk, EventView};
use crate::install::{InstallStateView, Installation};
use crate::node_version::{
    holds_version, installed_versions, lemma_listing_holds_the_entries, lemma_subdirectories,
    subdirectories, DirectoryEntry,
};
use crate::switch::{current_spec, last_version, link_target, Activation, SwitchState};
use crate::text::{
    decimal, digit_char, is_decimal_digit, lemma_joined_path_ends_with_name, path_join, separates,
    split, Separator,
};
use crate::uninstall::{Removal, UninstallState};
use crate::version::{
    same_precedence, version_of_text, version_text, without_v_prefix, VersionView,
};

verus! {

/// The decimal notation of a number is not empty and begins with a digit.
pub proof fn lemma_decimal_starts_with_digit(n: nat)
    ensures
        decimal(n).len() > 0,
        is_decimal_digit(decimal(n)[0]),
    decreases n,
{
    if n >= 10 {
        lemma_decimal_starts_with_digit(n / 10);
    } else {
        assert(digit_char(n) == ((n + 48) as u8) as char);
    }
}

/// A `v` before a version text is ignored: the text stands for the same
/// version with it and without it.
pub proof fn lemma_leading_v_is_ignored(text: Seq<char>)
    requires
        text.len() == 0 || text[0] != 'v',
    ensures
        version_of_text(seq!['v'] + text) == version_of_text(text),
{
    assert((seq!['v'] + text).drop_first() =~= text);
}

/// The canonical text of a version begins with a digit, and so carries no
/// `v` before the version: it is read as it stands.
pub proof fn lemma_canonical_text_has_no_prefix(version: VersionView)
    ensures
        version_text(version).len() > 0,
        is_decimal_digit(version_text(version)[0]),
        without_v_prefix(version_text(version)) == version_text(version),
        version_of_text(version_text(version)) == parsed_version(version_text(version)),
{
    lemma_decimal_starts_with_digit(version.major);
    assert(version_text(version)[0] == decimal(version.major)[0]);
}

/// Whether `name` can be one component of a path: it is not empty and holds
/// neither a slash nor a backslash.
pub open spec fn is_one_component(name: Seq<char>) -> bool {
    &&& name.len() > 0
    &&& forall|k: int| 0 <= k < name.len() ==> !separates(Separator::Path, #[trigger] name[k])
}

/// The link of an active version tells which version is active: where the
/// name of a version directory is read as the version `version`, the target
/// of the link to that directory is read as `version` too. On the platforms
/// that link to the `bin` directory this rests on `bin` being no version.
pub proof fn lemma_link_target_names_the_version(
    config: &Config,
    name: Seq<char>,
    version: VersionView,
)
    ensures
        version_of_text(name) == Some(version) && is_one_component(name) && (
        config.target.platform.links_to_bin_spec() ==> version_of_text("bin"@) is None)
            ==> current_spec(Some(link_target(config, name))) == Some(version),
{
    if version_of_text(name) == Some(version) && is_one_component(name) && (
    config.target.platform.links_to_bin_spec() ==> version_of_text("bin"@) is None) {
        let directory = path_join(config.versions_dir_spec(), name);
        lemma_joined_path_ends_with_name(config.versions_dir_spec(), name);
        let pieces = split(directory, Separator::Path);
        assert(last_version(pieces) == Some(version));
        if config.target.platform.links_to_bin_spec() {
            reveal_strlit("bin");
            lemma_joined_path_ends_with_name(directory, "bin"@);
            let longer = split(path_join(directory, "bin"@), Separator::Path);
            assert(directory.len() > 0);
            assert(directory.last() == name.last());
            assert(!separates(Separator::Path, name[name.len() - 1]));
            assert(longer.drop_last() == pieces);
            assert(last_version(longer) == last_version(pieces));
        }
    }
}

/// What a system that carries out every action answers to `action` on
/// `disk`, and the disk afterwards. A question is answered with `answer`.
pub open spec fn obliging(disk: Disk, action: ActionView, answer: bool) -> (EventView, Disk) {
    match action {
        ActionView::ProbeLink { path } => (EventView::Link { target: disk.link }, disk),
        ActionView::Ask { question, default_choice } => (EventView::Answer { yes: answer }, disk),
        _ => (EventView::Done, carried_out(disk, action)),
    }
}

/// Whether `action` ends an operation.
pub open spec fn is_final(action: ActionView) -> bool {
    action is Succeed || action is Fail
}

/// Where an activation ends, and the disk then, if every action is carried
/// out: `event` has just come in `state`, and at most `turns` turns are
/// taken.
pub open spec fn activation_run(
    job: &Activation,
    state: SwitchState,
    event: EventView,
    disk: Disk,
    turns: nat,
) -> (SwitchState, Disk)
    decreases turns,
{
    let step = job.next(state, event);
    if turns == 0 || is_final(step.action) {
        (step.state, disk)
    } else {
        let (answer, after) = obliging(disk, step.action, true);
        activation_run(job, step.state, answer, after, (turns - 1) as nat)
    }
}

/// Where an activation that starts on `disk` ends, and the disk then.
pub open spec fn activated(job: &Activation, disk: Disk) -> (SwitchState, Disk) {
    activation_run(job, SwitchState::Ready, EventView::Start, disk, 4)
}

/// Activating an installed version succeeds whether or not a link exists,
/// and leaves the link pointing at the version; the directories stay as they
/// are.
pub proof fn lemma_activation_sets_the_link(job: &Activation, disk: Disk)
    requires
        job.installed,
    ensures
        activated(job, disk) == (
            SwitchState::Active,
            Disk { directories: disk.directories, link: Some(job.target@) },
        ),
{
    reveal_with_fuel(activation_run, 5);
}

/// Activating the same version twice in a row succeeds both times, and the
/// second time changes nothing.
pub proof fn lemma_activation_is_idempotent(job: &Activation, disk: Disk)
    requires
        job.installed,
    ensures
        activated(job, disk).0 == SwitchState::Active,
        activated(job, activated(job, disk).1) == activated(job, disk),
{
    lemma_activation_sets_the_link(job, disk);
    lemma_activation_sets_the_link(job, activated(job, disk).1);
}

/// After the activation of an installed version, the link names that version
/// as the active one: this holds of every version whose directory name is
/// read back as the version, provided that `bin` is no version on the
/// platforms that link to the `bin` directory.
pub proof fn lemma_activation_makes_the_version_current(
    config: &Config,
    job: &Activation,
    version: VersionView,
    disk: Disk,
)
    requires
        job.installed,
        job.target@ == link_target(config, job.name@),
    ensures
        version_of_text(job.name@) == Some(version) && is_one_component(job.name@) && (
        config.target.platform.links_to_bin_spec() ==> version_of_text("bin"@) is None)
            ==> current_spec(activated(job, disk).1.link) == Some(version),
{
    lemma_activation_sets_the_link(job, disk);
    lemma_link_target_names_the_version(config, job.name@, version);
}

/// Activating a version that is not installed fails and changes nothing.
pub proof fn lemma_activation_needs_the_version(job: &Activation, disk: Disk)
    requires
        !job.installed,
    ensures
        activated(job, disk) == (SwitchState::Failed, disk),
{
    reveal_with_fuel(activation_run, 2);
}

/// Where a removal ends, and the disk then, if every action is carried out
/// and the question, if it is asked, is answered with `answer`.
pub open spec fn removal_run(
    job: &Removal,
    state: UninstallState,
    event: EventView,
    disk: Disk,
    answer: bool,
    turns: nat,
) -> (UninstallState, Disk)
    decreases turns,
{
    let step = job.next(state, event);
    if turns == 0 || is_final(step.action) {
        (step.state, disk)
    } else {
        let (reply, after) = obliging(disk, step.action, answer);
        removal_run(job, step.state, reply, after, answer, (turns - 1) as nat)
    }
}

/// Where a removal that starts on `disk` ends, and the disk then.
pub open spec fn removed(job: &Removal, disk: Disk, answer: bool) -> (UninstallState, Disk) {
    removal_run(job, UninstallState::Ready, EventView::Start, disk, answer, 4)
}

/// Removing the active version with `force`, or after the user agreed,
/// leaves no version active and the directory of the version gone.
pub proof fn lemma_removal_of_the_active_version(job: &Removal, disk: Disk, answer: bool)
    requires
        job.selected,
        job.force || answer,
    ensures
        removed(job, disk, answer) == (
            UninstallState::Uninstalled,
            Disk { directories: disk.directories.remove(job.directory@), link: None },
        ),
        current_spec(removed(job, disk, answer).1.link) is None,
        !removed(job, disk, answer).1.directories.contains(job.directory@),
{
    reveal_with_fuel(removal_run, 5);
}

/// Where the user declines to remove the active version, the link and the
/// directories stay as they are.
pub proof fn lemma_declined_removal_changes_nothing(job: &Removal, disk: Disk)
    requires
        job.selected,
        !job.force,
    ensures
        removed(job, disk, false) == (UninstallState::Kept, disk),
{
    reveal_with_fuel(removal_run, 5);
}

/// Removing a version that is not the active one takes its directory away
/// and leaves the link as it is; nothing is asked.
pub proof fn lemma_removal_of_another_version(job: &Removal, disk: Disk, answer: bool)
    requires
        !job.selected,
    ensures
        removed(job, disk, answer) == (
            UninstallState::Uninstalled,
            Disk { directories: disk.directories.remove(job.directory@), link: disk.link },
        ),
{
    reveal_with_fuel(removal_run, 5);
}

/// Whether `event` is an answer to what an installation in `state` has asked
/// for.
pub open spec fn awaited(state: InstallStateView, event: EventView) -> bool {
    match state {
        InstallStateView::Pending => event is Start,
        InstallStateView::Extracting => event is Entry || event is EndOfArchive || event is Failed,
        InstallStateView::Installed => false,
        InstallStateView::Failed => false,
        _ => event is Done || event is Failed,
    }
}

/// What an installation in `state` has asked for.
pub open spec fn asked_for(job: &Installation, state: InstallStateView) -> Option<ActionView> {
    match state {
        InstallStateView::Downloading => Some(ActionView::Fetch { url: job.url@ }),
        InstallStateView::Clearing => Some(ActionView::RemoveTree { path: job.destination@ }),
        InstallStateView::Preparing => Some(ActionView::CreateDir { path: job.destination@ }),
        InstallStateView::Extracting => Some(ActionView::NextEntry),
        InstallStateView::Verifying => Some(
            ActionView::CheckFiles { first: job.node@, second: job.npm@ },
        ),
        InstallStateView::CleaningUp { failure } => Some(
            ActionView::RemoveTree { path: job.destination@ },
        ),
        _ => None,
    }
}

/// The disk once `event` has come in `state`: what was asked for has been
/// carried out, unless the event says that it failed. (What an entry is
/// written to lies under the directory of the installation, which the model
/// of the disk does not look into.)
pub open spec fn disk_after(
    job: &Installation,
    state: InstallStateView,
    event: EventView,
    disk: Disk,
) -> Disk {
    match asked_for(job, state) {
        Some(action) => if event is Failed {
            disk
        } else {
            carried_out(disk, action)
        },
        None => disk,
    }
}

/// The two disks differ in nothing but in whether `path` is a directory.
pub open spec fn differ_at_most_in(found: Disk, disk: Disk, path: Seq<char>) -> bool {
    &&& disk.link == found.link
    &&& forall|other: Seq<char>|
        other != path ==> disk.directories.contains(other) == found.directories.contains(other)
}

/// All or nothing: an installation touches nothing but its own directory;
/// until that directory is created the disk is as it was found; and once the
/// installation has failed the directory is not there, unless the disk is
/// still as it was found.
pub open spec fn all_or_nothing(
    job: &Installation,
    found: Disk,
    state: InstallStateView,
    disk: Disk,
) -> bool {
    &&& differ_at_most_in(found, disk, job.destination@)
    &&& match state {
        InstallStateView::Pending => disk == found,
        InstallStateView::Downloading => disk == found,
        InstallStateView::Clearing => disk == found,
        InstallStateView::Preparing => !disk.directories.contains(job.destination@),
        InstallStateView::Failed => disk == found || !disk.directories.contains(job.destination@),
        _ => true,
    }
}

/// Every directory among `entries` is a directory of `disk`, under the
/// versions directory.
pub open spec fn are_on(entries: Seq<DirectoryEntry>, disk: Disk, versions_dir: Seq<char>) -> bool {
    forall|i: int|
        0 <= i < entries.len() && (#[trigger] entries[i]).is_directory
            ==> disk.directories.contains(path_join(versions_dir, entries[i].name@))
}

/// No directory of `disk` under the versions directory has a name that is
/// read as `version`, build metadata aside.
pub open spec fn is_not_installed_on(disk: Disk, versions_dir: Seq<char>, version: VersionView) -> bool {
    forall|name: Seq<char>|
        disk.directories.contains(#[trigger] path_join(versions_dir, name)) ==> match version_of_text(
            name,
        ) {
            Some(read) => !same_precedence(read, version),
            None => true,
        }
}

/// What is listed of a disk on which a version is not installed does not
/// hold the version.
pub proof fn lemma_what_is_not_installed_is_not_listed(
    disk: Disk,
    versions_dir: Seq<char>,
    entries: Seq<DirectoryEntry>,
    version: VersionView,
)
    ensures
        is_not_installed_on(disk, versions_dir, version) && are_on(entries, disk, versions_dir)
            ==> !holds_version(installed_versions(subdirectories(entries)), version),
{
    let names = subdirectories(entries);
    let listed = installed_versions(names);
    if is_not_installed_on(disk, versions_dir, version) && are_on(entries, disk, versions_dir)
        && holds_version(listed, version) {
        let at = choose|at: int|
            0 <= at < listed.len() && same_precedence(#[trigger] listed[at], version);
        assert(listed.contains(listed[at]));
        lemma_listing_holds_the_entries(names, listed[at]);
        let k = choose|k: int|
            0 <= k < names.len() && version_of_text(#[trigger] names[k]) == Some(listed[at]);
        assert(names.contains(names[k]));
        lemma_subdirectories(entries, names[k]);
        let i = choose|i: int|
            0 <= i < entries.len() && (#[trigger] entries[i]).is_directory && entries[i].name@
                == names[k];
        assert(disk.directories.contains(path_join(versions_dir, names[k])));
    }
}

/// A version that was not installed is not listed after its installation
/// has failed: if no directory of the disk as it was found is read as the
/// version, then no listing of the disk as the failure leaves it holds the
/// version.
pub proof fn lemma_failed_installation_is_not_listed(
    job: &Installation,
    versions_dir: Seq<char>,
    found: Disk,
    disk: Disk,
    entries: Seq<DirectoryEntry>,
)
    requires
        !found.directories.contains(job.destination@),
        all_or_nothing(job, found, InstallStateView::Failed, disk),
    ensures
        is_not_installed_on(found, versions_dir, job.version@) && are_on(entries, disk, versions_dir)
            ==> !holds_version(installed_versions(subdirectories(entries)), job.version@),
{
    if is_not_installed_on(found, versions_dir, job.version@) && are_on(
        entries,
        disk,
        versions_dir,
    ) {
        assert forall|path: Seq<char>| disk.directories.contains(path) implies found.directories.contains(
            path,
        ) by {
            if path == job.destination@ {
                assert(disk == found);
            }
        }
        assert(are_on(entries, found, versions_dir));
        lemma_what_is_not_installed_is_not_listed(found, versions_dir, entries, job.version@);
    }
}

/// An installation begins with the disk as it was found.
pub proof fn lemma_installation_begins(job: &Installation, found: Disk)
    ensures
        all_or_nothing(job, found, InstallStateView::Pending, found),
{
}

/// An installation is all or nothing at every turn, whatever is reported to
/// it: a failure while the archive is unpacked or checked has the directory
/// removed before the failure is reported. The one case left out is that the
/// removal itself fails.
pub proof fn lemma_installation_is_all_or_nothing(
    job: &Installation,
    found: Disk,
    state: InstallStateView,
    disk: Disk,
    event: EventView,
)
    requires
        job.replace || !found.directories.contains(job.destination@),
        all_or_nothing(job, found, state, disk),
        awaited(state, event),
        !(state is CleaningUp && event is Failed),
    ensures
        all_or_nothing(job, found, job.next(state, event).state, disk_after(job, state, event, disk)),
{
}

/// A failure while the archive is unpacked or checked leads to the removal
/// of the directory of the installation, and only then to the failure.
pub proof fn lemma_failed_unpacking_is_cleaned_up(
    job: &Installation,
    state: InstallStateView,
    reason: Seq<char>,
)
    requires
        state is Preparing || state is Extracting || state is Writing || state is Verifying,
    ensures
        ({
            let first = job.next(state, EventView::Failed { reason });
            let second = job.next(first.state, EventView::Done);
            &&& first.state is CleaningUp
            &&& first.action == (ActionView::RemoveTree { path: job.destination@ })
            &&& second.state is Failed
            &&& second.action == (ActionView::Fail { failure: first.state->CleaningUp_failure })
        }),
{
}

} // verus!
