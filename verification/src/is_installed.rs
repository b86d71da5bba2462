//! The question whether a version of a range is installed.

use vstd::prelude::*;
use crate::bridge::{range_display, VersionRange};
use crate::command::{given_or_file, no_version_given, range_or_file};
use crate::config::Config;
use crate::engine::Failure;
use crate::files::VersionFile;
use crate::node_version::{
    first_match, installed_versions, subdirectories, versions_of, DirectoryEntry,
    InstalledNodeVersion,
};
use crate::text::copy_str;
use crate::version::{version_text, VersionView};

verus! {

/// The command that says whether a version of a range is installed.
#[derive(Debug)]
pub struct IsInstalledCommand {
    /// The range. Where it is missing, the version file of the project says
    /// which.
    pub version: Option<VersionRange>,
    /// The exit code that says that none is installed.
    pub exit_code: i32,
    /// Whether to print nothing.
    pub quiet: bool,
}

/// What the command comes to: the line to print, if any, and the exit code.
#[derive(Debug)]
pub struct Verdict {
    pub line: Option<String>,
    pub exit_code: i32,
}

/// The line that says that `version` is installed and lies in the range with
/// the text `range`.
pub open spec fn installed_line(range: Seq<char>, version: VersionView) -> Seq<char> {
    "✅ A version matching "@ + range_display(range) + " is installed ("@ + version_text(version)
        + ")!"@
}

/// The line that says that no installed version lies in the range with the
/// text `range`.
pub open spec fn missing_line(range: Seq<char>) -> Seq<char> {
    "❌ A version matching "@ + range_display(range) + " is not installed."@
}

impl IsInstalledCommand {
    /// The range to look for: the given one, or else the one of the version
    /// file. It fails where there is neither.
    pub fn filter(&self, file: Option<VersionFile>) -> (r: Result<VersionRange, Failure>)
        ensures
            r is Ok ==> given_or_file(self.version, file) == Some(r->Ok_0@),
            r is Err ==> given_or_file(self.version, file) is None && r->Err_0@
                == no_version_given(),
    {
        range_or_file(&self.version, file)
    }

    /// The verdict, given the canonical text of the range and the text of the
    /// highest installed version that lies in it, if one does: the exit code
    /// is 0 if one does and the code of the command otherwise. With `quiet`
    /// there is no line.
    pub fn verdict(&self, range_text: &str, found: Option<&str>) -> (verdict: Verdict)
        ensures
            verdict.exit_code == if found is Some {
                0
            } else {
                self.exit_code
            },
            match verdict.line {
                Some(text) => !self.quiet && text@ == match found {
                    Some(name) => "✅ A version matching "@ + range_text@ + " is installed ("@
                        + name@ + ")!"@,
                    None => "❌ A version matching "@ + range_text@ + " is not installed."@,
                },
                None => self.quiet,
            },
    {
        match found {
            Some(name) => {
                let line = if self.quiet {
                    None
                } else {
                    let mut line = copy_str("✅ A version matching ");
                    line.append(range_text);
                    line.append(" is installed (");
                    line.append(name);
                    line.append(")!");
                    Some(line)
                };
                Verdict { line, exit_code: 0 }
            },
            None => {
                let line = if self.quiet {
                    None
                } else {
                    let mut line = copy_str("❌ A version matching ");
                    line.append(range_text);
                    line.append(" is not installed.");
                    Some(line)
                };
                Verdict { line, exit_code: self.exit_code }
            },
        }
    }

    /// Says whether an installed version lies in `filter`: the exit code is 0
    /// if one does and the code of the command otherwise, and the line names
    /// the highest such version. With `quiet` there is no line.
    pub fn check(
        &self,
        config: &Config,
        entries: &Vec<DirectoryEntry>,
        filter: &VersionRange,
    ) -> (verdict: Verdict)
        ensures
            ({
                let versions = installed_versions(subdirectories(entries@));
                let at = first_match(versions, filter@);
                let line = if at < versions.len() {
                    installed_line(filter@, versions[at])
                } else {
                    missing_line(filter@)
                };
                &&& verdict.exit_code == if at < versions.len() {
                    0
                } else {
                    self.exit_code
                }
                &&& match verdict.line {
                    Some(text) => !self.quiet && text@ == line,
                    None => self.quiet,
                }
            }),
    {
        let installed = InstalledNodeVersion::list(config, entries);
        let found = InstalledNodeVersion::find_among(&installed, filter);
        let ghost versions = versions_of(installed@);
        let text = filter.to_string();
        match found {
            Some(at) => {
                proof {
                    assert(versions[at as int] == installed@[at as int].version@);
                }
                let name = installed[at].to_string();
                self.verdict(text.as_str(), Some(name.as_str()))
            },
            None => self.verdict(text.as_str(), None),
        }
    }
}

} // verus!
