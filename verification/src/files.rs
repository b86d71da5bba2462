//! The files of a project directory that may name the version of Node.js
//! that the project wants.

use vstd::prelude::*;
use crate::bridge::VersionRange;
use crate::range::{is_range, parse_range};
use crate::text::{chars_of, copy_str, split, split_text, starts_with, string_of, texts, Separator};

verus! {

/// A range, and the kind of file that it was found in.
#[derive(Debug)]
pub enum VersionFile {
    /// `.nvmrc` or `.node-version`.
    Nvmrc(VersionRange),
    /// The `engines.node` entry of `package.json`.
    PackageJson(VersionRange),
    /// The `nodejs` line of `.tool-versions`.
    Asdf(VersionRange),
}

/// The kinds of version file.
#[derive(Clone, Copy, Debug, PartialEq, Eq, Structural)]
pub enum VersionFileKind {
    Nvmrc,
    PackageJson,
    Asdf,
}

impl VersionFile {
    /// The kind of file that the range was found in.
    pub open spec fn kind_spec(&self) -> VersionFileKind {
        match self {
            VersionFile::Nvmrc(_) => VersionFileKind::Nvmrc,
            VersionFile::PackageJson(_) => VersionFileKind::PackageJson,
            VersionFile::Asdf(_) => VersionFileKind::Asdf,
        }
    }

    /// The text of the range.
    pub open spec fn range_spec(&self) -> Seq<char> {
        match self {
            VersionFile::Nvmrc(range) => range@,
            VersionFile::PackageJson(range) => range@,
            VersionFile::Asdf(range) => range@,
        }
    }

    /// The kind of file that the range was found in.
    pub fn kind(&self) -> (kind: VersionFileKind)
        ensures
            kind == self.kind_spec(),
    {
        match self {
            VersionFile::Nvmrc(_) => VersionFileKind::Nvmrc,
            VersionFile::PackageJson(_) => VersionFileKind::PackageJson,
            VersionFile::Asdf(_) => VersionFileKind::Asdf,
        }
    }

    /// The range.
    pub fn range(self) -> (range: VersionRange)
        ensures
            range@ == self.range_spec(),
    {
        match self {
            VersionFile::Nvmrc(range) => range,
            VersionFile::PackageJson(range) => range,
            VersionFile::Asdf(range) => range,
        }
    }
}

/// The `engines` entry of a `package.json`.
#[derive(Debug)]
pub struct PackageJsonEngines {
    /// The text of the `node` entry.
    pub node: Option<String>,
}

/// What a `package.json` says of the package and of the engines it needs.
#[derive(Debug)]
pub struct PackageJson {
    pub name: Option<String>,
    pub version: Option<String>,
    pub engines: Option<PackageJsonEngines>,
}

impl PackageJson {
    /// The text of the `engines.node` entry, if there is one.
    pub open spec fn node_spec(&self) -> Option<Seq<char>> {
        match self.engines {
            Some(engines) => match engines.node {
                Some(node) => Some(node@),
                None => None,
            },
            None => None,
        }
    }
}

/// What was found in the project directory.
#[derive(Debug)]
pub struct VersionFiles {
    /// `package.json`, if the file exists: what it says, or why it could not
    /// be read.
    pub package_json: Option<Result<PackageJson, String>>,
    /// The name and the contents of `.nvmrc`, or else of `.node-version`,
    /// whichever exists and could be read.
    pub nvmrc: Option<(String, String)>,
    /// The contents of `.tool-versions`, if the file exists and could be
    /// read.
    pub tool_versions: Option<String>,
}

/// A line without the carriage return that may end it.
pub open spec fn without_carriage_return(line: Seq<char>) -> Seq<char> {
    if line.len() > 0 && line.last() == '\r' {
        line.drop_last()
    } else {
        line
    }
}

/// The position of the first of `lines` that begins with `nodejs`, or the
/// number of lines where none does.
pub open spec fn nodejs_line(lines: Seq<Seq<char>>) -> int
    decreases lines.len(),
{
    if lines.len() == 0 || "nodejs"@.is_prefix_of(without_carriage_return(lines[0])) {
        0
    } else {
        1 + nodejs_line(lines.drop_first())
    }
}

/// The version that a `.tool-versions` file asks for: the second of the
/// space-separated words of the first line that begins with `nodejs`.
pub open spec fn tool_versions_entry(contents: Seq<char>) -> Option<Seq<char>> {
    let lines = split(contents, Separator::Line);
    let at = nodejs_line(lines);
    if at < lines.len() {
        let words = split(without_carriage_return(lines[at]), Separator::Space);
        if words.len() >= 2 {
            Some(words[1])
        } else {
            None
        }
    } else {
        None
    }
}

/// The version that a `.tool-versions` file asks for.
pub fn read_tool_versions(contents: &str) -> (entry: Option<String>)
    ensures
        match entry {
            Some(text) => tool_versions_entry(contents@) == Some(text@),
            None => tool_versions_entry(contents@) is None,
        },
{
    let lines = split_text(contents, Separator::Line);
    let ghost all = texts(lines@);
    let mut i: usize = 0;
    proof {
        assert(all.skip(0) =~= all);
    }
    while i < lines.len()
        invariant
            i <= lines.len(),
            all == texts(lines@),
            all == split(contents@, Separator::Line),
            nodejs_line(all) == i + nodejs_line(all.skip(i as int)),
        decreases lines.len() - i,
    {
        let chars = chars_of(lines[i].as_str());
        let line = if chars.len() > 0 && chars[chars.len() - 1] == '\r' {
            string_of(&chars, 0, chars.len() - 1)
        } else {
            string_of(&chars, 0, chars.len())
        };
        proof {
            assert(all.skip(i as int).drop_first() =~= all.skip(i + 1));
            assert(all.skip(i as int)[0] == lines@[i as int]@);
            assert(chars@.subrange(0, chars.len() as int) =~= chars@);
            if chars.len() > 0 {
                assert(chars@.subrange(0, chars.len() - 1) =~= chars@.drop_last());
            }
            assert(line@ == without_carriage_return(all[i as int]));
        }
        if starts_with(line.as_str(), "nodejs") {
            let mut words = split_text(line.as_str(), Separator::Space);
            if words.len() >= 2 {
                let word = words.swap_remove(1);
                return Some(word);
            } else {
                return None;
            }
        }
        i = i + 1;
    }
    None
}

/// What the search for a version file came to, and what is to be said of it.
#[derive(Debug)]
pub struct VersionFileSearch {
    pub found: Option<VersionFile>,
    /// The lines to print: one for each file that could not be made sense
    /// of.
    pub notes: Vec<String>,
}

/// Where the search for a version file starts: `package.json` decides if it
/// could be read, whether or not it names a range.
pub open spec fn package_json_decides(files: &VersionFiles) -> bool {
    match files.package_json {
        Some(Ok(package)) => match package.node_spec() {
            Some(node) => is_range(node),
            None => true,
        },
        _ => false,
    }
}

/// The kind and the text of the range that the files name: the one of
/// `package.json` where that file could be read (and none, where it names
/// none); else the contents of `.nvmrc` or `.node-version`; else the entry of
/// `.tool-versions`; each only where it is a range.
pub open spec fn version_file_of(files: &VersionFiles) -> Option<(VersionFileKind, Seq<char>)> {
    if package_json_decides(files) {
        match files.package_json->Some_0->Ok_0.node_spec() {
            Some(node) => Some((VersionFileKind::PackageJson, node)),
            None => None,
        }
    } else if files.nvmrc is Some && is_range(files.nvmrc->Some_0.1@) {
        Some((VersionFileKind::Nvmrc, files.nvmrc->Some_0.1@))
    } else if files.tool_versions is Some && tool_versions_entry(files.tool_versions->Some_0@) is Some
        && is_range(tool_versions_entry(files.tool_versions->Some_0@)->Some_0) {
        Some((VersionFileKind::Asdf, tool_versions_entry(files.tool_versions->Some_0@)->Some_0))
    } else {
        None
    }
}

/// The line that says that `name` holds `text`, which is no range.
pub open spec fn unreadable_note(name: Seq<char>, text: Seq<char>) -> Seq<char> {
    "Failed to parse "@ + name + ": '"@ + text + "'"@
}

/// The line that says that `package.json` could not be read.
pub open spec fn package_json_note(reason: Seq<char>) -> Seq<char> {
    "Failed to parse package.json: "@ + reason
}

/// The lines that the search prints: one for each file that it looked at and
/// could not make sense of.
pub open spec fn version_file_notes(files: &VersionFiles) -> Seq<Seq<char>> {
    if package_json_decides(files) {
        Seq::empty()
    } else {
        let first = match files.package_json {
            Some(Ok(package)) => seq![package_json_note(package.node_spec()->Some_0)],
            Some(Err(reason)) => seq![package_json_note(reason@)],
            None => Seq::empty(),
        };
        if files.nvmrc is Some && is_range(files.nvmrc->Some_0.1@) {
            first
        } else {
            let second = match files.nvmrc {
                Some(pair) => first.push(unreadable_note(pair.0@, pair.1@)),
                None => first,
            };
            match files.tool_versions {
                Some(contents) => match tool_versions_entry(contents@) {
                    Some(entry) => if is_range(entry) {
                        second
                    } else {
                        second.push(unreadable_note(".tool-versions"@, entry))
                    },
                    None => second,
                },
                None => second,
            }
        }
    }
}

/// The line that says that `name` holds `text`, which is no range.
fn note_unreadable(name: &str, text: &str) -> (line: String)
    ensures
        line@ == unreadable_note(name@, text@),
{
    let mut line = copy_str("Failed to parse ");
    line.append(name);
    line.append(": '");
    line.append(text);
    line.append("'");
    line
}

/// The line that says that `package.json` could not be read.
fn note_package_json(reason: &str) -> (line: String)
    ensures
        line@ == package_json_note(reason@),
{
    let mut line = copy_str("Failed to parse package.json: ");
    line.append(reason);
    line
}

/// Looks for the range that the project asks for.
pub fn get_version_file(files: &VersionFiles) -> (search: VersionFileSearch)
    ensures
        match search.found {
            Some(file) => version_file_of(files) == Some((file.kind_spec(), file.range_spec())),
            None => version_file_of(files) is None,
        },
        texts(search.notes@) == version_file_notes(files),
{
    let mut notes: Vec<String> = Vec::new();
    proof {
        assert(texts(notes@) =~= Seq::<Seq<char>>::empty());
    }
    match &files.package_json {
        Some(Ok(package)) => {
            match &package.engines {
                Some(engines) => match &engines.node {
                    Some(node) => {
                        match parse_range(node.as_str()) {
                            Ok(range) => {
                                return VersionFileSearch {
                                    found: Some(VersionFile::PackageJson(range)),
                                    notes,
                                };
                            },
                            Err(_) => {
                                let ghost before = texts(notes@);
                                let note = note_package_json(node.as_str());
                                proof {
                                    assert(texts(notes@.push(note)) =~= before.push(note@));
                                }
                                notes.push(note);
                            },
                        }
                    },
                    None => {
                        return VersionFileSearch { found: None, notes };
                    },
                },
                None => {
                    return VersionFileSearch { found: None, notes };
                },
            }
        },
        Some(Err(reason)) => {
            let ghost before = texts(notes@);
            let note = note_package_json(reason.as_str());
            proof {
                assert(texts(notes@.push(note)) =~= before.push(note@));
            }
            notes.push(note);
        },
        None => {},
    }
    let ghost first = texts(notes@);
    if let Some(pair) = &files.nvmrc {
        match parse_range(pair.1.as_str()) {
            Ok(range) => {
                return VersionFileSearch { found: Some(VersionFile::Nvmrc(range)), notes };
            },
            Err(_) => {
                let note = note_unreadable(pair.0.as_str(), pair.1.as_str());
                proof {
                    assert(texts(notes@.push(note)) =~= first.push(note@));
                }
                notes.push(note);
            },
        }
    }
    let ghost second = texts(notes@);
    if let Some(contents) = &files.tool_versions {
        if let Some(entry) = read_tool_versions(contents.as_str()) {
            match parse_range(entry.as_str()) {
                Ok(range) => {
                    return VersionFileSearch { found: Some(VersionFile::Asdf(range)), notes };
                },
                Err(_) => {
                    let note = note_unreadable(".tool-versions", entry.as_str());
                    proof {
                        assert(texts(notes@.push(note)) =~= second.push(note@));
                    }
                    notes.push(note);
                },
            }
        }
    }
    VersionFileSearch { found: None, notes }
}

} // verus!
