//! Where the tool keeps its files. Paths are plain strings with `/` between
//! their components.

use vstd::prelude::*;
use crate::platform::{Arch, Platform, Target};
use crate::text::{copy_str, join_path, path_join};

verus! {

/// The settings of one run.
#[derive(Debug)]
pub struct Config {
    /// The installation root, where it was chosen explicitly.
    pub dir: Option<String>,
    /// The path of the link to the active version, where it was chosen
    /// explicitly.
    pub shims_dir: Option<String>,
    /// Whether every question counts as answered with yes.
    pub force: bool,
    /// The directory under which the installation root lies by default.
    pub home: String,
    /// The machine that the tool runs on.
    pub target: Target,
}

impl Config {
    /// The installation root: the chosen one, or `nvm-rust` under `home`.
    pub open spec fn dir_spec(&self) -> Seq<char> {
        match self.dir {
            Some(dir) => dir@,
            None => path_join(self.home@, "nvm-rust"@),
        }
    }

    /// The path of the link to the active version: the chosen one, or `shims`
    /// under the installation root.
    pub open spec fn shims_dir_spec(&self) -> Seq<char> {
        match self.shims_dir {
            Some(shims_dir) => shims_dir@,
            None => path_join(self.dir_spec(), "shims"@),
        }
    }

    /// The directory that holds one directory per installed version.
    pub open spec fn versions_dir_spec(&self) -> Seq<char> {
        path_join(self.dir_spec(), "versions"@)
    }

    /// The installation root.
    pub fn get_dir(&self) -> (dir: String)
        ensures
            dir@ == self.dir_spec(),
    {
        match &self.dir {
            Some(dir) => dir.clone(),
            None => join_path(self.home.as_str(), "nvm-rust"),
        }
    }

    /// The path of the link to the active version.
    pub fn get_shims_dir(&self) -> (shims_dir: String)
        ensures
            shims_dir@ == self.shims_dir_spec(),
    {
        match &self.shims_dir {
            Some(shims_dir) => shims_dir.clone(),
            None => {
                let dir = self.get_dir();
                join_path(dir.as_str(), "shims")
            },
        }
    }

    /// The directory that holds one directory per installed version.
    pub fn get_versions_dir(&self) -> (versions_dir: String)
        ensures
            versions_dir@ == self.versions_dir_spec(),
    {
        let dir = self.get_dir();
        join_path(dir.as_str(), "versions")
    }

    /// The same settings with `force` set and both directories spelled out.
    pub fn with_force(&self) -> (forced: Config)
        ensures
            forced.force,
            forced.dir is Some,
            forced.shims_dir is Some,
            forced.dir_spec() == self.dir_spec(),
            forced.shims_dir_spec() == self.shims_dir_spec(),
            forced.versions_dir_spec() == self.versions_dir_spec(),
            forced.home@ == self.home@,
            forced.target == self.target,
    {
        Config {
            dir: Some(self.get_dir()),
            shims_dir: Some(self.get_shims_dir()),
            force: true,
            home: self.home.clone(),
            target: self.target,
        }
    }
}

/// The two directories of the layout that keeps the link under the
/// installation root.
#[derive(Debug)]
pub struct OldConfig {
    pub dir: String,
    pub shims_dir: String,
}

impl OldConfig {
    /// The installation root that is used where none is chosen: a fixed
    /// directory on Windows, which depends on the architecture, and `.nvm`
    /// in the home directory elsewhere.
    pub open spec fn default_dir_spec(target: Target, home: Seq<char>) -> Seq<char> {
        match target.platform {
            Platform::Windows => if target.arch == Arch::X86 {
                "C:\\Program Files (x86)\\nvm"@
            } else {
                "C:\\Program Files\\nvm"@
            },
            _ => home + "/.nvm"@,
        }
    }

    /// The installation root that is used where none is chosen.
    pub fn get_default_dir(target: Target, home: &str) -> (dir: String)
        ensures
            dir@ == Self::default_dir_spec(target, home@),
    {
        match target.platform {
            Platform::Windows => {
                match target.arch {
                    Arch::X86 => copy_str("C:\\Program Files (x86)\\nvm"),
                    _ => copy_str("C:\\Program Files\\nvm"),
                }
            },
            _ => {
                let mut dir = copy_str(home);
                dir.append("/.nvm");
                dir
            },
        }
    }

    /// The layout under the installation root `dir`: the link is `shims`
    /// under it.
    pub fn from_dir(dir: String) -> (config: OldConfig)
        ensures
            config.dir@ == dir@,
            config.shims_dir@ == path_join(dir@, "shims"@),
    {
        let shims_dir = join_path(dir.as_str(), "shims");
        OldConfig { dir, shims_dir }
    }
}

} // verus!
