//! The targets that Node.js is distributed for, and what differs between
//! them: the names used in archive file names, the archive format and the
//! extension of executable scripts.

use vstd::prelude::*;

verus! {

/// An operating system.
#[derive(Clone, Copy, Debug, PartialEq, Eq, Structural)]
pub enum Platform {
    Windows,
    MacOs,
    Linux,
}

/// A processor architecture.
#[derive(Clone, Copy, Debug, PartialEq, Eq, Structural)]
pub enum Arch {
    X64,
    X86,
    Arm64,
}

/// How a distribution archive is packed.
#[derive(Clone, Copy, Debug, PartialEq, Eq, Structural)]
pub enum ArchiveFormat {
    /// A gzip-compressed tar archive.
    TarGz,
    /// A zip archive.
    Zip,
}

/// The machine that the tool runs on.
#[derive(Clone, Copy, Debug, PartialEq, Eq, Structural)]
pub struct Target {
    pub platform: Platform,
    pub arch: Arch,
}

impl Platform {
    /// The platform's name in archive file names.
    pub open spec fn name_spec(self) -> Seq<char> {
        match self {
            Platform::Windows => "win"@,
            Platform::MacOs => "darwin"@,
            Platform::Linux => "linux"@,
        }
    }

    /// The extension of the archives published for the platform.
    pub open spec fn archive_ext_spec(self) -> Seq<char> {
        match self {
            Platform::Windows => ".zip"@,
            Platform::MacOs => ".tar.gz"@,
            Platform::Linux => ".tar.gz"@,
        }
    }

    /// The format of the archives published for the platform.
    pub open spec fn archive_format_spec(self) -> ArchiveFormat {
        match self {
            Platform::Windows => ArchiveFormat::Zip,
            Platform::MacOs => ArchiveFormat::TarGz,
            Platform::Linux => ArchiveFormat::TarGz,
        }
    }

    /// The extension of the executable scripts that an installation holds.
    pub open spec fn exec_ext_spec(self) -> Seq<char> {
        match self {
            Platform::Windows => ".cmd"@,
            Platform::MacOs => ""@,
            Platform::Linux => ""@,
        }
    }

    /// The name of the Node.js program in an installation.
    pub open spec fn node_program_spec(self) -> Seq<char> {
        match self {
            Platform::Windows => "node.exe"@,
            Platform::MacOs => "node"@,
            Platform::Linux => "node"@,
        }
    }

    /// The name of the npm program in an installation.
    pub open spec fn npm_program_spec(self) -> Seq<char> {
        match self {
            Platform::Windows => "npm.cmd"@,
            Platform::MacOs => "npm"@,
            Platform::Linux => "npm"@,
        }
    }

    /// The name of the corepack program in an installation.
    pub open spec fn corepack_program_spec(self) -> Seq<char> {
        match self {
            Platform::Windows => "corepack.cmd"@,
            Platform::MacOs => "corepack"@,
            Platform::Linux => "corepack"@,
        }
    }

    /// Whether the active version's link points at the installation's `bin`
    /// directory rather than at the installation itself.
    pub open spec fn links_to_bin_spec(self) -> bool {
        self != Platform::Windows
    }

    /// The platform's name in archive file names.
    pub fn name(self) -> (s: &'static str)
        ensures
            s@ == self.name_spec(),
    {
        match self {
            Platform::Windows => "win",
            Platform::MacOs => "darwin",
            Platform::Linux => "linux",
        }
    }

    /// The extension of the archives published for the platform.
    pub fn archive_ext(self) -> (s: &'static str)
        ensures
            s@ == self.archive_ext_spec(),
    {
        match self {
            Platform::Windows => ".zip",
            Platform::MacOs => ".tar.gz",
            Platform::Linux => ".tar.gz",
        }
    }

    /// The format of the archives published for the platform.
    pub fn archive_format(self) -> (f: ArchiveFormat)
        ensures
            f == self.archive_format_spec(),
    {
        match self {
            Platform::Windows => ArchiveFormat::Zip,
            Platform::MacOs => ArchiveFormat::TarGz,
            Platform::Linux => ArchiveFormat::TarGz,
        }
    }

    /// The extension of the executable scripts that an installation holds.
    pub fn exec_ext(self) -> (s: &'static str)
        ensures
            s@ == self.exec_ext_spec(),
    {
        match self {
            Platform::Windows => ".cmd",
            Platform::MacOs => "",
            Platform::Linux => "",
        }
    }

    /// The name of the Node.js program in an installation.
    pub fn node_program(self) -> (s: &'static str)
        ensures
            s@ == self.node_program_spec(),
    {
        match self {
            Platform::Windows => "node.exe",
            Platform::MacOs => "node",
            Platform::Linux => "node",
        }
    }

    /// The name of the npm program in an installation.
    pub fn npm_program(self) -> (s: &'static str)
        ensures
            s@ == self.npm_program_spec(),
    {
        match self {
            Platform::Windows => "npm.cmd",
            Platform::MacOs => "npm",
            Platform::Linux => "npm",
        }
    }

    /// The name of the corepack program in an installation.
    pub fn corepack_program(self) -> (s: &'static str)
        ensures
            s@ == self.corepack_program_spec(),
    {
        match self {
            Platform::Windows => "corepack.cmd",
            Platform::MacOs => "corepack",
            Platform::Linux => "corepack",
        }
    }

    /// Whether the active version's link points at the installation's `bin`
    /// directory rather than at the installation itself.
    pub fn links_to_bin(self) -> (b: bool)
        ensures
            b == self.links_to_bin_spec(),
    {
        match self {
            Platform::Windows => false,
            Platform::MacOs => true,
            Platform::Linux => true,
        }
    }
}

impl Arch {
    /// The architecture's name in archive file names.
    pub open spec fn name_spec(self) -> Seq<char> {
        match self {
            Arch::X64 => "x64"@,
            Arch::X86 => "x86"@,
            Arch::Arm64 => "arm64"@,
        }
    }

    /// The architecture's name in archive file names.
    pub fn name(self) -> (s: &'static str)
        ensures
            s@ == self.name_spec(),
    {
        match self {
            Arch::X64 => "x64",
            Arch::X86 => "x86",
            Arch::Arm64 => "arm64",
        }
    }
}

} // verus!
