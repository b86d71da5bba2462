use nvm_rust::bridge::VersionRange;
use nvm_rust::config::Config;
use nvm_rust::engine::{Action, Event, Failure, Step};
use nvm_rust::files::{get_version_file, VersionFile, VersionFiles};
use nvm_rust::install::{InstallCommand, InstallPlan, InstallState, Installation, SwitchWish};
use nvm_rust::node_version::{DirectoryEntry, InstalledNodeVersion, OnlineNodeVersion};
use nvm_rust::parse_version::ParseVersionCommand;
use nvm_rust::platform::{Arch, Platform, Target};
use nvm_rust::range::parse_range;
use nvm_rust::switch::{current, Activation, SwitchCommand, SwitchState};
use nvm_rust::uninstall::{Removal, UninstallCommand, UninstallState};
use nvm_rust::version::Version;

const ROOT: &str = "/tmp/nvm";

/// A disk, a network and a terminal that live in memory.
struct World {
    directories: Vec<String>,
    files: Vec<String>,
    link: Option<String>,
    published: Vec<&'static str>,
    archive: Vec<String>,
    cursor: usize,
    fetched: Vec<String>,
    answers: Vec<bool>,
    stdout: Vec<String>,
    stderr: Vec<String>,
    failing_write: Option<usize>,
    writes: usize,
}

fn world() -> World {
    World {
        directories: vec![],
        files: vec![],
        link: None,
        published: vec![
            "v18.12.1", "v16.19.0", "v14.21.2", "v14.21.1", "v14.21.0", "v14.20.1", "v14.20.0",
            "v12.22.12", "v12.18.3",
        ],
        archive: vec![],
        cursor: 0,
        fetched: vec![],
        answers: vec![],
        stdout: vec![],
        stderr: vec![],
        failing_write: None,
        writes: 0,
    }
}

fn config(force: bool) -> Config {
    Config {
        dir: Some(ROOT.to_string()),
        shims_dir: None,
        force,
        home: "/home/tester".to_string(),
        target: Target { platform: Platform::Linux, arch: Arch::X64 },
    }
}

fn no_files() -> VersionFiles {
    VersionFiles { package_json: None, nvmrc: None, tool_versions: None }
}

impl World {
    fn install_mock_version(&mut self, version: &str) {
        let directory = format!("{ROOT}/versions/{version}");
        for name in ["node", "npm", "npx"] {
            self.files.push(format!("{directory}/bin/{name}"));
        }
        self.directories.push(directory);
    }

    fn create_shim(&mut self, version: &str) {
        self.link = Some(format!("{ROOT}/versions/{version}/bin"));
    }

    fn names(&self) -> Vec<String> {
        let prefix = format!("{ROOT}/versions/");
        self.directories
            .iter()
            .filter_map(|path| path.strip_prefix(&prefix))
            .filter(|name| !name.contains('/'))
            .map(|name| name.to_string())
            .collect()
    }

    /// The entries of the versions directory: its subdirectories, and the
    /// files that lie directly in it.
    fn entries(&self) -> Vec<DirectoryEntry> {
        let prefix = format!("{ROOT}/versions/");
        let directories =
            self.names().into_iter().map(|name| DirectoryEntry { name, is_directory: true });
        let files = self
            .files
            .iter()
            .filter_map(|path| path.strip_prefix(&prefix))
            .filter(|name| !name.contains('/'))
            .map(|name| DirectoryEntry { name: name.to_string(), is_directory: false });
        directories.chain(files).collect()
    }

    fn catalog(&self) -> Vec<OnlineNodeVersion> {
        self.published
            .iter()
            .map(|text| {
                OnlineNodeVersion::new(Version::parse(text).unwrap(), "2022-12-13".to_string(), vec![])
            })
            .collect()
    }

    fn is_installed(&self, version: &str) -> bool {
        let directory = format!("{ROOT}/versions/{version}");
        self.directories.contains(&directory)
            && ["node", "npm", "npx"]
                .iter()
                .all(|name| self.files.contains(&format!("{directory}/bin/{name}")))
    }

    fn selected_version(&self) -> Option<String> {
        current(self.link.as_deref()).map(|version| version.to_string())
    }

    fn stdout_text(&self) -> String {
        self.stdout.join("\n")
    }

    fn stderr_text(&self) -> String {
        self.stderr.join("\n")
    }

    /// Carries out one action and says what came of it; `None` once the
    /// operation is over.
    fn perform(&mut self, action: Action) -> Option<Result<Event, Failure>> {
        Some(Ok(match action {
            Action::Fetch { url } => {
                self.fetched.push(url);
                self.cursor = 0;
                Event::Done
            },
            Action::CreateDir { path } => {
                self.directories.push(path);
                Event::Done
            },
            Action::NextEntry => {
                if self.cursor < self.archive.len() {
                    self.cursor += 1;
                    Event::Entry { path: self.archive[self.cursor - 1].clone() }
                } else {
                    Event::EndOfArchive
                }
            },
            Action::WriteEntry { path } => {
                self.writes += 1;
                if self.failing_write == Some(self.writes) {
                    Event::Failed { reason: "disk full".to_string() }
                } else {
                    self.files.push(path);
                    Event::Done
                }
            },
            Action::CheckFiles { first, second } => {
                if !self.files.contains(&first) {
                    Event::Failed { reason: format!("{first} is missing") }
                } else if !self.files.contains(&second) {
                    Event::Failed { reason: format!("{second} is missing") }
                } else {
                    Event::Done
                }
            },
            Action::RemoveTree { path } => {
                let inside = format!("{path}/");
                self.directories.retain(|d| d != &path && !d.starts_with(&inside));
                self.files.retain(|f| !f.starts_with(&inside));
                Event::Done
            },
            Action::ProbeLink { .. } => Event::Link { target: self.link.clone() },
            Action::RemoveLink { .. } => {
                self.link = None;
                Event::Done
            },
            Action::CreateLink { target, .. } => {
                self.link = Some(target);
                Event::Done
            },
            Action::Ask { .. } => Event::Answer { yes: self.answers.remove(0) },
            Action::Succeed => return None,
            Action::Fail { failure } => return Some(Err(failure)),
        }))
    }

    fn activate(&mut self, config: &Config, version: &Version) -> Result<(), Failure> {
        let activation = Activation::new(config, &self.entries(), version);
        let mut state = SwitchState::Ready;
        let mut event = Event::Start;
        loop {
            let Step { state: next, lines, action } = activation.step(state, &event);
            self.stdout.extend(lines);
            state = next;
            match self.perform(action) {
                None => return Ok(()),
                Some(Err(failure)) => return Err(failure),
                Some(Ok(reported)) => event = reported,
            }
        }
    }

    fn unpack(&mut self, installation: &Installation) -> Result<(), Failure> {
        let mut state = InstallState::Pending;
        let mut event = Event::Start;
        loop {
            let Step { state: next, lines, action } = installation.step(state, &event);
            self.stdout.extend(lines);
            state = next;
            match self.perform(action) {
                None => return Ok(()),
                Some(Err(failure)) => return Err(failure),
                Some(Ok(reported)) => event = reported,
            }
        }
    }

    fn remove(&mut self, removal: &Removal) -> Result<(), Failure> {
        let mut state = UninstallState::Ready;
        let mut event = Event::Start;
        loop {
            let Step { state: next, lines, action } = removal.step(state, &event);
            self.stdout.extend(lines);
            state = next;
            match self.perform(action) {
                None => return Ok(()),
                Some(Err(failure)) => return Err(failure),
                Some(Ok(reported)) => event = reported,
            }
        }
    }

    fn version_file(&self) -> Option<VersionFile> {
        get_version_file(&no_files()).found
    }

    fn install(&mut self, config: &Config, range: Option<VersionRange>) -> Result<(), Failure> {
        let command = InstallCommand { version: range, switch: false, enable_corepack: false };
        let filter = command.filter(self.version_file())?;
        match command.plan(config, &filter, self.catalog(), &self.entries())? {
            InstallPlan::Skip { line } => {
                self.stdout.push(line);
                Ok(())
            },
            InstallPlan::Install { installation } => {
                let folder = format!("node-v{}-linux-x64", installation.name);
                self.archive = ["", "/bin/", "/bin/node", "/bin/npm", "/bin/npx", "/README.md"]
                    .iter()
                    .map(|rest| format!("{folder}{rest}"))
                    .collect();
                self.unpack(&installation)?;
                if command.switch_wish(config) == SwitchWish::Yes {
                    self.activate(&config.with_force(), &installation.version)?;
                }
                Ok(())
            },
        }
    }

    fn uninstall(&mut self, config: &Config, range: VersionRange) -> Result<(), Failure> {
        let command = UninstallCommand { version: range };
        let found = command.resolve(config, &self.entries())?;
        let removal = Removal::new(config, &found, self.link.as_deref());
        self.remove(&removal)
    }

    fn switch(&mut self, config: &Config, range: Option<VersionRange>) -> Result<(), Failure> {
        let command = SwitchCommand { version: range };
        let found: InstalledNodeVersion =
            command.resolve(config, &self.entries(), self.version_file())?;
        self.activate(config, &found.version)
    }

    fn parse_version(&mut self, expression: Option<String>) -> Result<(), Failure> {
        let command = ParseVersionCommand { version: expression };
        let text = command.output(self.version_file())?;
        self.stdout.push(text);
        Ok(())
    }

    /// Runs the tool with the arguments of a command line.
    fn run(&mut self, args: &[&str]) -> i32 {
        let force = args.contains(&"--force");
        let words: Vec<&str> = args.iter().copied().filter(|arg| *arg != "--force").collect();
        let config = config(force);
        let range = match words.get(1) {
            Some(text) => match parse_range(text) {
                Ok(range) => Some(range),
                Err(error) => {
                    self.stderr.push(format!("Error: invalid range `{}`", error.input));
                    return 2;
                },
            },
            None => None,
        };
        let outcome = match words[0] {
            "install" => self.install(&config, range),
            "uninstall" => self.uninstall(&config, range.expect("a range")),
            "use" => self.switch(&config, range),
            "pv" => self.parse_version(words.get(1).map(|text| text.to_string())),
            other => panic!("no such command: {other}"),
        };
        match outcome {
            Ok(()) => 0,
            Err(failure) => {
                self.stderr.push(failure.report());
                1
            },
        }
    }
}

#[test]
fn can_install_version_matching_range() {
    let mut world = world();

    let version_range = ">=14, <14.21";
    let code = world.run(&["install", "--force", version_range]);

    assert_eq!(code, 0);
    assert!(world
        .stdout_text()
        .contains("Downloading from https://nodejs.org/dist/v14.20.1/node-v14.20.1-"));
    assert_eq!(world.stderr_text(), "");
    assert!(world.is_installed("14.20.1"));
}

#[test]
fn can_install_version_matching_exact_version() {
    let mut world = world();

    let version_str = "14.21.2";
    let code = world.run(&["install", "--force", version_str]);

    assert_eq!(code, 0);
    assert!(world
        .stdout_text()
        .contains("Downloading from https://nodejs.org/dist/v14.21.2/node-v14.21.2-"));
    assert_eq!(world.stderr_text(), "");
    assert!(world.is_installed(version_str));
}

#[test]
fn stops_when_installing_installed_version() {
    let mut world = world();

    let version_str = "14.21.2";
    world.install_mock_version(version_str);

    let code = world.run(&["install", version_str]);

    assert_eq!(code, 0);
    assert!(world.stdout_text().contains("14.21.2 is already installed - skipping..."));
    assert_eq!(world.stderr_text(), "");
    assert!(world.fetched.is_empty());
}

#[test]
fn force_forces_install_of_installed_version() {
    let mut world = world();

    let version_str = "14.21.2";
    let code = world.run(&["install", "--force", version_str]);

    assert_eq!(code, 0);
    assert!(world
        .stdout_text()
        .contains("Downloading from https://nodejs.org/dist/v14.21.2/node-v14.21.2-"));
    assert!(world.stdout_text().contains("Extracting..."));
    assert_eq!(world.stderr_text(), "");
    assert!(world.is_installed(version_str));
}

#[test]
fn install_test_exits_gracefully_if_no_version_is_found() {
    let mut world = world();

    let code = world.run(&["install", "--force", "12.99.99"]);

    assert_ne!(code, 0);
    assert_eq!(world.stdout_text(), "");
    assert!(world.stderr_text().contains("Error: Did not find a version matching `12.99.99`!"));
}

#[test]
fn switch_test_can_switch_version_with_no_previous_one() {
    let mut world = world();

    let version_str = "12.18.3";
    world.install_mock_version(version_str);
    let code = world.run(&["use", "12"]);

    assert_eq!(code, 0);
    assert_eq!(world.stdout_text().trim(), "Switched to 12.18.3");
    assert_eq!(world.selected_version(), Some(version_str.to_string()));
}

#[test]
fn can_switch_version_with_previous_version() {
    let mut world = world();
    let old_version = "12.18.3";
    let new_version = "14.5.0";

    world.install_mock_version(old_version);
    world.install_mock_version(new_version);
    world.create_shim(old_version);

    let code = world.run(&["use", "14"]);

    assert_eq!(code, 0);
    assert_eq!(world.selected_version(), Some(new_version.to_string()));
    assert!(world.stdout_text().contains("Switched to 14.5.0"));
    assert_eq!(world.stderr_text(), "");
}

fn setup_versions(world: &mut World, versions: Vec<&str>) {
    for version_str in versions.iter() {
        world.install_mock_version(version_str);
    }
    world.create_shim(versions[0]);
}

#[test]
fn can_uninstall_version_matching_range() {
    let mut world = world();

    let version_str = "12.18.3";
    setup_versions(&mut world, vec!["14.5.0", version_str]);

    let code = world.run(&["uninstall", "12"]);

    assert_eq!(code, 0);
    assert!(world.stdout_text().contains("Uninstalled 12.18.3!"));
    assert_eq!(world.stderr_text(), "");
    assert!(!world.is_installed(version_str));
    assert_eq!(world.selected_version(), Some("14.5.0".to_string()));
}

#[test]
fn can_uninstall_version_matching_exact_version() {
    let mut world = world();

    let version_str = "12.18.3";
    setup_versions(&mut world, vec!["14.5.0", version_str]);

    let code = world.run(&["uninstall", version_str]);

    assert_eq!(code, 0);
    assert!(world.stdout_text().contains("Uninstalled 12.18.3!"));
    assert_eq!(world.stderr_text(), "");
    assert!(!world.is_installed(version_str));
    assert_eq!(world.selected_version(), Some("14.5.0".to_string()));
}

#[test]
fn force_skips_prompt() {
    let mut world = world();

    let version_str = "12.18.3";
    setup_versions(&mut world, vec![version_str]);

    let code = world.run(&["uninstall", version_str, "--force"]);

    assert_eq!(code, 0);
    assert!(world
        .stdout_text()
        .contains("12.18.3 is currently selected.\nUninstalled 12.18.3!"));
    assert_eq!(world.stderr_text(), "");
    assert!(!world.is_installed(version_str));
    assert_eq!(world.selected_version(), None);
}

#[test]
fn uninstall_test_exits_gracefully_if_no_version_is_found() {
    let mut world = world();

    setup_versions(&mut world, vec!["14.5.0"]);

    let code = world.run(&["uninstall", "12"]);

    assert_ne!(code, 0);
    assert_eq!(world.stdout_text(), "");
    assert!(world.stderr_text().contains("Error: >=12.0.0 <13.0.0-0 is not installed."));
}

#[test]
fn xxx_test_can_switch_version_with_no_previous_one() {
    let mut world = world();

    let version_str = "12.18.3";
    world.install_mock_version(version_str);
    let code = world.run(&["pv"]);

    println!("{}", world.stdout_text().trim());
    println!("{}", world.stderr_text().trim());
    assert_ne!(code, 0);
    assert_eq!(world.stderr_text(), "Error: Did not get a version");
}

#[test]
fn declined_uninstall_changes_nothing() {
    let mut world = world();
    setup_versions(&mut world, vec!["12.18.3"]);
    world.answers = vec![false];

    let code = world.run(&["uninstall", "12.18.3"]);

    assert_eq!(code, 0);
    assert_eq!(world.stdout_text(), "12.18.3 is currently selected.");
    assert!(world.is_installed("12.18.3"));
    assert_eq!(world.selected_version(), Some("12.18.3".to_string()));
}

#[test]
fn confirmed_uninstall_of_active_version_deselects_it() {
    let mut world = world();
    setup_versions(&mut world, vec!["12.18.3", "14.5.0"]);
    world.answers = vec![true];

    let code = world.run(&["uninstall", "12.18.3"]);

    assert_eq!(code, 0);
    assert!(!world.is_installed("12.18.3"));
    assert!(world.is_installed("14.5.0"));
    assert_eq!(world.selected_version(), None);
}

#[test]
fn failed_extraction_leaves_no_trace() {
    let mut world = world();
    world.failing_write = Some(2);

    let code = world.run(&["install", "14.21.2"]);

    assert_eq!(code, 1);
    assert_eq!(world.stderr_text(), "Error: Failed to extract the archive: disk full");
    assert!(world.entries().is_empty());
    assert!(world.names().is_empty());
    assert!(world.files.is_empty());
    let listed = InstalledNodeVersion::list(&config(false), &world.entries());
    assert!(listed.is_empty());
}

#[test]
fn switching_twice_keeps_the_version_active() {
    let mut world = world();
    world.install_mock_version("14.5.0");

    assert_eq!(world.run(&["use", "14.5.0"]), 0);
    assert_eq!(world.selected_version(), Some("14.5.0".to_string()));
    assert_eq!(world.run(&["use", "14.5.0"]), 0);
    assert_eq!(world.selected_version(), Some("14.5.0".to_string()));
    assert_eq!(world.stderr_text(), "");
    assert_eq!(world.link, Some("/tmp/nvm/versions/14.5.0/bin".to_string()));
}

#[test]
fn installs_only_the_version_in_range() {
    let mut world = world();
    world.published = vec!["v12.9.0", "v12.7.0"];

    let code = world.run(&["install", ">=12, <12.8"]);

    assert_eq!(code, 0);
    assert_eq!(
        world.fetched,
        vec!["https://nodejs.org/dist/v12.7.0/node-v12.7.0-linux-x64.tar.gz".to_string()]
    );
    assert_eq!(world.names(), vec!["12.7.0".to_string()]);
    assert!(world.is_installed("12.7.0"));
    assert!(!world.is_installed("12.9.0"));
}

#[test]
fn forced_install_switches_to_the_new_version() {
    let mut world = world();
    world.install_mock_version("12.18.3");
    world.create_shim("12.18.3");

    let code = world.run(&["install", "--force", "14.20.1"]);

    assert_eq!(code, 0);
    assert_eq!(world.selected_version(), Some("14.20.1".to_string()));
    assert!(world.stdout_text().ends_with("Switched to 14.20.1"));
}

#[test]
fn entry_that_leaves_the_installation_aborts_the_install() {
    let mut world = world();
    let config = config(false);
    let online = OnlineNodeVersion::new(Version::parse("14.21.2").unwrap(), String::new(), vec![]);
    let installation = Installation::new(&config, &online, false);
    world.archive = vec![
        "node-v14.21.2-linux-x64/bin/node".to_string(),
        "node-v14.21.2-linux-x64/../../../etc/passwd".to_string(),
    ];

    let outcome = world.unpack(&installation);

    let failure = outcome.unwrap_err();
    assert_eq!(
        failure.message(),
        "Failed to extract the archive: node-v14.21.2-linux-x64/../../../etc/passwd leaves the installation"
    );
    assert!(world.directories.is_empty());
    assert!(world.files.is_empty());
}

#[test]
fn file_named_like_a_version_is_not_installed() {
    let mut world = world();
    world.files.push(format!("{ROOT}/versions/14.5.0"));
    world.install_mock_version("12.18.3");

    assert_eq!(world.run(&["use", "14"]), 1);
    assert_eq!(world.stderr_text(), "Error: >=14.0.0 <15.0.0-0 is not installed.");
    assert_eq!(world.run(&["use", "12"]), 0);
    assert_eq!(world.selected_version(), Some("12.18.3".to_string()));
}

#[test]
fn use_without_any_version_fails() {
    let mut world = world();
    let code = world.run(&["use"]);
    assert_eq!(code, 1);
    assert_eq!(
        world.stderr_text(),
        "Error: You did not pass a version and we did not find any version files (package.json#engines, .nvmrc) in the current directory."
    );
}
