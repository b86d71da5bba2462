use nvm_rust::config::{Config, OldConfig};
use nvm_rust::platform::{Arch, ArchiveFormat, Platform, Target};
use nvm_rust::text::{join_path, split_text, starts_with, str_equal, Separator};

fn target(platform: Platform, arch: Arch) -> Target {
    Target { platform, arch }
}

fn config(dir: Option<&str>, shims_dir: Option<&str>) -> Config {
    Config {
        dir: dir.map(|text| text.to_string()),
        shims_dir: shims_dir.map(|text| text.to_string()),
        force: false,
        home: "/home/tester".to_string(),
        target: target(Platform::Linux, Arch::X64),
    }
}

#[test]
fn default_directories_lie_under_home() {
    let config = config(None, None);
    assert_eq!(config.get_dir(), "/home/tester/nvm-rust");
    assert_eq!(config.get_shims_dir(), "/home/tester/nvm-rust/shims");
    assert_eq!(config.get_versions_dir(), "/home/tester/nvm-rust/versions");
}

#[test]
fn chosen_directories_win() {
    let config = config(Some("/opt/nvm"), Some("/usr/local/shims"));
    assert_eq!(config.get_dir(), "/opt/nvm");
    assert_eq!(config.get_shims_dir(), "/usr/local/shims");
    assert_eq!(config.get_versions_dir(), "/opt/nvm/versions");
}

#[test]
fn shims_follow_the_chosen_root() {
    let config = config(Some("/opt/nvm/"), None);
    assert_eq!(config.get_shims_dir(), "/opt/nvm/shims");
    assert_eq!(config.get_versions_dir(), "/opt/nvm/versions");
}

#[test]
fn with_force_spells_the_directories_out() {
    let forced = config(None, None).with_force();
    assert!(forced.force);
    assert_eq!(forced.dir, Some("/home/tester/nvm-rust".to_string()));
    assert_eq!(forced.shims_dir, Some("/home/tester/nvm-rust/shims".to_string()));
    assert_eq!(forced.get_versions_dir(), "/home/tester/nvm-rust/versions");
    assert_eq!(forced.home, "/home/tester");
    assert_eq!(forced.target, target(Platform::Linux, Arch::X64));
}

#[test]
fn old_default_directory_depends_on_the_platform() {
    assert_eq!(
        OldConfig::get_default_dir(target(Platform::Linux, Arch::X64), "/home/tester"),
        "/home/tester/.nvm"
    );
    assert_eq!(
        OldConfig::get_default_dir(target(Platform::MacOs, Arch::Arm64), "/Users/tester"),
        "/Users/tester/.nvm"
    );
    assert_eq!(
        OldConfig::get_default_dir(target(Platform::Windows, Arch::X86), "C:\\Users\\tester"),
        "C:\\Program Files (x86)\\nvm"
    );
    assert_eq!(
        OldConfig::get_default_dir(target(Platform::Windows, Arch::X64), "C:\\Users\\tester"),
        "C:\\Program Files\\nvm"
    );
}

#[test]
fn old_layout_keeps_the_link_under_the_root() {
    let old = OldConfig::from_dir("/home/tester/.nvm".to_string());
    assert_eq!(old.dir, "/home/tester/.nvm");
    assert_eq!(old.shims_dir, "/home/tester/.nvm/shims");
}

#[test]
fn platform_table_names_each_target() {
    assert_eq!(Platform::Windows.name(), "win");
    assert_eq!(Platform::MacOs.name(), "darwin");
    assert_eq!(Platform::Linux.name(), "linux");
    assert_eq!(Platform::Windows.archive_ext(), ".zip");
    assert_eq!(Platform::MacOs.archive_ext(), ".tar.gz");
    assert_eq!(Platform::Linux.archive_ext(), ".tar.gz");
    assert_eq!(Platform::Windows.archive_format(), ArchiveFormat::Zip);
    assert_eq!(Platform::Linux.archive_format(), ArchiveFormat::TarGz);
    assert_eq!(Platform::MacOs.archive_format(), ArchiveFormat::TarGz);
    assert_eq!(Platform::Windows.exec_ext(), ".cmd");
    assert_eq!(Platform::Linux.exec_ext(), "");
    assert_eq!(Platform::MacOs.exec_ext(), "");
    assert_eq!(Arch::X64.name(), "x64");
    assert_eq!(Arch::X86.name(), "x86");
    assert_eq!(Arch::Arm64.name(), "arm64");
}

#[test]
fn platform_table_names_the_programs() {
    assert_eq!(Platform::Windows.node_program(), "node.exe");
    assert_eq!(Platform::Linux.node_program(), "node");
    assert_eq!(Platform::Windows.npm_program(), "npm.cmd");
    assert_eq!(Platform::MacOs.npm_program(), "npm");
    assert_eq!(Platform::Windows.corepack_program(), "corepack.cmd");
    assert_eq!(Platform::Linux.corepack_program(), "corepack");
    assert!(!Platform::Windows.links_to_bin());
    assert!(Platform::Linux.links_to_bin());
    assert!(Platform::MacOs.links_to_bin());
}

#[test]
fn joins_paths_with_one_slash() {
    assert_eq!(join_path("/a", "b"), "/a/b");
    assert_eq!(join_path("/a/", "b"), "/a/b");
    assert_eq!(join_path("", "b"), "b");
    assert_eq!(join_path("/", "b"), "/b");
    assert_eq!(join_path("a", ""), "a/");
}

#[test]
fn cuts_text_at_separators() {
    assert_eq!(split_text("a/b\\c", Separator::Path), vec!["a", "b", "c"]);
    assert_eq!(split_text("/a//b/", Separator::Path), vec!["", "a", "", "b", ""]);
    assert_eq!(split_text("", Separator::Path), vec![""]);
    assert_eq!(split_text("nodejs 14.5.0", Separator::Space), vec!["nodejs", "14.5.0"]);
    assert_eq!(split_text("one\ntwo\n", Separator::Line), vec!["one", "two", ""]);
    assert_eq!(split_text("a/b", Separator::Space), vec!["a/b"]);
}

#[test]
fn tells_prefixes_and_equal_texts() {
    assert!(starts_with("nodejs 14", "nodejs"));
    assert!(starts_with("nodejs", "nodejs"));
    assert!(starts_with("nodejs", ""));
    assert!(!starts_with("node", "nodejs"));
    assert!(!starts_with("python 3", "nodejs"));
    assert!(str_equal("abc", "abc"));
    assert!(str_equal("", ""));
    assert!(!str_equal("abc", "abd"));
    assert!(!str_equal("abc", "ab"));
}
