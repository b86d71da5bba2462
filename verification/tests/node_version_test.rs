use nvm_rust::bridge::VersionRange;
use nvm_rust::config::Config;
use nvm_rust::node_version::{
    compare_versions, directory_names, filter_version_req, get_latest_of_each_major,
    latest_positions, same_version, DirectoryEntry, InstalledNodeVersion, NodeVersion,
    OnlineNodeVersion,
};
use nvm_rust::order::Precedence;
use nvm_rust::platform::{Arch, Platform, Target};
use nvm_rust::sorting::sort_versions_descending;
use nvm_rust::version::Version;

fn version(text: &str) -> Version {
    Version::parse(text).unwrap()
}

fn range(text: &str) -> VersionRange {
    VersionRange::parse(text).unwrap()
}

fn online(text: &str) -> OnlineNodeVersion {
    OnlineNodeVersion::new(version(text), String::new(), vec![])
}

fn config() -> Config {
    Config {
        dir: Some("/opt/nvm".to_string()),
        shims_dir: None,
        force: false,
        home: "/home/tester".to_string(),
        target: Target { platform: Platform::Linux, arch: Arch::X64 },
    }
}

fn names(entries: &[&str]) -> Vec<DirectoryEntry> {
    entries
        .iter()
        .map(|entry| DirectoryEntry { name: entry.to_string(), is_directory: true })
        .collect()
}

fn texts(versions: &[InstalledNodeVersion]) -> Vec<String> {
    versions.iter().map(|installed| installed.to_string()).collect()
}

#[test]
fn formats_file_name_correctly() {
    let version = OnlineNodeVersion {
        version: Version::from((18, 12, 1)),
        release_date: "".to_string(),
        files: vec![],
    };

    let target = Target { platform: Platform::MacOs, arch: Arch::Arm64 };
    assert_eq!(version.file(target), "node-v18.12.1-darwin-arm64.tar.gz".to_string());
}

#[test]
fn can_parse_version_data() {
    let expected = OnlineNodeVersion {
        version: Version { major: 14, minor: 18, patch: 0, build: vec![], pre_release: vec![] },
        release_date: "2021-09-28".to_string(),
        files: vec![
            "aix-ppc64".to_string(),
            "headers".to_string(),
            "linux-arm64".to_string(),
            "linux-armv7l".to_string(),
            "linux-ppc64le".to_string(),
            "linux-s390x".to_string(),
            "linux-x64".to_string(),
            "osx-x64-pkg".to_string(),
            "osx-x64-tar".to_string(),
            "src".to_string(),
            "win-x64-7z".to_string(),
            "win-x64-exe".to_string(),
            "win-x64-msi".to_string(),
            "win-x64-zip".to_string(),
            "win-x86-7z".to_string(),
            "win-x86-exe".to_string(),
            "win-x86-msi".to_string(),
            "win-x86-zip".to_string(),
        ],
    };

    let json_str = r#"
{
    "version": "v14.18.0",
    "date": "2021-09-28",
    "files": [
      "aix-ppc64",
      "headers",
      "linux-arm64",
      "linux-armv7l",
      "linux-ppc64le",
      "linux-s390x",
      "linux-x64",
      "osx-x64-pkg",
      "osx-x64-tar",
      "src",
      "win-x64-7z",
      "win-x64-exe",
      "win-x64-msi",
      "win-x64-zip",
      "win-x86-7z",
      "win-x86-exe",
      "win-x86-msi",
      "win-x86-zip"
    ],
    "npm": "6.14.15",
    "v8": "8.4.371.23",
    "uv": "1.42.0",
    "zlib": "1.2.11",
    "openssl": "1.1.1l",
    "modules": "83",
    "lts": "Fermium",
    "security": false
}
"#
    .trim();

    let value: serde_json::Value =
        serde_json::from_str(json_str).expect("Failed to parse version data from nodejs.org");
    let result = OnlineNodeVersion::new(
        Version::parse(value["version"].as_str().unwrap()).unwrap(),
        value["date"].as_str().unwrap().to_string(),
        value["files"]
            .as_array()
            .unwrap()
            .iter()
            .map(|file| file.as_str().unwrap().to_string())
            .collect(),
    );

    assert_eq!(expected.version, result.version);
    assert_eq!(expected.version.to_string(), result.version.to_string());
    assert_eq!(expected.release_date, result.release_date);
    assert_eq!(expected.files, result.files);
}

#[test]
fn builds_the_download_url() {
    let published = online("v14.20.1");
    let linux = Target { platform: Platform::Linux, arch: Arch::X64 };
    let windows = Target { platform: Platform::Windows, arch: Arch::X86 };
    assert_eq!(
        published.download_url(linux),
        "https://nodejs.org/dist/v14.20.1/node-v14.20.1-linux-x64.tar.gz"
    );
    assert_eq!(
        published.download_url(windows),
        "https://nodejs.org/dist/v14.20.1/node-v14.20.1-win-x86.zip"
    );
    assert_eq!(published.file(windows), "node-v14.20.1-win-x86.zip");
    assert_eq!(OnlineNodeVersion::index_url(), "https://nodejs.org/dist/index.json");
}

#[test]
fn installs_under_the_versions_directory() {
    let published = online("v14.20.1");
    assert_eq!(published.install_path(&config()), "/opt/nvm/versions/14.20.1");
    assert_eq!(published.to_string(), "14.20.1");
}

#[test]
fn filter_keeps_the_order_of_the_input() {
    let all = vec![online("14.5.0"), online("12.18.3"), online("13.0.0"), online("12.7.0")];
    let kept = filter_version_req(all, &range(">=12 <13"));
    let kept: Vec<String> = kept.iter().map(|v| v.to_string()).collect();
    assert_eq!(kept, vec!["12.18.3", "12.7.0"]);
}

#[test]
fn filter_may_keep_nothing() {
    let kept = filter_version_req(vec![online("14.5.0")], &range("12"));
    assert!(kept.is_empty());
    let none: Vec<OnlineNodeVersion> = filter_version_req(vec![], &range("12"));
    assert!(none.is_empty());
}

#[test]
fn latest_of_each_major_is_the_highest_of_that_major() {
    let all = vec![
        online("12.7.0"),
        online("14.5.0"),
        online("12.18.3"),
        online("14.4.0"),
        online("10.0.0"),
        online("12.18.2"),
    ];
    let mut latest: Vec<String> =
        get_latest_of_each_major(&all).iter().map(|v| v.to_string()).collect();
    latest.sort();
    assert_eq!(latest, vec!["10.0.0", "12.18.3", "14.5.0"]);
    assert_eq!(latest_positions(&all), vec![2, 1, 4]);
}

#[test]
fn latest_of_each_major_takes_the_last_of_equals() {
    let all = vec![online("12.7.0+first"), online("12.7.0+second")];
    let latest = get_latest_of_each_major(&all);
    assert_eq!(latest.len(), 1);
    assert_eq!(latest[0].to_string(), "12.7.0+second");
    let none: Vec<OnlineNodeVersion> = vec![];
    assert!(get_latest_of_each_major(&none).is_empty());
}

#[test]
fn sorts_versions_from_highest_to_lowest() {
    let sorted = sort_versions_descending(vec![
        version("12.7.0"),
        version("14.5.0"),
        version("12.18.3"),
        version("14.5.0-rc.1"),
        version("1.0.0"),
    ]);
    let sorted: Vec<String> = sorted.iter().map(|v| v.to_string()).collect();
    assert_eq!(sorted, vec!["14.5.0", "14.5.0-rc.1", "12.18.3", "12.7.0", "1.0.0"]);
}

#[test]
fn sort_puts_the_later_of_equals_first() {
    let sorted = sort_versions_descending(vec![version("1.0.0+a"), version("1.0.0+b")]);
    let sorted: Vec<String> = sorted.iter().map(|v| v.to_string()).collect();
    assert_eq!(sorted, vec!["1.0.0+b", "1.0.0+a"]);
}

#[test]
fn list_skips_entries_that_are_no_versions() {
    let entries = names(&["12.7.0", "node_modules", "14.5.0", ".DS_Store", "v12.18.3", "latest"]);
    let installed = InstalledNodeVersion::list(&config(), &entries);
    assert_eq!(texts(&installed), vec!["14.5.0", "12.18.3", "12.7.0"]);
    assert_eq!(installed[0].path, "/opt/nvm/versions/14.5.0");
    assert_eq!(installed[1].path, "/opt/nvm/versions/12.18.3");
    assert_eq!(installed[1].get_dir_path(&config()), "/opt/nvm/versions/12.18.3");
    assert!(InstalledNodeVersion::list(&config(), &vec![]).is_empty());
}

#[test]
fn list_counts_subdirectories_only() {
    let entries = vec![
        DirectoryEntry { name: "14.5.0".to_string(), is_directory: false },
        DirectoryEntry { name: "12.18.3".to_string(), is_directory: true },
        DirectoryEntry { name: "12.7.0".to_string(), is_directory: false },
        DirectoryEntry { name: "10.0.0".to_string(), is_directory: true },
        DirectoryEntry { name: "notes".to_string(), is_directory: true },
    ];
    assert_eq!(directory_names(&entries), vec!["12.18.3", "10.0.0", "notes"]);
    let installed = InstalledNodeVersion::list(&config(), &entries);
    assert_eq!(texts(&installed), vec!["12.18.3", "10.0.0"]);
    assert!(!InstalledNodeVersion::is_installed(&config(), &entries, &version("14.5.0")));
    assert!(InstalledNodeVersion::is_installed(&config(), &entries, &version("10.0.0")));
    let found = InstalledNodeVersion::find_matching(&config(), &entries, &range("*"));
    assert_eq!(found.unwrap().to_string(), "12.18.3");
    assert!(directory_names(&vec![]).is_empty());
}

#[test]
fn list_of_names_takes_every_name() {
    let names = vec!["12.7.0".to_string(), "x".to_string(), "14.5.0".to_string()];
    let installed = InstalledNodeVersion::list_names(&config(), &names);
    assert_eq!(texts(&installed), vec!["14.5.0", "12.7.0"]);
}

#[test]
fn find_matching_takes_the_highest_match() {
    let entries = names(&["12.7.0", "12.18.3", "14.5.0"]);
    let found = InstalledNodeVersion::find_matching(&config(), &entries, &range(">=12, <13"));
    assert_eq!(found.unwrap().to_string(), "12.18.3");
    let found = InstalledNodeVersion::find_matching(&config(), &entries, &range(">=12 <13"));
    let found = found.unwrap();
    assert_eq!(found.to_string(), "12.18.3");
    assert_eq!(found.path, "/opt/nvm/versions/12.18.3");
}

#[test]
fn find_matching_finds_nothing_outside_the_range() {
    let entries = names(&["12.7.0", "12.18.3", "14.5.0"]);
    assert!(InstalledNodeVersion::find_matching(&config(), &entries, &range("16")).is_none());
    assert!(InstalledNodeVersion::find_matching(&config(), &vec![], &range("*")).is_none());
}

#[test]
fn is_installed_looks_for_the_very_version() {
    let entries = names(&["12.7.0", "12.18.3", "14.5.0"]);
    assert!(InstalledNodeVersion::is_installed(&config(), &entries, &version("12.18.3")));
    assert!(InstalledNodeVersion::is_installed(&config(), &entries, &version("v14.5.0")));
    assert!(!InstalledNodeVersion::is_installed(&config(), &entries, &version("12.18.4")));
    assert!(!InstalledNodeVersion::is_installed(&config(), &entries, &version("14.5.0-rc.1")));
    assert!(!InstalledNodeVersion::is_installed(&config(), &vec![], &version("14.5.0")));
}

#[test]
fn compares_what_two_values_stand_for() {
    let published = online("14.5.0");
    let entries = names(&["14.5.0", "12.18.3"]);
    let installed = InstalledNodeVersion::list(&config(), &entries);
    assert!(same_version(&published, &installed[0]));
    assert!(!same_version(&published, &installed[1]));
    assert_eq!(compare_versions(&published, &installed[1]), Precedence::Higher);
    assert_eq!(compare_versions(&installed[1], &published), Precedence::Lower);
    assert_eq!(published.version().to_string(), "14.5.0");
    assert_eq!(installed[1].version().to_string(), "12.18.3");
}

#[test]
fn copy_of_an_installed_version_keeps_its_path() {
    let entries = names(&["14.5.0"]);
    let installed = InstalledNodeVersion::list(&config(), &entries);
    let copy = installed[0].clone();
    assert_eq!(copy.path, "/opt/nvm/versions/14.5.0");
    assert_eq!(copy.to_string(), "14.5.0");
}
