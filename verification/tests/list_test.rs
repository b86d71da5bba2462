use nvm_rust::config::Config;
use nvm_rust::is_installed::IsInstalledCommand;
use nvm_rust::list::{latest_of_each_major, ListCommand, VersionStatus};
use nvm_rust::ls::{validate_filter, Ls};
use nvm_rust::node_version::{DirectoryEntry, InstalledNodeVersion, OnlineNodeVersion};
use nvm_rust::parse_version::ParseVersionCommand;
use nvm_rust::platform::{Arch, Platform, Target};
use nvm_rust::range::parse_range;
use nvm_rust::engine::FailureKind;
use nvm_rust::files::VersionFile;
use nvm_rust::version::Version;

fn version(text: &str) -> Version {
    Version::parse(text).unwrap()
}

fn online(text: &str, date: &str) -> OnlineNodeVersion {
    OnlineNodeVersion::new(version(text), date.to_string(), vec![])
}

fn config() -> Config {
    Config {
        dir: Some("/opt/nvm".to_string()),
        shims_dir: None,
        force: false,
        home: "/home/tester".to_string(),
        target: Target { platform: Platform::Linux, arch: Arch::X64 },
    }
}

fn names(entries: &[&str]) -> Vec<DirectoryEntry> {
    entries
        .iter()
        .map(|entry| DirectoryEntry { name: entry.to_string(), is_directory: true })
        .collect()
}

fn installed(entries: &[&str]) -> Vec<InstalledNodeVersion> {
    InstalledNodeVersion::list(&config(), &names(entries))
}

fn catalog() -> Vec<OnlineNodeVersion> {
    [
        "v18.12.1", "v18.12.0", "v17.9.1", "v16.19.0", "v16.18.1", "v15.14.0", "v14.21.2",
        "v14.21.1", "v13.14.0", "v12.22.12", "v12.18.3", "v11.15.0", "v10.24.1",
    ]
    .iter()
    .map(|text| online(text, "2022-12-13"))
    .collect()
}

#[test]
fn filters_correctly() {
    let test_data = vec![
        online("14.6.0", "2020-07-15"),
        online("14.5.0", "2020-06-30"),
        online("14.4.0", "2020-06-02"),
        online("13.14.0", "2020-04-28"),
        online("13.13.0", "2020-04-14"),
        online("12.18.3", "2020-07-22"),
        online("12.18.2", "2020-06-30"),
        online("11.15.0", "2019-04-30"),
        online("11.14.0", "2019-04-11"),
    ];

    let kept: Vec<(String, String)> = Ls::filter_major_versions(test_data)
        .iter()
        .map(|kept| (kept.to_string(), kept.release_date.clone()))
        .collect();
    assert_eq!(
        kept,
        vec![
            (String::from("14.6.0"), String::from("2020-07-15")),
            (String::from("13.14.0"), String::from("2020-04-28")),
            (String::from("12.18.3"), String::from("2020-07-22")),
            (String::from("11.15.0"), String::from("2019-04-30")),
        ]
    );
}

#[test]
fn first_of_each_major_need_not_be_the_latest() {
    let kept = Ls::filter_major_versions(vec![
        online("12.7.0", "a"),
        online("14.5.0", "b"),
        online("12.18.3", "c"),
    ]);
    let kept: Vec<String> = kept.iter().map(|kept| kept.to_string()).collect();
    assert_eq!(kept, vec!["12.7.0", "14.5.0"]);
    assert!(Ls::filter_major_versions(vec![]).is_empty());
}

#[test]
fn latest_of_each_major_comes_from_the_highest_down() {
    let latest = latest_of_each_major(&vec![
        online("12.7.0", ""),
        online("14.4.0", ""),
        online("12.18.3", ""),
        online("14.5.0", ""),
        online("10.0.0", ""),
    ]);
    let latest: Vec<String> = latest.iter().map(|v| v.to_string()).collect();
    assert_eq!(latest, vec!["14.5.0", "12.18.3", "10.0.0"]);
    assert!(latest_of_each_major(&vec![]).is_empty());
}

#[test]
fn lists_installed_versions_one_per_line() {
    let mine = installed(&["12.7.0", "14.5.0", "12.18.3"]);
    assert_eq!(ListCommand::local_listing(&mine), "14.5.0\n12.18.3\n12.7.0");
    assert_eq!(ListCommand::local_listing(&installed(&["14.5.0"])), "14.5.0");
    assert_eq!(ListCommand::local_listing(&vec![]), "");
}

#[test]
fn list_command_holds_installed_versions_against_its_range() {
    let entries = names(&["12.7.0", "14.5.0", "12.18.3", "misc"]);
    let all = ListCommand { local: true, filter: None }.installed(&config(), &entries);
    assert_eq!(ListCommand::local_listing(&all), "14.5.0\n12.18.3\n12.7.0");
    let some = ListCommand { local: true, filter: Some(parse_range("12").unwrap()) }
        .installed(&config(), &entries);
    assert_eq!(ListCommand::local_listing(&some), "12.18.3\n12.7.0");
    assert_eq!(some[0].path, "/opt/nvm/versions/12.18.3");
}

#[test]
fn overview_shows_five_majors_and_what_is_installed() {
    let mine = installed(&["18.12.1", "16.18.1", "12.18.3", "12.7.0", "10.24.1"]);
    let text = ListCommand::listing(&mine, &catalog());
    assert_eq!(
        text,
        "✅ 18.12.1 \n\
         〰 17.9.1 \n\
         ⏫ 16.18.1 -> 16.19.0\n\
         〰 15.14.0 \n\
         〰 14.21.2 \n\
         ⏫ 12.18.3 -> 12.22.12\n\
         ✅ 10.24.1 "
    );
}

#[test]
fn overview_without_installed_versions_shows_five_majors() {
    let text = ListCommand::listing(&vec![], &catalog());
    assert_eq!(text, "〰 18.12.1 \n〰 17.9.1 \n〰 16.19.0 \n〰 15.14.0 \n〰 14.21.2 ");
    assert_eq!(ListCommand::listing(&vec![], &vec![]), "");
    assert_eq!(ListCommand::listing(&installed(&["14.5.0"]), &vec![]), "");
}

#[test]
fn installed_version_newer_than_the_catalog_counts_as_latest() {
    let text = ListCommand::listing(&installed(&["18.13.0", "18.0.0"]), &catalog());
    assert!(text.starts_with("✅ 18.13.0 \n"));
}

#[test]
fn status_tells_how_the_installed_versions_stand() {
    let mine = installed(&["12.18.3", "12.7.0"]);
    let refs: Vec<&InstalledNodeVersion> = mine.iter().collect();
    let newer = version("12.22.12");
    let same = version("12.18.3");

    let status = VersionStatus::from(&refs, &newer);
    assert!(matches!(status, VersionStatus::Outdated(latest) if latest.to_string() == "12.22.12"));
    assert_eq!(status.to_emoji(), '⏫');
    assert_eq!(status.to_version_string(), "-> 12.22.12");

    let status = VersionStatus::from(&refs, &same);
    assert!(matches!(status, VersionStatus::Latest));
    assert_eq!(status.to_emoji(), '✅');
    assert_eq!(status.to_version_string(), "");

    let status = VersionStatus::from(&vec![], &newer);
    assert!(matches!(status, VersionStatus::NotInstalled));
    assert_eq!(status.to_emoji(), '〰');
    assert_eq!(status.to_version_string(), "");
}

#[test]
fn short_listing_shows_both_lists() {
    let mine = installed(&["12.18.3", "14.5.0"]);
    let published = vec![
        online("14.6.0", "2020-07-15"),
        online("14.5.0", "2020-06-30"),
        online("12.18.3", "2020-07-22"),
    ];
    assert_eq!(
        Ls::output(&mine, Some(published)),
        "Installed versions:\n14.5.0\n12.18.3\n\nAvailable for download:\n14.6.02020-07-15\n12.18.32020-07-22\n\nSpecify a version range to show more results.\ne.g. `nvm ls 12`"
    );
    assert_eq!(
        Ls::output(&vec![], None),
        "Installed versions:\n\n\nAvailable for download:\nCould not fetch versions...\n\nSpecify a version range to show more results.\ne.g. `nvm ls 12`"
    );
}

#[test]
fn listing_filter_is_lts_or_a_requirement() {
    assert_eq!(validate_filter("lts"), Ok(()));
    assert_eq!(validate_filter("LTS"), Ok(()));
    assert_eq!(validate_filter("Lts"), Ok(()));
    assert_eq!(validate_filter(">=1.2.3"), Ok(()));
    assert_eq!(validate_filter("1.2"), Ok(()));
    assert_eq!(validate_filter("^10.9"), Ok(()));
    assert_eq!(validate_filter(">=8, <9"), Ok(()));
    assert_eq!(validate_filter("latest"), Err(String::from("Invalid version.")));
    assert_eq!(validate_filter(""), Err(String::from("Invalid version.")));
    assert_eq!(validate_filter("lts "), Err(String::from("Invalid version.")));
}

#[test]
fn listing_filter_becomes_a_requirement() {
    let any = Ls::validate_filter("lts").unwrap();
    assert!(any.matches(&semver::Version::new(1, 2, 3)));
    assert!(any.matches(&semver::Version::new(18, 0, 0)));
    let twelve = Ls::validate_filter("^12.1").unwrap();
    assert!(twelve.matches(&semver::Version::new(12, 18, 3)));
    assert!(!twelve.matches(&semver::Version::new(13, 0, 0)));
    assert_eq!(Ls::validate_filter("nope").unwrap_err(), "Invalid version.");
}

#[test]
fn short_listing_knows_the_lts_ranges() {
    let ls = Ls::init();
    assert_eq!(ls.lts_version_strings, vec![">=10, <11", ">=12, <13", ">=14, <15"]);
    assert_eq!(ls.lts_version_reqs.len(), 3);
    assert!(ls.lts_version_reqs[1].matches(&semver::Version::new(12, 18, 3)));
    assert!(!ls.lts_version_reqs[1].matches(&semver::Version::new(13, 0, 0)));
}

#[test]
fn is_installed_names_the_highest_match() {
    let command = IsInstalledCommand { version: None, exit_code: 1, quiet: false };
    let entries = names(&["12.7.0", "12.18.3", "14.5.0"]);
    let verdict = command.check(&config(), &entries, &parse_range("12").unwrap());
    assert_eq!(verdict.exit_code, 0);
    assert_eq!(
        verdict.line,
        Some("✅ A version matching >=12.0.0 <13.0.0-0 is installed (12.18.3)!".to_string())
    );
}

#[test]
fn is_installed_says_when_nothing_matches() {
    let command = IsInstalledCommand { version: None, exit_code: 7, quiet: false };
    let entries = names(&["12.7.0"]);
    let verdict = command.check(&config(), &entries, &parse_range("16").unwrap());
    assert_eq!(verdict.exit_code, 7);
    assert_eq!(
        verdict.line,
        Some("❌ A version matching >=16.0.0 <17.0.0-0 is not installed.".to_string())
    );
}

#[test]
fn is_installed_can_keep_quiet() {
    let command = IsInstalledCommand { version: None, exit_code: 3, quiet: true };
    let entries = names(&["12.7.0"]);
    let verdict = command.check(&config(), &entries, &parse_range("12").unwrap());
    assert_eq!((verdict.exit_code, verdict.line), (0, None));
    let verdict = command.check(&config(), &entries, &parse_range("16").unwrap());
    assert_eq!((verdict.exit_code, verdict.line), (3, None));
}

#[test]
fn is_installed_takes_its_range_from_the_file() {
    let command = IsInstalledCommand { version: None, exit_code: 1, quiet: false };
    let file = Some(VersionFile::Nvmrc(parse_range("12").unwrap()));
    assert_eq!(command.filter(file).unwrap().to_string(), ">=12.0.0 <13.0.0-0");
    assert_eq!(command.filter(None).unwrap_err().kind, FailureKind::NoVersionGiven);
    let command =
        IsInstalledCommand { version: Some(parse_range("14").unwrap()), exit_code: 1, quiet: false };
    let file = Some(VersionFile::Nvmrc(parse_range("12").unwrap()));
    assert_eq!(command.filter(file).unwrap().to_string(), ">=14.0.0 <15.0.0-0");
}

#[test]
fn parse_version_shows_the_reading_of_an_expression() {
    let command = ParseVersionCommand { version: Some("12".to_string()) };
    assert_eq!(
        command.output(None).unwrap(),
        "        12        \n        ⬇         \n>=12.0.0 <13.0.0-0"
    );
    let command = ParseVersionCommand { version: Some("^10.9".to_string()) };
    assert_eq!(
        command.output(None).unwrap(),
        "      ^10.9       \n        ⬇         \n>=10.9.0 <11.0.0-0"
    );
}

#[test]
fn parse_version_leaves_a_long_expression_as_it_is() {
    let command = ParseVersionCommand { version: Some("   =   1.2.3".to_string()) };
    let shown = command.output(None).unwrap();
    let lines: Vec<&str> = shown.split('\n').collect();
    assert_eq!(lines[0], "   =   1.2.3");
    assert_eq!(lines[2], "1.2.3");
    assert_eq!(lines[1], "  ⬇  ");
}

#[test]
fn parse_version_says_what_is_no_range() {
    let command = ParseVersionCommand { version: Some("".to_string()) };
    assert_eq!(command.output(None).unwrap(), "Failed to parse ``");
    let command = ParseVersionCommand { version: Some("1.2.3.4".to_string()) };
    assert_eq!(command.output(None).unwrap(), "Failed to parse `1.2.3.4`");
    let command = ParseVersionCommand { version: Some("=x".to_string()) };
    assert_eq!(command.output(None).unwrap(), "Failed to parse `=x`");
}

#[test]
fn parse_version_falls_back_on_the_version_file() {
    let command = ParseVersionCommand { version: None };
    let file = Some(VersionFile::Nvmrc(parse_range("14").unwrap()));
    assert_eq!(command.output(file).unwrap(), ">=14.0.0 <15.0.0-0");
    let failure = command.output(None).unwrap_err();
    assert_eq!(failure.kind, FailureKind::NothingToParse);
    assert_eq!(failure.message(), "Did not get a version");
}
