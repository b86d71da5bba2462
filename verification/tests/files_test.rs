use nvm_rust::command::{range_or_file, range_xor_file};
use nvm_rust::engine::FailureKind;
use nvm_rust::files::{
    get_version_file, read_tool_versions, PackageJson, PackageJsonEngines, VersionFile,
    VersionFileKind, VersionFiles,
};
use nvm_rust::range::parse_range;

fn package(node: Option<&str>) -> PackageJson {
    PackageJson {
        name: Some("demo".to_string()),
        version: Some("1.0.0".to_string()),
        engines: Some(PackageJsonEngines { node: node.map(|text| text.to_string()) }),
    }
}

fn nvmrc(contents: &str) -> Option<(String, String)> {
    Some((".nvmrc".to_string(), contents.to_string()))
}

#[test]
fn package_json_comes_first() {
    let files = VersionFiles {
        package_json: Some(Ok(package(Some("^14.17")))),
        nvmrc: nvmrc("12"),
        tool_versions: Some("nodejs 10.0.0".to_string()),
    };
    let search = get_version_file(&files);
    let found = search.found.unwrap();
    assert_eq!(found.kind(), VersionFileKind::PackageJson);
    assert_eq!(found.range().to_string(), ">=14.17.0 <15.0.0-0");
    assert!(search.notes.is_empty());
}

#[test]
fn package_json_without_engines_ends_the_search() {
    let files = VersionFiles {
        package_json: Some(Ok(PackageJson { name: None, version: None, engines: None })),
        nvmrc: nvmrc("12"),
        tool_versions: None,
    };
    let search = get_version_file(&files);
    assert!(search.found.is_none());
    assert!(search.notes.is_empty());

    let files = VersionFiles {
        package_json: Some(Ok(package(None))),
        nvmrc: nvmrc("12"),
        tool_versions: None,
    };
    assert!(get_version_file(&files).found.is_none());
}

#[test]
fn unreadable_package_json_is_noted_and_passed_over() {
    let files = VersionFiles {
        package_json: Some(Err("expected value at line 1 column 1".to_string())),
        nvmrc: nvmrc("12"),
        tool_versions: None,
    };
    let search = get_version_file(&files);
    let found = search.found.unwrap();
    assert_eq!(found.kind(), VersionFileKind::Nvmrc);
    assert_eq!(found.range().to_string(), ">=12.0.0 <13.0.0-0");
    assert_eq!(
        search.notes,
        vec!["Failed to parse package.json: expected value at line 1 column 1"]
    );
}

#[test]
fn package_json_with_a_bad_range_is_noted_and_passed_over() {
    let files = VersionFiles {
        package_json: Some(Ok(package(Some("")))),
        nvmrc: None,
        tool_versions: Some("nodejs 14.5.0".to_string()),
    };
    let search = get_version_file(&files);
    let found = search.found.unwrap();
    assert_eq!(found.kind(), VersionFileKind::Asdf);
    assert_eq!(found.range().to_string(), "14.5.0");
    assert_eq!(search.notes, vec!["Failed to parse package.json: "]);
}

#[test]
fn nvmrc_that_is_no_range_is_noted() {
    let files = VersionFiles {
        package_json: None,
        nvmrc: Some((".node-version".to_string(), "".to_string())),
        tool_versions: None,
    };
    let search = get_version_file(&files);
    assert!(search.found.is_none());
    assert_eq!(search.notes, vec!["Failed to parse .node-version: ''"]);
}

#[test]
fn tool_versions_entry_that_is_no_range_is_noted() {
    let files = VersionFiles {
        package_json: None,
        nvmrc: None,
        tool_versions: Some("python 3.9\nnodejs \n".to_string()),
    };
    let search = get_version_file(&files);
    assert!(search.found.is_none());
    assert_eq!(search.notes, vec!["Failed to parse .tool-versions: ''"]);
}

#[test]
fn nothing_is_found_where_nothing_is() {
    let files = VersionFiles { package_json: None, nvmrc: None, tool_versions: None };
    let search = get_version_file(&files);
    assert!(search.found.is_none());
    assert!(search.notes.is_empty());
}

#[test]
fn reads_the_nodejs_line_of_tool_versions() {
    assert_eq!(read_tool_versions("nodejs 14.5.0"), Some("14.5.0".to_string()));
    assert_eq!(
        read_tool_versions("python 3.9.1\nnodejs 16.13.0\nruby 3.0.0\n"),
        Some("16.13.0".to_string())
    );
    assert_eq!(read_tool_versions("python 3.9.1\r\nnodejs 16.13.0\r\n"), Some("16.13.0".to_string()));
    assert_eq!(read_tool_versions("nodejs 12.0.0 14.0.0"), Some("12.0.0".to_string()));
    assert_eq!(read_tool_versions("nodejs  14.0.0"), Some("".to_string()));
    assert_eq!(read_tool_versions("nodejs"), None);
    assert_eq!(read_tool_versions("python 3.9.1"), None);
    assert_eq!(read_tool_versions(""), None);
    assert_eq!(read_tool_versions(" nodejs 14.5.0"), None);
    assert_eq!(
        read_tool_versions("nodejs 10.0.0\nnodejs 12.0.0"),
        Some("10.0.0".to_string())
    );
}

#[test]
fn version_file_hands_out_its_range() {
    let file = VersionFile::Nvmrc(parse_range("14").unwrap());
    assert_eq!(file.kind(), VersionFileKind::Nvmrc);
    assert_eq!(file.range().to_string(), ">=14.0.0 <15.0.0-0");
    let file = VersionFile::PackageJson(parse_range("12.1").unwrap());
    assert_eq!(file.kind(), VersionFileKind::PackageJson);
    let file = VersionFile::Asdf(parse_range("10.0.0").unwrap());
    assert_eq!(file.kind(), VersionFileKind::Asdf);
    assert_eq!(file.range().to_string(), "10.0.0");
}

#[test]
fn given_range_wins_over_the_file() {
    let given = Some(parse_range("14").unwrap());
    let file = Some(VersionFile::Nvmrc(parse_range("12").unwrap()));
    assert_eq!(range_or_file(&given, file).unwrap().to_string(), ">=14.0.0 <15.0.0-0");
    let file = Some(VersionFile::Nvmrc(parse_range("12").unwrap()));
    assert_eq!(range_or_file(&None, file).unwrap().to_string(), ">=12.0.0 <13.0.0-0");
    assert_eq!(range_or_file(&given, None).unwrap().to_string(), ">=14.0.0 <15.0.0-0");
    let failure = range_or_file(&None, None).unwrap_err();
    assert_eq!(failure.kind, FailureKind::NoVersionGiven);
}

#[test]
fn exactly_one_of_range_and_file_is_needed() {
    let given = Some(parse_range("14").unwrap());
    let file = Some(VersionFile::Nvmrc(parse_range("12").unwrap()));
    assert_eq!(range_xor_file(&given, file).unwrap_err().kind, FailureKind::NoVersionGiven);
    let file = Some(VersionFile::Nvmrc(parse_range("12").unwrap()));
    assert_eq!(range_xor_file(&None, file).unwrap().to_string(), ">=12.0.0 <13.0.0-0");
    assert_eq!(range_xor_file(&given, None).unwrap().to_string(), ">=14.0.0 <15.0.0-0");
    assert_eq!(range_xor_file(&None, None).unwrap_err().kind, FailureKind::NoVersionGiven);
}

#[test]
fn text_that_the_parser_gives_up_on_is_noted_as_no_range() {
    let files = VersionFiles {
        package_json: Some(Ok(package(Some("=*")))),
        nvmrc: nvmrc("~x"),
        tool_versions: Some("nodejs ~1.x.3".to_string()),
    };
    let search = get_version_file(&files);
    assert!(search.found.is_none());
    assert_eq!(
        search.notes,
        vec![
            "Failed to parse package.json: =*",
            "Failed to parse .nvmrc: '~x'",
            "Failed to parse .tool-versions: '~1.x.3'",
        ]
    );
}
