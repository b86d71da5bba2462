use nvm_rust::order::Precedence;
use nvm_rust::version::{parse_version_str, Identifier, Version};

fn version(text: &str) -> Version {
    Version::parse(text).unwrap()
}

#[test]
fn orders_pre_release_before_release() {
    let beta = version("1.2.3-beta");
    let release = version("1.2.3");
    let next = version("1.3.0");
    assert_eq!(beta.compare(&release), Precedence::Lower);
    assert_eq!(release.compare(&next), Precedence::Lower);
    assert_eq!(beta.compare(&next), Precedence::Lower);
    assert!(beta < release);
    assert!(release < next);
    assert!(beta < next);
    assert!(next > beta);
}

#[test]
fn prints_canonical_text_without_prefix() {
    assert_eq!(version("v14.18.0").to_string(), "14.18.0");
    assert_eq!(version("14.18.0").to_string(), "14.18.0");
    assert_eq!(version("v1.2.3-beta.4+build.7").to_string(), "1.2.3-beta.4+build.7");
    assert_eq!(version("1.2.3+exp.sha.5114f85").to_string(), "1.2.3+exp.sha.5114f85");
    assert_eq!(version("0.0.0").to_string(), "0.0.0");
    assert_eq!(version("10.200.3000").to_string(), "10.200.3000");
}

#[test]
fn round_trips_through_the_canonical_text() {
    for text in ["v14.18.0", "1.2.3-beta", "1.2.3-beta.11+b.1", "v0.10.48", "1.2.3-0.x.7"] {
        let parsed = version(text);
        let canonical = parsed.to_string();
        assert!(!canonical.starts_with('v'));
        let again = version(&canonical);
        assert_eq!(again, parsed);
        assert_eq!(again.to_string(), canonical);
        assert_eq!(again.build.len(), parsed.build.len());
    }
}

#[test]
fn leading_v_makes_no_difference() {
    let with = version("v12.18.3");
    let without = version("12.18.3");
    assert_eq!(with, without);
    assert_eq!(with.compare(&without), Precedence::Same);
}

#[test]
fn parses_the_parts_of_a_version() {
    let parsed = version("v1.22.333-alpha.7+build.9");
    assert_eq!(parsed.major, 1);
    assert_eq!(parsed.minor, 22);
    assert_eq!(parsed.patch, 333);
    assert!(matches!(&parsed.pre_release[0], Identifier::AlphaNumeric(text) if text == "alpha"));
    assert!(matches!(&parsed.pre_release[1], Identifier::Numeric(7)));
    assert!(matches!(&parsed.build[0], Identifier::AlphaNumeric(text) if text == "build"));
    assert!(matches!(&parsed.build[1], Identifier::Numeric(9)));
}

#[test]
fn rejects_what_is_no_version() {
    for text in ["", "v", "1", "1.2", "a.b.c", "1.2.x", "one.two.three", "1.2.3.4"] {
        let error = parse_version_str(text).unwrap_err();
        assert_eq!(error.input, text);
    }
}

#[test]
fn build_metadata_plays_no_part_in_precedence() {
    let one = version("1.2.3+one");
    let two = version("1.2.3+two");
    assert_eq!(one.compare(&two), Precedence::Same);
    assert_eq!(one, two);
    assert_ne!(one.to_string(), two.to_string());
}

#[test]
fn compares_identifiers_numerically_and_by_character() {
    assert!(version("1.0.0-2") < version("1.0.0-11"));
    assert!(version("1.0.0-11") < version("1.0.0-a"));
    assert!(version("1.0.0-alpha") < version("1.0.0-alpha.1"));
    assert!(version("1.0.0-alpha.1") < version("1.0.0-alpha.beta"));
    assert!(version("1.0.0-alpha.beta") < version("1.0.0-beta"));
    assert!(version("1.0.0-beta") < version("1.0.0-beta.2"));
    assert!(version("1.0.0-beta.2") < version("1.0.0-beta.11"));
    assert!(version("1.0.0-beta.11") < version("1.0.0-rc.1"));
    assert!(version("1.0.0-rc.1") < version("1.0.0"));
    assert_eq!(version("1.0.0-B").compare(&version("1.0.0-a")), Precedence::Lower);
}

#[test]
fn compares_numbers_before_tags() {
    assert_eq!(version("2.0.0").compare(&version("10.0.0")), Precedence::Lower);
    assert_eq!(version("1.10.0").compare(&version("1.9.0")), Precedence::Higher);
    assert_eq!(version("1.2.10").compare(&version("1.2.9")), Precedence::Higher);
    assert_eq!(version("1.2.3").compare(&version("1.2.3")), Precedence::Same);
}

#[test]
fn compares_texts_by_their_characters() {
    assert!(version("1.0.0-a") < version("1.0.0-b"));
    assert!(version("1.0.0-abc") < version("1.0.0-abd"));
    assert!(version("1.0.0-ab") < version("1.0.0-abc"));
    assert!(version("1.0.0-Z") < version("1.0.0-a"));
    assert!(version("1.0.0-a-b") < version("1.0.0-a0"));
    assert_eq!(version("1.0.0-abc").compare(&version("1.0.0-abc")), Precedence::Same);
}

#[test]
fn makes_a_version_of_three_numbers() {
    let made = Version::from((18, 12, 1));
    assert_eq!(made.to_string(), "18.12.1");
    assert_eq!(made, version("v18.12.1"));
    assert!(made.build.is_empty());
    assert!(made.pre_release.is_empty());
}

#[test]
fn copies_a_version() {
    let first = version("1.2.3-rc.1+build");
    let copy = first.clone();
    assert_eq!(copy.to_string(), "1.2.3-rc.1+build");
    assert_eq!(copy, first);
}

#[test]
fn prints_large_numbers() {
    let made = Version::from((u64::MAX, 0, 9_007_199_254_740_991));
    assert_eq!(made.to_string(), "18446744073709551615.0.9007199254740991");
}

#[test]
fn longest_text_without_hyphen_does_not_read_back() {
    let text = format!("1.2.3{}", "a".repeat(251));
    assert_eq!(text.len(), 256);
    let parsed = version(&text);
    let canonical = parsed.to_string();
    assert_eq!(canonical, format!("1.2.3-{}", "a".repeat(251)));
    assert_eq!(canonical.len(), 257);
    assert!(Version::parse(&canonical).is_err());
    assert!(Version::parse(&format!("v{text}")).is_ok());
}

#[test]
fn tag_without_hyphen_gets_one_in_the_canonical_text() {
    let parsed = version("1.2.3beta");
    assert_eq!(parsed.to_string(), "1.2.3-beta");
    assert_eq!(version("1.2.3-beta"), parsed);
    assert_eq!(version("01.002.0003").to_string(), "1.2.3");
}
