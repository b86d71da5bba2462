use nvm_rust::utils::{
    confirm_choice, confirm_question, first_of, uppercase_if_true, white_space,
};

#[test]
fn puts_a_letter_in_the_wanted_case() {
    assert_eq!(uppercase_if_true('y', true), 'Y');
    assert_eq!(uppercase_if_true('y', false), 'y');
    assert_eq!(uppercase_if_true('N', false), 'n');
    assert_eq!(uppercase_if_true('N', true), 'N');
    assert_eq!(uppercase_if_true('1', true), '1');
    assert_eq!(uppercase_if_true('ß', true), 'S');
    assert_eq!(uppercase_if_true('é', true), 'É');
}

#[test]
fn question_shows_the_default_in_upper_case() {
    assert_eq!(confirm_question("Continue?", true), "Continue? (Y/n)");
    assert_eq!(confirm_question("Continue?", false), "Continue? (y/N)");
    assert_eq!(confirm_question("", false), " (y/N)");
}

#[test]
fn answer_that_begins_with_y_means_yes() {
    assert!(confirm_choice("y", false));
    assert!(confirm_choice("Y", false));
    assert!(confirm_choice("yes\n", false));
    assert!(confirm_choice("  YES  \n", false));
    assert!(confirm_choice("\t\r\n y", false));
}

#[test]
fn any_other_answer_means_no() {
    assert!(!confirm_choice("n", true));
    assert!(!confirm_choice("N\n", true));
    assert!(!confirm_choice("no", true));
    assert!(!confirm_choice("x", true));
    assert!(!confirm_choice(" 1y", true));
}

#[test]
fn blank_answer_means_the_default() {
    assert!(confirm_choice("", true));
    assert!(!confirm_choice("", false));
    assert!(confirm_choice("\n", true));
    assert!(!confirm_choice("   \r\n", false));
    assert!(confirm_choice("\u{a0}\u{2003}", true));
}

#[test]
fn answer_outside_ascii_means_the_default() {
    assert!(confirm_choice("évidemment", true));
    assert!(!confirm_choice("évidemment", false));
    assert!(confirm_choice("ÿ", true));
    assert!(!confirm_choice("ÿ", false));
}

#[test]
fn white_space_is_what_unicode_says() {
    for code in 0..=0x3100u32 {
        if let Some(c) = char::from_u32(code) {
            assert_eq!(white_space(c), c.is_whitespace(), "U+{code:04X}");
        }
    }
    assert!(!white_space('\u{feff}'));
    assert!(!white_space('\u{200b}'));
}

#[test]
fn takes_the_first_character_of_a_mapping() {
    assert_eq!(first_of(&vec!['S', 'S'], 'ß'), 'S');
    assert_eq!(first_of(&vec!['Y'], 'y'), 'Y');
    assert_eq!(first_of(&vec![], 'y'), 'y');
}
