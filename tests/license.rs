use package_maker::distance::edit_distance;
use package_maker::license::{classify_license, guess_license_str, GPL_V_2_OR_LATER_SNIPPET, GPL_V_3_SNIPPET};

#[test]
fn distance_examples() {
    assert_eq!(edit_distance("kitten", "sitting"), 3);
    assert_eq!(edit_distance("", "abc"), 3);
    assert_eq!(edit_distance("héllo", "hello"), 1);
}

#[test]
fn distance_identity_and_symmetry() {
    for s in ["", "a", "license", "ünïcode"] {
        assert_eq!(edit_distance(s, s), 0);
    }
    let pairs = [("flaw", "lawn"), ("abc", ""), ("gtk", "gtk3"), ("é", "e")];
    for (a, b) in pairs {
        assert_eq!(edit_distance(a, b), edit_distance(b, a));
    }
}

#[test]
fn reference_texts_recognised() {
    assert_eq!(guess_license_str(GPL_V_3_SNIPPET), "GPL-3.0-only");
    assert_eq!(guess_license_str(GPL_V_2_OR_LATER_SNIPPET), "GPL-2.0-or-later");
    assert_eq!(classify_license(GPL_V_3_SNIPPET), "GPL-3.0-only");
    assert_eq!(classify_license(GPL_V_2_OR_LATER_SNIPPET), "GPL-2.0-or-later");
}

#[test]
fn empty_and_short_text_unknown() {
    assert_eq!(guess_license_str(""), "Unknown");
    assert_eq!(guess_license_str("short garbage"), "Unknown");
    assert_eq!(guess_license_str("   \n  "), "Unknown");
}

#[test]
fn surrounding_text_and_small_edits() {
    let padded = format!("\n\n   {}\n\nTERMS AND CONDITIONS follow here.", GPL_V_3_SNIPPET);
    assert_eq!(guess_license_str(&padded), "GPL-3.0-only");
    let edited = GPL_V_2_OR_LATER_SNIPPET.replace("version 2", "version 9");
    assert_eq!(guess_license_str(&edited), "GPL-2.0-or-later");
}

#[test]
fn long_unrelated_and_non_ascii_text() {
    let text = "Ünïcödé text ".repeat(60);
    assert_eq!(guess_license_str(&text), "Unknown");
    let mit = "Permission is hereby granted, free of charge, to any person obtaining a copy ".repeat(8);
    assert_eq!(classify_license(&mit), "Unknown");
}
