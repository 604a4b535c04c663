use newt_build::text::{chars_of, contains, starts_with, str_eq};

#[test]
fn chars_of_keeps_every_character() {
    assert_eq!(chars_of("a-é/"), vec!['a', '-', 'é', '/']);
    assert_eq!(chars_of(""), Vec::<char>::new());
}

#[test]
fn str_eq_compares_character_for_character() {
    assert!(str_eq("popt", "popt"));
    assert!(str_eq("", ""));
    assert!(!str_eq("popt", "Popt"));
    assert!(!str_eq("popt", "popt "));
}

#[test]
fn starts_with_is_anchored_at_the_start() {
    assert!(starts_with("GNU Make 4.3", "GNU Make"));
    assert!(starts_with("GNU Make", "GNU Make"));
    assert!(starts_with("anything", ""));
    assert!(starts_with("", ""));
    assert!(!starts_with(" GNU Make", "GNU Make"));
    assert!(!starts_with("GNU Mak", "GNU Make"));
    assert!(!starts_with("", "GNU Make"));
    assert!(!starts_with("gnu make", "GNU Make"));
}

#[test]
fn contains_finds_a_needle_anywhere() {
    assert!(contains("-O2 -fPIC", "-fPIC"));
    assert!(contains("-fPIC -O2", "-fPIC"));
    assert!(contains("-O2 -fPIC -g", "-fPIC"));
    assert!(contains("-fPIC", "-fPIC"));
    assert!(contains("abc", ""));
    assert!(contains("", ""));
    assert!(!contains("-O2 -fpic", "-fPIC"));
    assert!(!contains("-fPI", "-fPIC"));
    assert!(!contains("", "-fPIC"));
    assert!(!contains("-f PIC", "-fPIC"));
}

#[test]
fn contains_counts_characters_not_bytes() {
    assert!(contains("é-fPIC", "-fPIC"));
    assert!(contains("ééé", "éé"));
    assert!(!contains("é", "e"));
}
