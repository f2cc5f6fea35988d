use rm_core::path::{base_directory, resolve_known, resolve_path};
use std::path::{Path, PathBuf, MAIN_SEPARATOR};

fn root() -> String {
    MAIN_SEPARATOR.to_string()
}

#[test]
fn an_absolute_operand_is_returned_unchanged() {
    let absolute = format!("{}some{}file.txt", root(), MAIN_SEPARATOR);
    assert!(Path::new(&absolute).is_absolute());
    for base in [".", "", "relative", &root(), &absolute] {
        assert_eq!(resolve_path(&absolute, base), absolute);
    }
}

#[test]
fn a_relative_operand_is_joined_to_the_base() {
    let base = format!("{}home{}user", root(), MAIN_SEPARATOR);
    let expected = format!("{}{}notes.txt", base, MAIN_SEPARATOR);
    assert_eq!(resolve_path("notes.txt", &base), expected);
    assert_ne!(resolve_path("notes.txt", &base), "notes.txt");
}

#[test]
fn the_join_is_what_the_platform_makes_of_it() {
    for (base, operand) in [(".", "a"), ("base", "a/b"), ("base/", "a"), ("", "a"), ("b", "")] {
        let mut expected = PathBuf::from(base);
        expected.push(operand);
        assert_eq!(resolve_path(operand, base), expected.to_string_lossy());
    }
}

#[test]
fn the_default_base_gives_a_dot_prefix() {
    let expected = format!(".{}missing.txt", MAIN_SEPARATOR);
    assert_eq!(resolve_path("missing.txt", &base_directory(None)), expected);
}

#[test]
fn dots_are_not_folded() {
    let base = format!("{}a{}b", root(), MAIN_SEPARATOR);
    let operand = format!("..{}c{}.{}d", MAIN_SEPARATOR, MAIN_SEPARATOR, MAIN_SEPARATOR);
    let expected = format!("{}{}{}", base, MAIN_SEPARATOR, operand);
    assert_eq!(resolve_path(&operand, &base), expected);
}

#[test]
fn resolution_follows_what_is_known_of_the_operand() {
    assert_eq!(resolve_known("anything", "base", true), "anything");
    let expected = format!("base{}anything", MAIN_SEPARATOR);
    assert_eq!(resolve_known("anything", "base", false), expected);
}

#[test]
fn the_base_is_the_working_directory_or_a_dot() {
    assert_eq!(base_directory(None), ".");
    assert_eq!(base_directory(Some("/home/user".to_string())), "/home/user");
    assert_eq!(base_directory(Some(String::new())), "");
}
