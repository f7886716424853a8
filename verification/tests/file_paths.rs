//! File path detection in text, and tilde expansion.

use conduit_core::file_path_detector::{detect_file_paths, expand_tilde, path_exists};

#[test]
fn test_detect_absolute_path() {
    let text = "Check the file at /Users/test/file.txt for details";
    let matches = detect_file_paths(text);

    assert_eq!(matches.len(), 1);
    assert_eq!(matches[0].path, "/Users/test/file.txt");
}

#[test]
fn test_detect_tilde_path() {
    let text = "The config is at ~/.config/app/settings.json";
    let matches = detect_file_paths(text);

    assert_eq!(matches.len(), 1);
    assert_eq!(matches[0].path, "~/.config/app/settings.json");
}

#[test]
fn test_detect_relative_path() {
    let text = "Look at ./src/main.rs for the entry point";
    let matches = detect_file_paths(text);

    assert_eq!(matches.len(), 1);
    assert_eq!(matches[0].path, "./src/main.rs");
}

#[test]
fn test_detect_parent_relative_path() {
    let text = "The file ../tests/test.rs contains tests";
    let matches = detect_file_paths(text);

    assert_eq!(matches.len(), 1);
    assert_eq!(matches[0].path, "../tests/test.rs");
}

#[test]
fn test_multiple_paths() {
    let text = "Compare /path/one.txt with /path/two.txt";
    let matches = detect_file_paths(text);

    assert_eq!(matches.len(), 2);
    assert_eq!(matches[0].path, "/path/one.txt");
    assert_eq!(matches[1].path, "/path/two.txt");
}

#[test]
fn test_strip_trailing_punctuation() {
    let text = "See /path/to/file.txt.";
    let matches = detect_file_paths(text);

    assert_eq!(matches.len(), 1);
    assert_eq!(matches[0].path, "/path/to/file.txt");
}

#[test]
fn test_path_with_dots_in_filename() {
    let text = "Check /home/user/.bashrc";
    let matches = detect_file_paths(text);

    assert_eq!(matches.len(), 1);
    assert_eq!(matches[0].path, "/home/user/.bashrc");
}

#[test]
fn test_skip_io_pattern() {
    let text = "The I/O performance is good";
    let matches = detect_file_paths(text);

    assert!(matches.is_empty() || matches.iter().all(|m| m.path != "/O"));
}

#[test]
fn test_expand_tilde() {
    let expanded = expand_tilde("~/test");
    assert!(!expanded.starts_with('~'));
    assert!(expanded.contains("test"));
}

#[test]
fn test_no_tilde_expansion_for_absolute() {
    let path = "/absolute/path";
    let expanded = expand_tilde(path);
    assert_eq!(path, expanded);
}

#[test]
fn test_path_exists_for_nonexistent() {
    assert!(!path_exists("/nonexistent/path/xyz123"));
}

#[test]
fn test_path_exists_for_root() {
    // Root directory should exist on Unix systems
    assert!(path_exists("/"));
}

#[test]
fn test_detect_nova_plan_path() {
    let text = "Check the plan at /Users/fcoury/.nova/plans/my-plan.md";
    let matches = detect_file_paths(text);

    assert_eq!(matches.len(), 1);
    assert_eq!(matches[0].path, "/Users/fcoury/.nova/plans/my-plan.md");
}

#[test]
fn test_match_offsets_index_into_text() {
    let text = "prefix /a/b/c.txt suffix";
    let matches = detect_file_paths(text);
    assert_eq!(matches.len(), 1);
    let m = &matches[0];
    let span: String = text.chars().skip(m.start).take(m.end - m.start).collect();
    assert_eq!(span, m.path);
}
