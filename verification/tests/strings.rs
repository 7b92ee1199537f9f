use sbrw_utility::setup_options::SetupOptions;
use sbrw_utility::strutil::after_last;
use sbrw_utility::strutil::contains_sub;
use sbrw_utility::strutil::ends_with;
use sbrw_utility::strutil::eq_ignore_ascii_case;
use sbrw_utility::strutil::join_path;
use sbrw_utility::strutil::replace_all;
use sbrw_utility::strutil::starts_with;
use sbrw_utility::strutil::str_eq;
use sbrw_utility::strutil::trim_end_matches;

#[test]
fn equality_and_affix_tests_follow_contents() {
    assert!(str_eq("abc", "abc"));
    assert!(!str_eq("abc", "abd"));
    assert!(!str_eq("abc", "ab"));
    assert!(starts_with("wine-9.0", "wine-"));
    assert!(!starts_with("win", "wine-"));
    assert!(ends_with("a.tar.gz", ".tar.gz"));
    assert!(!ends_with("a.tar.gz", ".tar.xz"));
}

#[test]
fn substring_search_scans_the_whole_line() {
    assert!(contains_sub("\"Installed\"=dword:00000001", "Installed"));
    assert!(contains_sub("abcabc", "cab"));
    assert!(!contains_sub("abc", "cb"));
    assert!(contains_sub("abc", ""));
}

#[test]
fn path_joining_and_segments() {
    assert_eq!(join_path("/a/b", "c.txt"), "/a/b/c.txt");
    assert_eq!(after_last("/a/b/c.txt", '/'), "c.txt");
    assert_eq!(after_last("bare", '/'), "bare");
    assert_eq!(after_last("trailing/", '/'), "");
}

#[test]
fn suffix_trimming_strips_repeats() {
    assert_eq!(trim_end_matches("wine-9.0.tar.xz", ".tar.xz"), "wine-9.0");
    assert_eq!(trim_end_matches("a.tar.xz.tar.xz", ".tar.xz"), "a");
    assert_eq!(trim_end_matches("untouched", ".tar.xz"), "untouched");
}

#[test]
fn replacement_rewrites_every_occurrence() {
    assert_eq!(replace_all("dxvk-1.10.3", "dxvk-", "v"), "v1.10.3");
    assert_eq!(replace_all("aaa", "a", "b"), "bbb");
    assert_eq!(replace_all("none", "xyz", "q"), "none");
}

#[test]
fn case_insensitive_comparison_is_ascii_only() {
    assert!(eq_ignore_ascii_case("DLL", "dll"));
    assert!(eq_ignore_ascii_case("TaR", "tar"));
    assert!(!eq_ignore_ascii_case("dll", "dl"));
}

#[test]
fn setup_options_expose_the_requested_prefix() {
    let o = SetupOptions { wine_prefix: "/home/player/.wine-sbrw".to_string() };
    assert_eq!(o.wine_prefix(), "/home/player/.wine-sbrw");
}
