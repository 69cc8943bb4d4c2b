use termhub::display::{derive_session_name, escape_html, format_time};
use termhub::text::{check_blank, check_prefix, str_eq, str_lex_le};
use termhub::workspace::{sort_directories, Config, DirectoryInfo};

fn dir(name: &str) -> DirectoryInfo {
    DirectoryInfo {
        name: name.to_string(),
        path: format!("/srv/{}", name),
    }
}

#[test]
fn test_sort_directories_orders_by_name() {
    let dirs = vec![dir("zeta"), dir("alpha"), dir("midway"), dir("beta")];
    let sorted = sort_directories(dirs);
    let names: Vec<&str> = sorted.iter().map(|d| d.name.as_str()).collect();
    assert_eq!(names, vec!["alpha", "beta", "midway", "zeta"]);
}

#[test]
fn test_sort_directories_keeps_duplicates() {
    let dirs = vec![dir("b"), dir("a"), dir("b")];
    let sorted = sort_directories(dirs);
    let names: Vec<&str> = sorted.iter().map(|d| d.name.as_str()).collect();
    assert_eq!(names, vec!["a", "b", "b"]);
}

#[test]
fn test_workspace_config_init_and_get() {
    let config = Config::init("/srv/workspace".to_string());
    assert_eq!(config.get(), "/srv/workspace");
    assert_eq!(config.workspace_root, "/srv/workspace");
}

#[test]
fn test_format_time_extracts_time_of_day() {
    assert_eq!(
        format_time("2024-01-01T12:34:56.789+00:00"),
        "12:34:56"
    );
    assert_eq!(format_time("2024-01-01T08:00:00+00:00"), "08:00:00+00:00");
    assert_eq!(format_time("no timestamp here"), "no timestamp here");
}

#[test]
fn test_escape_html_escapes_special_characters() {
    assert_eq!(
        escape_html("<a href=\"x\">&'</a>"),
        "&lt;a href=&quot;x&quot;&gt;&amp;&#x27;&lt;/a&gt;"
    );
    assert_eq!(escape_html("plain text"), "plain text");
    assert_eq!(escape_html(""), "");
}

#[test]
fn test_derive_session_name_truncates_long_tasks() {
    let short = "fix the flaky test";
    assert_eq!(derive_session_name(short), short);

    let long = "a".repeat(60);
    let name = derive_session_name(&long);
    assert_eq!(name, format!("{}...", "a".repeat(50)));
}

#[test]
fn test_check_blank() {
    assert!(check_blank(""));
    assert!(check_blank(" \t\r\n"));
    assert!(!check_blank(" x "));
}

#[test]
fn test_check_prefix_and_str_eq() {
    assert!(check_prefix("/tmp/project", "/tmp"));
    assert!(!check_prefix("/tm", "/tmp"));
    assert!(check_prefix("abc", ""));
    assert!(str_eq("same", "same"));
    assert!(!str_eq("same", "sam"));
}

#[test]
fn test_str_lex_le() {
    assert!(str_lex_le("alpha", "beta"));
    assert!(!str_lex_le("beta", "alpha"));
    assert!(str_lex_le("abc", "abc"));
    assert!(str_lex_le("ab", "abc"));
    assert!(!str_lex_le("abc", "ab"));
}
