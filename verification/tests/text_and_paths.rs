use mas_cli::installer::{
    add_user_path, normalize_path_str, path_contains, remove_user_path, write_user_path,
};
use mas_cli::runtime::{is_local_api_url, join_path};
use mas_cli::text::{
    contains, decimal, double_char, eq_ignore_case, parse_u64, split, to_lower, trim, trim_char,
    trim_end_char, trim_start_char, join,
};

#[test]
fn trim_removes_unicode_white_space() {
    assert_eq!(trim("  \t a b \u{3000}\n"), "a b");
    assert_eq!(trim("   "), "");
}

#[test]
fn trims_of_one_character() {
    assert_eq!(trim_char("\"\"C:\\x\"", '"'), "C:\\x");
    assert_eq!(trim_start_char("vv1.2.3", 'v'), "1.2.3");
    assert_eq!(trim_end_char("http://h:1///", '/'), "http://h:1");
}

#[test]
fn lowercase_is_ascii_only() {
    assert_eq!(to_lower("LocalHOST-É"), "localhost-É");
    assert!(eq_ignore_case("ERROR", "error"));
    assert!(!eq_ignore_case("errors", "error"));
}

#[test]
fn contains_finds_runs() {
    assert!(contains("abcdef", "cde"));
    assert!(contains("abc", ""));
    assert!(!contains("abc", "abcd"));
    assert!(!contains("abc", "ac"));
}

#[test]
fn split_and_join_like_std() {
    assert_eq!(split("a;b;;c;", ';'), vec!["a", "b", "", "c", ""]);
    assert_eq!(split("", ';'), vec![""]);
    let parts: Vec<String> = vec!["x".to_string(), "y".to_string()];
    assert_eq!(join(&parts, ','), "x,y");
    assert_eq!(join(&Vec::new(), ','), "");
}

#[test]
fn numbers_parse_and_print_like_std() {
    assert_eq!(parse_u64("42"), Some(42));
    assert_eq!(parse_u64("+7"), Some(7));
    assert_eq!(parse_u64("18446744073709551615"), Some(u64::MAX));
    assert_eq!(parse_u64("18446744073709551616"), None);
    assert_eq!(parse_u64(""), None);
    assert_eq!(parse_u64("+"), None);
    assert_eq!(parse_u64("-1"), None);
    assert_eq!(parse_u64("1a"), None);
    for s in ["0", "9", "10", "123", "+5", "4294967295"] {
        assert_eq!(parse_u64(s), s.parse::<u64>().ok());
    }
    assert_eq!(decimal(0), "0");
    assert_eq!(decimal(12345), "12345");
    assert_eq!(decimal(u32::MAX), u32::MAX.to_string());
}

#[test]
fn quotes_are_doubled() {
    assert_eq!(double_char("it's", '\''), "it''s");
    assert_eq!(
        write_user_path("C:\\a'b"),
        "[Environment]::SetEnvironmentVariable('Path', 'C:\\a''b', 'User')"
    );
}

#[test]
fn local_api_urls() {
    assert!(is_local_api_url("http://127.0.0.1:36163"));
    assert!(is_local_api_url("http://LOCALHOST:8000"));
    assert!(!is_local_api_url("https://example.com"));
}

#[test]
fn join_paths_like_path_join() {
    assert_eq!(join_path("/home/u", "state.json", false), "/home/u/state.json");
    assert_eq!(join_path("/home/u/", "state.json", false), "/home/u/state.json");
    assert_eq!(join_path("", "x", false), "x");
    assert_eq!(join_path("C:\\Users\\u", "x", true), "C:\\Users\\u\\x");
    assert_eq!(join_path("C:\\Users\\u/", "x", true), "C:\\Users\\u/x");
    assert_eq!(join_path("C:", "x", true), "C:x");
    let std_join = std::path::Path::new("/opt/app").join("main.py");
    assert_eq!(join_path("/opt/app", "main.py", false), std_join.display().to_string());
}

#[test]
fn path_entries_are_normalized() {
    assert_eq!(normalize_path_str("  \"C:\\Tools\\Bin\\\\\" "), "c:\\tools\\bin");
    assert!(path_contains("C:\\a;\"c:\\TOOLS\\\";D:\\b", "C:\\tools"));
    assert!(!path_contains("C:\\a;D:\\b", "C:\\tools"));
}

#[test]
fn adding_to_path() {
    assert_eq!(add_user_path("C:\\a", "C:\\tools"), Some("C:\\a;C:\\tools".to_string()));
    assert_eq!(add_user_path("  ", "C:\\tools"), Some("C:\\tools".to_string()));
    assert_eq!(add_user_path("C:\\a;c:\\TOOLS\\", "C:\\tools"), None);
}

#[test]
fn removing_from_path() {
    assert_eq!(
        remove_user_path(" C:\\a ;;C:\\tools; c:\\Tools\\ ;D:\\b", "C:\\tools"),
        Some("C:\\a;D:\\b".to_string())
    );
    assert_eq!(remove_user_path("C:\\a;D:\\b", "C:\\tools"), None);
    assert_eq!(remove_user_path("C:\\tools", "C:\\tools"), Some(String::new()));
}

#[test]
fn install_then_uninstall_round_trip() {
    let existing = "C:\\a; ;D:\\b ";
    let added = add_user_path(existing, "C:\\tools").unwrap();
    assert!(path_contains(&added, "C:\\tools"));
    let removed = remove_user_path(&added, "C:\\tools").unwrap();
    assert_eq!(removed, "C:\\a;D:\\b");
    assert!(!path_contains(&removed, "C:\\tools"));
}
