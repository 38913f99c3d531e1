use fersk::text::{normalize_path, trim_end};

#[test]
fn trim_removes_trailing_newline() {
    assert_eq!(trim_end("main\n"), "main");
}

#[test]
fn trim_removes_mixed_trailing_whitespace() {
    assert_eq!(trim_end("/repo/root \r\n\t"), "/repo/root");
}

#[test]
fn trim_keeps_interior_whitespace() {
    assert_eq!(trim_end("a b\nc\n"), "a b\nc");
}

#[test]
fn trim_of_empty_is_empty() {
    assert_eq!(trim_end(""), "");
}

#[test]
fn trim_of_all_whitespace_is_empty() {
    assert_eq!(trim_end(" \n\t\r"), "");
}

#[test]
fn normalize_strips_trailing_separators() {
    assert_eq!(normalize_path("/a/b///"), "/a/b");
    assert_eq!(normalize_path("/a/b/"), "/a/b");
    assert_eq!(normalize_path("/a/b"), "/a/b");
}

#[test]
fn normalize_keeps_bare_root() {
    assert_eq!(normalize_path("/"), "/");
    assert_eq!(normalize_path("///"), "/");
}

#[test]
fn normalize_of_empty_is_empty() {
    assert_eq!(normalize_path(""), "");
}
