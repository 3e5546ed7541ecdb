use zedc::paths::{extension_of, file_name_of, find_last, join_path, parent_of};

#[test]
fn find_last_locates_final_occurrence() {
    assert_eq!(find_last("a/b/c", '/'), Some(3));
    assert_eq!(find_last("abc", '/'), None);
    assert_eq!(find_last("/", '/'), Some(0));
    assert_eq!(find_last("", '/'), None);
}

#[test]
fn parent_strips_the_last_component() {
    assert_eq!(parent_of("/opt/editor/bin/code"), Some("/opt/editor/bin".to_string()));
    assert_eq!(parent_of("a/b"), Some("a".to_string()));
    assert_eq!(parent_of("/a"), Some("".to_string()));
    assert_eq!(parent_of("plain"), None);
}

#[test]
fn file_name_is_the_final_component() {
    assert_eq!(file_name_of("/opt/editor/bin/code"), "code".to_string());
    assert_eq!(file_name_of("plain"), "plain".to_string());
    assert_eq!(file_name_of("dir/"), "".to_string());
}

#[test]
fn join_inserts_one_separator() {
    assert_eq!(join_path("/opt/editor", "sandbox"), "/opt/editor/sandbox".to_string());
    assert_eq!(join_path("", "x"), "/x".to_string());
}

#[test]
fn extension_is_after_the_last_dot() {
    assert_eq!(extension_of("a.vsix"), Some("vsix".to_string()));
    assert_eq!(extension_of("/abs/path/b.tar.gz"), Some("gz".to_string()));
    assert_eq!(extension_of("archive.tgz"), Some("tgz".to_string()));
    assert_eq!(extension_of("trailing."), Some("".to_string()));
}

#[test]
fn extension_ignores_dots_outside_the_final_component() {
    assert_eq!(extension_of("dir.d/plain"), None);
    assert_eq!(extension_of("no_dot"), None);
}

#[test]
fn leading_dot_does_not_begin_an_extension() {
    assert_eq!(extension_of(".zowe"), None);
    assert_eq!(extension_of("/sandbox/.zowe"), None);
    assert_eq!(extension_of(".config.gz"), Some("gz".to_string()));
}
