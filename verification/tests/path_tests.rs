use river_dreams::path::{file_name_of, is_root, parent_of, strip_path_prefix};

#[test]
fn parent_of_drops_the_last_component() {
    assert_eq!(parent_of("/home/user/project"), Some(String::from("/home/user")));
    assert_eq!(parent_of("/home/user/project/"), Some(String::from("/home/user")));
    assert_eq!(parent_of("/home"), Some(String::from("/")));
    assert_eq!(parent_of("project"), Some(String::from("")));
    assert_eq!(parent_of("a/b"), Some(String::from("a")));
}

#[test]
fn parent_of_the_root_is_none() {
    assert_eq!(parent_of("/"), None);
    assert_eq!(parent_of(""), None);
}

#[test]
fn is_root_detects_the_file_system_root() {
    assert!(is_root("/"));
    assert!(is_root(""));
    assert!(!is_root("/home"));
    assert!(!is_root("project"));
}

#[test]
fn strip_path_prefix_cuts_at_component_boundaries() {
    assert_eq!(
        strip_path_prefix("/home/user/project/sub", "/home/user"),
        Some(String::from("project/sub"))
    );
    assert_eq!(
        strip_path_prefix("/home/user", "/home/user"),
        Some(String::from(""))
    );
    assert_eq!(strip_path_prefix("/x/y", "/"), Some(String::from("x/y")));
    assert_eq!(strip_path_prefix("a/b", ""), Some(String::from("a/b")));
}

#[test]
fn strip_path_prefix_rejects_unrelated_bases() {
    assert_eq!(strip_path_prefix("/home/user", "/opt"), None);
    assert_eq!(strip_path_prefix("/home/username", "/home/user"), None);
    assert_eq!(strip_path_prefix("/a", ""), None);
}

#[test]
fn file_name_of_resolves_the_last_component() {
    assert_eq!(file_name_of("/venvs/project"), Some(String::from("project")));
    assert_eq!(file_name_of("/venvs/project/"), Some(String::from("project")));
    assert_eq!(file_name_of("project"), Some(String::from("project")));
}

#[test]
fn file_name_of_rejects_dot_components() {
    assert_eq!(file_name_of("/"), None);
    assert_eq!(file_name_of(""), None);
    assert_eq!(file_name_of("/a/.."), None);
    assert_eq!(file_name_of("/a/."), None);
}
