use aegis_input::path::{find_path, path_insert, paths_equal};

#[test]
fn paths_equal_by_components() {
    assert!(paths_equal("/dev/input//event1/", "/dev/input/event1"));
    assert!(paths_equal("a/./b", "a/b"));
    assert!(paths_equal("/", "//"));
    assert!(paths_equal("", ""));
    assert!(!paths_equal("./a", "a"));
    assert!(!paths_equal("/a", "a"));
    assert!(!paths_equal("/a/../b", "/b"));
    assert!(!paths_equal(".", ""));
    assert!(!paths_equal("/dev/input/event1", "/dev/input/event10"));
}

#[test]
fn path_lists_hold_each_path_once() {
    let mut v: Vec<String> = Vec::new();
    path_insert(&mut v, "/dev/input/event1");
    path_insert(&mut v, "/dev/input/event2");
    path_insert(&mut v, "/dev//input/event1/");
    assert_eq!(v, vec!["/dev/input/event1".to_string(), "/dev/input/event2".to_string()]);
    assert_eq!(find_path(&v, "/dev/input/./event2"), Some(1));
    assert_eq!(find_path(&v, "/dev/input/event3"), None);
}
