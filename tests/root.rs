use dropbox_credential::normalize_root;

#[test]
fn empty_root_is_slash() {
    assert!(normalize_root("") == "/");
    assert!(normalize_root("/") == "/");
    assert!(normalize_root("///") == "/");
}

#[test]
fn root_gets_slashes_around() {
    assert!(normalize_root("test") == "/test/");
    assert!(normalize_root("/test") == "/test/");
    assert!(normalize_root("test/") == "/test/");
}

#[test]
fn root_runs_of_slashes_collapse() {
    assert!(normalize_root("a//b") == "/a/b/");
    assert!(normalize_root("//a///b//c") == "/a/b/c/");
    assert!(normalize_root("/ä/ß/") == "/ä/ß/");
}
