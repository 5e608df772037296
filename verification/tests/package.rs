use storyblok_mcp::package::{
    entry_script_path, needs_install, ENTRY_SCRIPT, PACKAGE_NAME, PACKAGE_VERSION,
};

#[test]
fn pinned_package() {
    assert_eq!(PACKAGE_NAME, "mcp-remote");
    assert_eq!(PACKAGE_VERSION, "0.1.37");
    assert_eq!(ENTRY_SCRIPT, "node_modules/mcp-remote/dist/proxy.js");
}

#[test]
fn pinned_version_needs_no_install() {
    assert!(!needs_install(Some("0.1.37")));
}

#[test]
fn absent_package_needs_install() {
    assert!(needs_install(None));
}

#[test]
fn any_other_version_needs_install() {
    for version in ["0.1.36", "0.1.38", "0.1.3", "0.1.370", "1.0.0", "", " 0.1.37", "0.1.37 ", "v0.1.37"] {
        assert!(needs_install(Some(version)), "{version:?}");
    }
}

#[test]
fn entry_script_under_a_directory() {
    assert_eq!(
        entry_script_path("/home/user/work"),
        "/home/user/work/node_modules/mcp-remote/dist/proxy.js"
    );
}

#[test]
fn entry_script_under_a_directory_with_a_slash() {
    assert_eq!(entry_script_path("/work/"), "/work/node_modules/mcp-remote/dist/proxy.js");
    assert_eq!(entry_script_path("/"), "/node_modules/mcp-remote/dist/proxy.js");
}

#[test]
fn entry_script_under_no_directory() {
    assert_eq!(entry_script_path(""), "node_modules/mcp-remote/dist/proxy.js");
}

#[test]
fn entry_script_under_a_directory_beyond_ascii() {
    assert_eq!(entry_script_path("/tmp/é日"), "/tmp/é日/node_modules/mcp-remote/dist/proxy.js");
}

#[test]
fn entry_script_is_what_joining_paths_gives() {
    for directory in ["", "/", "/work", "/work/", "relative/dir", "/a b/c", "/tmp/é日", "."] {
        let joined = std::path::Path::new(directory).join(ENTRY_SCRIPT);
        assert_eq!(entry_script_path(directory), joined.to_string_lossy(), "{directory:?}");
    }
}
