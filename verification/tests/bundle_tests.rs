use close_coordinator::bundle::bundle_dir_of_exe;

#[test]
fn bundle_dir_resolved_for_bundle_executable() {
    let dir = bundle_dir_of_exe("/Applications/Demo.app/Contents/MacOS/恒境");
    assert_eq!(
        dir.as_deref(),
        Some("/Applications/Demo.app/Contents/MacOS")
    );
}

#[test]
fn bundle_dir_is_parent_of_executable() {
    let dir = bundle_dir_of_exe("/opt/tools/Demo.app/Contents/MacOS/helpers/等");
    assert_eq!(
        dir.as_deref(),
        Some("/opt/tools/Demo.app/Contents/MacOS/helpers")
    );
}

#[test]
fn bundle_dir_absent_without_marker() {
    assert!(bundle_dir_of_exe("/usr/local/bin/恒境").is_none());
    assert!(bundle_dir_of_exe("/home/user/Demo.app/Contents/Resources/tool").is_none());
}

#[test]
fn bundle_dir_absent_for_empty_path() {
    assert!(bundle_dir_of_exe("").is_none());
}

#[test]
fn bundle_dir_handles_marker_mid_path() {
    let dir = bundle_dir_of_exe("/x/y.app/Contents/MacOS");
    assert_eq!(dir.as_deref(), Some("/x/y.app/Contents"));
}
