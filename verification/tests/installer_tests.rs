use close_coordinator::installer::{
    get_cli_install_status, get_manual_install_commands, install_cli_tools,
    install_success_message, is_cli_installed, link_creation_failed, plan_install, CliEntry,
    InstallBackend, InstallError,
};

const DIR: &str = "/Applications/Demo.app/Contents/MacOS";

#[test]
fn installed_is_conjunction_of_entries() {
    assert!(is_cli_installed(true, true));
    assert!(!is_cli_installed(true, false));
    assert!(!is_cli_installed(false, true));
    assert!(!is_cli_installed(false, false));
}

#[test]
fn status_reports_entries_independently() {
    let s = get_cli_install_status(true, false, None);
    assert!(s.hengjing_installed);
    assert!(!s.deng_installed);
    assert!(!s.installed);
    assert_eq!(s.install_dir, "/usr/local/bin");
    assert!(s.app_macos_dir.is_none());
    assert!(s.manual_commands.is_none());
}

#[test]
fn status_with_resolved_bundle_carries_commands() {
    let s = get_cli_install_status(true, true, Some(DIR));
    assert!(s.installed);
    assert_eq!(s.app_macos_dir.as_deref(), Some(DIR));
    let expected = format!(
        "sudo ln -sf \"{0}/恒境\" /usr/local/bin/恒境\nsudo ln -sf \"{0}/等\" /usr/local/bin/等",
        DIR
    );
    assert_eq!(s.manual_commands.as_deref(), Some(expected.as_str()));
}

#[test]
fn manual_commands_absent_without_bundle() {
    assert!(get_manual_install_commands(None).is_none());
}

#[test]
fn manual_commands_exact_text() {
    let commands = get_manual_install_commands(Some(DIR)).expect("commands expected");
    let expected = format!(
        "sudo ln -sf \"{0}/恒境\" /usr/local/bin/恒境\nsudo ln -sf \"{0}/等\" /usr/local/bin/等",
        DIR
    );
    assert_eq!(commands, expected);
}

#[test]
fn install_fails_without_bundle_path() {
    let r = install_cli_tools(None, true, true);
    let e = r.err().expect("an unresolved bundle must fail");
    assert!(matches!(e, InstallError::BundlePathUnresolved));
    assert_eq!(e.message(), "无法获取应用路径，请确保从 .app 包运行");
}

#[test]
fn install_fails_when_first_source_missing() {
    let r = install_cli_tools(Some(DIR), false, true);
    match r {
        Err(InstallError::SourceBinaryMissing { entry, path }) => {
            assert_eq!(entry, CliEntry::Hengjing);
            assert_eq!(path, format!("{}/恒境", DIR));
        }
        _ => panic!("a missing source must fail the install"),
    }
}

#[test]
fn install_fails_when_second_source_missing() {
    let r = install_cli_tools(Some(DIR), true, false);
    match r {
        Err(InstallError::SourceBinaryMissing { entry, path }) => {
            assert_eq!(entry, CliEntry::Deng);
            assert_eq!(path, format!("{}/等", DIR));
        }
        _ => panic!("a missing source must fail the install"),
    }
}

#[test]
fn missing_source_message_names_the_entry() {
    let e = install_cli_tools(Some(DIR), false, true).err().expect("must fail");
    assert_eq!(
        e.message(),
        format!("找不到恒境二进制文件: {}/恒境", DIR)
    );
    let e = install_cli_tools(Some(DIR), true, false).err().expect("must fail");
    assert_eq!(e.message(), format!("找不到等二进制文件: {}/等", DIR));
}

#[test]
fn install_plan_carries_exact_paths() {
    let plan = install_cli_tools(Some(DIR), true, true).ok().expect("must succeed");
    assert_eq!(plan.hengjing_src, format!("{}/恒境", DIR));
    assert_eq!(plan.deng_src, format!("{}/等", DIR));
    assert_eq!(plan.hengjing_dst, "/usr/local/bin/恒境");
    assert_eq!(plan.deng_dst, "/usr/local/bin/等");
}

#[test]
fn install_twice_succeeds_both_times() {
    let first = install_cli_tools(Some(DIR), true, true);
    assert!(first.is_ok());
    let second = install_cli_tools(Some(DIR), true, true);
    assert!(second.is_ok());
}

#[test]
fn link_failure_suggests_manual_command() {
    let plan = install_cli_tools(Some(DIR), true, true).ok().expect("must succeed");
    let e = link_creation_failed(
        CliEntry::Hengjing,
        &plan.hengjing_src,
        &plan.hengjing_dst,
        "permission denied".to_string(),
    );
    let expected = format!(
        "创建恒境符号链接失败: permission denied。请尝试使用 sudo 运行或手动执行:\nsudo ln -sf {}/恒境 /usr/local/bin/恒境",
        DIR
    );
    assert_eq!(e.message(), expected);
}

#[test]
fn second_link_failure_names_second_entry() {
    let plan = install_cli_tools(Some(DIR), true, true).ok().expect("must succeed");
    let e = link_creation_failed(
        CliEntry::Deng,
        &plan.deng_src,
        &plan.deng_dst,
        "read-only file system".to_string(),
    );
    let expected = format!(
        "创建等符号链接失败: read-only file system。请尝试使用 sudo 运行或手动执行:\nsudo ln -sf {}/等 /usr/local/bin/等",
        DIR
    );
    assert_eq!(e.message(), expected);
}

#[test]
fn unsupported_backend_fails_at_once() {
    let r = plan_install(InstallBackend::Unsupported, Some(DIR), true, true);
    let e = r.err().expect("an unsupported platform must fail");
    assert!(matches!(e, InstallError::PlatformUnsupported));
    assert_eq!(e.message(), "当前系统不支持自动安装，请手动配置 PATH");
}

#[test]
fn symlink_backend_decides_like_install() {
    let r = plan_install(InstallBackend::SymlinkCapable, Some(DIR), true, true);
    let plan = r.ok().expect("must succeed");
    assert_eq!(plan.hengjing_src, format!("{}/恒境", DIR));
    let r = plan_install(InstallBackend::SymlinkCapable, None, true, true);
    assert!(matches!(r, Err(InstallError::BundlePathUnresolved)));
}

#[test]
fn success_message_names_install_dir() {
    assert_eq!(install_success_message(), "CLI 工具已安装到 /usr/local/bin");
}
