//! The pure part of the companion-CLI installer: planning the symlink
//! installation, reporting install status, and rendering the messages the
//! host shows.
//!
//! The two tracked tools are installed as links under `/usr/local/bin`.
//! All checks for the existence of files, and the link operations
//! themselves, are performed by the host, which hands their results in as
//! plain values; everything here is decided and proved on those values.

use vstd::prelude::*;
use vstd::string::StringExecFns;

verus! {

/// One of the two installable command-line tools.
#[derive(Clone, Copy, PartialEq, Eq, Structural, Debug)]
pub enum CliEntry {
    Hengjing,
    Deng,
}

/// The fixed system directory the tools are installed into.
pub open spec fn install_dir_text() -> Seq<char> {
    "/usr/local/bin"@
}

/// The source path of a tool inside the bundle binary directory `dir`.
pub open spec fn source_path_text(entry: CliEntry, dir: Seq<char>) -> Seq<char> {
    match entry {
        CliEntry::Hengjing => dir + "/恒境"@,
        CliEntry::Deng => dir + "/等"@,
    }
}

/// The target path of a tool under the install directory.
pub open spec fn target_path_text(entry: CliEntry) -> Seq<char> {
    match entry {
        CliEntry::Hengjing => install_dir_text() + "/恒境"@,
        CliEntry::Deng => install_dir_text() + "/等"@,
    }
}

/// The manual command that creates one link, shown when automatic link
/// creation fails.
pub open spec fn link_command_text(src: Seq<char>, dst: Seq<char>) -> Seq<char> {
    "sudo ln -sf "@ + src + " "@ + dst
}

/// The two manual commands offered when the host cannot install
/// automatically, for a bundle binary directory `dir`.
pub open spec fn manual_commands_text(dir: Seq<char>) -> Seq<char> {
    "sudo ln -sf \""@ + dir + "/恒境\" /usr/local/bin/恒境\nsudo ln -sf \""@ + dir
        + "/等\" /usr/local/bin/等"@
}

/// The message reported after a fully successful installation.
pub open spec fn install_success_text() -> Seq<char> {
    "CLI 工具已安装到 "@ + install_dir_text()
}

/// Why an installation attempt failed.
pub enum InstallError {
    /// The host platform cannot install automatically.
    PlatformUnsupported,
    /// The process is not running from a recognized application bundle, so
    /// no source location could be resolved.
    BundlePathUnresolved,
    /// A source binary was absent at its resolved path; nothing was touched.
    SourceBinaryMissing { entry: CliEntry, path: String },
    /// The host failed to create the link for `entry`, with the cause it
    /// reported and an equivalent manual command to suggest.
    LinkCreationFailed { entry: CliEntry, cause: String, manual_command: String },
}

impl InstallError {
    /// The human-readable failure text, including remediation guidance.
    pub open spec fn message_text(self) -> Seq<char> {
        match self {
            InstallError::PlatformUnsupported => "当前系统不支持自动安装，请手动配置 PATH"@,
            InstallError::BundlePathUnresolved => "无法获取应用路径，请确保从 .app 包运行"@,
            InstallError::SourceBinaryMissing { entry, path } => (match entry {
                CliEntry::Hengjing => "找不到恒境二进制文件: "@,
                CliEntry::Deng => "找不到等二进制文件: "@,
            }) + path@,
            InstallError::LinkCreationFailed { entry, cause, manual_command } => (match entry {
                CliEntry::Hengjing => "创建恒境符号链接失败: "@,
                CliEntry::Deng => "创建等符号链接失败: "@,
            }) + cause@ + "。请尝试使用 sudo 运行或手动执行:\n"@ + manual_command@,
        }
    }

    /// Renders the failure text the host shows to the user.
    pub fn message(&self) -> (m: String)
        ensures
            m@ == self.message_text(),
    {
        match self {
            InstallError::PlatformUnsupported => {
                "当前系统不支持自动安装，请手动配置 PATH".to_owned()
            },
            InstallError::BundlePathUnresolved => {
                "无法获取应用路径，请确保从 .app 包运行".to_owned()
            },
            InstallError::SourceBinaryMissing { entry, path } => {
                let mut m = match entry {
                    CliEntry::Hengjing => "找不到恒境二进制文件: ".to_owned(),
                    CliEntry::Deng => "找不到等二进制文件: ".to_owned(),
                };
                m.append(path.as_str());
                m
            },
            InstallError::LinkCreationFailed { entry, cause, manual_command } => {
                let mut m = match entry {
                    CliEntry::Hengjing => "创建恒境符号链接失败: ".to_owned(),
                    CliEntry::Deng => "创建等符号链接失败: ".to_owned(),
                };
                m.append(cause.as_str());
                m.append("。请尝试使用 sudo 运行或手动执行:\n");
                m.append(manual_command.as_str());
                m
            },
        }
    }
}

/// Whether both tracked entries are present at the install directory, given
/// the independently checked existence of each.
pub fn is_cli_installed(hengjing_exists: bool, deng_exists: bool) -> (r: bool)
    ensures
        r == (hengjing_exists && deng_exists),
{
    hengjing_exists && deng_exists
}

/// The manual installation commands, present exactly when the bundle binary
/// directory could be resolved.
pub fn get_manual_install_commands(app_macos_dir: Option<&str>) -> (r: Option<String>)
    ensures
        r is Some <==> app_macos_dir is Some,
        app_macos_dir matches Some(dir) ==> (r matches Some(c) && c@ == manual_commands_text(
            dir@,
        )),
{
    match app_macos_dir {
        None => None,
        Some(dir) => {
            let mut c = "sudo ln -sf \"".to_owned();
            c.append(dir);
            c.append("/恒境\" /usr/local/bin/恒境\nsudo ln -sf \"");
            c.append(dir);
            c.append("/等\" /usr/local/bin/等");
            Some(c)
        },
    }
}

/// The install status record reported to the host UI.
pub struct CliInstallStatus {
    /// Both entries are installed.
    pub installed: bool,
    /// The first tool's entry exists at the install directory.
    pub hengjing_installed: bool,
    /// The second tool's entry exists at the install directory.
    pub deng_installed: bool,
    /// The fixed install directory.
    pub install_dir: String,
    /// The resolved bundle binary directory, when the process runs from a
    /// recognized bundle.
    pub app_macos_dir: Option<String>,
    /// The manual installation commands, derived from `app_macos_dir`.
    pub manual_commands: Option<String>,
}

/// Builds the status record: the two entry flags are reported
/// independently, the overall flag is exactly their conjunction, and the
/// bundle directory and manual commands are present exactly when the bundle
/// was resolved.
pub fn get_cli_install_status(
    hengjing_exists: bool,
    deng_exists: bool,
    app_macos_dir: Option<&str>,
) -> (s: CliInstallStatus)
    ensures
        s.hengjing_installed == hengjing_exists,
        s.deng_installed == deng_exists,
        s.installed == (hengjing_exists && deng_exists),
        s.install_dir@ == install_dir_text(),
        s.app_macos_dir is Some <==> app_macos_dir is Some,
        app_macos_dir matches Some(dir) ==> (s.app_macos_dir matches Some(d) && d@ == dir@),
        s.manual_commands is Some <==> app_macos_dir is Some,
        app_macos_dir matches Some(dir) ==> (s.manual_commands matches Some(c) && c@
            == manual_commands_text(dir@)),
{
    let dir_owned = match app_macos_dir {
        Some(dir) => Some(dir.to_owned()),
        None => None,
    };
    CliInstallStatus {
        installed: is_cli_installed(hengjing_exists, deng_exists),
        hengjing_installed: hengjing_exists,
        deng_installed: deng_exists,
        install_dir: "/usr/local/bin".to_owned(),
        app_macos_dir: dir_owned,
        manual_commands: get_manual_install_commands(app_macos_dir),
    }
}

/// The resolved source and target paths of one installation attempt that
/// passed its precondition checks.  The host creates the links exactly as
/// planned, removing any pre-existing entries first.
pub struct InstallPlan {
    pub hengjing_src: String,
    pub deng_src: String,
    pub hengjing_dst: String,
    pub deng_dst: String,
}

/// Whether a plan carries the paths that belong to the bundle binary
/// directory `dir`.
pub open spec fn plan_paths(p: InstallPlan, dir: Seq<char>) -> bool {
    &&& p.hengjing_src@ == source_path_text(CliEntry::Hengjing, dir)
    &&& p.deng_src@ == source_path_text(CliEntry::Deng, dir)
    &&& p.hengjing_dst@ == target_path_text(CliEntry::Hengjing)
    &&& p.deng_dst@ == target_path_text(CliEntry::Deng)
}

/// Whether an installation attempt gets past its precondition checks: the
/// bundle binary directory is resolved and both source binaries exist.
pub open spec fn install_preconditions(
    dir: Option<Seq<char>>,
    hengjing_src_exists: bool,
    deng_src_exists: bool,
) -> bool {
    dir is Some && hengjing_src_exists && deng_src_exists
}

/// The view of the optional bundle directory the host hands in.
pub open spec fn dir_view(d: Option<&str>) -> Option<Seq<char>> {
    match d {
        Some(s) => Some(s@),
        None => None,
    }
}

/// Exactly what a symlink-capable installation decision returns: the plan
/// with the resolved paths when all preconditions hold, and otherwise the
/// first failing check — the unresolved bundle, then the first missing
/// source, then the second.
pub open spec fn symlink_decision(
    r: Result<InstallPlan, InstallError>,
    dir: Option<Seq<char>>,
    hengjing_src_exists: bool,
    deng_src_exists: bool,
) -> bool {
    &&& (r is Ok <==> install_preconditions(dir, hengjing_src_exists, deng_src_exists))
    &&& (dir is None ==> (r matches Err(e) && e is BundlePathUnresolved))
    &&& (dir matches Some(d) ==> (!hengjing_src_exists ==> (r matches Err(e) && (
    e matches InstallError::SourceBinaryMissing { entry, path } && entry == CliEntry::Hengjing
        && path@ == source_path_text(CliEntry::Hengjing, d)))))
    &&& (dir matches Some(d) ==> (hengjing_src_exists && !deng_src_exists ==> (r matches Err(e)
        && (e matches InstallError::SourceBinaryMissing { entry, path } && entry == CliEntry::Deng
        && path@ == source_path_text(CliEntry::Deng, d)))))
    &&& (dir matches Some(d) ==> (r matches Ok(p) ==> plan_paths(p, d)))
}

/// Decides one installation attempt up to link creation.  It fails before
/// anything is touched when the bundle directory is unresolved or either
/// source binary is missing — even if the other is present — and otherwise
/// yields the exact paths the host must link.
pub fn install_cli_tools(
    app_macos_dir: Option<&str>,
    hengjing_src_exists: bool,
    deng_src_exists: bool,
) -> (r: Result<InstallPlan, InstallError>)
    ensures
        symlink_decision(r, dir_view(app_macos_dir), hengjing_src_exists, deng_src_exists),
{
    match app_macos_dir {
        None => Err(InstallError::BundlePathUnresolved),
        Some(dir) => {
            let mut hengjing_src = dir.to_owned();
            hengjing_src.append("/恒境");
            if !hengjing_src_exists {
                return Err(
                    InstallError::SourceBinaryMissing {
                        entry: CliEntry::Hengjing,
                        path: hengjing_src,
                    },
                );
            }
            let mut deng_src = dir.to_owned();
            deng_src.append("/等");
            if !deng_src_exists {
                return Err(
                    InstallError::SourceBinaryMissing { entry: CliEntry::Deng, path: deng_src },
                );
            }
            let mut hengjing_dst = "/usr/local/bin".to_owned();
            hengjing_dst.append("/恒境");
            let mut deng_dst = "/usr/local/bin".to_owned();
            deng_dst.append("/等");
            Ok(InstallPlan { hengjing_src, deng_src, hengjing_dst, deng_dst })
        },
    }
}

/// Whether the host platform can install by creating symlinks.  The host
/// selects the variant once at startup; nothing here branches on the
/// platform at compile time.
pub enum InstallBackend {
    SymlinkCapable,
    Unsupported,
}

/// Decides one installation attempt for the selected backend: an
/// unsupported platform fails at once with remediation left to manual
/// configuration, and a symlink-capable one decides exactly as
/// `install_cli_tools`.
pub fn plan_install(
    backend: InstallBackend,
    app_macos_dir: Option<&str>,
    hengjing_src_exists: bool,
    deng_src_exists: bool,
) -> (r: Result<InstallPlan, InstallError>)
    ensures
        backend is Unsupported ==> (r matches Err(e) && e is PlatformUnsupported),
        backend is SymlinkCapable ==> symlink_decision(
            r,
            dir_view(app_macos_dir),
            hengjing_src_exists,
            deng_src_exists,
        ),
{
    match backend {
        InstallBackend::Unsupported => Err(InstallError::PlatformUnsupported),
        InstallBackend::SymlinkCapable => install_cli_tools(
            app_macos_dir,
            hengjing_src_exists,
            deng_src_exists,
        ),
    }
}

/// Builds the error for a link the host failed to create: it carries the
/// entry, the cause the host reported, and the equivalent manual command
/// for the planned source and target.
pub fn link_creation_failed(entry: CliEntry, src: &str, dst: &str, cause: String) -> (e:
    InstallError)
    ensures
        e matches InstallError::LinkCreationFailed {
            entry: en,
            cause: c,
            manual_command: m,
        } && en == entry && c@ == cause@ && m@ == link_command_text(src@, dst@),
{
    let mut command = "sudo ln -sf ".to_owned();
    command.append(src);
    command.append(" ");
    command.append(dst);
    InstallError::LinkCreationFailed { entry, cause, manual_command: command }
}

/// The message reported after both links were created.
pub fn install_success_message() -> (m: String)
    ensures
        m@ == install_success_text(),
{
    let mut m = "CLI 工具已安装到 ".to_owned();
    m.append("/usr/local/bin");
    m
}

/// A model of the two tracked entries at the install directory: for each,
/// the path its link points at, or `None` when no entry exists.  A dangling
/// link — an entry whose target binary has since disappeared — is still a
/// present entry here.
pub struct TargetEntries {
    pub hengjing_entry: Option<Seq<char>>,
    pub deng_entry: Option<Seq<char>>,
}

/// The entries after an attempt that passed its precondition checks:
/// pre-existing entries are removed first, whatever they were, then the
/// first link is created, then the second, stopping at the first failure —
/// so a link already created may remain after a partial failure.
pub open spec fn entries_after_links(
    dir: Seq<char>,
    hengjing_link_ok: bool,
    deng_link_ok: bool,
) -> TargetEntries {
    if !hengjing_link_ok {
        TargetEntries { hengjing_entry: None, deng_entry: None }
    } else if !deng_link_ok {
        TargetEntries {
            hengjing_entry: Some(source_path_text(CliEntry::Hengjing, dir)),
            deng_entry: None,
        }
    } else {
        TargetEntries {
            hengjing_entry: Some(source_path_text(CliEntry::Hengjing, dir)),
            deng_entry: Some(source_path_text(CliEntry::Deng, dir)),
        }
    }
}

/// The entries after one complete installation attempt from state `pre`:
/// untouched when a precondition check fails, rebuilt from scratch
/// otherwise.
pub open spec fn install_effect(
    pre: TargetEntries,
    dir: Option<Seq<char>>,
    hengjing_src_exists: bool,
    deng_src_exists: bool,
    hengjing_link_ok: bool,
    deng_link_ok: bool,
) -> TargetEntries {
    match dir {
        None => pre,
        Some(d) => if hengjing_src_exists && deng_src_exists {
            entries_after_links(d, hengjing_link_ok, deng_link_ok)
        } else {
            pre
        },
    }
}

/// Whether one complete installation attempt reports success.
pub open spec fn install_reports_success(
    dir: Option<Seq<char>>,
    hengjing_src_exists: bool,
    deng_src_exists: bool,
    hengjing_link_ok: bool,
    deng_link_ok: bool,
) -> bool {
    install_preconditions(dir, hengjing_src_exists, deng_src_exists) && hengjing_link_ok
        && deng_link_ok
}

/// No-mutation law: when the bundle directory is unresolved or either
/// source binary is missing — even if the other one is present — the
/// attempt fails before touching the target directory, and the entries are
/// exactly what they were.
pub proof fn lemma_failed_install_mutates_nothing(
    pre: TargetEntries,
    dir: Option<Seq<char>>,
    hengjing_src_exists: bool,
    deng_src_exists: bool,
    hengjing_link_ok: bool,
    deng_link_ok: bool,
)
    requires
        !install_preconditions(dir, hengjing_src_exists, deng_src_exists),
    ensures
        install_effect(
            pre,
            dir,
            hengjing_src_exists,
            deng_src_exists,
            hengjing_link_ok,
            deng_link_ok,
        ) == pre,
{
}

/// Bridge to the decision: whenever `install_cli_tools` (or a
/// symlink-capable `plan_install`) returns an error, no plan reaches the
/// host, and the target entries stay exactly what they were.
pub proof fn lemma_error_leaves_entries_untouched(
    r: Result<InstallPlan, InstallError>,
    pre: TargetEntries,
    dir: Option<Seq<char>>,
    hengjing_src_exists: bool,
    deng_src_exists: bool,
    hengjing_link_ok: bool,
    deng_link_ok: bool,
)
    requires
        symlink_decision(r, dir, hengjing_src_exists, deng_src_exists),
        r is Err,
    ensures
        install_effect(
            pre,
            dir,
            hengjing_src_exists,
            deng_src_exists,
            hengjing_link_ok,
            deng_link_ok,
        ) == pre,
{
}

/// Reinstall law: with the bundle resolved, both sources present and link
/// creation succeeding, an installation succeeds from any prior entries —
/// absent, current or dangling — and a second installation right after
/// succeeds as well and leaves exactly the same fresh links.
pub proof fn lemma_install_twice_overwrites(pre: TargetEntries, dir: Seq<char>)
    ensures
        install_reports_success(Some(dir), true, true, true, true),
        ({
            let once = install_effect(pre, Some(dir), true, true, true, true);
            let twice = install_effect(once, Some(dir), true, true, true, true);
            &&& once == twice
            &&& once.hengjing_entry == Some(source_path_text(CliEntry::Hengjing, dir))
            &&& once.deng_entry == Some(source_path_text(CliEntry::Deng, dir))
        }),
{
}

} // verus!
