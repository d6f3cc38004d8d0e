//! What each install phase logs and runs, given the configuration and the
//! facts the host reported.
use vstd::prelude::*;

use crate::model::{
    has_catalog, has_director, has_filedaemon, has_storage, has_webui, InstallConfig,
    InstallProfile, LogLevel,
};
use crate::phases::{join, join_words, strs};
use crate::steps::{argv, lits, shell, step_views, Step, StepView};
use crate::text::{dec, owned, push_dec, push_str};
use crate::texts::{
    DEBCONF_PRESEED, ENABLE_WEBUI_CONF_SCRIPT, ENABLE_PHP_SCRIPT, FILESET_CONF,
    NEEDRESTART_SCRIPT, OVERLAY_SCRIPT_TAIL, POOL_CONF, RELOAD_DIRECTOR_SCRIPT,
    STORAGE_OVERRIDE_CONF, TLS_OFF_SCRIPT, VHOST_CONF_TAIL,
};

verus! {

/// A log line step.
pub fn note(level: LogLevel, msg: &str) -> (s: Step)
    ensures
        s@ == StepView::Note(level, msg@),
{
    Step::Note(level, owned(msg))
}

/// A command step made of fixed words.
pub fn run_words(words: &[&str]) -> (s: Step)
    ensures
        s@ == StepView::Run(lits(words@)),
{
    Step::Run(argv(words))
}

/// `sh -c <script>` as a step view.
pub open spec fn sh(script: Seq<char>) -> StepView {
    StepView::Run(seq!["sh"@, "-c"@, script])
}

/// `sh -c <literal script>`.
fn shell_lit(script: &str) -> (s: Step)
    ensures
        s@ == sh(script@),
{
    shell(owned(script))
}

/// The steps of a phase, and the error it ends with, if any.
pub struct Plan {
    pub steps: Vec<Step>,
    pub error: Option<String>,
}

/// The error text a plan ends with.
pub open spec fn plan_error(p: Plan) -> Option<Seq<char>> {
    match p.error {
        Some(e) => Some(e@),
        None => None,
    }
}

// ---------------------------------------------------------------------------
// Rendering configuration
// ---------------------------------------------------------------------------

/// The script that writes `content` to `dest` (in directory `dir`), owned by
/// `root:bareos`, mode 640.
pub open spec fn install_file_script_spec(dir: Seq<char>, dest: Seq<char>, content: Seq<char>) -> Seq<
    char,
> {
    "set -eu\nmkdir -p '"@ + dir + "'\ncat > '"@ + dest + "' <<'__EOF__'\n"@ + content
        + "__EOF__\nchown root:bareos '"@ + dest + "' 2>/dev/null || true\nchmod 640 '"@ + dest
        + "'\n"@
}

pub fn install_file_script(dir: &str, dest: &str, content: &str) -> (s: String)
    ensures
        s@ == install_file_script_spec(dir@, dest@, content@),
{
    let mut s = owned("set -eu\nmkdir -p '");
    push_str(&mut s, dir);
    push_str(&mut s, "'\ncat > '");
    push_str(&mut s, dest);
    push_str(&mut s, "' <<'__EOF__'\n");
    push_str(&mut s, content);
    push_str(&mut s, "__EOF__\nchown root:bareos '");
    push_str(&mut s, dest);
    push_str(&mut s, "' 2>/dev/null || true\nchmod 640 '");
    push_str(&mut s, dest);
    push_str(&mut s, "'\n");
    s
}

/// Steps that install one configuration file under the config directory
/// `cd`, in subdirectory `sub`, named `file`.
pub open spec fn install_file_spec(cd: Seq<char>, sub: Seq<char>, file: Seq<char>, content: Seq<char>) -> Seq<
    StepView,
> {
    let dir = cd + sub;
    let dest = dir + file;
    seq![
        StepView::Note(LogLevel::Info, "install "@ + dest),
        sh(install_file_script_spec(dir, dest, content)),
    ]
}

fn install_file_steps(steps: &mut Vec<Step>, cd: &str, sub: &str, file: &str, content: &str)
    ensures
        step_views(final(steps)@) == step_views(old(steps)@) + install_file_spec(
            cd@,
            sub@,
            file@,
            content@,
        ),
{
    let ghost before = step_views(steps@);
    let mut dir = owned(cd);
    push_str(&mut dir, sub);
    let mut dest = dir.clone();
    push_str(&mut dest, file);
    let mut msg = owned("install ");
    push_str(&mut msg, dest.as_str());
    steps.push(Step::Note(LogLevel::Info, msg));
    let script = install_file_script(dir.as_str(), dest.as_str(), content);
    steps.push(shell(script));
    assert(step_views(steps@) =~= before + install_file_spec(cd@, sub@, file@, content@));
}

/// The command that creates the storage directory `sd`.
pub open spec fn storage_mkdir_spec(sd: Seq<char>) -> Seq<char> {
    "mkdir -p "@ + sd + " && chown bareos:bareos "@ + sd + " 2>/dev/null || true"@
}

/// The TLS-off steps for the console paths.
pub open spec fn tls_off_spec() -> Seq<StepView> {
    seq![
        StepView::Note(
            LogLevel::Info,
            "disabling TLS on Director + admin console + webui directors.ini"@,
        ),
        sh(TLS_OFF_SCRIPT@),
    ]
}

/// Turns TLS off on the Director, the admin console and the WebUI's
/// director list, then restarts the director.
pub fn disable_for_console() -> (steps: Vec<Step>)
    ensures
        step_views(steps@) == tls_off_spec(),
{
    let mut steps: Vec<Step> = Vec::new();
    steps.push(note(LogLevel::Info, "disabling TLS on Director + admin console + webui directors.ini"));
    steps.push(shell_lit(TLS_OFF_SCRIPT));
    assert(step_views(steps@) =~= tls_off_spec());
    steps
}

/// The render-config phase for config directory `cd` and storage
/// directory `sd`: the file set, pool and storage-override fragments, the
/// storage directory, and TLS off on the console paths.
pub open spec fn render_config_spec(cd: Seq<char>, sd: Seq<char>) -> Seq<StepView> {
    seq![StepView::Note(LogLevel::Info, "writing director/SD/FD config fragments"@)]
        + install_file_spec(cd, "/bareos-dir.d/fileset"@, "/FullRoot.conf"@, FILESET_CONF@)
        + install_file_spec(cd, "/bareos-dir.d/pool"@, "/EvalPool.conf"@, POOL_CONF@)
        + install_file_spec(
        cd,
        "/nqrb-installer"@,
        "/Storage-File.override.example"@,
        STORAGE_OVERRIDE_CONF@,
    ) + seq![sh(storage_mkdir_spec(sd))] + tls_off_spec()
}

pub fn render_and_install(cfg: &InstallConfig) -> (steps: Vec<Step>)
    ensures
        step_views(steps@) == render_config_spec(cfg.config_dir@, cfg.storage_dir@),
{
    let mut steps: Vec<Step> = Vec::new();
    steps.push(note(LogLevel::Info, "writing director/SD/FD config fragments"));
    let ghost s0 = step_views(steps@);
    assert(s0 =~= seq![StepView::Note(LogLevel::Info, "writing director/SD/FD config fragments"@)]);
    let cd = cfg.config_dir.as_str();
    install_file_steps(&mut steps, cd, "/bareos-dir.d/fileset", "/FullRoot.conf", FILESET_CONF);
    install_file_steps(&mut steps, cd, "/bareos-dir.d/pool", "/EvalPool.conf", POOL_CONF);
    install_file_steps(
        &mut steps,
        cd,
        "/nqrb-installer",
        "/Storage-File.override.example",
        STORAGE_OVERRIDE_CONF,
    );
    let sd = cfg.storage_dir.as_str();
    let mut mkdir = owned("mkdir -p ");
    push_str(&mut mkdir, sd);
    push_str(&mut mkdir, " && chown bareos:bareos ");
    push_str(&mut mkdir, sd);
    push_str(&mut mkdir, " 2>/dev/null || true");
    assert(mkdir@ =~= storage_mkdir_spec(cfg.storage_dir@));
    let ghost s1 = step_views(steps@);
    steps.push(shell(mkdir));
    assert(step_views(steps@) =~= s1.push(sh(storage_mkdir_spec(cfg.storage_dir@))));
    let ghost before = step_views(steps@);
    let mut tls = disable_for_console();
    steps.append(&mut tls);
    assert(step_views(steps@) =~= before + tls_off_spec());
    assert(step_views(steps@) =~= render_config_spec(cfg.config_dir@, cfg.storage_dir@));
    steps
}

// ---------------------------------------------------------------------------
// Catalog
// ---------------------------------------------------------------------------

/// The probe that succeeds when the `bareos` catalog database exists.
pub const CATALOG_PROBE: &'static str = "sudo -u postgres psql -tAc 'SELECT 1 FROM pg_database WHERE datname=$$bareos$$' 2>/dev/null | grep -q 1";

/// Steps before the catalog probe, and the probe itself when the profile
/// hosts a catalog.
pub open spec fn bootstrap_catalog_spec(profile: InstallProfile) -> (Seq<StepView>, Option<StepView>) {
    if !has_catalog(profile) {
        (seq![StepView::Note(LogLevel::Info, "profile has no catalog — skipping"@)], None)
    } else {
        (
            seq![StepView::Note(LogLevel::Info, "checking for existing catalog"@)],
            Some(sh(CATALOG_PROBE@)),
        )
    }
}

/// The start of the catalog phase: what to log, and the probe to run (none
/// when the profile has no catalog, which ends the phase).
pub fn bootstrap_catalog(profile: InstallProfile) -> (r: (Vec<Step>, Option<Step>))
    ensures
        step_views(r.0@) == bootstrap_catalog_spec(profile).0,
        match bootstrap_catalog_spec(profile).1 {
            Some(p) => r.1 matches Some(s) && s@ == p,
            None => r.1 is None,
        },
{
    let mut steps: Vec<Step> = Vec::new();
    if !profile.installs_catalog() {
        steps.push(note(LogLevel::Info, "profile has no catalog — skipping"));
        assert(step_views(steps@) =~= bootstrap_catalog_spec(profile).0);
        return (steps, None);
    }
    steps.push(note(LogLevel::Info, "checking for existing catalog"));
    assert(step_views(steps@) =~= bootstrap_catalog_spec(profile).0);
    (steps, Some(shell_lit(CATALOG_PROBE)))
}

/// The rest of the catalog phase, once the probe told whether the catalog
/// exists: nothing to create when it does, else the three bareos scripts.
pub open spec fn catalog_after_probe_spec(exists: bool) -> Seq<StepView> {
    if exists {
        seq![StepView::Note(LogLevel::Info, "catalog already present — skipping create/grant"@)]
    } else {
        seq![
            StepView::Note(LogLevel::Info, "creating catalog DB (bareos scripts)"@),
            sh("sudo -u postgres /usr/lib/bareos/scripts/create_bareos_database postgresql"@),
            sh("sudo -u postgres /usr/lib/bareos/scripts/make_bareos_tables postgresql"@),
            sh("sudo -u postgres /usr/lib/bareos/scripts/grant_bareos_privileges postgresql"@),
        ]
    }
}

pub fn catalog_after_probe(exists: bool) -> (steps: Vec<Step>)
    ensures
        step_views(steps@) == catalog_after_probe_spec(exists),
{
    let mut steps: Vec<Step> = Vec::new();
    if exists {
        steps.push(note(LogLevel::Info, "catalog already present — skipping create/grant"));
    } else {
        steps.push(note(LogLevel::Info, "creating catalog DB (bareos scripts)"));
        steps.push(
            shell_lit("sudo -u postgres /usr/lib/bareos/scripts/create_bareos_database postgresql"),
        );
        steps.push(
            shell_lit("sudo -u postgres /usr/lib/bareos/scripts/make_bareos_tables postgresql"),
        );
        steps.push(
            shell_lit("sudo -u postgres /usr/lib/bareos/scripts/grant_bareos_privileges postgresql"),
        );
    }
    assert(step_views(steps@) =~= catalog_after_probe_spec(exists));
    steps
}

// ---------------------------------------------------------------------------
// Packages
// ---------------------------------------------------------------------------

/// The prerequisites installed before any bareos package.
pub open spec fn apt_prereq_cmd() -> Seq<Seq<char>> {
    lits(
        seq![
            "apt-get",
            "install",
            "-y",
            "--no-install-recommends",
            "curl",
            "ca-certificates",
            "gnupg",
            "postgresql",
            "postgresql-contrib",
            "openssh-server",
        ],
    )
}

/// Installing the OS prerequisites with apt: only on Debian and Ubuntu; on
/// other hosts a warning, and an error unless this is a dry run.
pub open spec fn apt_deps_spec(debian_family: bool, pretty: Seq<char>, dry_run: bool) -> (
    Seq<StepView>,
    Option<Seq<char>>,
) {
    if !debian_family {
        (
            seq![
                StepView::Note(
                    LogLevel::Warn,
                    "host is "@ + pretty + " (not Debian/Ubuntu); skipping apt install"@,
                ),
            ],
            if dry_run {
                None
            } else {
                Some(
                    "apt-based install only supports Debian/Ubuntu. Try --dry-run or use BuildFromSource."@,
                )
            },
        )
    } else {
        (
            seq![
                StepView::Note(LogLevel::Info, "apt-get update"@),
                StepView::Run(lits(seq!["apt-get", "update", "-y"])),
                StepView::Note(LogLevel::Info, "installing prerequisites"@),
                StepView::Run(apt_prereq_cmd()),
            ],
            None,
        )
    }
}

pub fn install_apt_deps(debian_family: bool, pretty: &str, dry_run: bool) -> (p: Plan)
    ensures
        (step_views(p.steps@), plan_error(p)) == apt_deps_spec(debian_family, pretty@, dry_run),
{
    let mut steps: Vec<Step> = Vec::new();
    if !debian_family {
        let mut msg = owned("host is ");
        push_str(&mut msg, pretty);
        push_str(&mut msg, " (not Debian/Ubuntu); skipping apt install");
        steps.push(Step::Note(LogLevel::Warn, msg));
        assert(step_views(steps@) =~= apt_deps_spec(debian_family, pretty@, dry_run).0);
        if dry_run {
            return Plan { steps, error: None };
        }
        return Plan {
            steps,
            error: Some(
                owned(
                    "apt-based install only supports Debian/Ubuntu. Try --dry-run or use BuildFromSource.",
                ),
            ),
        };
    }
    steps.push(note(LogLevel::Info, "apt-get update"));
    steps.push(run_words(&["apt-get", "update", "-y"]));
    steps.push(note(LogLevel::Info, "installing prerequisites"));
    steps.push(
        run_words(
            &[
                "apt-get",
                "install",
                "-y",
                "--no-install-recommends",
                "curl",
                "ca-certificates",
                "gnupg",
                "postgresql",
                "postgresql-contrib",
                "openssh-server",
            ],
        ),
    );
    assert(step_views(steps@) =~= apt_deps_spec(debian_family, pretty@, dry_run).0);
    Plan { steps, error: None }
}

/// The script that adds the upstream-compatible apt repository for the
/// Ubuntu release `version`.
pub open spec fn upstream_repo_script(version: Seq<char>) -> Seq<char> {
    let distro = "xUbuntu_"@ + version;
    let gpg_url = "https://download.bareos.org/current/"@ + distro + "/Release.key"@;
    let repo = "https://download.bareos.org/current/"@ + distro + "/"@;
    "\nset -eu\nmkdir -p /etc/apt/keyrings\ncurl -fsSL '"@ + gpg_url
        + "' | gpg --dearmor -o /etc/apt/keyrings/nqrustbackup-upstream.gpg\necho 'deb [signed-by=/etc/apt/keyrings/nqrustbackup-upstream.gpg] "@
        + repo + " /' > /etc/apt/sources.list.d/nqrustbackup-upstream.list\napt-get update -y\n"@
}

pub open spec fn upstream_repo_spec(version: Seq<char>) -> Seq<StepView> {
    seq![
        StepView::Note(LogLevel::Info, "configuring upstream-compat apt repo"@),
        sh(upstream_repo_script(version)),
    ]
}

pub fn configure_upstream_repo(version_id: &str) -> (steps: Vec<Step>)
    ensures
        step_views(steps@) == upstream_repo_spec(version_id@),
{
    let mut distro = owned("xUbuntu_");
    push_str(&mut distro, version_id);
    let mut script = owned("\nset -eu\nmkdir -p /etc/apt/keyrings\ncurl -fsSL '");
    push_str(&mut script, "https://download.bareos.org/current/");
    push_str(&mut script, distro.as_str());
    push_str(&mut script, "/Release.key");
    push_str(
        &mut script,
        "' | gpg --dearmor -o /etc/apt/keyrings/nqrustbackup-upstream.gpg\necho 'deb [signed-by=/etc/apt/keyrings/nqrustbackup-upstream.gpg] ",
    );
    push_str(&mut script, "https://download.bareos.org/current/");
    push_str(&mut script, distro.as_str());
    push_str(&mut script, "/");
    push_str(
        &mut script,
        " /' > /etc/apt/sources.list.d/nqrustbackup-upstream.list\napt-get update -y\n",
    );
    assert(script@ =~= upstream_repo_script(version_id@));
    let mut steps: Vec<Step> = Vec::new();
    steps.push(note(LogLevel::Info, "configuring upstream-compat apt repo"));
    steps.push(shell(script));
    assert(step_views(steps@) =~= upstream_repo_spec(version_id@));
    steps
}

/// The bareos packages a profile installs, in install order.
pub open spec fn packages_for(profile: InstallProfile) -> Seq<Seq<char>> {
    (if has_director(profile) {
        seq!["bareos-director"@]
    } else {
        seq![]
    }) + (if has_storage(profile) {
        seq!["bareos-storage"@]
    } else {
        seq![]
    }) + (if has_filedaemon(profile) {
        seq!["bareos-filedaemon"@]
    } else {
        seq![]
    }) + (if has_catalog(profile) {
        seq!["bareos-database-postgresql"@]
    } else {
        seq![]
    }) + seq!["bareos-bconsole"@] + (if has_webui(profile) {
        seq!["bareos-webui"@]
    } else {
        seq![]
    })
}

pub fn package_list(profile: InstallProfile) -> (pkgs: Vec<String>)
    ensures
        strs(pkgs@) == packages_for(profile),
{
    let mut pkgs: Vec<String> = Vec::new();
    if profile.installs_director() {
        pkgs.push(owned("bareos-director"));
    }
    if profile.installs_storage() {
        pkgs.push(owned("bareos-storage"));
    }
    if profile.installs_filedaemon() {
        pkgs.push(owned("bareos-filedaemon"));
    }
    if profile.installs_catalog() {
        pkgs.push(owned("bareos-database-postgresql"));
    }
    pkgs.push(owned("bareos-bconsole"));
    if profile.installs_webui() {
        pkgs.push(owned("bareos-webui"));
    }
    assert(strs(pkgs@) =~= packages_for(profile));
    pkgs
}

/// The script that loads the debconf answers.
pub open spec fn preseed_script() -> Seq<char> {
    "cat > /tmp/nqrb-preseed.txt <<'__EOF__'\n"@ + DEBCONF_PRESEED@
        + "__EOF__\ndebconf-set-selections /tmp/nqrb-preseed.txt"@
}

/// Installing the bareos packages of a profile: debconf answers,
/// `needrestart` prompts off, then a non-interactive `apt-get install`. A dry
/// run only reports what it would install.
pub open spec fn install_packages_spec(profile: InstallProfile, dry_run: bool) -> Seq<StepView> {
    let pkgs = packages_for(profile);
    let head = seq![StepView::Note(LogLevel::Info, "installing: "@ + join(pkgs, seq![' ']))];
    if dry_run {
        head + seq![
            StepView::Note(LogLevel::Info, "(dry-run) would run apt-get install with preseed"@),
        ]
    } else {
        head + seq![
            sh(preseed_script()),
            sh(NEEDRESTART_SCRIPT@),
            StepView::Run(
                lits(
                    seq![
                        "env",
                        "DEBIAN_FRONTEND=noninteractive",
                        "NEEDRESTART_MODE=a",
                        "apt-get",
                        "install",
                        "-y",
                        "-o",
                        "Dpkg::Options::=--force-confold",
                    ],
                ) + pkgs,
            ),
        ]
    }
}

pub fn install_packages(profile: InstallProfile, dry_run: bool) -> (steps: Vec<Step>)
    ensures
        step_views(steps@) == install_packages_spec(profile, dry_run),
{
    let mut pkgs = package_list(profile);
    let joined = join_words(pkgs.as_slice());
    let mut msg = owned("installing: ");
    push_str(&mut msg, joined.as_str());
    let mut steps: Vec<Step> = Vec::new();
    steps.push(Step::Note(LogLevel::Info, msg));
    if dry_run {
        steps.push(note(LogLevel::Info, "(dry-run) would run apt-get install with preseed"));
        assert(step_views(steps@) =~= install_packages_spec(profile, dry_run));
        return steps;
    }
    let mut preseed = owned("cat > /tmp/nqrb-preseed.txt <<'__EOF__'\n");
    push_str(&mut preseed, DEBCONF_PRESEED);
    push_str(&mut preseed, "__EOF__\ndebconf-set-selections /tmp/nqrb-preseed.txt");
    steps.push(shell(preseed));
    steps.push(shell_lit(NEEDRESTART_SCRIPT));
    let mut cmd = argv(
        &[
            "env",
            "DEBIAN_FRONTEND=noninteractive",
            "NEEDRESTART_MODE=a",
            "apt-get",
            "install",
            "-y",
            "-o",
            "Dpkg::Options::=--force-confold",
        ],
    );
    let ghost c0 = strs(cmd@);
    let ghost p0 = strs(pkgs@);
    cmd.append(&mut pkgs);
    assert(strs(cmd@) =~= c0 + p0);
    steps.push(Step::Run(cmd));
    assert(step_views(steps@) =~= install_packages_spec(profile, dry_run));
    steps
}

/// The script that builds the `.deb` packages in the repository `root`.
pub open spec fn build_script(root: Seq<char>) -> Seq<char> {
    "set -eu\ncd '"@ + root
        + "'\napt-get update -y\napt build-dep -y .\ndpkg-buildpackage -us -uc -b -j$(nproc)\n"@
}

/// Building from source needs the repository root (with its parent shown
/// in the log); without it the phase fails.
pub open spec fn build_from_source_spec(repo: Option<(Seq<char>, Seq<char>)>) -> (
    Seq<StepView>,
    Option<Seq<char>>,
) {
    let head = seq![
        StepView::Note(
            LogLevel::Info,
            "build-from-source path: running `apt build-dep .` + dpkg-buildpackage in repo root"@,
        ),
    ];
    match repo {
        None => (head, Some("could not find NQRustBackup repo root"@)),
        Some((root, parent)) => (
            head + seq![
                sh(build_script(root)),
                StepView::Note(LogLevel::Info, "build-from-source: debs emitted under "@ + parent),
            ],
            None,
        ),
    }
}

/// `repo` is the repository root and the directory shown as its parent.
pub fn build_from_source(repo: Option<(&str, &str)>) -> (p: Plan)
    ensures
        (step_views(p.steps@), plan_error(p)) == build_from_source_spec(
            match repo {
                Some((r, q)) => Some((r@, q@)),
                None => None,
            },
        ),
{
    let mut steps: Vec<Step> = Vec::new();
    steps.push(
        note(
            LogLevel::Info,
            "build-from-source path: running `apt build-dep .` + dpkg-buildpackage in repo root",
        ),
    );
    match repo {
        None => {
            assert(step_views(steps@) =~= build_from_source_spec(None).0);
            Plan { steps, error: Some(owned("could not find NQRustBackup repo root")) }
        },
        Some((root, parent)) => {
            let mut script = owned("set -eu\ncd '");
            push_str(&mut script, root);
            push_str(
                &mut script,
                "'\napt-get update -y\napt build-dep -y .\ndpkg-buildpackage -us -uc -b -j$(nproc)\n",
            );
            steps.push(shell(script));
            let mut msg = owned("build-from-source: debs emitted under ");
            push_str(&mut msg, parent);
            steps.push(Step::Note(LogLevel::Info, msg));
            assert(step_views(steps@) =~= build_from_source_spec(Some((root@, parent@))).0);
            Plan { steps, error: None }
        },
    }
}

// ---------------------------------------------------------------------------
// Services
// ---------------------------------------------------------------------------

/// The systemd units a profile runs.
pub open spec fn units_for(profile: InstallProfile) -> Seq<Seq<char>> {
    (if has_director(profile) {
        seq!["bareos-director"@]
    } else {
        seq![]
    }) + (if has_storage(profile) {
        seq!["bareos-storage"@]
    } else {
        seq![]
    }) + (if has_filedaemon(profile) {
        seq!["bareos-filedaemon"@]
    } else {
        seq![]
    })
}

/// Enabling and starting the profile's daemons.
pub open spec fn enable_services_spec(profile: InstallProfile) -> Seq<StepView> {
    let units = units_for(profile);
    if units.len() == 0 {
        seq![StepView::Note(LogLevel::Info, "no daemons to start for this profile"@)]
    } else {
        seq![
            StepView::Note(LogLevel::Info, "enabling: "@ + join(units, seq![' '])),
            StepView::Run(lits(seq!["systemctl", "enable", "--now"]) + units),
        ]
    }
}

pub fn enable_and_start(profile: InstallProfile) -> (steps: Vec<Step>)
    ensures
        step_views(steps@) == enable_services_spec(profile),
{
    let mut units: Vec<String> = Vec::new();
    if profile.installs_director() {
        units.push(owned("bareos-director"));
    }
    if profile.installs_storage() {
        units.push(owned("bareos-storage"));
    }
    if profile.installs_filedaemon() {
        units.push(owned("bareos-filedaemon"));
    }
    assert(strs(units@) =~= units_for(profile));
    let mut steps: Vec<Step> = Vec::new();
    if units.len() == 0 {
        steps.push(note(LogLevel::Info, "no daemons to start for this profile"));
        assert(step_views(steps@) =~= enable_services_spec(profile));
        return steps;
    }
    let joined = join_words(units.as_slice());
    let mut msg = owned("enabling: ");
    push_str(&mut msg, joined.as_str());
    steps.push(Step::Note(LogLevel::Info, msg));
    let mut cmd = argv(&["systemctl", "enable", "--now"]);
    let ghost c0 = strs(cmd@);
    let ghost u0 = strs(units@);
    cmd.append(&mut units);
    assert(strs(cmd@) =~= c0 + u0);
    steps.push(Step::Run(cmd));
    assert(step_views(steps@) =~= enable_services_spec(profile));
    steps
}

/// Reloading the director, when the profile runs one.
pub open spec fn reload_spec(profile: InstallProfile) -> Seq<StepView> {
    if has_director(profile) {
        seq![sh(RELOAD_DIRECTOR_SCRIPT@)]
    } else {
        seq![]
    }
}

pub fn reload_director(profile: InstallProfile) -> (steps: Vec<Step>)
    ensures
        step_views(steps@) == reload_spec(profile),
{
    let mut steps: Vec<Step> = Vec::new();
    if profile.installs_director() {
        steps.push(shell_lit(RELOAD_DIRECTOR_SCRIPT));
    }
    assert(step_views(steps@) =~= reload_spec(profile));
    steps
}

// ---------------------------------------------------------------------------
// WebUI
// ---------------------------------------------------------------------------

/// Where the branded WebUI tarball is downloaded from unless overridden.
pub const DEFAULT_WEBUI_TARBALL: &'static str = "https://github.com/NexusQuantum/NQRust-Backup/releases/latest/download/nqrustbackup-webui.tar.gz";

/// Makes Apache listen on port `p` (its decimal text).
pub open spec fn port_setup_script(p: Seq<char>) -> Seq<char> {
    "if ! grep -q '^Listen "@ + p + "' /etc/apache2/ports.conf 2>/dev/null; then\n  echo 'Listen "@
        + p + "' >> /etc/apache2/ports.conf\nfi\n"@
}

/// Installs the WebUI virtual host on port `p`.
pub open spec fn vhost_script(p: Seq<char>) -> Seq<char> {
    "set -eu\ncat > /etc/apache2/sites-available/nqrustbackup-webui.conf <<'__EOF__'\n"@
        + "<VirtualHost *:"@ + p + VHOST_CONF_TAIL@ + "__EOF__\na2ensite nqrustbackup-webui\n"@
}

/// Downloads the branded WebUI from `url` and lays it over the stock one.
pub open spec fn overlay_script(url: Seq<char>) -> Seq<char> {
    "set -eu\nURL='"@ + url + OVERLAY_SCRIPT_TAIL@
}

/// Bringing up the WebUI: PHP for Apache, the `bareos-webui` conf enabled,
/// a virtual host on the WebUI port whose `/` redirects to `/bareos-webui/`,
/// the branded overlay from `url`, and the address to open.
pub open spec fn webui_spec(cfg: InstallConfig, url: Seq<char>) -> Seq<StepView> {
    let p = dec(cfg.webui_port as nat);
    if !has_webui(cfg.profile) {
        seq![StepView::Note(LogLevel::Info, "profile has no webui — skipping"@)]
    } else {
        seq![
            StepView::Note(
                LogLevel::Info,
                "installing libapache2-mod-php (so .php is executed, not served as text)"@,
            ),
            StepView::Run(
                lits(
                    seq![
                        "env",
                        "DEBIAN_FRONTEND=noninteractive",
                        "apt-get",
                        "install",
                        "-y",
                        "libapache2-mod-php",
                    ],
                ),
            ),
            StepView::Note(LogLevel::Info, "enabling apache PHP module (a2enmod php*)"@),
            sh(ENABLE_PHP_SCRIPT@),
            StepView::Note(LogLevel::Info, "enabling apache2 + bareos-webui conf"@),
            StepView::Run(lits(seq!["systemctl", "enable", "--now", "apache2"])),
            sh(ENABLE_WEBUI_CONF_SCRIPT@),
            sh(port_setup_script(p)),
            sh(vhost_script(p)),
            StepView::Run(lits(seq!["systemctl", "restart", "apache2"])),
            StepView::Note(LogLevel::Info, "downloading NQRustBackup webui tarball: "@ + url),
            sh(overlay_script(url)),
            StepView::Run(lits(seq!["systemctl", "restart", "apache2"])),
            StepView::Note(
                LogLevel::Success,
                "WebUI available at: http://"@ + cfg.director_address@ + ":"@ + p
                    + "/  (redirects to /bareos-webui/)"@,
            ),
        ]
    }
}

/// The WebUI phase; `tarball_url` is where the branded WebUI comes from.
pub fn setup(cfg: &InstallConfig, tarball_url: &str) -> (steps: Vec<Step>)
    ensures
        step_views(steps@) == webui_spec(*cfg, tarball_url@),
{
    let mut steps: Vec<Step> = Vec::new();
    if !cfg.profile.installs_webui() {
        steps.push(note(LogLevel::Info, "profile has no webui — skipping"));
        assert(step_views(steps@) =~= webui_spec(*cfg, tarball_url@));
        return steps;
    }
    let port = cfg.webui_port as u64;
    steps.push(
        note(LogLevel::Info, "installing libapache2-mod-php (so .php is executed, not served as text)"),
    );
    steps.push(
        run_words(
            &["env", "DEBIAN_FRONTEND=noninteractive", "apt-get", "install", "-y", "libapache2-mod-php"],
        ),
    );
    steps.push(note(LogLevel::Info, "enabling apache PHP module (a2enmod php*)"));
    steps.push(shell_lit(ENABLE_PHP_SCRIPT));
    steps.push(note(LogLevel::Info, "enabling apache2 + bareos-webui conf"));
    steps.push(run_words(&["systemctl", "enable", "--now", "apache2"]));
    steps.push(shell_lit(ENABLE_WEBUI_CONF_SCRIPT));
    let mut ports = owned("if ! grep -q '^Listen ");
    push_dec(&mut ports, port);
    push_str(&mut ports, "' /etc/apache2/ports.conf 2>/dev/null; then\n  echo 'Listen ");
    push_dec(&mut ports, port);
    push_str(&mut ports, "' >> /etc/apache2/ports.conf\nfi\n");
    steps.push(shell(ports));
    let mut vhost = owned(
        "set -eu\ncat > /etc/apache2/sites-available/nqrustbackup-webui.conf <<'__EOF__'\n",
    );
    push_str(&mut vhost, "<VirtualHost *:");
    push_dec(&mut vhost, port);
    push_str(&mut vhost, VHOST_CONF_TAIL);
    push_str(&mut vhost, "__EOF__\na2ensite nqrustbackup-webui\n");
    steps.push(shell(vhost));
    steps.push(run_words(&["systemctl", "restart", "apache2"]));
    let mut dl = owned("downloading NQRustBackup webui tarball: ");
    push_str(&mut dl, tarball_url);
    steps.push(Step::Note(LogLevel::Info, dl));
    let mut overlay = owned("set -eu\nURL='");
    push_str(&mut overlay, tarball_url);
    push_str(&mut overlay, OVERLAY_SCRIPT_TAIL);
    steps.push(shell(overlay));
    steps.push(run_words(&["systemctl", "restart", "apache2"]));
    let mut done = owned("WebUI available at: http://");
    push_str(&mut done, cfg.director_address.as_str());
    push_str(&mut done, ":");
    push_dec(&mut done, port);
    push_str(&mut done, "/  (redirects to /bareos-webui/)");
    steps.push(Step::Note(LogLevel::Success, done));
    assert(step_views(steps@) =~= webui_spec(*cfg, tarball_url@));
    steps
}


} // verus!
