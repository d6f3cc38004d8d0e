use nqrustbackup_installer::model::{
    CheckStatus, InstallConfig, InstallProfile, InstallSource, LogLevel, PreflightCheck, Screen,
};
use nqrustbackup_installer::plans::{
    build_from_source, catalog_after_probe, bootstrap_catalog, configure_upstream_repo, disable_for_console,
    enable_and_start, install_apt_deps, install_file_script, install_packages, package_list,
    reload_director, render_and_install, setup, Plan, CATALOG_PROBE,
};
use nqrustbackup_installer::source;
use nqrustbackup_installer::steps::Step;
use nqrustbackup_installer::texts::{FILESET_CONF, TLS_OFF_SCRIPT};
use nqrustbackup_installer::tui::{
    log_tail_start, plan_line, progress_summary, status_glyph, step_label, Action, App, Key,
    KeyPress,
};
use nqrustbackup_installer::verify::{
    check_outcome, verify_log_line, verify_probes, CommandOutcome, VerifyProbe,
};
use nqrustbackup_installer::phases::planned_phases;

fn note(s: &Step) -> Option<(LogLevel, &str)> {
    match s {
        Step::Note(l, m) => Some((*l, m.as_str())),
        _ => None,
    }
}

fn run(s: &Step) -> Option<Vec<&str>> {
    match s {
        Step::Run(v) => Some(v.iter().map(|x| x.as_str()).collect()),
        _ => None,
    }
}

#[test]
fn config_rendering() {
    let cfg = InstallConfig::default();
    let steps = render_and_install(&cfg);
    assert_eq!(steps.len(), 10);
    assert_eq!(note(&steps[0]), Some((LogLevel::Info, "writing director/SD/FD config fragments")));
    assert_eq!(
        note(&steps[1]),
        Some((LogLevel::Info, "install /etc/bareos/bareos-dir.d/fileset/FullRoot.conf"))
    );
    let script = install_file_script(
        "/etc/bareos/bareos-dir.d/fileset",
        "/etc/bareos/bareos-dir.d/fileset/FullRoot.conf",
        FILESET_CONF,
    );
    assert_eq!(run(&steps[2]), Some(vec!["sh", "-c", script.as_str()]));
    assert!(script.starts_with("set -eu\nmkdir -p '/etc/bareos/bareos-dir.d/fileset'\ncat > '"));
    assert!(script.ends_with("chmod 640 '/etc/bareos/bareos-dir.d/fileset/FullRoot.conf'\n"));
    assert_eq!(
        run(&steps[7]),
        Some(vec![
            "sh",
            "-c",
            "mkdir -p /var/lib/bareos/storage && chown bareos:bareos /var/lib/bareos/storage 2>/dev/null || true"
        ])
    );
    assert_eq!(run(&steps[9]), Some(vec!["sh", "-c", TLS_OFF_SCRIPT]));
    assert_eq!(disable_for_console().len(), 2);
}

#[test]
fn catalog_steps() {
    let (s, probe) = bootstrap_catalog(InstallProfile::ClientOnly);
    assert_eq!(note(&s[0]), Some((LogLevel::Info, "profile has no catalog — skipping")));
    assert!(probe.is_none());
    let (s, probe) = bootstrap_catalog(InstallProfile::ServerOnly);
    assert_eq!(note(&s[0]), Some((LogLevel::Info, "checking for existing catalog")));
    assert_eq!(run(&probe.unwrap()), Some(vec!["sh", "-c", CATALOG_PROBE]));
    assert_eq!(catalog_after_probe(true).len(), 1);
    let r = catalog_after_probe(false);
    assert_eq!(r.len(), 4);
    assert_eq!(
        run(&r[1]),
        Some(vec!["sh", "-c", "sudo -u postgres /usr/lib/bareos/scripts/create_bareos_database postgresql"])
    );
}

#[test]
fn apt_prerequisites() {
    let p = install_apt_deps(true, "Ubuntu", false);
    assert!(p.error.is_none());
    assert_eq!(run(&p.steps[1]), Some(vec!["apt-get", "update", "-y"]));
    assert_eq!(run(&p.steps[3]).unwrap()[4], "curl");
    let p = install_apt_deps(false, "Arch", true);
    assert!(p.error.is_none());
    assert_eq!(
        note(&p.steps[0]),
        Some((LogLevel::Warn, "host is Arch (not Debian/Ubuntu); skipping apt install"))
    );
    let p = install_apt_deps(false, "Arch", false);
    assert_eq!(
        p.error.as_deref(),
        Some("apt-based install only supports Debian/Ubuntu. Try --dry-run or use BuildFromSource.")
    );
}

#[test]
fn upstream_repo() {
    let s = configure_upstream_repo("24.04");
    let script = run(&s[1]).unwrap()[2].to_string();
    assert!(script.contains("curl -fsSL 'https://download.bareos.org/current/xUbuntu_24.04/Release.key'"));
    assert!(script.contains("] https://download.bareos.org/current/xUbuntu_24.04/ /' >"));
}

#[test]
fn packages_per_profile() {
    assert_eq!(
        package_list(InstallProfile::AllInOne),
        vec!["bareos-director", "bareos-storage", "bareos-filedaemon", "bareos-database-postgresql", "bareos-bconsole", "bareos-webui"]
    );
    assert_eq!(package_list(InstallProfile::ClientOnly), vec!["bareos-filedaemon", "bareos-bconsole"]);
    let s = install_packages(InstallProfile::ClientOnly, true);
    assert_eq!(s.len(), 2);
    assert_eq!(note(&s[0]), Some((LogLevel::Info, "installing: bareos-filedaemon bareos-bconsole")));
    let s = install_packages(InstallProfile::ClientOnly, false);
    assert_eq!(s.len(), 4);
    assert_eq!(
        run(&s[3]),
        Some(vec!["env", "DEBIAN_FRONTEND=noninteractive", "NEEDRESTART_MODE=a", "apt-get", "install", "-y", "-o", "Dpkg::Options::=--force-confold", "bareos-filedaemon", "bareos-bconsole"])
    );
}

#[test]
fn source_builds() {
    let p: Plan = build_from_source(None);
    assert_eq!(p.error.as_deref(), Some("could not find NQRustBackup repo root"));
    let p = build_from_source(Some(("/src/nq", "/src")));
    assert!(p.error.is_none());
    assert_eq!(note(&p.steps[2]), Some((LogLevel::Info, "build-from-source: debs emitted under /src")));
}

#[test]
fn source_phases() {
    let mut cfg = InstallConfig::default();
    cfg.source = InstallSource::ConfigureOnly;
    let p = source::run(&cfg, true, "Ubuntu", "24.04", None);
    assert_eq!(p.steps.len(), 1);
    cfg.source = InstallSource::UpstreamCompat;
    let p = source::run(&cfg, true, "Ubuntu", "24.04", None);
    assert_eq!(p.steps.len(), 4 + 2 + 4);
    assert!(p.error.is_none());
    let p = source::run(&cfg, false, "Arch", "1", None);
    assert!(p.error.is_some());
    assert_eq!(p.steps.len(), 1);
    cfg.source = InstallSource::BuildFromSource;
    let p = source::run(&cfg, true, "Ubuntu", "24.04", None);
    assert_eq!(p.error.as_deref(), Some("could not find NQRustBackup repo root"));
    let p = source::run(&cfg, true, "Ubuntu", "24.04", Some(("/r", "/")));
    assert_eq!(note(p.steps.last().unwrap()), Some((LogLevel::Info, "build-from-source: locating built .debs and dpkg -i")));
}

#[test]
fn services() {
    let s = enable_and_start(InstallProfile::ServerOnly);
    assert_eq!(note(&s[0]), Some((LogLevel::Info, "enabling: bareos-director bareos-storage")));
    assert_eq!(run(&s[1]), Some(vec!["systemctl", "enable", "--now", "bareos-director", "bareos-storage"]));
    assert_eq!(reload_director(InstallProfile::ClientOnly).len(), 0);
    assert_eq!(reload_director(InstallProfile::AllInOne).len(), 1);
}

#[test]
fn webui() {
    let mut cfg = InstallConfig::default();
    let s = setup(&cfg, "https://example.invalid/w.tgz");
    assert_eq!(s.len(), 14);
    let ports = run(&s[7]).unwrap()[2].to_string();
    assert_eq!(ports, "if ! grep -q '^Listen 9100' /etc/apache2/ports.conf 2>/dev/null; then\n  echo 'Listen 9100' >> /etc/apache2/ports.conf\nfi\n");
    let vhost = run(&s[8]).unwrap()[2].to_string();
    assert!(vhost.contains("<VirtualHost *:9100>\n  ServerName _\n"));
    assert!(vhost.contains("${APACHE_LOG_DIR}/nqrustbackup-webui-error.log"));
    assert!(vhost.contains("\n  RedirectMatch 302 ^/$ /bareos-webui/\n"));
    assert!(vhost.ends_with("</VirtualHost>\n__EOF__\na2ensite nqrustbackup-webui\n"));
    let conf = run(&s[6]).unwrap()[2].to_string();
    assert!(conf.contains("\na2enconf bareos-webui\n"));
    assert!(!conf.contains("a2disconf bareos-webui"));
    let overlay = run(&s[11]).unwrap()[2].to_string();
    assert!(overlay.starts_with("set -eu\nURL='https://example.invalid/w.tgz'\nDEST=/usr/share/bareos-webui\n"));
    assert!(overlay.contains("-exec chmod 755 {} +"));
    assert_eq!(
        note(&s[13]),
        Some((LogLevel::Success, "WebUI available at: http://localhost:9100/  (redirects to /bareos-webui/)"))
    );
    cfg.profile = InstallProfile::ServerOnly;
    assert_eq!(setup(&cfg, "u").len(), 1);
}

#[test]
fn verify_plan_and_readings() {
    let cfg = InstallConfig::default();
    let probes = verify_probes(&cfg);
    assert_eq!(probes.len(), 7);
    match &probes[6] {
        VerifyProbe::Http { name, url } => {
            assert_eq!(name, "WebUI app (expect 200)");
            assert_eq!(url, "http://localhost:9100/bareos-webui/");
        }
        _ => panic!("expected the WebUI app probe"),
    }
    let mut client = cfg.clone();
    client.profile = InstallProfile::ClientOnly;
    assert_eq!(verify_probes(&client).len(), 1);

    let ran = |ok: bool, out: &str, err: &str| CommandOutcome::Ran { success: ok, stdout: out.to_string(), stderr: err.to_string() };
    let unit = VerifyProbe::Unit("bareos-director".to_string());
    let c = check_outcome(&unit, &ran(false, "active\n", ""));
    assert_eq!((c.name.as_str(), c.status, c.detail.as_str()), ("bareos-director service", CheckStatus::Pass, "active"));
    let c = check_outcome(&unit, &ran(true, "inactive\n", ""));
    assert_eq!((c.status, c.detail.as_str()), (CheckStatus::Fail, "inactive"));
    let c = check_outcome(&unit, &CommandOutcome::Failed("not found".to_string()));
    assert_eq!(c.detail, "systemctl failed: not found");
    let c = check_outcome(&VerifyProbe::Catalog, &ran(true, " 1\n", ""));
    assert_eq!((c.status, c.detail.as_str()), (CheckStatus::Pass, "version rows: 1"));
    let c = check_outcome(&VerifyProbe::Catalog, &ran(false, "", " denied \n"));
    assert_eq!((c.status, c.detail.as_str()), (CheckStatus::Fail, "denied"));
    let c = check_outcome(&VerifyProbe::Bconsole, &ran(true, "Connecting to Director localhost\n", ""));
    assert_eq!(c.status, CheckStatus::Pass);
    let c = check_outcome(&VerifyProbe::Bconsole, &ran(true, "hello\nfailed here\n", ""));
    assert_eq!((c.status, c.detail.as_str()), (CheckStatus::Warn, "failed here"));
    let c = check_outcome(&VerifyProbe::Bconsole, &ran(true, "", ""));
    assert_eq!(c.detail, "no reply");
    let http = VerifyProbe::Http { name: "n".to_string(), url: "http://h/".to_string() };
    let c = check_outcome(&http, &ran(true, "302", ""));
    assert_eq!((c.status, c.detail.as_str()), (CheckStatus::Pass, "HTTP 302 @ http://h/"));
    let c = check_outcome(&http, &ran(true, "500", ""));
    assert_eq!(c.status, CheckStatus::Warn);
    let (l, m) = verify_log_line(&c);
    assert_eq!((l, m.as_str()), (LogLevel::Warn, "verify: n → HTTP 500 @ http://h/"));
}

fn key(k: Key) -> KeyPress {
    KeyPress { key: k, ctrl: false }
}

fn check(s: CheckStatus) -> PreflightCheck {
    PreflightCheck { name: "c".to_string(), status: s, detail: String::new() }
}

#[test]
fn wizard_walkthrough() {
    let mut app = App::new(InstallConfig::default());
    assert_eq!(app.screen, Screen::Welcome);
    assert_eq!(app.handle_key(key(Key::Enter), None), Action::Nothing);
    assert_eq!(app.screen, Screen::Preflight);
    assert_eq!(app.handle_key(key(Key::Enter), None), Action::RunPreflight);
    app.set_preflight(vec![check(CheckStatus::Fail)]);
    app.handle_key(key(Key::Enter), None);
    assert_eq!(app.screen, Screen::Preflight, "a failed check blocks");
    assert_eq!(app.handle_key(key(Key::Char('r')), None), Action::RunPreflight);
    assert!(app.preflight.is_empty());
    app.set_preflight(vec![check(CheckStatus::Warn), check(CheckStatus::Pass)]);
    app.handle_key(key(Key::Enter), None);
    assert_eq!(app.screen, Screen::SourceSelect);
    app.handle_key(key(Key::Down), None);
    app.handle_key(key(Key::Down), None);
    app.handle_key(key(Key::Down), None);
    assert_eq!(app.source_idx, 2);
    app.handle_key(key(Key::Up), None);
    app.handle_key(key(Key::Enter), None);
    assert_eq!(app.config.source, InstallSource::BuildFromSource);
    assert_eq!(app.screen, Screen::ProfileSelect);
    app.handle_key(key(Key::Down), None);
    app.handle_key(key(Key::Enter), None);
    assert_eq!(app.config.profile, InstallProfile::ServerOnly);
    assert_eq!(app.screen, Screen::Config);
    assert_eq!(app.handle_key(key(Key::Enter), None), Action::StartExecutor);
    assert_eq!(app.screen, Screen::Progress);
    assert!(app.executor_running);
    assert_eq!(app.phases.len(), 6);
    assert!(app.phases.iter().all(|(_, s)| *s == CheckStatus::Pending));
    app.handle_key(key(Key::Char('q')), None);
    assert!(!app.should_quit, "q does not quit while installing");
    let st = vec![CheckStatus::Pass; 6];
    app.handle_key(key(Key::Enter), Some(&st));
    assert_eq!(app.screen, Screen::Verify);
    assert!(!app.executor_running);
    assert_eq!(app.handle_key(key(Key::Enter), None), Action::RunVerify);
    app.set_verify(vec![check(CheckStatus::Pass)]);
    app.handle_key(key(Key::Enter), None);
    assert_eq!(app.screen, Screen::Complete);
    assert_eq!(app.complete_url, None);
    app.handle_key(key(Key::Enter), None);
    assert!(app.should_quit);
}

#[test]
fn wizard_failure_and_quit() {
    let mut app = App::new(InstallConfig::default());
    app.screen = Screen::Config;
    app.handle_key(key(Key::Enter), None);
    let st = vec![CheckStatus::Pass, CheckStatus::Fail];
    app.handle_key(key(Key::Enter), Some(&st));
    assert_eq!(app.screen, Screen::Error);
    assert_eq!(app.phases[1].1, CheckStatus::Fail);
    assert_eq!(app.phases[2].1, CheckStatus::Pending);
    assert_eq!(
        app.error_message.as_deref(),
        Some("Install failed. See log above for the first failing phase.")
    );
    app.handle_key(key(Key::Esc), None);
    assert!(app.should_quit);

    let mut app = App::new(InstallConfig::default());
    app.executor_running = true;
    app.handle_key(KeyPress { key: Key::Char('c'), ctrl: true }, None);
    assert!(app.should_quit, "Control-C always quits");

    let mut app = App::new(InstallConfig::default());
    app.screen = Screen::Verify;
    app.verify = vec![check(CheckStatus::Warn)];
    app.handle_key(key(Key::Enter), None);
    assert_eq!(app.complete_url.as_deref(), Some("http://localhost:9100/bareos-webui/"));
}

#[test]
fn tick_wraps() {
    let mut app = App::new(InstallConfig::default());
    app.tick();
    assert_eq!(app.spinner_tick, 1);
    app.spinner_tick = usize::MAX;
    app.tick();
    assert_eq!(app.spinner_tick, 0);
}

#[test]
fn screen_helpers() {
    assert_eq!(status_glyph(CheckStatus::Pass, 0), "✓");
    assert_eq!(status_glyph(CheckStatus::Running, 11), "⠙");
    assert_eq!(status_glyph(CheckStatus::Fail, 3), "✗");
    assert_eq!(log_tail_start(100, 12), 90);
    assert_eq!(log_tail_start(5, 12), 0);
    assert_eq!(log_tail_start(5, 1), 5);
    assert_eq!(step_label(Screen::Config), " Step 5/8 ");
    let phases = planned_phases(InstallSource::UpstreamCompat, InstallProfile::AllInOne);
    assert_eq!(plan_line(&phases[0]), "  [ 1] Install upstream-compat packages");
    let mut rows: Vec<_> = phases.into_iter().map(|p| (p, CheckStatus::Pass)).collect();
    rows[3].1 = CheckStatus::Running;
    rows[5].1 = CheckStatus::Running;
    let s = progress_summary(&rows);
    assert_eq!((s.done, s.total, s.any_fail, s.all_ok, s.current), (5, 7, false, false, 3));
    rows[3].1 = CheckStatus::Fail;
    let s = progress_summary(&rows);
    assert!(s.any_fail);
    assert_eq!(s.current, 5);
}
