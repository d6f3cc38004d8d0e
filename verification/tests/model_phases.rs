use nqrustbackup_installer::model::{
    CheckStatus, InstallConfig, InstallProfile, InstallSource, Screen, TOTAL_STEPS,
};
use nqrustbackup_installer::phases::{
    build_sudo_cmd, build_tasks, failure_message, phase_failed_message, phase_started_message,
    phase_succeeded_message, plan_run, planned_phases, render_cmd, shell_escape_if_needed,
    PhaseKind, RunPlan,
};

fn words(ws: &[&str]) -> Vec<String> {
    ws.iter().map(|s| s.to_string()).collect()
}

#[test]
fn source_names_and_descriptions() {
    assert_eq!(InstallSource::UpstreamCompat.name(), "Upstream-compatible packages");
    assert_eq!(InstallSource::BuildFromSource.name(), "Build from source (.deb)");
    assert_eq!(
        InstallSource::ConfigureOnly.name(),
        "Configure only (binaries already installed)"
    );
    assert_eq!(
        InstallSource::ConfigureOnly.description(),
        "Skip package install; write /etc/bareos configs and start services."
    );
    assert_eq!(InstallSource::default(), InstallSource::UpstreamCompat);
    assert_eq!(InstallSource::all().len(), 3);
    assert_eq!(InstallSource::at(1), InstallSource::BuildFromSource);
}

#[test]
fn profile_components() {
    let a = InstallProfile::AllInOne;
    assert!(a.installs_director() && a.installs_storage() && a.installs_filedaemon());
    assert!(a.installs_webui() && a.installs_catalog());
    let s = InstallProfile::ServerOnly;
    assert!(s.installs_director() && s.installs_storage() && s.installs_catalog());
    assert!(!s.installs_filedaemon() && !s.installs_webui());
    let c = InstallProfile::ClientOnly;
    assert!(c.installs_filedaemon());
    assert!(!c.installs_director() && !c.installs_storage() && !c.installs_catalog() && !c.installs_webui());
    assert_eq!(c.name(), "Client (FileDaemon only)");
    assert_eq!(InstallProfile::default(), InstallProfile::AllInOne);
    assert_eq!(InstallProfile::at(2), InstallProfile::ClientOnly);
}

#[test]
fn screens_titles_and_steps() {
    assert_eq!(Screen::Welcome.title(), "Welcome");
    assert_eq!(Screen::Preflight.title(), "Pre-flight checks");
    assert_eq!(Screen::Welcome.step(), 1);
    assert_eq!(Screen::Complete.step(), 8);
    assert_eq!(Screen::Error.step(), 0);
    assert_eq!(TOTAL_STEPS, 8);
    assert_eq!(Screen::default(), Screen::Welcome);
}

#[test]
fn default_config() {
    let c = InstallConfig::default();
    assert_eq!(c.source, InstallSource::UpstreamCompat);
    assert_eq!(c.profile, InstallProfile::AllInOne);
    assert_eq!(c.data_dir, "/var/lib/bareos");
    assert_eq!(c.config_dir, "/etc/bareos");
    assert_eq!(c.storage_dir, "/var/lib/bareos/storage");
    assert_eq!(c.webui_port, 9100);
    assert_eq!(c.director_address, "localhost");
    assert!(!c.dry_run);
}

#[test]
fn plan_all_in_one_upstream() {
    let p = planned_phases(InstallSource::UpstreamCompat, InstallProfile::AllInOne);
    let names: Vec<&str> = p.iter().map(|x| x.name.as_str()).collect();
    assert_eq!(
        names,
        vec![
            "Install upstream-compat packages",
            "Bootstrap PostgreSQL catalog",
            "Render NQRustBackup config fragments",
            "Enable + start services",
            "Deploy WebUI",
            "Reload director (pick up new fragments)",
            "Verify",
        ]
    );
    let ords: Vec<usize> = p.iter().map(|x| x.ordinal).collect();
    assert_eq!(ords, vec![1, 2, 3, 4, 5, 6, 7]);
    assert_eq!(p[0].kind, PhaseKind::InstallSource);
    assert_eq!(p[6].kind, PhaseKind::Verify);
}

#[test]
fn plan_configure_only_client() {
    let p = planned_phases(InstallSource::ConfigureOnly, InstallProfile::ClientOnly);
    let kinds: Vec<PhaseKind> = p.iter().map(|x| x.kind).collect();
    assert_eq!(
        kinds,
        vec![PhaseKind::RenderConfig, PhaseKind::EnableServices, PhaseKind::Verify]
    );
    assert_eq!(p[2].ordinal, 3);
}

#[test]
fn plan_build_server() {
    let p = planned_phases(InstallSource::BuildFromSource, InstallProfile::ServerOnly);
    assert_eq!(p.len(), 6);
    assert_eq!(p[0].name, "Build + install .deb from source");
    assert_eq!(p[4].kind, PhaseKind::Reload);
}

#[test]
fn tasks_follow_plan() {
    let mut cfg = InstallConfig::default();
    cfg.source = InstallSource::ConfigureOnly;
    cfg.profile = InstallProfile::ServerOnly;
    let t = build_tasks(&cfg);
    let p = planned_phases(cfg.source, cfg.profile);
    assert_eq!(t.len(), p.len());
    for (a, b) in t.iter().zip(p.iter()) {
        assert_eq!(a.phase.ordinal, b.ordinal);
        assert_eq!(a.phase.name, b.name);
        assert_eq!(a.phase.kind, b.kind);
    }
}

#[test]
fn shell_quoting() {
    assert_eq!(shell_escape_if_needed("plain"), "plain");
    assert_eq!(shell_escape_if_needed("two words"), "'two words'");
    assert_eq!(shell_escape_if_needed("$HOME"), "'$HOME'");
    assert_eq!(shell_escape_if_needed("it's"), "'it'\\''s'");
    assert_eq!(shell_escape_if_needed("say \"hi\""), "'say \"hi\"'");
    assert_eq!(shell_escape_if_needed(""), "");
}

#[test]
fn render_command_line() {
    let cmd = words(&["sh", "-c", "echo hi"]);
    assert_eq!(render_cmd(&cmd), "sh -c 'echo hi'");
    assert_eq!(render_cmd(&[]), "");
}

#[test]
fn sudo_command_building() {
    let cmd = words(&["apt-get", "update", "-y"]);
    let (p, a) = build_sudo_cmd(&cmd, true);
    assert_eq!(p, "apt-get");
    assert_eq!(a, words(&["update", "-y"]));
    let (p, a) = build_sudo_cmd(&cmd, false);
    assert_eq!(p, "sudo");
    assert_eq!(a, words(&["-n", "apt-get", "update", "-y"]));
}

#[test]
fn run_plans() {
    let cmd = words(&["systemctl", "restart", "apache2"]);
    match plan_run(&cmd, true, false) {
        RunPlan::DryRun { message } => {
            assert_eq!(message, "(dry-run) would run: systemctl restart apache2")
        }
        _ => panic!("a dry run must not execute"),
    }
    match plan_run(&cmd, false, false) {
        RunPlan::Execute { program, args, banner } => {
            assert_eq!(program, "sudo");
            assert_eq!(args, words(&["-n", "systemctl", "restart", "apache2"]));
            assert_eq!(banner, "$ sudo -n systemctl restart apache2");
        }
        _ => panic!("expected execution"),
    }
    match plan_run(&cmd, false, true) {
        RunPlan::Execute { banner, .. } => assert_eq!(banner, "$ systemctl restart apache2"),
        _ => panic!("expected execution"),
    }
    assert_eq!(
        failure_message("exit status: 1", &cmd),
        "command failed with status exit status: 1: systemctl restart apache2"
    );
}

#[test]
fn empty_command_plans() {
    let none: Vec<String> = Vec::new();
    let (p, a) = build_sudo_cmd(&none, false);
    assert_eq!(p, "sudo");
    assert_eq!(a, words(&["-n"]));
    match plan_run(&none, true, true) {
        RunPlan::DryRun { message } => assert_eq!(message, "(dry-run) would run: "),
        _ => panic!("a dry run must not execute"),
    }
    match plan_run(&none, true, false) {
        RunPlan::DryRun { message } => assert_eq!(message, "(dry-run) would run: "),
        _ => panic!("a dry run must not execute"),
    }
    match plan_run(&none, false, false) {
        RunPlan::Execute { program, args, banner } => {
            assert_eq!(program, "sudo");
            assert_eq!(args, words(&["-n"]));
            assert_eq!(banner, "$ sudo -n");
        }
        _ => panic!("expected execution"),
    }
}

#[test]
fn phase_messages() {
    let p = &planned_phases(InstallSource::ConfigureOnly, InstallProfile::ClientOnly)[0];
    assert_eq!(phase_started_message(p), "▶ phase 1: Render NQRustBackup config fragments");
    assert_eq!(phase_succeeded_message(p), "✓ phase 1: Render NQRustBackup config fragments");
    assert_eq!(
        phase_failed_message(p, "boom"),
        "✗ phase 1: Render NQRustBackup config fragments — boom"
    );
    let _ = CheckStatus::Pending;
}
