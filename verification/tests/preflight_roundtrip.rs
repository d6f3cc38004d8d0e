use nqrustbackup_installer::model::{CheckStatus, PreflightCheck};
use nqrustbackup_installer::preflight::{
    all_ok, arch_check, best_mount_space, disk_check, missing_dir_check, network_check,
    os_check, detect_os, parse_effective_uid, privileges_check, probe_check,
    run_all_checks, systemd_check, unquote, DiskProbe, HostFacts, MountSpace,
};
use nqrustbackup_installer::roundtrip::{
    backup_script, check_backup_status, check_restore_status, digest_of, job_missing_message,
    job_query_script, job_stats, label_script, parse_jobid, restore_script, RoundtripOptions,
    RoundtripReport,
};

const UBUNTU: &str = "PRETTY_NAME=\"Ubuntu 24.04 LTS\"\nNAME=\"Ubuntu\"\nVERSION_ID=\"24.04\"\nID=ubuntu\nID_LIKE=debian\n";

#[test]
fn os_release_parsing() {
    let os = detect_os(UBUNTU);
    assert_eq!(os.id, "ubuntu");
    assert_eq!(os.version_id, "24.04");
    assert_eq!(os.pretty_name, "Ubuntu 24.04 LTS");
    assert!(os.is_debian_family);
    let os = detect_os("ID=\"fedora\"\r\nPRETTY_NAME=Fedora 40\n");
    assert_eq!(os.id, "fedora");
    assert_eq!(os.version_id, "0");
    assert!(!os.is_debian_family);
    let os = detect_os("");
    assert_eq!(os.id, "unknown");
    assert_eq!(os.pretty_name, "Unknown");
    assert!(!os.is_debian_family);
}

#[test]
fn unquoting() {
    assert_eq!(unquote("  \"debian\" "), "debian");
    assert_eq!(unquote("\"\""), "");
    assert_eq!(unquote("plain"), "plain");
}

#[test]
fn effective_uid_parsing() {
    let s = "Name:\tbash\nUid:\t1000\t1001\t1000\t1000\nGid:\t5\n";
    assert_eq!(parse_effective_uid(s), 1001);
    assert_eq!(parse_effective_uid("Uid:\t0\t0\t0\t0\n"), 0);
    assert_eq!(parse_effective_uid("Uid:\t5\n"), 1000);
    assert_eq!(parse_effective_uid("Uid:\t1\tx\nUid:\t1\t7\n"), 7);
    assert_eq!(parse_effective_uid(""), 1000);
}

fn view(c: &PreflightCheck) -> (&str, CheckStatus, &str) {
    (c.name.as_str(), c.status, c.detail.as_str())
}

#[test]
fn single_checks() {
    let os = detect_os(UBUNTU);
    assert_eq!(
        view(&os_check(&os)),
        ("Operating system", CheckStatus::Pass, "Ubuntu 24.04 LTS (supported)")
    );
    let other = detect_os("PRETTY_NAME=Arch\nID=arch\n");
    assert_eq!(
        view(&os_check(&other)),
        ("Operating system", CheckStatus::Warn, "Arch — installer targets Debian/Ubuntu; use --dry-run elsewhere")
    );
    assert_eq!(view(&arch_check("x86_64")), ("Architecture", CheckStatus::Pass, "x86_64"));
    assert_eq!(
        view(&arch_check("aarch64")),
        ("Architecture", CheckStatus::Warn, "aarch64 (only x86_64 tested)")
    );
    assert_eq!(view(&privileges_check(0, false, false)), ("Privileges", CheckStatus::Pass, "running as root"));
    assert_eq!(
        view(&privileges_check(1000, true, true)),
        ("Privileges", CheckStatus::Pass, "uid=1000, sudo NOPASSWD available")
    );
    assert_eq!(
        view(&privileges_check(1000, false, true)),
        ("Privileges", CheckStatus::Warn, "uid=1000, sudo present (may prompt)")
    );
    assert_eq!(
        view(&privileges_check(1000, false, false)),
        ("Privileges", CheckStatus::Fail, "uid=1000 and no sudo — cannot system install")
    );
    assert_eq!(view(&systemd_check(true)), ("systemd", CheckStatus::Pass, "present"));
    assert_eq!(view(&network_check(false)).1, CheckStatus::Warn);
}

#[test]
fn disk_checks() {
    let gib3 = 3 * 1024 * 1024 * 1024u64;
    assert_eq!(
        view(&disk_check("Install dir writeable", "/etc/bareos", 2048, Some(gib3), true)),
        ("Install dir writeable", CheckStatus::Pass, "/etc/bareos: 3072 MiB free (need ≥2048 MiB)")
    );
    assert_eq!(
        view(&disk_check("d", "/x", 2048, Some(gib3), false)),
        ("d", CheckStatus::Warn, "/x: 3072 MiB free (need ≥2048 MiB), not writable")
    );
    assert_eq!(view(&disk_check("d", "/x", 20480, Some(gib3), true)).1, CheckStatus::Fail);
    assert_eq!(view(&disk_check("d", "/x", 1, None, true)).2, "/x: 0 MiB free (need ≥1 MiB)");
    assert_eq!(
        view(&missing_dir_check("d", "/nope")),
        ("d", CheckStatus::Warn, "/nope does not exist yet — will be created")
    );
}

fn mounts() -> Vec<MountSpace> {
    vec![
        MountSpace { mount_point: "/".to_string(), available: 1 },
        MountSpace { mount_point: "/var".to_string(), available: 2 },
        MountSpace { mount_point: "/var/lib".to_string(), available: 3 },
        MountSpace { mount_point: "/var/lib".to_string(), available: 4 },
        MountSpace { mount_point: "/home".to_string(), available: 5 },
    ]
}

#[test]
fn longest_mount_wins() {
    assert_eq!(best_mount_space("/var/lib/bareos", &mounts()), Some(3));
    assert_eq!(best_mount_space("/etc", &mounts()), Some(1));
    assert_eq!(best_mount_space("etc", &mounts()), None);
    let probe = DiskProbe { path: "/var/lib/bareos/storage".to_string(), ancestor: Some("/var/lib".to_string()), writable: true };
    assert_eq!(view(&probe_check("s", &probe, 0, &mounts())).2, "/var/lib/bareos/storage: 0 MiB free (need ≥0 MiB)");
    let gone = DiskProbe { path: "rel".to_string(), ancestor: None, writable: false };
    assert_eq!(view(&probe_check("s", &gone, 0, &mounts())).1, CheckStatus::Warn);
}

#[test]
fn all_checks_in_order() {
    let facts = HostFacts {
        os: detect_os(UBUNTU),
        arch: "x86_64".to_string(),
        euid: 0,
        sudo_nopasswd: false,
        sudo_present: false,
        install_dir: DiskProbe { path: "/etc/bareos".to_string(), ancestor: Some("/etc/bareos".to_string()), writable: true },
        storage_dir: DiskProbe { path: "/srv".to_string(), ancestor: None, writable: false },
        mounts: vec![MountSpace { mount_point: "/".to_string(), available: 50 * 1024 * 1024 * 1024 }],
        has_systemd: true,
        network_ok: true,
    };
    let checks = run_all_checks(&facts);
    let names: Vec<&str> = checks.iter().map(|c| c.name.as_str()).collect();
    assert_eq!(
        names,
        vec![
            "Operating system",
            "Architecture",
            "Privileges",
            "Install dir writeable",
            "Storage dir writeable",
            "systemd",
            "Network (download.bareos.org)",
        ]
    );
    assert_eq!(checks[3].status, CheckStatus::Pass);
    assert_eq!(checks[4].status, CheckStatus::Warn);
    assert!(all_ok(&checks));
}

#[test]
fn all_ok_only_fails_on_fail() {
    let c = |s| PreflightCheck { name: String::new(), status: s, detail: String::new() };
    assert!(all_ok(&[]));
    assert!(all_ok(&[c(CheckStatus::Warn), c(CheckStatus::Pass), c(CheckStatus::Pending)]));
    assert!(!all_ok(&[c(CheckStatus::Pass), c(CheckStatus::Fail)]));
}

fn report(files_b: u64, files_r: u64, checked: usize, matched: usize) -> RoundtripReport {
    RoundtripReport {
        backup_jobid: 1,
        restore_jobid: 2,
        files_backed_up: files_b,
        bytes_backed_up: 100,
        files_restored: files_r,
        bytes_restored: 100,
        samples_checked: checked,
        samples_matched: matched,
        backup_secs: 3,
        restore_secs: 4,
        restore_dir: "/tmp/x".to_string(),
    }
}

#[test]
fn report_pass_rules() {
    assert!(report(10, 10, 3, 3).passed());
    assert!(!report(10, 9, 3, 3).passed());
    assert!(!report(10, 10, 3, 2).passed());
    assert!(!report(10, 10, 0, 0).passed());
}

#[test]
fn options_and_scripts() {
    let o = RoundtripOptions::stamped("20240307-140309");
    assert_eq!(o.job_name, "backup-bareos-fd");
    assert_eq!(o.volume_pool, "Full");
    assert_eq!(o.volume_name, "nqrb-roundtrip-20240307-140309");
    assert_eq!(o.restore_dir, "/tmp/nqrb-roundtrip-20240307-140309");
    assert_eq!(o.samples, 10);
    assert!(!o.keep_restore_dir);
    assert_eq!(label_script(&o), "label storage=File volume=nqrb-roundtrip-20240307-140309 pool=Full\nquit\n");
    assert_eq!(backup_script(&o), "run job=backup-bareos-fd yes\nwait\nlist jobs\nquit\n");
    assert_eq!(
        restore_script(42, "/tmp/r"),
        "restore client=bareos-fd jobid=42 where=/tmp/r all done\nyes\nwait\nlist jobs\nquit\n"
    );
    assert_eq!(job_query_script(7), "list jobs jobid=7\nquit\n");
    let d = RoundtripOptions::default();
    assert!(d.volume_name.starts_with("nqrb-roundtrip-"));
    assert_eq!(d.volume_name.len(), "nqrb-roundtrip-".len() + 15);
}

#[test]
fn job_ids_from_console() {
    assert_eq!(parse_jobid("Connecting...\nJob queued. JobId=123\n"), Some(123));
    assert_eq!(parse_jobid("JobId=\nJobId=9x\n"), Some(9));
    assert_eq!(parse_jobid("JobId=99999999999\nJobId=5"), Some(5));
    assert_eq!(parse_jobid("no job here"), None);
    assert_eq!(parse_jobid(""), None);
}

const TABLE: &str = "+-------+\n| jobid | name | client | starttime | duration | type | level | jobfiles | jobbytes | jobstatus |\n| 12 | backup | fd | t | d | B | F | 1,234 | 5,678,901 | T |\n| 13 | restore | fd | t | d | R | F | 1,234 | x | E |\n";

#[test]
fn job_table_rows() {
    assert_eq!(job_stats(TABLE, 12), Some((1234, 5678901, "T".to_string())));
    assert_eq!(job_stats(TABLE, 13), Some((1234, 0, "E".to_string())));
    assert_eq!(job_stats(TABLE, 14), None);
    assert_eq!(job_missing_message(14), "job 14 not found in catalog (yet?)");
}

#[test]
fn job_status_checks() {
    assert!(check_backup_status(3, "T").is_ok());
    assert_eq!(
        check_backup_status(3, "E").unwrap_err(),
        "backup job 3 terminated with status 'E' (expected 'T'). See `journalctl -u bareos-director`."
    );
    assert!(check_restore_status(4, "T").is_ok());
    assert_eq!(
        check_restore_status(4, "f").unwrap_err(),
        "restore job 4 terminated with status 'f' (expected 'T')."
    );
}

#[test]
fn digests() {
    assert_eq!(digest_of("abc123  /etc/hosts\n"), "abc123");
    assert_eq!(digest_of("   "), "");
}
