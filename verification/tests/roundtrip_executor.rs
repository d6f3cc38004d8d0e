use nqrustbackup_installer::model::{CheckStatus, InstallProfile, InstallSource, LogLevel};
use nqrustbackup_installer::phases::{phase_progress_line, planned_phases};
use nqrustbackup_installer::roundtrip::RoundtripOptions;
use nqrustbackup_installer::roundtrip_run::{
    roundtrip_step, tally_samples, JobSummary, RoundtripAction, RoundtripEvent, RoundtripStage,
    SampleCheck,
};
use nqrustbackup_installer::tui::{
    mark_finished, mark_running, next_task, pending_statuses, start_next, synced_rows,
};

fn row(jobid: u32, files: &str, bytes: &str, status: &str) -> String {
    format!(
        "| jobid | name | client | starttime | duration | type | level | jobfiles | jobbytes | jobstatus |\n| {jobid} | j | fd | t | d | B | F | {files} | {bytes} | {status} |\n"
    )
}

fn step(
    o: &RoundtripOptions,
    s: RoundtripStage,
    e: RoundtripEvent,
) -> (RoundtripStage, RoundtripAction, Vec<(LogLevel, String)>) {
    roundtrip_step(o, s, e)
}

fn script(a: &RoundtripAction) -> String {
    match a {
        RoundtripAction::Label { script }
        | RoundtripAction::Backup { script }
        | RoundtripAction::Restore { script }
        | RoundtripAction::Query { script } => script.clone(),
        _ => panic!("expected a console action"),
    }
}

fn failure(a: &RoundtripAction) -> String {
    match a {
        RoundtripAction::Fail { message } => message.clone(),
        _ => panic!("expected a failure"),
    }
}

#[test]
fn roundtrip_full_run() {
    let o = RoundtripOptions::stamped("20240307-140309");
    let (s, a, logs) = step(&o, RoundtripStage::Start, RoundtripEvent::Go);
    assert_eq!(s, RoundtripStage::Labelling);
    assert_eq!(script(&a), "label storage=File volume=nqrb-roundtrip-20240307-140309 pool=Full\nquit\n");
    assert_eq!(logs.len(), 4);
    assert_eq!(logs[0], (LogLevel::Info, "==> NQRustBackup round-trip test".to_string()));
    assert_eq!(
        logs[1].1,
        "    job=backup-bareos-fd  pool=Full  volume=nqrb-roundtrip-20240307-140309"
    );
    assert_eq!(logs[2].1, "    restore -> /tmp/nqrb-roundtrip-20240307-140309");
    assert_eq!(logs[3].1, "labelling volume…");

    let (s, a, logs) = step(&o, s, RoundtripEvent::Go);
    assert_eq!(s, RoundtripStage::BackingUp);
    assert!(matches!(a, RoundtripAction::Backup { .. }));
    assert_eq!(script(&a), "run job=backup-bareos-fd yes\nwait\nlist jobs\nquit\n");
    assert_eq!(logs, vec![(LogLevel::Info, "running backup job…".to_string())]);

    let out = "Job queued. JobId=41\n".to_string();
    let (s, a, logs) = step(&o, s, RoundtripEvent::JobOutput { text: out, secs: 7 });
    assert_eq!(s, RoundtripStage::BackupRan { jobid: 41, secs: 7 });
    assert_eq!(script(&a), "list jobs jobid=41\nquit\n");
    assert_eq!(logs, vec![(LogLevel::Info, "backup jobid=41".to_string())]);

    let (s, a, logs) = step(&o, s, RoundtripEvent::Row { text: row(41, "1,200", "3,000", "T") });
    let backup = JobSummary { jobid: 41, files: 1200, bytes: 3000, secs: 7 };
    assert_eq!(s, RoundtripStage::BackupOk { backup });
    match &a {
        RoundtripAction::MakeDir { dir } => assert_eq!(dir, "/tmp/nqrb-roundtrip-20240307-140309"),
        _ => panic!("expected the restore directory"),
    }
    assert_eq!(logs, vec![(LogLevel::Success, "backup OK: 1200 files / 3000 bytes / 7s".to_string())]);

    let (s, a, logs) = step(&o, s, RoundtripEvent::Go);
    assert_eq!(s, RoundtripStage::Restoring { backup });
    assert!(matches!(a, RoundtripAction::Restore { .. }));
    assert_eq!(
        script(&a),
        "restore client=bareos-fd jobid=41 where=/tmp/nqrb-roundtrip-20240307-140309 all done\nyes\nwait\nlist jobs\nquit\n"
    );
    assert_eq!(logs, vec![(LogLevel::Info, "running restore…".to_string())]);

    let out = "JobId=42\n".to_string();
    let (s, a, logs) = step(&o, s, RoundtripEvent::JobOutput { text: out, secs: 3 });
    assert_eq!(s, RoundtripStage::RestoreRan { backup, jobid: 42, secs: 3 });
    assert_eq!(script(&a), "list jobs jobid=42\nquit\n");
    assert_eq!(logs, vec![(LogLevel::Info, "restore jobid=42".to_string())]);

    let (s, a, logs) = step(&o, s, RoundtripEvent::Row { text: row(42, "1,200", "3,000", "T") });
    let restore = JobSummary { jobid: 42, files: 1200, bytes: 3000, secs: 3 };
    assert_eq!(s, RoundtripStage::Sampling { backup, restore });
    match &a {
        RoundtripAction::Sample { dir, count } => {
            assert_eq!(dir, "/tmp/nqrb-roundtrip-20240307-140309");
            assert_eq!(*count, 10);
        }
        _ => panic!("expected the spot check"),
    }
    assert_eq!(logs, vec![(LogLevel::Success, "restore OK: 1200 files / 3000 bytes / 3s".to_string())]);

    let (s, a, logs) = step(&o, s, RoundtripEvent::Sampled { checked: 4, matched: 4 });
    assert_eq!(s, RoundtripStage::Done);
    assert!(logs.is_empty());
    match a {
        RoundtripAction::Finish { report, remove_dir } => {
            assert!(remove_dir);
            assert_eq!(report.backup_jobid, 41);
            assert_eq!(report.restore_jobid, 42);
            assert_eq!(report.files_backed_up, 1200);
            assert_eq!(report.bytes_restored, 3000);
            assert_eq!(report.samples_checked, 4);
            assert_eq!(report.samples_matched, 4);
            assert_eq!(report.backup_secs, 7);
            assert_eq!(report.restore_secs, 3);
            assert_eq!(report.restore_dir, "/tmp/nqrb-roundtrip-20240307-140309");
            assert!(report.passed());
        }
        _ => panic!("expected the report"),
    }
}

#[test]
fn roundtrip_bad_backup_stops_before_restore() {
    let o = RoundtripOptions::stamped("x");
    let s = RoundtripStage::BackupRan { jobid: 41, secs: 7 };
    let (n, a, logs) = step(&o, s, RoundtripEvent::Row { text: row(41, "1", "2", "E") });
    assert_eq!(n, RoundtripStage::Done);
    assert!(logs.is_empty());
    assert_eq!(
        failure(&a),
        "backup job 41 terminated with status 'E' (expected 'T'). See `journalctl -u bareos-director`."
    );
    let (n, a, _) = step(&o, n, RoundtripEvent::Go);
    assert_eq!(n, RoundtripStage::Done);
    assert!(matches!(a, RoundtripAction::Fail { .. }));
}

#[test]
fn roundtrip_failures() {
    let o = RoundtripOptions::stamped("x");
    let out = "nothing".to_string();
    let (n, a, _) = step(&o, RoundtripStage::BackingUp, RoundtripEvent::JobOutput { text: out, secs: 1 });
    assert_eq!(n, RoundtripStage::Done);
    assert_eq!(failure(&a), "could not find JobId in bconsole output");
    let (_, a, _) = step(&o, RoundtripStage::BackupRan { jobid: 9, secs: 1 }, RoundtripEvent::Row { text: row(8, "1", "1", "T") });
    assert_eq!(failure(&a), "job 9 not found in catalog (yet?)");
    let backup = JobSummary { jobid: 9, files: 1, bytes: 1, secs: 1 };
    let out = "no id".to_string();
    let (_, a, _) = step(&o, RoundtripStage::Restoring { backup }, RoundtripEvent::JobOutput { text: out, secs: 1 });
    assert_eq!(failure(&a), "could not find restore JobId in bconsole output");
    let s = RoundtripStage::RestoreRan { backup, jobid: 10, secs: 2 };
    let (_, a, _) = step(&o, s, RoundtripEvent::Row { text: row(10, "1", "1", "f") });
    assert_eq!(failure(&a), "restore job 10 terminated with status 'f' (expected 'T').");
    let (_, a, _) = step(&o, RoundtripStage::Start, RoundtripEvent::Row { text: String::new() });
    assert_eq!(failure(&a), "round trip: unexpected event");
}

#[test]
fn spot_check_tally() {
    let checks = vec![
        SampleCheck::Compared {
            restored: "/tmp/r/etc/a".to_string(),
            source: "/etc/a".to_string(),
            restored_digest: "ab".to_string(),
            source_digest: "ab".to_string(),
        },
        SampleCheck::NoSource,
        SampleCheck::Compared {
            restored: "/tmp/r/etc/b".to_string(),
            source: "/etc/b".to_string(),
            restored_digest: "ab".to_string(),
            source_digest: "cd".to_string(),
        },
    ];
    let t = tally_samples(&checks);
    assert_eq!(t.checked, 2);
    assert_eq!(t.matched, 1);
    assert_eq!(
        t.notes,
        vec![
            (LogLevel::Warn, "sha mismatch: restored=/tmp/r/etc/b original=/etc/b".to_string()),
            (LogLevel::Success, "sha-256 spot check: 1/2 matched".to_string()),
        ]
    );
    let t = tally_samples(&[]);
    assert_eq!((t.checked, t.matched), (0, 0));
    assert_eq!(t.notes, vec![(LogLevel::Success, "sha-256 spot check: 0/0 matched".to_string())]);
}

#[test]
fn executor_runs_in_order_and_stops_on_failure() {
    let mut st = pending_statuses(3);
    assert_eq!(next_task(&st), Some(0));
    mark_running(&mut st, 0);
    assert_eq!(next_task(&st), None);
    assert!(mark_finished(&mut st, 0, true));
    assert_eq!(next_task(&st), Some(1));
    mark_running(&mut st, 1);
    assert!(!mark_finished(&mut st, 1, false));
    assert_eq!(st, vec![CheckStatus::Pass, CheckStatus::Fail, CheckStatus::Pending]);
    assert_eq!(next_task(&st), None);
}

#[test]
fn executor_finishes_when_all_passed() {
    let mut st = pending_statuses(2);
    for i in 0..2 {
        assert_eq!(next_task(&st), Some(i));
        mark_running(&mut st, i);
        assert!(mark_finished(&mut st, i, true));
    }
    assert_eq!(next_task(&st), None);
    assert_eq!(next_task(&[]), None);
}

#[test]
fn rows_take_the_executor_statuses() {
    let phases = planned_phases(InstallSource::ConfigureOnly, InstallProfile::ClientOnly);
    let rows: Vec<_> = phases.into_iter().map(|p| (p, CheckStatus::Pending)).collect();
    let shown = synced_rows(&rows, &[CheckStatus::Pass]);
    assert_eq!(shown.len(), rows.len());
    assert_eq!(shown[0].1, CheckStatus::Pass);
    assert_eq!(shown[0].0.name, rows[0].0.name);
    assert_eq!(shown[1].1, CheckStatus::Pending);
    let none = synced_rows(&rows, &[]);
    assert_eq!(none[0].1, CheckStatus::Pending);
}

#[test]
fn start_next_marks_running() {
    let mut st = pending_statuses(2);
    assert_eq!(start_next(&mut st), Some(0));
    assert_eq!(st, vec![CheckStatus::Running, CheckStatus::Pending]);
    assert_eq!(start_next(&mut st), None);
    assert_eq!(st, vec![CheckStatus::Running, CheckStatus::Pending]);
    assert!(mark_finished(&mut st, 0, true));
    assert_eq!(start_next(&mut st), Some(1));
    assert!(!mark_finished(&mut st, 1, false));
    assert_eq!(start_next(&mut st), None);
    assert_eq!(st, vec![CheckStatus::Pass, CheckStatus::Fail]);
}

#[test]
fn headless_phase_lines() {
    assert_eq!(phase_progress_line(0, 5, "Verify"), ">> phase 1/5: Verify");
    assert_eq!(phase_progress_line(9, 10, "x"), ">> phase 10/10: x");
}
