//! The order of a round-trip run: each console answer decides what is done
//! next. The caller performs each action (a console session, a directory,
//! the spot check) and hands back what came of it.
use vstd::prelude::*;

use crate::model::LogLevel;
use crate::roundtrip::{
    backup_script, check_backup_status, check_restore_status, job_missing_message,
    job_query_script, job_row, job_stats, jobid_in, label_script, parse_jobid, restore_script,
    terminated_ok, RoundtripOptions, RoundtripReport,
};
use crate::text::{dec, lines, owned, push_dec, push_str};

verus! {

/// What the catalog says of a finished job, and how long it took.
#[derive(Debug, Clone, Copy, PartialEq, Eq, Structural)]
pub struct JobSummary {
    pub jobid: u32,
    pub files: u64,
    pub bytes: u64,
    pub secs: u64,
}

/// How far a round trip has come.
#[derive(Debug, Clone, Copy, PartialEq, Eq, Structural)]
pub enum RoundtripStage {
    /// Nothing done yet.
    Start,
    /// The volume is being labelled.
    Labelling,
    /// The backup job is running.
    BackingUp,
    /// The backup ran as job `jobid` in `secs` seconds; its catalog row is read.
    BackupRan { jobid: u32, secs: u64 },
    /// The backup terminated well; the restore directory is being made.
    BackupOk { backup: JobSummary },
    /// The restore job is running.
    Restoring { backup: JobSummary },
    /// The restore ran as job `jobid` in `secs` seconds; its catalog row is read.
    RestoreRan { backup: JobSummary, jobid: u32, secs: u64 },
    /// Both jobs terminated well; restored files are being spot-checked.
    Sampling { backup: JobSummary, restore: JobSummary },
    /// The run is over.
    Done,
}

/// What came of the last action.
pub enum RoundtripEvent {
    /// The action is done and yields nothing to read.
    Go,
    /// The console answered a job run with `text` after `secs` seconds.
    JobOutput { text: String, secs: u64 },
    /// The console answered a catalog query with `text`.
    Row { text: String },
    /// `checked` restored files were compared, `matched` of them equal.
    Sampled { checked: usize, matched: usize },
}

/// What to do next.
pub enum RoundtripAction {
    /// Send `script` to the console; the answer does not matter.
    Label { script: String },
    /// Run the backup with `script` and report its output and duration.
    Backup { script: String },
    /// Make the directory `dir`.
    MakeDir { dir: String },
    /// Run the restore with `script` and report its output and duration.
    Restore { script: String },
    /// Query the catalog with `script` and report its output.
    Query { script: String },
    /// Spot-check up to `count` files restored under `dir`.
    Sample { dir: String, count: usize },
    /// The run passed through; remove the restore directory when `remove_dir`.
    Finish { report: RoundtripReport, remove_dir: bool },
    /// The run stops with `message`.
    Fail { message: String },
}

/// The text of a sequence of log lines.
pub open spec fn notes_view(v: Seq<(LogLevel, String)>) -> Seq<(LogLevel, Seq<char>)> {
    v.map_values(|x: (LogLevel, String)| (x.0, x.1@))
}

/// `"<what> OK: <files> files / <bytes> bytes / <secs>s"`.
pub open spec fn job_ok_line(what: Seq<char>, j: JobSummary) -> Seq<char> {
    what + " OK: "@ + dec(j.files as nat) + " files / "@ + dec(j.bytes as nat) + " bytes / "@
        + dec(j.secs as nat) + "s"@
}

/// The summary of job `jobid` after `secs` seconds whose catalog row is `row`.
pub open spec fn summary_of(jobid: u32, secs: u64, row: (u64, u64, Seq<char>)) -> JobSummary {
    JobSummary { jobid, files: row.0, bytes: row.1, secs }
}

/// The report of a run whose jobs are `b` and `r` and whose spot check
/// compared `checked` files, `matched` of them equal.
pub open spec fn report_ok(
    rep: RoundtripReport,
    o: RoundtripOptions,
    b: JobSummary,
    r: JobSummary,
    checked: usize,
    matched: usize,
) -> bool {
    &&& rep.backup_jobid == b.jobid
    &&& rep.restore_jobid == r.jobid
    &&& rep.files_backed_up == b.files
    &&& rep.bytes_backed_up == b.bytes
    &&& rep.files_restored == r.files
    &&& rep.bytes_restored == r.bytes
    &&& rep.samples_checked == checked
    &&& rep.samples_matched == matched
    &&& rep.backup_secs == b.secs
    &&& rep.restore_secs == r.secs
    &&& rep.restore_dir@ == o.restore_dir@
}

/// The action `a` fails the run with `m`.
pub open spec fn fails_with(a: RoundtripAction, m: Seq<char>) -> bool {
    a matches RoundtripAction::Fail { message } && message@ == m
}

/// One step of a round trip with options `o`: at stage `s`, after event
/// `e`, the run goes on to stage `n`, logs `logs` and then does `a`.
pub open spec fn roundtrip_step_ok(
    o: RoundtripOptions,
    s: RoundtripStage,
    e: RoundtripEvent,
    n: RoundtripStage,
    a: RoundtripAction,
    logs: Seq<(LogLevel, Seq<char>)>,
) -> bool {
    match (s, e) {
        (RoundtripStage::Start, RoundtripEvent::Go) => {
            &&& n == RoundtripStage::Labelling
            &&& a matches RoundtripAction::Label { script } && script@ == "label storage=File volume="@
                + o.volume_name@ + " pool="@ + o.volume_pool@ + "\nquit\n"@
            &&& logs == seq![
                (LogLevel::Info, "==> NQRustBackup round-trip test"@),
                (
                    LogLevel::Info,
                    "    job="@ + o.job_name@ + "  pool="@ + o.volume_pool@ + "  volume="@
                        + o.volume_name@,
                ),
                (LogLevel::Info, "    restore -> "@ + o.restore_dir@),
                (LogLevel::Info, "labelling volume…"@),
            ]
        },
        (RoundtripStage::Labelling, RoundtripEvent::Go) => {
            &&& n == RoundtripStage::BackingUp
            &&& a matches RoundtripAction::Backup { script } && script@ == "run job="@ + o.job_name@
                + " yes\nwait\nlist jobs\nquit\n"@
            &&& logs == seq![(LogLevel::Info, "running backup job…"@)]
        },
        (RoundtripStage::BackingUp, RoundtripEvent::JobOutput { text, secs }) => match jobid_in(
            lines(text@),
        ) {
            None => {
                &&& n == RoundtripStage::Done
                &&& fails_with(a, "could not find JobId in bconsole output"@)
                &&& logs == Seq::<(LogLevel, Seq<char>)>::empty()
            },
            Some(id) => {
                &&& n == (RoundtripStage::BackupRan { jobid: id, secs })
                &&& a matches RoundtripAction::Query { script } && script@ == "list jobs jobid="@
                    + dec(id as nat) + "\nquit\n"@
                &&& logs == seq![(LogLevel::Info, "backup jobid="@ + dec(id as nat))]
            },
        },
        (RoundtripStage::BackupRan { jobid, secs }, RoundtripEvent::Row { text }) => match job_row(
            lines(text@),
            jobid,
        ) {
            None => {
                &&& n == RoundtripStage::Done
                &&& fails_with(a, "job "@ + dec(jobid as nat) + " not found in catalog (yet?)"@)
                &&& logs == Seq::<(LogLevel, Seq<char>)>::empty()
            },
            Some(row) => if terminated_ok(row.2) {
                &&& n == (RoundtripStage::BackupOk { backup: summary_of(jobid, secs, row) })
                &&& a matches RoundtripAction::MakeDir { dir } && dir@ == o.restore_dir@
                &&& logs == seq![
                    (LogLevel::Success, job_ok_line("backup"@, summary_of(jobid, secs, row))),
                ]
            } else {
                &&& n == RoundtripStage::Done
                &&& fails_with(
                    a,
                    "backup job "@ + dec(jobid as nat) + " terminated with status '"@ + row.2
                        + "' (expected 'T'). See `journalctl -u bareos-director`."@,
                )
                &&& logs == Seq::<(LogLevel, Seq<char>)>::empty()
            },
        },
        (RoundtripStage::BackupOk { backup }, RoundtripEvent::Go) => {
            &&& n == (RoundtripStage::Restoring { backup })
            &&& a matches RoundtripAction::Restore { script } && script@
                == "restore client=bareos-fd jobid="@ + dec(backup.jobid as nat) + " where="@
                + o.restore_dir@ + " all done\nyes\nwait\nlist jobs\nquit\n"@
            &&& logs == seq![(LogLevel::Info, "running restore…"@)]
        },
        (RoundtripStage::Restoring { backup }, RoundtripEvent::JobOutput { text, secs }) => match jobid_in(
            lines(text@),
        ) {
            None => {
                &&& n == RoundtripStage::Done
                &&& fails_with(a, "could not find restore JobId in bconsole output"@)
                &&& logs == Seq::<(LogLevel, Seq<char>)>::empty()
            },
            Some(id) => {
                &&& n == (RoundtripStage::RestoreRan { backup, jobid: id, secs })
                &&& a matches RoundtripAction::Query { script } && script@ == "list jobs jobid="@
                    + dec(id as nat) + "\nquit\n"@
                &&& logs == seq![(LogLevel::Info, "restore jobid="@ + dec(id as nat))]
            },
        },
        (RoundtripStage::RestoreRan { backup, jobid, secs }, RoundtripEvent::Row { text }) => match job_row(
            lines(text@),
            jobid,
        ) {
            None => {
                &&& n == RoundtripStage::Done
                &&& fails_with(a, "job "@ + dec(jobid as nat) + " not found in catalog (yet?)"@)
                &&& logs == Seq::<(LogLevel, Seq<char>)>::empty()
            },
            Some(row) => if terminated_ok(row.2) {
                &&& n == (RoundtripStage::Sampling { backup, restore: summary_of(jobid, secs, row) })
                &&& a matches RoundtripAction::Sample { dir, count } && dir@ == o.restore_dir@
                    && count == o.samples
                &&& logs == seq![
                    (LogLevel::Success, job_ok_line("restore"@, summary_of(jobid, secs, row))),
                ]
            } else {
                &&& n == RoundtripStage::Done
                &&& fails_with(
                    a,
                    "restore job "@ + dec(jobid as nat) + " terminated with status '"@ + row.2
                        + "' (expected 'T')."@,
                )
                &&& logs == Seq::<(LogLevel, Seq<char>)>::empty()
            },
        },
        (RoundtripStage::Sampling { backup, restore }, RoundtripEvent::Sampled { checked, matched }) => {
            &&& n == RoundtripStage::Done
            &&& a matches RoundtripAction::Finish { report, remove_dir } && report_ok(
                report,
                o,
                backup,
                restore,
                checked,
                matched,
            ) && remove_dir == !o.keep_restore_dir
            &&& logs == Seq::<(LogLevel, Seq<char>)>::empty()
        },
        _ => {
            &&& n == RoundtripStage::Done
            &&& fails_with(a, "round trip: unexpected event"@)
            &&& logs == Seq::<(LogLevel, Seq<char>)>::empty()
        },
    }
}

fn job_ok_message(what: &str, j: JobSummary) -> (m: String)
    ensures
        m@ == job_ok_line(what@, j),
{
    let mut m = owned(what);
    push_str(&mut m, " OK: ");
    push_dec(&mut m, j.files);
    push_str(&mut m, " files / ");
    push_dec(&mut m, j.bytes);
    push_str(&mut m, " bytes / ");
    push_dec(&mut m, j.secs);
    push_str(&mut m, "s");
    m
}

fn numbered(what: &str, id: u32) -> (m: String)
    ensures
        m@ == what@ + dec(id as nat),
{
    let mut m = owned(what);
    push_dec(&mut m, id as u64);
    m
}

fn one_note(level: LogLevel, msg: String) -> (v: Vec<(LogLevel, String)>)
    ensures
        notes_view(v@) == seq![(level, msg@)],
{
    let mut v: Vec<(LogLevel, String)> = Vec::new();
    v.push((level, msg));
    assert(notes_view(v@) =~= seq![(level, msg@)]);
    v
}

fn stop(message: String) -> (r: (RoundtripStage, RoundtripAction, Vec<(LogLevel, String)>))
    ensures
        r.0 == RoundtripStage::Done,
        fails_with(r.1, message@),
        notes_view(r.2@) == Seq::<(LogLevel, Seq<char>)>::empty(),
{
    let v: Vec<(LogLevel, String)> = Vec::new();
    assert(notes_view(v@) =~= Seq::<(LogLevel, Seq<char>)>::empty());
    (RoundtripStage::Done, RoundtripAction::Fail { message }, v)
}

/// The next step of a round trip with options `opts`, at stage `stage`,
/// after `event`: the next stage, the action to perform, and the lines to
/// log before it.
pub fn roundtrip_step(opts: &RoundtripOptions, stage: RoundtripStage, event: RoundtripEvent) -> (r: (
    RoundtripStage,
    RoundtripAction,
    Vec<(LogLevel, String)>,
))
    ensures
        roundtrip_step_ok(*opts, stage, event, r.0, r.1, notes_view(r.2@)),
{
    match (stage, event) {
        (RoundtripStage::Start, RoundtripEvent::Go) => {
            let mut logs: Vec<(LogLevel, String)> = Vec::new();
            logs.push((LogLevel::Info, owned("==> NQRustBackup round-trip test")));
            let mut m = owned("    job=");
            push_str(&mut m, opts.job_name.as_str());
            push_str(&mut m, "  pool=");
            push_str(&mut m, opts.volume_pool.as_str());
            push_str(&mut m, "  volume=");
            push_str(&mut m, opts.volume_name.as_str());
            logs.push((LogLevel::Info, m));
            let mut d = owned("    restore -> ");
            push_str(&mut d, opts.restore_dir.as_str());
            logs.push((LogLevel::Info, d));
            logs.push((LogLevel::Info, owned("labelling volume…")));
            let script = label_script(opts);
            let ghost o = *opts;
            assert(notes_view(logs@) =~= seq![
                (LogLevel::Info, "==> NQRustBackup round-trip test"@),
                (
                    LogLevel::Info,
                    "    job="@ + o.job_name@ + "  pool="@ + o.volume_pool@ + "  volume="@
                        + o.volume_name@,
                ),
                (LogLevel::Info, "    restore -> "@ + o.restore_dir@),
                (LogLevel::Info, "labelling volume…"@),
            ]);
            (RoundtripStage::Labelling, RoundtripAction::Label { script }, logs)
        },
        (RoundtripStage::Labelling, RoundtripEvent::Go) => {
            let script = backup_script(opts);
            let logs = one_note(LogLevel::Info, owned("running backup job…"));
            (RoundtripStage::BackingUp, RoundtripAction::Backup { script }, logs)
        },
        (RoundtripStage::BackingUp, RoundtripEvent::JobOutput { text, secs }) => {
            match parse_jobid(text.as_str()) {
                None => stop(owned("could not find JobId in bconsole output")),
                Some(id) => {
                    let script = job_query_script(id);
                    let logs = one_note(LogLevel::Info, numbered("backup jobid=", id));
                    (RoundtripStage::BackupRan { jobid: id, secs }, RoundtripAction::Query { script }, logs)
                },
            }
        },
        (RoundtripStage::BackupRan { jobid, secs }, RoundtripEvent::Row { text }) => {
            match job_stats(text.as_str(), jobid) {
                None => stop(job_missing_message(jobid)),
                Some((files, bytes, status)) => {
                    match check_backup_status(jobid, status.as_str()) {
                        Err(m) => stop(m),
                        Ok(()) => {
                            let backup = JobSummary { jobid, files, bytes, secs };
                            let logs = one_note(LogLevel::Success, job_ok_message("backup", backup));
                            let dir = opts.restore_dir.clone();
                            (RoundtripStage::BackupOk { backup }, RoundtripAction::MakeDir { dir }, logs)
                        },
                    }
                },
            }
        },
        (RoundtripStage::BackupOk { backup }, RoundtripEvent::Go) => {
            let script = restore_script(backup.jobid, opts.restore_dir.as_str());
            let logs = one_note(LogLevel::Info, owned("running restore…"));
            (RoundtripStage::Restoring { backup }, RoundtripAction::Restore { script }, logs)
        },
        (RoundtripStage::Restoring { backup }, RoundtripEvent::JobOutput { text, secs }) => {
            match parse_jobid(text.as_str()) {
                None => stop(owned("could not find restore JobId in bconsole output")),
                Some(id) => {
                    let script = job_query_script(id);
                    let logs = one_note(LogLevel::Info, numbered("restore jobid=", id));
                    (
                        RoundtripStage::RestoreRan { backup, jobid: id, secs },
                        RoundtripAction::Query { script },
                        logs,
                    )
                },
            }
        },
        (RoundtripStage::RestoreRan { backup, jobid, secs }, RoundtripEvent::Row { text }) => {
            match job_stats(text.as_str(), jobid) {
                None => stop(job_missing_message(jobid)),
                Some((files, bytes, status)) => {
                    match check_restore_status(jobid, status.as_str()) {
                        Err(m) => stop(m),
                        Ok(()) => {
                            let restore = JobSummary { jobid, files, bytes, secs };
                            let logs = one_note(LogLevel::Success, job_ok_message("restore", restore));
                            let dir = opts.restore_dir.clone();
                            (
                                RoundtripStage::Sampling { backup, restore },
                                RoundtripAction::Sample { dir, count: opts.samples },
                                logs,
                            )
                        },
                    }
                },
            }
        },
        (RoundtripStage::Sampling { backup, restore }, RoundtripEvent::Sampled { checked, matched }) => {
            let report = RoundtripReport {
                backup_jobid: backup.jobid,
                restore_jobid: restore.jobid,
                files_backed_up: backup.files,
                bytes_backed_up: backup.bytes,
                files_restored: restore.files,
                bytes_restored: restore.bytes,
                samples_checked: checked,
                samples_matched: matched,
                backup_secs: backup.secs,
                restore_secs: restore.secs,
                restore_dir: opts.restore_dir.clone(),
            };
            let logs: Vec<(LogLevel, String)> = Vec::new();
            assert(notes_view(logs@) =~= Seq::<(LogLevel, Seq<char>)>::empty());
            (
                RoundtripStage::Done,
                RoundtripAction::Finish { report, remove_dir: !opts.keep_restore_dir },
                logs,
            )
        },
        _ => stop(owned("round trip: unexpected event")),
    }
}

/// `st`, `act` and `logs` are what a round trip with options `o` goes
/// through when the actions' outcomes are `ev`, starting from the start:
/// step `i` goes from `st[i]` after `ev[i]` to `st[i + 1]`, logging
/// `logs[i]` and doing `act[i]`.
pub open spec fn roundtrip_trace(
    o: RoundtripOptions,
    ev: Seq<RoundtripEvent>,
    st: Seq<RoundtripStage>,
    act: Seq<RoundtripAction>,
    logs: Seq<Seq<(LogLevel, Seq<char>)>>,
) -> bool {
    &&& st.len() == ev.len() + 1
    &&& act.len() == ev.len()
    &&& logs.len() == ev.len()
    &&& st[0] == RoundtripStage::Start
    &&& forall|i: int|
        0 <= i < ev.len() ==> #[trigger] roundtrip_step_ok(o, st[i], ev[i], st[i + 1], act[i], logs[i])
}

// ---------------------------------------------------------------------------
// The SHA-256 spot check
// ---------------------------------------------------------------------------

/// What the spot check found for one sampled file.
pub enum SampleCheck {
    /// The file it was restored from is not on the host.
    NoSource,
    /// The SHA-256 digests of the restored file at `restored` and of the
    /// file at `source` it was restored from.
    Compared { restored: String, source: String, restored_digest: String, source_digest: String },
}

/// Both digests of `c` were taken and are equal.
pub open spec fn sample_matches(c: SampleCheck) -> bool {
    c matches SampleCheck::Compared { restored_digest, source_digest, .. } && restored_digest@
        == source_digest@
}

/// How many of `s` were compared.
pub open spec fn compared_count(s: Seq<SampleCheck>) -> nat
    decreases s.len(),
{
    if s.len() == 0 {
        0
    } else {
        compared_count(s.drop_last()) + if s.last() is Compared {
            1nat
        } else {
            0nat
        }
    }
}

/// How many of `s` matched.
pub open spec fn matched_count(s: Seq<SampleCheck>) -> nat
    decreases s.len(),
{
    if s.len() == 0 {
        0
    } else {
        matched_count(s.drop_last()) + if sample_matches(s.last()) {
            1nat
        } else {
            0nat
        }
    }
}

/// The warning logged for a compared file whose digests differ.
pub open spec fn mismatch_note(c: SampleCheck) -> Seq<(LogLevel, Seq<char>)> {
    match c {
        SampleCheck::Compared { restored, source, restored_digest, source_digest } => if restored_digest@
            == source_digest@ {
            seq![]
        } else {
            seq![(LogLevel::Warn, "sha mismatch: restored="@ + restored@ + " original="@ + source@)]
        },
        SampleCheck::NoSource => seq![],
    }
}

/// The warnings for the mismatches among `s`, in order.
pub open spec fn mismatch_notes(s: Seq<SampleCheck>) -> Seq<(LogLevel, Seq<char>)>
    decreases s.len(),
{
    if s.len() == 0 {
        seq![]
    } else {
        mismatch_notes(s.drop_last()) + mismatch_note(s.last())
    }
}

/// The spot check's outcome: counts and the lines to log.
pub struct SampleTally {
    pub checked: usize,
    pub matched: usize,
    pub notes: Vec<(LogLevel, String)>,
}

fn equal_text(a: &String, b: &String) -> (r: bool)
    ensures
        r == (a@ == b@),
{
    let x = crate::text::chars_of(a.as_str());
    crate::preflight::eq_lit(x.as_slice(), b.as_str())
}

/// Tallies the spot check over `checks`: the files compared, those whose
/// digests agree, a warning for each that differs, and the summary line
/// `"sha-256 spot check: <matched>/<checked> matched"`.
pub fn tally_samples(checks: &[SampleCheck]) -> (r: SampleTally)
    ensures
        r.checked == compared_count(checks@),
        r.matched == matched_count(checks@),
        notes_view(r.notes@) == mismatch_notes(checks@) + seq![
            (
                LogLevel::Success,
                "sha-256 spot check: "@ + dec(r.matched as nat) + "/"@ + dec(r.checked as nat)
                    + " matched"@,
            ),
        ],
{
    let mut checked: usize = 0;
    let mut matched: usize = 0;
    let mut notes: Vec<(LogLevel, String)> = Vec::new();
    let mut i: usize = 0;
    while i < checks.len()
        invariant
            i <= checks.len(),
            checked == compared_count(checks@.take(i as int)),
            matched == matched_count(checks@.take(i as int)),
            matched <= checked <= i,
            notes_view(notes@) == mismatch_notes(checks@.take(i as int)),
        decreases checks.len() - i,
    {
        let ghost before = notes_view(notes@);
        assert(checks@.take(i + 1).drop_last() =~= checks@.take(i as int));
        assert(checks@.take(i + 1).last() == checks@[i as int]);
        match &checks[i] {
            SampleCheck::NoSource => {
                assert(notes_view(notes@) =~= before + mismatch_note(checks@[i as int]));
            },
            SampleCheck::Compared { restored, source, restored_digest, source_digest } => {
                checked = checked + 1;
                if equal_text(restored_digest, source_digest) {
                    matched = matched + 1;
                    assert(notes_view(notes@) =~= before + mismatch_note(checks@[i as int]));
                } else {
                    let mut m = owned("sha mismatch: restored=");
                    push_str(&mut m, restored.as_str());
                    push_str(&mut m, " original=");
                    push_str(&mut m, source.as_str());
                    notes.push((LogLevel::Warn, m));
                    assert(notes_view(notes@) =~= before + mismatch_note(checks@[i as int]));
                }
            },
        }
        i = i + 1;
    }
    assert(checks@.take(checks.len() as int) =~= checks@);
    let ghost tallied = notes_view(notes@);
    let mut summary = owned("sha-256 spot check: ");
    push_dec(&mut summary, matched as u64);
    push_str(&mut summary, "/");
    push_dec(&mut summary, checked as u64);
    push_str(&mut summary, " matched");
    notes.push((LogLevel::Success, summary));
    assert(notes_view(notes@) =~= tallied + seq![(LogLevel::Success, summary@)]);
    SampleTally { checked, matched, notes }
}

} // verus!
