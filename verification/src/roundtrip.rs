//! The backup + restore round-trip test: the `bconsole` scripts it sends,
//! how it reads the console's answers, and when the test passes.
use vstd::prelude::*;

use crate::clock::{compact_stamp, clock_valid, current_clock, format_compact, LocalClock};
use crate::preflight::eq_lit;
use crate::text::{
    chars_of, dec, find, find_chars, matches_at, has_prefix, is_ascii_digit, is_digit, lead, lines,
    lines_of, owned, parse_uint, parse_unsigned, push_dec, push_str, split_chars, split_on,
    string_of, tokens, tokens_of, trim, trim_chars, views,
};

verus! {

/// Outcome of a single round-trip run.
#[derive(Debug, Clone)]
pub struct RoundtripReport {
    pub backup_jobid: u32,
    pub restore_jobid: u32,
    pub files_backed_up: u64,
    pub bytes_backed_up: u64,
    pub files_restored: u64,
    pub bytes_restored: u64,
    pub samples_checked: usize,
    pub samples_matched: usize,
    pub backup_secs: u64,
    pub restore_secs: u64,
    pub restore_dir: String,
}

/// The round trip passed: everything backed up came back, and every
/// sampled file (at least one) matched the file it was restored from.
pub open spec fn report_passed(r: RoundtripReport) -> bool {
    &&& r.files_backed_up == r.files_restored
    &&& r.bytes_backed_up == r.bytes_restored
    &&& r.samples_matched == r.samples_checked
    &&& r.samples_checked > 0
}

impl RoundtripReport {
    pub fn passed(&self) -> (r: bool)
        ensures
            r == report_passed(*self),
            r <==> (self.files_backed_up == self.files_restored && self.bytes_backed_up
                == self.bytes_restored && self.samples_checked > 0 && self.samples_matched
                == self.samples_checked),
    {
        self.files_backed_up == self.files_restored && self.bytes_backed_up == self.bytes_restored
            && self.samples_matched == self.samples_checked && self.samples_checked > 0
    }
}

/// Settings of a round-trip run.
#[derive(Debug, Clone)]
pub struct RoundtripOptions {
    pub job_name: String,
    pub volume_pool: String,
    pub volume_name: String,
    pub restore_dir: String,
    pub samples: usize,
    pub keep_restore_dir: bool,
}

/// The default settings for a run started at the time `stamp`
/// (`YYYYmmdd-HHMMSS`).
pub open spec fn default_options_spec(stamp: Seq<char>, o: RoundtripOptions) -> bool {
    &&& o.job_name@ == "backup-bareos-fd"@
    &&& o.volume_pool@ == "Full"@
    &&& o.volume_name@ == "nqrb-roundtrip-"@ + stamp
    &&& o.restore_dir@ == "/tmp/nqrb-roundtrip-"@ + stamp
    &&& o.samples == 10
    &&& !o.keep_restore_dir
}

impl RoundtripOptions {
    /// The default settings, named after `stamp`.
    pub fn stamped(stamp: &str) -> (o: RoundtripOptions)
        ensures
            default_options_spec(stamp@, o),
    {
        let mut volume_name = owned("nqrb-roundtrip-");
        push_str(&mut volume_name, stamp);
        let mut restore_dir = owned("/tmp/nqrb-roundtrip-");
        push_str(&mut restore_dir, stamp);
        RoundtripOptions {
            job_name: owned("backup-bareos-fd"),
            volume_pool: owned("Full"),
            volume_name,
            restore_dir,
            samples: 10,
            keep_restore_dir: false,
        }
    }
}

impl Default for RoundtripOptions {
    /// The default settings, named after the current local time (the start
    /// of the Unix epoch when the clock cannot be read).
    fn default() -> (o: RoundtripOptions)
        ensures
            exists|c: LocalClock| clock_valid(c) && default_options_spec(compact_stamp(c), o),
    {
        let c = current_clock();
        let stamp = format_compact(&c);
        RoundtripOptions::stamped(stamp.as_str())
    }
}

// ---------------------------------------------------------------------------
// Console scripts
// ---------------------------------------------------------------------------

/// Labels a fresh volume in the pool.
pub fn label_script(opts: &RoundtripOptions) -> (s: String)
    ensures
        s@ == "label storage=File volume="@ + opts.volume_name@ + " pool="@ + opts.volume_pool@
            + "\nquit\n"@,
{
    let mut s = owned("label storage=File volume=");
    push_str(&mut s, opts.volume_name.as_str());
    push_str(&mut s, " pool=");
    push_str(&mut s, opts.volume_pool.as_str());
    push_str(&mut s, "\nquit\n");
    s
}

/// Runs the backup job and waits for it.
pub fn backup_script(opts: &RoundtripOptions) -> (s: String)
    ensures
        s@ == "run job="@ + opts.job_name@ + " yes\nwait\nlist jobs\nquit\n"@,
{
    let mut s = owned("run job=");
    push_str(&mut s, opts.job_name.as_str());
    push_str(&mut s, " yes\nwait\nlist jobs\nquit\n");
    s
}

/// Restores everything of job `jobid` under `dir` and waits for it.
pub fn restore_script(jobid: u32, dir: &str) -> (s: String)
    ensures
        s@ == "restore client=bareos-fd jobid="@ + dec(jobid as nat) + " where="@ + dir@
            + " all done\nyes\nwait\nlist jobs\nquit\n"@,
{
    let mut s = owned("restore client=bareos-fd jobid=");
    push_dec(&mut s, jobid as u64);
    push_str(&mut s, " where=");
    push_str(&mut s, dir);
    push_str(&mut s, " all done\nyes\nwait\nlist jobs\nquit\n");
    s
}

/// Lists the catalog row of job `jobid`.
pub fn job_query_script(jobid: u32) -> (s: String)
    ensures
        s@ == "list jobs jobid="@ + dec(jobid as nat) + "\nquit\n"@,
{
    let mut s = owned("list jobs jobid=");
    push_dec(&mut s, jobid as u64);
    push_str(&mut s, "\nquit\n");
    s
}

// ---------------------------------------------------------------------------
// Reading console output
// ---------------------------------------------------------------------------

/// The leading ASCII digits of `s`.
pub open spec fn digit_prefix(s: Seq<char>) -> Seq<char> {
    s.take(lead(s, |c: char| is_digit(c)) as int)
}

/// The job id reported in the lines `ls`: on the first line holding
/// `JobId=` followed by a number that fits a `u32`, that number.
pub open spec fn jobid_in(ls: Seq<Seq<char>>) -> Option<u32>
    decreases ls.len(),
{
    if ls.len() == 0 {
        None
    } else {
        let l = ls[0];
        let found: Option<nat> = match find(l, "JobId="@) {
            Some(k) => parse_unsigned(digit_prefix(l.skip(k + 6)), u32::MAX as nat),
            None => None,
        };
        match found {
            Some(v) => Some(v as u32),
            None => jobid_in(ls.drop_first()),
        }
    }
}

proof fn lemma_lead_digits(s: Seq<char>, n: int)
    requires
        0 <= n <= s.len(),
        forall|j: int| 0 <= j < n ==> is_digit(#[trigger] s[j]),
        n == s.len() || !is_digit(s[n]),
    ensures
        lead(s, |c: char| is_digit(c)) == n,
    decreases n,
{
    if n > 0 {
        assert forall|j: int| 0 <= j < n - 1 implies is_digit(#[trigger] s.drop_first()[j]) by {
            assert(s.drop_first()[j] == s[j + 1]);
        }
        if n < s.len() {
            assert(s.drop_first()[n - 1] == s[n]);
        }
        lemma_lead_digits(s.drop_first(), n - 1);
    }
}

/// The job id in the console output `out` (`Job queued. JobId=N`).
pub fn parse_jobid(out: &str) -> (r: Option<u32>)
    ensures
        r == jobid_in(lines(out@)),
{
    let ls = lines_of(out);
    let pat = chars_of("JobId=");
    proof {
        reveal_strlit("JobId=");
    }
    let mut i: usize = 0;
    assert(views(ls@).skip(0) =~= views(ls@));
    while i < ls.len()
        invariant
            i <= ls.len(),
            pat@ == "JobId="@,
            pat@.len() == 6,
            views(ls@) == lines(out@),
            jobid_in(lines(out@)) == jobid_in(views(ls@).skip(i as int)),
        decreases ls.len() - i,
    {
        let l = &ls[i];
        let ghost rest = views(ls@).skip(i as int);
        assert(rest[0] == l@);
        assert(rest.drop_first() =~= views(ls@).skip(i + 1));
        if let Some(k) = find_chars(l.as_slice(), pat.as_slice()) {
            assert(matches_at(l@, pat@, k as int));
            assert(find(l@, "JobId="@) == Some(k as int));
            let start = k + 6;
            let mut end = start;
            while end < l.len() && is_ascii_digit(l[end])
                invariant
                    start <= end <= l.len(),
                    forall|j: int| start <= j < end ==> is_digit(#[trigger] l@[j]),
                decreases l.len() - end,
            {
                end = end + 1;
            }
            let mut num: Vec<char> = Vec::new();
            let mut j = start;
            while j < end
                invariant
                    start <= j <= end <= l.len(),
                    num@ == l@.subrange(start as int, j as int),
                decreases end - j,
            {
                num.push(l[j]);
                assert(l@.subrange(start as int, j + 1) == l@.subrange(start as int, j as int).push(
                    l@[j as int],
                ));
                j = j + 1;
            }
            proof {
                let t = l@.skip(start as int);
                assert forall|m: int| 0 <= m < end - start implies is_digit(#[trigger] t[m]) by {
                    assert(t[m] == l@[m + start]);
                }
                if end < l.len() {
                    assert(t[end - start] == l@[end as int]);
                }
                lemma_lead_digits(t, end - start);
                assert(num@ =~= digit_prefix(t));
            }
            if let Some(v) = parse_uint(num.as_slice(), 0xFFFF_FFFF) {
                assert(parse_unsigned(digit_prefix(l@.skip(k + 6)), u32::MAX as nat) == Some(v as nat));
                assert(jobid_in(rest) == Some(v as u32));
                return Some(v as u32);
            }
        }
        i = i + 1;
    }
    None
}

/// `s` without the characters equal to `c`.
pub open spec fn without(s: Seq<char>, c: char) -> Seq<char>
    decreases s.len(),
{
    if s.len() == 0 {
        s
    } else if s.last() == c {
        without(s.drop_last(), c)
    } else {
        without(s.drop_last(), c).push(s.last())
    }
}

/// A catalog number cell: thousands separators dropped, 0 when unreadable.
pub open spec fn count_cell(cell: Seq<char>) -> u64 {
    match parse_unsigned(without(cell, ','), u64::MAX as nat) {
        Some(v) => v as u64,
        None => 0,
    }
}

/// The trimmed cells of a table row.
pub open spec fn row_cells(l: Seq<char>) -> Seq<Seq<char>> {
    split_on(l, '|').map_values(|c: Seq<char>| trim(c))
}

/// The row for `jobid` in the `list jobs` table: the first line starting
/// with `|`, with at least 11 cells, whose id cell (not the header `jobid`,
/// not empty) reads `jobid`. Gives (files, bytes, status).
pub open spec fn job_row(ls: Seq<Seq<char>>, jobid: u32) -> Option<(u64, u64, Seq<char>)>
    decreases ls.len(),
{
    if ls.len() == 0 {
        None
    } else {
        let l = ls[0];
        let cells = row_cells(l);
        if has_prefix(l, seq!['|']) && cells.len() >= 11 && cells[1] != "jobid"@ && cells[1].len()
            > 0 && parse_unsigned(cells[1], u32::MAX as nat) == Some(jobid as nat) {
            Some((count_cell(cells[8]), count_cell(cells[9]), cells[10]))
        } else {
            job_row(ls.drop_first(), jobid)
        }
    }
}

fn count_of(cell: &[char]) -> (n: u64)
    ensures
        n == count_cell(cell@),
{
    let mut digits: Vec<char> = Vec::new();
    let mut i: usize = 0;
    assert(cell@.take(0) =~= Seq::<char>::empty());
    while i < cell.len()
        invariant
            i <= cell.len(),
            digits@ == without(cell@.take(i as int), ','),
        decreases cell.len() - i,
    {
        assert(cell@.take(i + 1).drop_last() == cell@.take(i as int));
        if cell[i] != ',' {
            digits.push(cell[i]);
        }
        i = i + 1;
    }
    assert(cell@.take(cell.len() as int) == cell@);
    match parse_uint(digits.as_slice(), 0xFFFF_FFFF_FFFF_FFFF) {
        Some(v) => v,
        None => 0,
    }
}

/// Files, bytes and status of `jobid` in the `list jobs` output `out`.
pub fn job_stats(out: &str, jobid: u32) -> (r: Option<(u64, u64, String)>)
    ensures
        match job_row(lines(out@), jobid) {
            Some(t) => r matches Some(x) && x.0 == t.0 && x.1 == t.1 && x.2@ == t.2,
            None => r is None,
        },
{
    let ls = lines_of(out);
    let mut i: usize = 0;
    assert(views(ls@).skip(0) =~= views(ls@));
    while i < ls.len()
        invariant
            i <= ls.len(),
            views(ls@) == lines(out@),
            job_row(lines(out@), jobid) == job_row(views(ls@).skip(i as int), jobid),
        decreases ls.len() - i,
    {
        let l = &ls[i];
        let ghost rest = views(ls@).skip(i as int);
        assert(rest[0] == l@);
        assert(rest.drop_first() =~= views(ls@).skip(i + 1));
        if l.len() > 0 && l[0] == '|' {
            assert(has_prefix(l@, seq!['|'])) by {
                assert(l@.take(1) =~= seq!['|']);
            }
            let raw = split_chars(l.as_slice(), '|');
            let mut cells: Vec<Vec<char>> = Vec::new();
            let mut k: usize = 0;
            while k < raw.len()
                invariant
                    k <= raw.len(),
                    views(raw@) == split_on(l@, '|'),
                    cells.len() == k,
                    forall|m: int| 0 <= m < k ==> #[trigger] cells@[m]@ == trim(raw@[m]@),
                decreases raw.len() - k,
            {
                cells.push(trim_chars(raw[k].as_slice()));
                k = k + 1;
            }
            assert(views(cells@) =~= row_cells(l@)) by {
                assert forall|m: int| 0 <= m < cells.len() implies views(cells@)[m] == row_cells(
                    l@,
                )[m] by {
                    assert(views(raw@)[m] == raw@[m]@);
                }
            }
            if cells.len() >= 11 && !eq_lit(cells[1].as_slice(), "jobid") && cells[1].len() > 0 {
                assert(views(cells@)[1] == cells@[1]@);
                if let Some(j) = parse_uint(cells[1].as_slice(), 0xFFFF_FFFF) {
                    if j == jobid as u64 {
                        assert(views(cells@)[8] == cells@[8]@);
                        assert(views(cells@)[9] == cells@[9]@);
                        assert(views(cells@)[10] == cells@[10]@);
                        let files = count_of(cells[8].as_slice());
                        let bytes = count_of(cells[9].as_slice());
                        let status = string_of(cells[10].as_slice());
                        return Some((files, bytes, status));
                    }
                }
            }
        } else {
            assert(!has_prefix(l@, seq!['|'])) by {
                if l@.len() > 0 {
                    assert(l@.take(1)[0] == l@[0]);
                }
            }
        }
        i = i + 1;
    }
    None
}

/// Reported when the catalog has no row for the job.
pub fn job_missing_message(jobid: u32) -> (s: String)
    ensures
        s@ == "job "@ + dec(jobid as nat) + " not found in catalog (yet?)"@,
{
    let mut s = owned("job ");
    push_dec(&mut s, jobid as u64);
    push_str(&mut s, " not found in catalog (yet?)");
    s
}

/// A job terminated normally when its catalog status is `T`.
pub open spec fn terminated_ok(status: Seq<char>) -> bool {
    status == "T"@
}

/// Checks the backup job's status; the error names the job and status.
pub fn check_backup_status(jobid: u32, status: &str) -> (r: Result<(), String>)
    ensures
        r is Ok <==> terminated_ok(status@),
        r matches Err(m) ==> m@ == "backup job "@ + dec(jobid as nat) + " terminated with status '"@
            + status@ + "' (expected 'T'). See `journalctl -u bareos-director`."@,
{
    let cs = chars_of(status);
    if eq_lit(cs.as_slice(), "T") {
        return Ok(());
    }
    let mut m = owned("backup job ");
    push_dec(&mut m, jobid as u64);
    push_str(&mut m, " terminated with status '");
    push_str(&mut m, status);
    push_str(&mut m, "' (expected 'T'). See `journalctl -u bareos-director`.");
    Err(m)
}

/// Checks the restore job's status; the error names the job and status.
pub fn check_restore_status(jobid: u32, status: &str) -> (r: Result<(), String>)
    ensures
        r is Ok <==> terminated_ok(status@),
        r matches Err(m) ==> m@ == "restore job "@ + dec(jobid as nat)
            + " terminated with status '"@ + status@ + "' (expected 'T')."@,
{
    let cs = chars_of(status);
    if eq_lit(cs.as_slice(), "T") {
        return Ok(());
    }
    let mut m = owned("restore job ");
    push_dec(&mut m, jobid as u64);
    push_str(&mut m, " terminated with status '");
    push_str(&mut m, status);
    push_str(&mut m, "' (expected 'T').");
    Err(m)
}

/// The digest printed by `sha256sum`: its first whitespace-separated field,
/// or nothing.
pub open spec fn digest_field(out: Seq<char>) -> Seq<char> {
    let t = tokens(out);
    if t.len() > 0 {
        t[0]
    } else {
        Seq::empty()
    }
}

pub fn digest_of(out: &str) -> (d: String)
    ensures
        d@ == digest_field(out@),
{
    let cs = chars_of(out);
    let t = tokens_of(cs.as_slice());
    if t.len() > 0 {
        assert(views(t@)[0] == t@[0]@);
        string_of(t[0].as_slice())
    } else {
        String::new()
    }
}

} // verus!
