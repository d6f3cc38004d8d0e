//! Properties of the installer that hold across its functions.
use vstd::prelude::*;

use crate::clock::{hms, LocalClock};
use crate::log::keep_newest;
use crate::model::{
    has_catalog, has_director, has_filedaemon, has_storage, has_webui, screen_step, CheckStatus,
    InstallProfile, InstallSource, Screen, PROFILE_COUNT, SOURCE_COUNT, TOTAL_STEPS,
};
use crate::phases::{escape_quotes, needs_quoting, planned, shell_word, PhaseKind};
use crate::preflight::{disk_check_spec, none_failed, privileges_check_spec, MIB};
use crate::text::{all_digits, dec, digit_char, digit_value, digits_value, is_digit, parse_unsigned, pad2};
use crate::model::InstallConfig;
use crate::plans::{
    apt_deps_spec, catalog_after_probe_spec, enable_services_spec, install_packages_spec,
    render_config_spec, tls_off_spec, units_for,
};
use crate::source::source_run_spec;
use crate::roundtrip::{job_row, jobid_in, report_passed, terminated_ok, RoundtripOptions, RoundtripReport};
use crate::preflight::{os_check_spec, os_fields, os_info_spec};
use crate::verify::{bconsole_check_spec, catalog_check_spec, http_check_spec, unit_check_spec, CommandOutcome};
use crate::preflight::{arch_check_spec, network_check_spec, systemd_check_spec};
use crate::text::contains;
use crate::text::trim;
use crate::plans::packages_for;
use crate::roundtrip_run::{
    report_ok, roundtrip_step_ok, roundtrip_trace, summary_of, RoundtripAction, RoundtripEvent,
    RoundtripStage,
};
use crate::text::lines;
use crate::model::LogLevel;
use crate::steps::StepView;
use crate::tui::{
    after_global, all_passed, any_failed, app_wf, executor_moves, executor_run, next_task_is,
    passed_before, run_shape, screen_transition,
    statuses, App, Key, KeyPress, Action,
};

verus! {

// ---------------------------------------------------------------------------
// The install plan
// ---------------------------------------------------------------------------

/// Every plan numbers its phases 1, 2, 3, … in order, renders the
/// configuration, starts the services and ends with verification; it
/// installs packages first exactly when the source is not configure-only,
/// and has a catalog, WebUI or reload phase exactly when the profile needs
/// one. It has between three and seven phases.
pub proof fn law_plan_shape(src: InstallSource, profile: InstallProfile)
    ensures
        ({
            let p = planned(src, profile);
            let n = p.len();
            let k: int = if src == InstallSource::ConfigureOnly { 0 } else { 1 };
            let c: int = if has_catalog(profile) { 1 } else { 0 };
            let w: int = if has_webui(profile) { 1 } else { 0 };
            let r: int = if has_director(profile) { 1 } else { 0 };
            &&& n == k + c + 2 + w + r + 1
            &&& 3 <= n <= 7
            &&& forall|i: int| 0 <= i < n ==> #[trigger] p[i].0 == i + 1
            &&& p[n - 1].2 == PhaseKind::Verify
            &&& (src != InstallSource::ConfigureOnly <==> p[0].2 == PhaseKind::InstallSource)
            &&& p[k + c].2 == PhaseKind::RenderConfig
            &&& p[k + c + 1].2 == PhaseKind::EnableServices
            &&& (has_catalog(profile) ==> p[k].2 == PhaseKind::BootstrapCatalog)
            &&& (has_webui(profile) ==> p[k + c + 2].2 == PhaseKind::DeployWebui)
            &&& (has_director(profile) ==> p[n - 2].2 == PhaseKind::Reload)
        }),
{
}

/// Each phase kind occurs at most once in a plan.
pub proof fn law_plan_kinds_distinct(src: InstallSource, profile: InstallProfile)
    ensures
        forall|i: int, j: int|
            0 <= i < j < planned(src, profile).len() ==> #[trigger] planned(src, profile)[i].2
                != #[trigger] planned(src, profile)[j].2,
{
}

// ---------------------------------------------------------------------------
// Profiles
// ---------------------------------------------------------------------------

/// The Director, the Storage daemon and the catalog come together: a
/// profile has all three or none. The WebUI only comes with a Director, and
/// every profile runs at least one daemon.
pub proof fn law_profile_components(p: InstallProfile)
    ensures
        has_director(p) == has_storage(p),
        has_storage(p) == has_catalog(p),
        has_webui(p) ==> has_director(p),
        has_director(p) || has_filedaemon(p),
        p == InstallProfile::AllInOne ==> has_director(p) && has_storage(p) && has_filedaemon(p)
            && has_catalog(p) && has_webui(p),
        p == InstallProfile::ServerOnly ==> has_director(p) && has_storage(p) && has_catalog(p)
            && !has_filedaemon(p) && !has_webui(p),
        p == InstallProfile::ClientOnly ==> has_filedaemon(p) && !has_director(p) && !has_storage(
            p,
        ) && !has_catalog(p) && !has_webui(p),
{
}

// ---------------------------------------------------------------------------
// The log
// ---------------------------------------------------------------------------

/// After appending to a bounded log it holds at most `max` lines, the
/// newest first-in-last-out: the lines are the newest of the whole history,
/// in order, and the line just added is the last one (when `max > 0`).
pub proof fn law_log_bounded<T>(history: Seq<T>, line: T, max: nat)
    ensures
        keep_newest(history.push(line), max).len() <= max,
        keep_newest(history.push(line), max).len() == if history.len() + 1 > max {
            max
        } else {
            history.len() + 1
        },
        max > 0 ==> keep_newest(history.push(line), max).last() == line,
        history.len() + 1 <= max ==> keep_newest(history.push(line), max) == history.push(line),
        forall|i: int|
            0 <= i < keep_newest(history.push(line), max).len() ==> #[trigger] keep_newest(
                history.push(line),
                max,
            )[i] == history.push(line)[history.len() + 1 - keep_newest(history.push(line), max).len()
                + i],
{
}

// ---------------------------------------------------------------------------
// Showing commands
// ---------------------------------------------------------------------------

/// A word with no whitespace, quote or `$` is shown as it is; any other word
/// is shown inside single quotes.
pub proof fn law_shell_word(s: Seq<char>)
    ensures
        !needs_quoting(s) ==> shell_word(s) == s,
        needs_quoting(s) ==> shell_word(s).len() >= 2 && shell_word(s)[0] == '\'' && shell_word(
            s,
        ).last() == '\'',
{
}

/// Quoting keeps every character and only adds `'\''` around each single
/// quote: the escaped word is the word itself when it holds no quote.
pub proof fn law_escape_without_quotes(s: Seq<char>)
    requires
        forall|i: int| 0 <= i < s.len() ==> s[i] != '\'',
    ensures
        escape_quotes(s) == s,
    decreases s.len(),
{
    if s.len() > 0 {
        law_escape_without_quotes(s.drop_last());
        assert(s.drop_last().push(s.last()) =~= s);
    }
}

// ---------------------------------------------------------------------------
// Numbers in text
// ---------------------------------------------------------------------------

proof fn lemma_digit_char(k: nat)
    requires
        k < 10,
    ensures
        is_digit(digit_char(k)),
        digit_value(digit_char(k)) == k,
{
}

proof fn lemma_dec_digits(n: nat)
    ensures
        dec(n).len() >= 1,
        all_digits(dec(n)),
        digits_value(dec(n)) == n,
    decreases n,
{
    if n >= 10 {
        lemma_dec_digits(n / 10);
        lemma_digit_char(n % 10);
        let d = dec(n / 10);
        assert(dec(n).drop_last() =~= d);
        assert(n == (n / 10) * 10 + n % 10) by (nonlinear_arith);
        assert(dec(n).last() == digit_char(n % 10));
        assert(digits_value(dec(n)) == digits_value(d) * 10 + digit_value(digit_char(n % 10)));
        assert forall|i: int| 0 <= i < dec(n).len() implies is_digit(#[trigger] dec(n)[i]) by {
            if i < d.len() {
                assert(dec(n)[i] == d[i]);
            }
        }
    } else {
        lemma_digit_char(n);
        assert(dec(n) == seq![digit_char(n)]);
        assert(dec(n).drop_last() =~= Seq::<char>::empty());
        assert(digits_value(dec(n)) == digits_value(Seq::<char>::empty()) * 10 + digit_value(digit_char(n)));
    }
}

/// Parsing a printed number gives the number back: `n.to_string().parse()`
/// is `n` for every `n` that fits the target type.
pub proof fn law_parse_printed(n: nat, max: nat)
    requires
        n <= max,
    ensures
        parse_unsigned(dec(n), max) == Some(n),
{
    lemma_dec_digits(n);
    assert(is_digit(dec(n)[0]));
}

/// A two-digit clock field is two characters long.
pub proof fn law_pad2_width(n: nat)
    requires
        n < 100,
    ensures
        pad2(n).len() == 2,
{
    if n >= 10 {
        assert(dec(n / 10).len() == 1);
    }
}

/// The time of day is always printed as eight characters `HH:MM:SS`.
pub proof fn law_hms_shape(c: LocalClock)
    requires
        crate::clock::clock_valid(c),
    ensures
        hms(c).len() == 8,
        hms(c)[2] == ':',
        hms(c)[5] == ':',
{
    law_pad2_width(c.hour as nat);
    law_pad2_width(c.minute as nat);
    law_pad2_width(crate::clock::shown_second(c));
}

// ---------------------------------------------------------------------------
// Pre-flight checks
// ---------------------------------------------------------------------------

/// Only a non-root user without any sudo fails the privileges check.
pub proof fn law_privileges_fail(euid: u32, nopasswd: bool, present: bool)
    ensures
        (privileges_check_spec(euid, nopasswd, present).1 == CheckStatus::Fail) <==> (euid != 0
            && !nopasswd && !present),
{
}

/// A directory check passes only with enough free space on a writable
/// directory, and fails exactly when space is short.
pub proof fn law_disk_check(
    name: Seq<char>,
    path: Seq<char>,
    needed: u64,
    avail: Option<u64>,
    writable: bool,
)
    ensures
        ({
            let free = (match avail {
                Some(a) => a,
                None => 0u64,
            }) as nat / (MIB as nat);
            let st = disk_check_spec(name, path, needed, avail, writable).1;
            &&& (st == CheckStatus::Pass <==> free >= needed && writable)
            &&& (st == CheckStatus::Fail <==> free < needed)
        }),
{
}

/// Warnings never block: checks that all pass or warn let the wizard go on.
pub proof fn law_warnings_do_not_block(checks: Seq<crate::model::PreflightCheck>)
    requires
        forall|i: int|
            0 <= i < checks.len() ==> checks[i].status == CheckStatus::Pass || checks[i].status
                == CheckStatus::Warn,
    ensures
        none_failed(checks),
{
}

// ---------------------------------------------------------------------------
// The wizard
// ---------------------------------------------------------------------------

/// Once the wizard decides to quit, no key changes that.
pub proof fn law_quit_is_final(a: App, k: KeyPress, st: Option<Seq<CheckStatus>>, n: App, act: Action)
    requires
        a.should_quit,
        screen_transition(after_global(a, k), k, st, n, act),
    ensures
        n.should_quit,
{
}

/// While the install runs, a plain `q` does not quit the wizard; Control-C
/// always does.
pub proof fn law_quit_keys(a: App, k: KeyPress, st: Option<Seq<CheckStatus>>, n: App, act: Action)
    requires
        screen_transition(after_global(a, k), k, st, n, act),
    ensures
        k.key == Key::Char('c') && k.ctrl ==> n.should_quit,
        a.screen == Screen::Progress && a.executor_running && !a.should_quit && !k.ctrl ==> !n.should_quit,
        a.screen != Screen::Progress && k.key == Key::Char('q') && !a.executor_running ==> n.should_quit,
{
}

/// The wizard leaves the pre-flight screen forward only when no check
/// failed, and only after checks ran.
pub proof fn law_preflight_gate(a: App, k: KeyPress, st: Option<Seq<CheckStatus>>, n: App, act: Action)
    requires
        a.screen == Screen::Preflight,
        screen_transition(after_global(a, k), k, st, n, act),
        n.screen == Screen::SourceSelect,
    ensures
        none_failed(a.preflight@),
        a.preflight@.len() > 0,
{
}

/// The wizard leaves the progress screen for verification only when every
/// phase passed, and for the error screen only when some phase failed; the
/// install is then no longer running.
pub proof fn law_progress_gate(a: App, k: KeyPress, st: Option<Seq<CheckStatus>>, n: App, act: Action)
    requires
        a.screen == Screen::Progress,
        screen_transition(after_global(a, k), k, st, n, act),
    ensures
        n.screen == Screen::Verify ==> all_passed(statuses(n.phases@)) && !n.executor_running,
        n.screen == Screen::Error ==> any_failed(statuses(n.phases@)) && !n.executor_running,
        n.screen == Screen::Progress || n.screen == Screen::Verify || n.screen == Screen::Error,
        n.phases@.len() == a.phases@.len(),
{
}

/// A key press moves the wizard at most one step forward or back, or to
/// the error screen.
pub proof fn law_one_step_at_a_time(a: App, k: KeyPress, st: Option<Seq<CheckStatus>>, n: App, act: Action)
    requires
        screen_transition(after_global(a, k), k, st, n, act),
    ensures
        n.screen == Screen::Error || n.screen == a.screen || screen_step(n.screen) == screen_step(
            a.screen,
        ) + 1 || screen_step(n.screen) + 1 == screen_step(a.screen),
{
}

/// Every screen's step number is within the wizard's step count, and the
/// steps number the screens one to one.
pub proof fn law_step_numbers(s: Screen, t: Screen)
    ensures
        screen_step(s) <= TOTAL_STEPS,
        screen_step(s) == screen_step(t) ==> s == t,
{
}

/// The menu cursors stay on the offered choices.
pub proof fn law_cursor_in_range(a: App, k: KeyPress, st: Option<Seq<CheckStatus>>, n: App, act: Action)
    requires
        app_wf(a),
        screen_transition(after_global(a, k), k, st, n, act),
    ensures
        n.source_idx < SOURCE_COUNT,
        n.profile_idx < PROFILE_COUNT,
{
}


// ---------------------------------------------------------------------------
// What the phases do to the host
// ---------------------------------------------------------------------------

/// Steps that only log and run nothing.
pub open spec fn runs_nothing(s: Seq<StepView>) -> bool {
    forall|i: int| 0 <= i < s.len() ==> s[i] is Note
}

/// Every install renders the configuration, and rendering the
/// configuration always ends by turning TLS off on the console paths, so a
/// configure-only re-run re-applies it.
pub proof fn law_tls_off_always(src: InstallSource, profile: InstallProfile, cd: Seq<char>, sd: Seq<char>)
    ensures
        exists|i: int| 0 <= i < planned(src, profile).len() && planned(src, profile)[i].2 == PhaseKind::RenderConfig,
        ({
            let r = render_config_spec(cd, sd);
            r.subrange(r.len() - 2, r.len() as int) == tls_off_spec()
        }),
{
    law_plan_shape(src, profile);
    let k: int = if src == InstallSource::ConfigureOnly { 0 } else { 1 };
    let c: int = if has_catalog(profile) { 1 } else { 0 };
    assert(planned(src, profile)[k + c].2 == PhaseKind::RenderConfig);
    let r = render_config_spec(cd, sd);
    assert(r.subrange(r.len() - 2, r.len() as int) =~= tls_off_spec());
}

/// Bootstrapping the catalog is idempotent: when the catalog exists,
/// nothing is created.
pub proof fn law_catalog_idempotent()
    ensures
        runs_nothing(catalog_after_probe_spec(true)),
{
}

/// A configure-only install installs no packages.
pub proof fn law_configure_only_installs_nothing(
    cfg: InstallConfig,
    debian: bool,
    pretty: Seq<char>,
    version: Seq<char>,
    repo: Option<(Seq<char>, Seq<char>)>,
)
    requires
        cfg.source == InstallSource::ConfigureOnly,
    ensures
        runs_nothing(source_run_spec(cfg, debian, pretty, version, repo).0),
        source_run_spec(cfg, debian, pretty, version, repo).1 is None,
{
}

/// A dry run only reports the packages it would install, and tolerates a
/// non-Debian host.
pub proof fn law_dry_run_packages(profile: InstallProfile, debian: bool, pretty: Seq<char>)
    ensures
        runs_nothing(install_packages_spec(profile, true)),
        apt_deps_spec(debian, pretty, true).1 is None,
{
}

/// Every profile has a daemon to enable; units are named by their full
/// names, which `systemctl enable` accepts.
pub proof fn law_services_enabled(profile: InstallProfile)
    ensures
        units_for(profile).len() >= 1,
        enable_services_spec(profile).len() == 2,
        forall|i: int|
            0 <= i < units_for(profile).len() ==> units_for(profile)[i] == "bareos-director"@
                || units_for(profile)[i] == "bareos-storage"@ || units_for(profile)[i]
                == "bareos-filedaemon"@,
{
}


/// Each daemon unit is enabled exactly when the profile runs that daemon:
/// `bareos-director` with a Director, `bareos-storage` with a Storage
/// daemon and `bareos-filedaemon` with a File daemon, each at most once,
/// all in one `systemctl enable --now` command.
pub proof fn law_units_match_daemons(p: InstallProfile)
    ensures
        units_for(p).contains("bareos-director"@) <==> has_director(p),
        units_for(p).contains("bareos-storage"@) <==> has_storage(p),
        units_for(p).contains("bareos-filedaemon"@) <==> has_filedaemon(p),
        units_for(p).no_duplicates(),
        units_for(p).len() == (if has_director(p) { 1int } else { 0 }) + (if has_storage(p) {
            1int
        } else {
            0
        }) + (if has_filedaemon(p) { 1int } else { 0 }),
        enable_services_spec(p)[1] == StepView::Run(
            seq!["systemctl"@, "enable"@, "--now"@] + units_for(p),
        ),
{
    reveal_strlit("bareos-director");
    reveal_strlit("bareos-storage");
    reveal_strlit("bareos-filedaemon");
    let d = "bareos-director"@;
    let s = "bareos-storage"@;
    let f = "bareos-filedaemon"@;
    assert(d[7] == 'd' && s[7] == 's' && f[7] == 'f');
    assert(d != s && d != f && s != f);
    law_profile_components(p);
    let u = units_for(p);
    if has_director(p) {
        assert(u[0] == d);
    }
    if has_filedaemon(p) {
        assert(u[u.len() - 1] == f);
    }
    if has_storage(p) {
        assert(u[1] == s);
    }
    assert(u.no_duplicates());
    assert(u.len() >= 1);
    assert(crate::steps::lits(seq!["systemctl", "enable", "--now"]) =~= seq![
        "systemctl"@,
        "enable"@,
        "--now"@,
    ]);
    assert(enable_services_spec(p)[1] == StepView::Run(
        seq!["systemctl"@, "enable"@, "--now"@] + units_for(p),
    ));
}

/// The packages installed for a profile: each daemon's package exactly
/// when the profile runs that daemon, the PostgreSQL catalog backend
/// exactly when it hosts the catalog, the WebUI exactly when it serves it,
/// and always the console, each once.
pub proof fn law_packages_match_profile(p: InstallProfile)
    ensures
        packages_for(p).contains("bareos-director"@) <==> has_director(p),
        packages_for(p).contains("bareos-storage"@) <==> has_storage(p),
        packages_for(p).contains("bareos-filedaemon"@) <==> has_filedaemon(p),
        packages_for(p).contains("bareos-database-postgresql"@) <==> has_catalog(p),
        packages_for(p).contains("bareos-webui"@) <==> has_webui(p),
        packages_for(p).contains("bareos-bconsole"@),
        packages_for(p).no_duplicates(),
{
    reveal_strlit("bareos-director");
    reveal_strlit("bareos-storage");
    reveal_strlit("bareos-filedaemon");
    reveal_strlit("bareos-database-postgresql");
    reveal_strlit("bareos-webui");
    reveal_strlit("bareos-bconsole");
    let d = "bareos-director"@;
    let s = "bareos-storage"@;
    let f = "bareos-filedaemon"@;
    let c = "bareos-database-postgresql"@;
    let w = "bareos-webui"@;
    let b = "bareos-bconsole"@;
    assert(d[7] == 'd' && s[7] == 's' && f[7] == 'f' && c[8] == 'a' && w[7] == 'w' && b[7] == 'b');
    assert(d[8] == 'i' && c[7] == 'd');
    assert(d != s && d != f && d != c && d != w && d != b);
    assert(s != f && s != c && s != w && s != b);
    assert(f != c && f != w && f != b);
    assert(c != w && c != b);
    assert(w != b);
    law_profile_components(p);
    let k = packages_for(p);
    match p {
        InstallProfile::AllInOne => {
            assert(k =~= seq![d, s, f, c, b, w]);
            assert(k[0] == d && k[1] == s && k[2] == f && k[3] == c && k[4] == b && k[5] == w);
        },
        InstallProfile::ServerOnly => {
            assert(k =~= seq![d, s, c, b]);
            assert(k[0] == d && k[1] == s && k[2] == c && k[3] == b);
            assert(!k.contains(f)) by {
                if k.contains(f) {
                    let j = choose|j: int| 0 <= j < k.len() && k[j] == f;
                }
            }
            assert(!k.contains(w)) by {
                if k.contains(w) {
                    let j = choose|j: int| 0 <= j < k.len() && k[j] == w;
                }
            }
        },
        InstallProfile::ClientOnly => {
            assert(k =~= seq![f, b]);
            assert(k[0] == f && k[1] == b);
            assert(!k.contains(d)) by {
                if k.contains(d) {
                    let j = choose|j: int| 0 <= j < k.len() && k[j] == d;
                }
            }
            assert(!k.contains(s)) by {
                if k.contains(s) {
                    let j = choose|j: int| 0 <= j < k.len() && k[j] == s;
                }
            }
            assert(!k.contains(c)) by {
                if k.contains(c) {
                    let j = choose|j: int| 0 <= j < k.len() && k[j] == c;
                }
            }
            assert(!k.contains(w)) by {
                if k.contains(w) {
                    let j = choose|j: int| 0 <= j < k.len() && k[j] == w;
                }
            }
        },
    }
}

/// A round trip passes exactly when the restore brought back as many files
/// and as many bytes as the backup saved, and at least one file was
/// spot-checked and every checked file matched: a restore short of a single
/// byte fails it.
pub proof fn law_roundtrip_pass_rule(r: RoundtripReport)
    ensures
        report_passed(r) <==> (r.files_backed_up == r.files_restored && r.bytes_backed_up
            == r.bytes_restored && r.samples_checked > 0 && r.samples_matched == r.samples_checked),
        r.bytes_backed_up != r.bytes_restored ==> !report_passed(r),
        r.files_backed_up != r.files_restored ==> !report_passed(r),
        r.samples_checked == 0 ==> !report_passed(r),
        r.samples_matched != r.samples_checked ==> !report_passed(r),
{
}

/// For a `curl` that ran and succeeded, the HTTP check passes exactly when
/// the trimmed status code is `200`, `301` or `302`, and reports that code
/// and the URL; anything else, and a `curl` that failed or could not start,
/// only warns.
pub proof fn law_http_codes(name: Seq<char>, url: Seq<char>, o: CommandOutcome)
    ensures
        http_check_spec(name, url, o).0 == name,
        http_check_spec(name, url, o).1 == CheckStatus::Pass || http_check_spec(name, url, o).1
            == CheckStatus::Warn,
        match o {
            CommandOutcome::Ran { success, stdout, stderr } => if success {
                &&& (http_check_spec(name, url, o).1 == CheckStatus::Pass) <==> (trim(stdout@)
                    == "200"@ || trim(stdout@) == "301"@ || trim(stdout@) == "302"@)
                &&& http_check_spec(name, url, o).2 == "HTTP "@ + trim(stdout@) + " @ "@ + url
            } else {
                http_check_spec(name, url, o).1 == CheckStatus::Warn
            },
            CommandOutcome::Failed(e) => http_check_spec(name, url, o).1 == CheckStatus::Warn,
        },
{
}

/// The host counts as Debian-family exactly when the `ID` read from
/// `/etc/os-release` is `debian` or `ubuntu`, and the OS check passes
/// exactly for such a host, reporting its pretty name as supported.
pub proof fn law_debian_family(text: Seq<char>)
    ensures
        os_info_spec(text).0 == os_fields(lines(text)).0,
        os_info_spec(text).3 <==> (os_fields(lines(text)).0 == "debian"@ || os_fields(lines(text)).0
            == "ubuntu"@),
        os_fields(lines(text)).0 == "debian"@ ==> os_check_spec(os_info_spec(text).2, os_info_spec(text).3).1
            == CheckStatus::Pass,
        os_fields(lines(text)).0 == "ubuntu"@ ==> os_check_spec(os_info_spec(text).2, os_info_spec(text).3).1
            == CheckStatus::Pass,
        (os_check_spec(os_info_spec(text).2, os_info_spec(text).3).1 == CheckStatus::Pass)
            <==> os_info_spec(text).3,
        os_info_spec(text).3 ==> os_check_spec(os_info_spec(text).2, os_info_spec(text).3).2
            == os_info_spec(text).2 + " (supported)"@,
{
}

/// After the install, a service passes exactly when `systemctl is-active`
/// printed `active`; the catalog passes exactly when the query ran and
/// succeeded; the console passes exactly when it ran, succeeded and its
/// answer mentions `OK:` or `Director`. A service or the catalog that does
/// not pass fails; the console only warns.
pub proof fn law_verify_verdicts(unit: Seq<char>, o: CommandOutcome)
    ensures
        (unit_check_spec(unit, o).1 == CheckStatus::Pass) <==> (o matches CommandOutcome::Ran {
            stdout,
            ..
        } && trim(stdout@) == "active"@),
        unit_check_spec(unit, o).1 != CheckStatus::Pass ==> unit_check_spec(unit, o).1
            == CheckStatus::Fail,
        unit_check_spec(unit, o).0 == unit + " service"@,
        (catalog_check_spec(o).1 == CheckStatus::Pass) <==> (o matches CommandOutcome::Ran {
            success,
            ..
        } && success),
        catalog_check_spec(o).1 != CheckStatus::Pass ==> catalog_check_spec(o).1 == CheckStatus::Fail,
        (bconsole_check_spec(o).1 == CheckStatus::Pass) <==> (o matches CommandOutcome::Ran {
            success,
            stdout,
            ..
        } && success && (contains(stdout@, "OK:"@) || contains(stdout@, "Director"@))),
        bconsole_check_spec(o).1 != CheckStatus::Pass ==> bconsole_check_spec(o).1
            == CheckStatus::Warn,
{
}

/// Of the host checks, the architecture passes exactly on `x86_64`,
/// systemd exactly when it is present and the network exactly when the
/// download host resolves; otherwise each only warns.
pub proof fn law_host_checks(arch: Seq<char>, present: bool, resolved: bool)
    ensures
        (arch_check_spec(arch).1 == CheckStatus::Pass) <==> arch == "x86_64"@,
        arch != "x86_64"@ ==> arch_check_spec(arch).1 == CheckStatus::Warn,
        (systemd_check_spec(present).1 == CheckStatus::Pass) <==> present,
        !present ==> systemd_check_spec(present).1 == CheckStatus::Warn,
        (network_check_spec(resolved).1 == CheckStatus::Pass) <==> resolved,
        !resolved ==> network_check_spec(resolved).1 == CheckStatus::Warn,
{
}

// ---------------------------------------------------------------------------
// The executor's run
// ---------------------------------------------------------------------------

/// Before any task runs, the report has the shape of a run in which no
/// task passed yet.
pub proof fn law_run_starts(n: nat)
    ensures
        run_shape(Seq::new(n, |i: int| CheckStatus::Pending), 0),
{
}

/// On a report of that shape, the executor runs the task right after the
/// passed ones when it is pending, and nothing otherwise: nothing more runs
/// once a task failed, and the run ends when all tasks passed.
pub proof fn law_run_picks_next(s: Seq<CheckStatus>, k: int, r: Option<usize>)
    requires
        run_shape(s, k),
        next_task_is(s, r),
    ensures
        r == (if k < s.len() && s[k] == CheckStatus::Pending { Some(k as usize) } else { None::<usize> }),
        any_failed(s) ==> r is None,
{
    if k < s.len() && s[k] == CheckStatus::Pending {
        match r {
            Some(i) => {
                if (i as int) < k {
                    assert(s[i as int] == CheckStatus::Pass);
                } else if (i as int) > k {
                    assert(s[k] == CheckStatus::Pass);
                }
            },
            None => {
                assert(s[k] != CheckStatus::Pending);
            },
        }
    } else {
        match r {
            Some(i) => {
                if (i as int) < k {
                    assert(s[i as int] == CheckStatus::Pass);
                } else if (i as int) > k {
                    assert(s[k] == CheckStatus::Pass);
                }
            },
            None => {},
        }
    }
    if any_failed(s) {
        let f = choose|f: int| 0 <= f < s.len() && s[f] == CheckStatus::Fail;
        assert(f == k);
    }
}

/// Starting the next task and finishing it keeps the shape: a pass adds
/// one passed task, a failure leaves the failed task where the run stops.
pub proof fn law_run_step(s: Seq<CheckStatus>, k: int, ok: bool)
    requires
        run_shape(s, k),
        k < s.len(),
        s[k] == CheckStatus::Pending,
    ensures
        run_shape(s.update(k, CheckStatus::Running), k),
        run_shape(
            s.update(k, CheckStatus::Running).update(k, if ok { CheckStatus::Pass } else { CheckStatus::Fail }),
            if ok { k + 1 } else { k },
        ),
        !ok ==> any_failed(s.update(k, CheckStatus::Running).update(k, CheckStatus::Fail)),
{
    let t = s.update(k, CheckStatus::Running).update(k, if ok { CheckStatus::Pass } else { CheckStatus::Fail });
    if !ok {
        assert(t[k] == CheckStatus::Fail);
    }
}


/// Each move of the executor keeps the shape of its report, adding at most
/// one passed task; no move is possible once a task failed.
pub proof fn law_run_moves(s: Seq<CheckStatus>, t: Seq<CheckStatus>, k: int)
    requires
        run_shape(s, k),
        executor_moves(s, t),
    ensures
        t.len() == s.len(),
        run_shape(t, k) || run_shape(t, k + 1),
        !any_failed(s),
{
    if exists|i: usize| next_task_is(s, Some(i)) && t == s.update(i as int, CheckStatus::Running) {
        let i = choose|i: usize| next_task_is(s, Some(i)) && t == s.update(i as int, CheckStatus::Running);
        law_run_picks_next(s, k, Some(i));
        law_run_step(s, k, true);
    } else {
        let i = choose|i: int|
            0 <= i < s.len() && #[trigger] s[i] == CheckStatus::Running && (t == s.update(
                i,
                CheckStatus::Pass,
            ) || t == s.update(i, CheckStatus::Fail));
        if i < k {
            assert(s[i] == CheckStatus::Pass);
        } else if i > k {
            assert(s[i] == CheckStatus::Pending);
        }
        assert(i == k);
        if t == s.update(i, CheckStatus::Pass) {
            assert(run_shape(t, k + 1));
        } else {
            assert(run_shape(t, k));
        }
    }
    if any_failed(s) {
        let f = choose|f: int| 0 <= f < s.len() && s[f] == CheckStatus::Fail;
        assert(f == k);
    }
}

proof fn lemma_run_shape_at(n: nat, states: Seq<Seq<CheckStatus>>, j: int) -> (k: int)
    requires
        executor_run(n, states),
        0 <= j < states.len(),
    ensures
        states[j].len() == n,
        run_shape(states[j], k),
    decreases j,
{
    if j == 0 {
        law_run_starts(n);
        0
    } else {
        let k0 = lemma_run_shape_at(n, states, j - 1);
        assert(executor_moves(states[j - 1], states[(j - 1) + 1]));
        law_run_moves(states[j - 1], states[j], k0);
        if run_shape(states[j], k0) {
            k0
        } else {
            k0 + 1
        }
    }
}

/// Over a whole run of the executor, every report has one status per task
/// and the shape of a run: the first tasks passed, then at most one that is
/// running or failed, then pending ones. A task is running or failed only
/// after every task before it passed, and once a task failed the run makes
/// no further move.
pub proof fn law_executor_run(n: nat, states: Seq<Seq<CheckStatus>>, j: int)
    requires
        executor_run(n, states),
        0 <= j < states.len(),
    ensures
        states[j].len() == n,
        exists|k: int| run_shape(states[j], k),
        forall|i: int|
            0 <= i < n && (states[j][i] == CheckStatus::Running || states[j][i] == CheckStatus::Fail)
                ==> passed_before(states[j], i),
        any_failed(states[j]) ==> j == states.len() - 1,
{
    let k = lemma_run_shape_at(n, states, j);
    assert forall|i: int|
        0 <= i < n && (states[j][i] == CheckStatus::Running || states[j][i] == CheckStatus::Fail)
            implies passed_before(states[j], i) by {
        if i > k {
            assert(states[j][i] == CheckStatus::Pending);
        }
        if i < k {
            assert(states[j][i] == CheckStatus::Pass);
        }
    }
    if any_failed(states[j]) && j < states.len() - 1 {
        assert(executor_moves(states[j], states[j + 1]));
        law_run_moves(states[j], states[j + 1], k);
    }
}

// ---------------------------------------------------------------------------
// The round trip
// ---------------------------------------------------------------------------

/// The restore runs only after a backup whose catalog row says it
/// terminated well: a step starts the restore only from that stage, that
/// stage is entered only on such a row, and any other row ends the run
/// with an error. Once the run is over, nothing more is done.
pub proof fn law_restore_needs_good_backup(
    o: RoundtripOptions,
    s: RoundtripStage,
    e: RoundtripEvent,
    n: RoundtripStage,
    a: RoundtripAction,
    logs: Seq<(LogLevel, Seq<char>)>,
)
    requires
        roundtrip_step_ok(o, s, e, n, a, logs),
    ensures
        a is Restore ==> s is BackupOk,
        n is BackupOk ==> (s matches RoundtripStage::BackupRan { jobid, .. } && e matches RoundtripEvent::Row {
            text,
        } && job_row(lines(text@), jobid) matches Some(row) && terminated_ok(row.2)),
        (s matches RoundtripStage::BackupRan { jobid, .. } && e matches RoundtripEvent::Row { text }
            && !(job_row(lines(text@), jobid) matches Some(row) && terminated_ok(row.2))) ==> n
            == RoundtripStage::Done && a is Fail,
        s == RoundtripStage::Done ==> n == RoundtripStage::Done && a is Fail,
{
}

/// A round trip finishes only after its eight steps — label, backup,
/// backup row, restore directory, restore, restore row, spot check — with
/// both jobs terminated well, and its report holds the job ids parsed from
/// the console's answers, the counts of their catalog rows, the measured
/// durations and the spot check's tally.
pub proof fn law_report_from_outputs(
    o: RoundtripOptions,
    ev: Seq<RoundtripEvent>,
    st: Seq<RoundtripStage>,
    act: Seq<RoundtripAction>,
    logs: Seq<Seq<(LogLevel, Seq<char>)>>,
)
    requires
        roundtrip_trace(o, ev, st, act, logs),
        ev.len() > 0,
        act.last() is Finish,
    ensures
        ev.len() == 8,
        match (ev[2], ev[3], ev[5], ev[6], ev[7], act[7]) {
            (
                RoundtripEvent::JobOutput { text: t1, secs: s1 },
                RoundtripEvent::Row { text: t2 },
                RoundtripEvent::JobOutput { text: t3, secs: s3 },
                RoundtripEvent::Row { text: t4 },
                RoundtripEvent::Sampled { checked, matched },
                RoundtripAction::Finish { report, .. },
            ) => match (jobid_in(lines(t1@)), jobid_in(lines(t3@))) {
                (Some(b), Some(r)) => match (job_row(lines(t2@), b), job_row(lines(t4@), r)) {
                    (Some(brow), Some(rrow)) => terminated_ok(brow.2) && terminated_ok(rrow.2)
                        && report_ok(
                        report,
                        o,
                        summary_of(b, s1, brow),
                        summary_of(r, s3, rrow),
                        checked,
                        matched,
                    ),
                    _ => false,
                },
                _ => false,
            },
            _ => false,
        },
{
    let k = ev.len() - 1;
    assert(roundtrip_step_ok(o, st[k], ev[k], st[k + 1], act[k], logs[k]));
    assert(st[k] is Sampling);
    assert(k >= 1);
    assert(roundtrip_step_ok(o, st[k - 1], ev[k - 1], st[(k - 1) + 1], act[k - 1], logs[k - 1]));
    assert(st[k - 1] is RestoreRan);
    assert(k >= 2);
    assert(roundtrip_step_ok(o, st[k - 2], ev[k - 2], st[(k - 2) + 1], act[k - 2], logs[k - 2]));
    assert(st[k - 2] is Restoring);
    assert(k >= 3);
    assert(roundtrip_step_ok(o, st[k - 3], ev[k - 3], st[(k - 3) + 1], act[k - 3], logs[k - 3]));
    assert(st[k - 3] is BackupOk);
    assert(k >= 4);
    assert(roundtrip_step_ok(o, st[k - 4], ev[k - 4], st[(k - 4) + 1], act[k - 4], logs[k - 4]));
    assert(st[k - 4] is BackupRan);
    assert(k >= 5);
    assert(roundtrip_step_ok(o, st[k - 5], ev[k - 5], st[(k - 5) + 1], act[k - 5], logs[k - 5]));
    assert(st[k - 5] is BackingUp);
    assert(k >= 6);
    assert(roundtrip_step_ok(o, st[k - 6], ev[k - 6], st[(k - 6) + 1], act[k - 6], logs[k - 6]));
    assert(st[k - 6] is Labelling);
    assert(k >= 7);
    assert(roundtrip_step_ok(o, st[k - 7], ev[k - 7], st[(k - 7) + 1], act[k - 7], logs[k - 7]));
    assert(st[k - 7] is Start);
    if k > 7 {
        assert(roundtrip_step_ok(o, st[k - 8], ev[k - 8], st[(k - 8) + 1], act[k - 8], logs[k - 8]));
    }
    assert(k == 7);
}

} // verus!
