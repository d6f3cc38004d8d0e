//! Post-install verification: which probes a profile calls for and how
//! each probe's outcome reads.
use vstd::prelude::*;

use crate::model::{
    has_catalog, has_director, has_filedaemon, has_storage, has_webui, CheckStatus,
    InstallConfig, LogLevel, PreflightCheck,
};
use crate::preflight::eq_lit;
use crate::text::{
    chars_of, contains, contains_str, dec, lines, lines_of, owned, push_dec, push_str, string_of,
    trim, trim_chars, views,
};

verus! {

/// Something to look at after the install.
#[derive(Debug, Clone)]
pub enum VerifyProbe {
    /// `systemctl is-active <unit>`.
    Unit(String),
    /// A query against the catalog database.
    Catalog,
    /// `status director` through `bconsole`.
    Bconsole,
    /// An HTTP request to `url`, reported under `name`.
    Http { name: String, url: String },
}

/// The meaning of a probe.
pub enum ProbeView {
    Unit(Seq<char>),
    Catalog,
    Bconsole,
    Http(Seq<char>, Seq<char>),
}

impl View for VerifyProbe {
    type V = ProbeView;

    open spec fn view(&self) -> ProbeView {
        match self {
            VerifyProbe::Unit(u) => ProbeView::Unit(u@),
            VerifyProbe::Catalog => ProbeView::Catalog,
            VerifyProbe::Bconsole => ProbeView::Bconsole,
            VerifyProbe::Http { name, url } => ProbeView::Http(name@, url@),
        }
    }
}

/// The WebUI base address `http://<address>:<port>/`.
pub open spec fn webui_root(cfg: InstallConfig) -> Seq<char> {
    "http://"@ + cfg.director_address@ + ":"@ + dec(cfg.webui_port as nat) + "/"@
}

/// The probes of a profile, in order: the daemons' units, the catalog,
/// the console, then the WebUI root and application.
pub open spec fn probes_for(cfg: InstallConfig) -> Seq<ProbeView> {
    let p = cfg.profile;
    (if has_director(p) {
        seq![ProbeView::Unit("bareos-director"@)]
    } else {
        seq![]
    }) + (if has_storage(p) {
        seq![ProbeView::Unit("bareos-storage"@)]
    } else {
        seq![]
    }) + (if has_filedaemon(p) {
        seq![ProbeView::Unit("bareos-filedaemon"@)]
    } else {
        seq![]
    }) + (if has_catalog(p) {
        seq![ProbeView::Catalog]
    } else {
        seq![]
    }) + (if has_director(p) {
        seq![ProbeView::Bconsole]
    } else {
        seq![]
    }) + (if has_webui(p) {
        seq![
            ProbeView::Http("WebUI root (expect 301/302)"@, webui_root(cfg)),
            ProbeView::Http("WebUI app (expect 200)"@, webui_root(cfg) + "bareos-webui/"@),
        ]
    } else {
        seq![]
    })
}

/// The views of a list of probes.
pub open spec fn probe_views(v: Seq<VerifyProbe>) -> Seq<ProbeView> {
    v.map_values(|p: VerifyProbe| p@)
}

fn webui_root_of(cfg: &InstallConfig) -> (s: String)
    ensures
        s@ == webui_root(*cfg),
{
    let mut s = owned("http://");
    push_str(&mut s, cfg.director_address.as_str());
    push_str(&mut s, ":");
    push_dec(&mut s, cfg.webui_port as u64);
    push_str(&mut s, "/");
    s
}

/// The probes the verify step runs for `cfg`.
pub fn verify_probes(cfg: &InstallConfig) -> (v: Vec<VerifyProbe>)
    ensures
        probe_views(v@) == probes_for(*cfg),
{
    let mut v: Vec<VerifyProbe> = Vec::new();
    if cfg.profile.installs_director() {
        v.push(VerifyProbe::Unit(owned("bareos-director")));
    }
    if cfg.profile.installs_storage() {
        v.push(VerifyProbe::Unit(owned("bareos-storage")));
    }
    if cfg.profile.installs_filedaemon() {
        v.push(VerifyProbe::Unit(owned("bareos-filedaemon")));
    }
    if cfg.profile.installs_catalog() {
        v.push(VerifyProbe::Catalog);
    }
    if cfg.profile.installs_director() {
        v.push(VerifyProbe::Bconsole);
    }
    if cfg.profile.installs_webui() {
        let root = webui_root_of(cfg);
        let mut app = root.clone();
        push_str(&mut app, "bareos-webui/");
        v.push(VerifyProbe::Http { name: owned("WebUI root (expect 301/302)"), url: root });
        v.push(VerifyProbe::Http { name: owned("WebUI app (expect 200)"), url: app });
    }
    assert(probe_views(v@) =~= probes_for(*cfg));
    v
}

/// What running a probe's command gave.
#[derive(Debug, Clone)]
pub enum CommandOutcome {
    /// The command ran; its exit status and output (decoded lossily).
    Ran { success: bool, stdout: String, stderr: String },
    /// The command could not be started; the error text.
    Failed(String),
}

/// A unit check: active units pass, anything else fails with its state.
pub open spec fn unit_check_spec(unit: Seq<char>, o: CommandOutcome) -> (
    Seq<char>,
    CheckStatus,
    Seq<char>,
) {
    let name = unit + " service"@;
    match o {
        CommandOutcome::Ran { stdout, .. } => {
            let s = trim(stdout@);
            if s == "active"@ {
                (name, CheckStatus::Pass, "active"@)
            } else {
                (name, CheckStatus::Fail, s)
            }
        },
        CommandOutcome::Failed(e) => (name, CheckStatus::Fail, "systemctl failed: "@ + e@),
    }
}

pub fn unit_active_check(unit: &str, o: &CommandOutcome) -> (c: PreflightCheck)
    ensures
        c@ == unit_check_spec(unit@, *o),
{
    let mut name = owned(unit);
    push_str(&mut name, " service");
    match o {
        CommandOutcome::Ran { stdout, .. } => {
            let cs = chars_of(stdout.as_str());
            let t = trim_chars(cs.as_slice());
            if eq_lit(t.as_slice(), "active") {
                PreflightCheck { name, status: CheckStatus::Pass, detail: owned("active") }
            } else {
                PreflightCheck { name, status: CheckStatus::Fail, detail: string_of(t.as_slice()) }
            }
        },
        CommandOutcome::Failed(e) => {
            let mut detail = owned("systemctl failed: ");
            push_str(&mut detail, e.as_str());
            PreflightCheck { name, status: CheckStatus::Fail, detail }
        },
    }
}

fn trimmed(s: &String) -> (r: String)
    ensures
        r@ == trim(s@),
{
    let cs = chars_of(s.as_str());
    let t = trim_chars(cs.as_slice());
    string_of(t.as_slice())
}

/// The catalog check: the query must succeed.
pub open spec fn catalog_check_spec(o: CommandOutcome) -> (Seq<char>, CheckStatus, Seq<char>) {
    let name = "Catalog reachable"@;
    match o {
        CommandOutcome::Ran { success, stdout, stderr } => if success {
            (name, CheckStatus::Pass, "version rows: "@ + trim(stdout@))
        } else {
            (name, CheckStatus::Fail, trim(stderr@))
        },
        CommandOutcome::Failed(e) => (name, CheckStatus::Fail, e@),
    }
}

pub fn catalog_check(o: &CommandOutcome) -> (c: PreflightCheck)
    ensures
        c@ == catalog_check_spec(*o),
{
    match o {
        CommandOutcome::Ran { success, stdout, stderr } => {
            if *success {
                let mut detail = owned("version rows: ");
                let t = trimmed(stdout);
                push_str(&mut detail, t.as_str());
                PreflightCheck { name: owned("Catalog reachable"), status: CheckStatus::Pass, detail }
            } else {
                PreflightCheck {
                    name: owned("Catalog reachable"),
                    status: CheckStatus::Fail,
                    detail: trimmed(stderr),
                }
            }
        },
        CommandOutcome::Failed(e) => PreflightCheck {
            name: owned("Catalog reachable"),
            status: CheckStatus::Fail,
            detail: e.clone(),
        },
    }
}

/// The last line of `s`, or `no reply` when it has none.
pub open spec fn last_line_or_no_reply(s: Seq<char>) -> Seq<char> {
    let ls = lines(s);
    if ls.len() > 0 {
        ls.last()
    } else {
        "no reply"@
    }
}

/// The console check: a reply that mentions `OK:` or `Director` passes;
/// anything else only warns.
pub open spec fn bconsole_check_spec(o: CommandOutcome) -> (Seq<char>, CheckStatus, Seq<char>) {
    let name = "bconsole → director"@;
    match o {
        CommandOutcome::Ran { success, stdout, stderr } => if success {
            if contains(stdout@, "OK:"@) || contains(stdout@, "Director"@) {
                (name, CheckStatus::Pass, "status director replied"@)
            } else {
                (name, CheckStatus::Warn, last_line_or_no_reply(stdout@))
            }
        } else {
            (name, CheckStatus::Warn, trim(stderr@))
        },
        CommandOutcome::Failed(e) => (name, CheckStatus::Warn, e@),
    }
}

pub fn bconsole_check(o: &CommandOutcome) -> (c: PreflightCheck)
    ensures
        c@ == bconsole_check_spec(*o),
{
    match o {
        CommandOutcome::Ran { success, stdout, stderr } => {
            if *success {
                let cs = chars_of(stdout.as_str());
                if contains_str(cs.as_slice(), "OK:") || contains_str(cs.as_slice(), "Director") {
                    PreflightCheck {
                        name: owned("bconsole → director"),
                        status: CheckStatus::Pass,
                        detail: owned("status director replied"),
                    }
                } else {
                    let ls = lines_of(stdout.as_str());
                    let detail = if ls.len() > 0 {
                        assert(views(ls@).last() == ls@[ls.len() - 1]@);
                        string_of(ls[ls.len() - 1].as_slice())
                    } else {
                        owned("no reply")
                    };
                    PreflightCheck { name: owned("bconsole → director"), status: CheckStatus::Warn, detail }
                }
            } else {
                PreflightCheck {
                    name: owned("bconsole → director"),
                    status: CheckStatus::Warn,
                    detail: trimmed(stderr),
                }
            }
        },
        CommandOutcome::Failed(e) => PreflightCheck {
            name: owned("bconsole → director"),
            status: CheckStatus::Warn,
            detail: e.clone(),
        },
    }
}

/// HTTP codes the WebUI may answer with when it is up.
pub open spec fn webui_code_ok(code: Seq<char>) -> bool {
    code == "200"@ || code == "301"@ || code == "302"@
}

/// An HTTP check: a 200, 301 or 302 passes; anything else warns.
pub open spec fn http_check_spec(name: Seq<char>, url: Seq<char>, o: CommandOutcome) -> (
    Seq<char>,
    CheckStatus,
    Seq<char>,
) {
    match o {
        CommandOutcome::Ran { success, stdout, stderr } => if success {
            let code = trim(stdout@);
            (
                name,
                if webui_code_ok(code) {
                    CheckStatus::Pass
                } else {
                    CheckStatus::Warn
                },
                "HTTP "@ + code + " @ "@ + url,
            )
        } else {
            (name, CheckStatus::Warn, trim(stderr@))
        },
        CommandOutcome::Failed(e) => (name, CheckStatus::Warn, e@),
    }
}

pub fn http_check(name: &str, url: &str, o: &CommandOutcome) -> (c: PreflightCheck)
    ensures
        c@ == http_check_spec(name@, url@, *o),
{
    match o {
        CommandOutcome::Ran { success, stdout, stderr } => {
            if *success {
                let cs = chars_of(stdout.as_str());
                let code = trim_chars(cs.as_slice());
                let ok = eq_lit(code.as_slice(), "200") || eq_lit(code.as_slice(), "301") || eq_lit(
                    code.as_slice(),
                    "302",
                );
                let mut detail = owned("HTTP ");
                let cstr = string_of(code.as_slice());
                push_str(&mut detail, cstr.as_str());
                push_str(&mut detail, " @ ");
                push_str(&mut detail, url);
                PreflightCheck {
                    name: owned(name),
                    status: if ok {
                        CheckStatus::Pass
                    } else {
                        CheckStatus::Warn
                    },
                    detail,
                }
            } else {
                PreflightCheck { name: owned(name), status: CheckStatus::Warn, detail: trimmed(stderr) }
            }
        },
        CommandOutcome::Failed(e) => PreflightCheck {
            name: owned(name),
            status: CheckStatus::Warn,
            detail: e.clone(),
        },
    }
}

/// The check a probe's outcome gives.
pub open spec fn probe_check_spec(p: ProbeView, o: CommandOutcome) -> (Seq<char>, CheckStatus, Seq<char>) {
    match p {
        ProbeView::Unit(u) => unit_check_spec(u, o),
        ProbeView::Catalog => catalog_check_spec(o),
        ProbeView::Bconsole => bconsole_check_spec(o),
        ProbeView::Http(n, u) => http_check_spec(n, u, o),
    }
}

pub fn check_outcome(p: &VerifyProbe, o: &CommandOutcome) -> (c: PreflightCheck)
    ensures
        c@ == probe_check_spec(p@, *o),
{
    match p {
        VerifyProbe::Unit(u) => unit_active_check(u.as_str(), o),
        VerifyProbe::Catalog => catalog_check(o),
        VerifyProbe::Bconsole => bconsole_check(o),
        VerifyProbe::Http { name, url } => http_check(name.as_str(), url.as_str(), o),
    }
}

/// The log line reporting a verify check: passing checks at `Success`,
/// the rest as warnings.
pub open spec fn verify_log_spec(c: (Seq<char>, CheckStatus, Seq<char>)) -> (LogLevel, Seq<char>) {
    (
        if c.1 == CheckStatus::Pass {
            LogLevel::Success
        } else {
            LogLevel::Warn
        },
        "verify: "@ + c.0 + " → "@ + c.2,
    )
}

pub fn verify_log_line(c: &PreflightCheck) -> (r: (LogLevel, String))
    ensures
        (r.0, r.1@) == verify_log_spec(c@),
{
    let mut m = owned("verify: ");
    push_str(&mut m, c.name.as_str());
    push_str(&mut m, " → ");
    push_str(&mut m, c.detail.as_str());
    let level = if c.status == CheckStatus::Pass {
        LogLevel::Success
    } else {
        LogLevel::Warn
    };
    (level, m)
}

} // verus!
