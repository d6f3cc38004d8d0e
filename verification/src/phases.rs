//! Install phases and the commands they run: which phases a source and
//! profile call for, how a command line is shown, and how it is run under
//! `sudo`.
use vstd::prelude::*;

use crate::model::{has_catalog, has_director, has_webui, InstallConfig, InstallProfile, InstallSource};
use crate::text::{chars_of, dec, is_whitespace, is_ws, owned, push_char, push_dec, push_str, string_of};

verus! {

/// What an install phase does.
#[derive(Debug, Clone, Copy, PartialEq, Eq, Structural)]
pub enum PhaseKind {
    InstallSource,
    BootstrapCatalog,
    RenderConfig,
    EnableServices,
    DeployWebui,
    Reload,
    Verify,
}

/// A numbered install phase.
#[derive(Debug, Clone)]
pub struct Phase {
    pub ordinal: usize,
    pub name: String,
    pub kind: PhaseKind,
}

impl View for Phase {
    type V = (usize, Seq<char>, PhaseKind);

    open spec fn view(&self) -> (usize, Seq<char>, PhaseKind) {
        (self.ordinal, self.name@, self.kind)
    }
}

impl Phase {
    /// A copy of this phase.
    pub fn copy(&self) -> (r: Phase)
        ensures
            r@ == self@,
    {
        Phase { ordinal: self.ordinal, name: self.name.clone(), kind: self.kind }
    }
}

/// A phase scheduled for execution.
#[derive(Debug, Clone)]
pub struct Task {
    pub phase: Phase,
}

/// The views of a sequence of phases.
pub open spec fn phase_views(v: Seq<Phase>) -> Seq<(usize, Seq<char>, PhaseKind)> {
    v.map_values(|p: Phase| p@)
}

/// The text views of a sequence of strings.
pub open spec fn strs(v: Seq<String>) -> Seq<Seq<char>> {
    v.map_values(|s: String| s@)
}

/// Name and kind of each phase that `src` and `profile` call for, in order.
pub open spec fn plan_entries(src: InstallSource, profile: InstallProfile) -> Seq<
    (Seq<char>, PhaseKind),
> {
    let source_part: Seq<(Seq<char>, PhaseKind)> = match src {
        InstallSource::UpstreamCompat => seq![
            ("Install upstream-compat packages"@, PhaseKind::InstallSource),
        ],
        InstallSource::BuildFromSource => seq![
            ("Build + install .deb from source"@, PhaseKind::InstallSource),
        ],
        InstallSource::ConfigureOnly => seq![],
    };
    let catalog_part: Seq<(Seq<char>, PhaseKind)> = if has_catalog(profile) {
        seq![("Bootstrap PostgreSQL catalog"@, PhaseKind::BootstrapCatalog)]
    } else {
        seq![]
    };
    let always_part: Seq<(Seq<char>, PhaseKind)> = seq![
        ("Render NQRustBackup config fragments"@, PhaseKind::RenderConfig),
        ("Enable + start services"@, PhaseKind::EnableServices),
    ];
    let webui_part: Seq<(Seq<char>, PhaseKind)> = if has_webui(profile) {
        seq![("Deploy WebUI"@, PhaseKind::DeployWebui)]
    } else {
        seq![]
    };
    let reload_part: Seq<(Seq<char>, PhaseKind)> = if has_director(profile) {
        seq![("Reload director (pick up new fragments)"@, PhaseKind::Reload)]
    } else {
        seq![]
    };
    source_part + catalog_part + always_part + webui_part + reload_part + seq![
        ("Verify"@, PhaseKind::Verify),
    ]
}

/// The phases numbered from 1 in plan order.
pub open spec fn planned(src: InstallSource, profile: InstallProfile) -> Seq<
    (usize, Seq<char>, PhaseKind),
> {
    let e = plan_entries(src, profile);
    Seq::new(e.len(), |i: int| ((i + 1) as usize, e[i].0, e[i].1))
}

fn push_phase(phases: &mut Vec<Phase>, name: &str, kind: PhaseKind)
    requires
        old(phases).len() < 100,
    ensures
        final(phases).len() == old(phases).len() + 1,
        phase_views(final(phases)@) == phase_views(old(phases)@).push(
            ((old(phases).len() + 1) as usize, name@, kind),
        ),
{
    let ghost before = phase_views(phases@);
    let ordinal = phases.len() + 1;
    phases.push(Phase { ordinal, name: owned(name), kind });
    assert(phase_views(phases@) =~= before.push((ordinal, name@, kind)));
}

/// The phases an install with `src` and `profile` runs, numbered from 1.
pub fn planned_phases(src: InstallSource, profile: InstallProfile) -> (phases: Vec<Phase>)
    ensures
        phase_views(phases@) == planned(src, profile),
{
    let mut phases: Vec<Phase> = Vec::new();
    match src {
        InstallSource::UpstreamCompat => push_phase(
            &mut phases,
            "Install upstream-compat packages",
            PhaseKind::InstallSource,
        ),
        InstallSource::BuildFromSource => push_phase(
            &mut phases,
            "Build + install .deb from source",
            PhaseKind::InstallSource,
        ),
        InstallSource::ConfigureOnly => {},
    }
    if profile.installs_catalog() {
        push_phase(&mut phases, "Bootstrap PostgreSQL catalog", PhaseKind::BootstrapCatalog);
    }
    push_phase(&mut phases, "Render NQRustBackup config fragments", PhaseKind::RenderConfig);
    push_phase(&mut phases, "Enable + start services", PhaseKind::EnableServices);
    if profile.installs_webui() {
        push_phase(&mut phases, "Deploy WebUI", PhaseKind::DeployWebui);
    }
    if profile.installs_director() {
        push_phase(
            &mut phases,
            "Reload director (pick up new fragments)",
            PhaseKind::Reload,
        );
    }
    push_phase(&mut phases, "Verify", PhaseKind::Verify);
    assert(phase_views(phases@) =~= planned(src, profile));
    phases
}

/// The tasks of an install with configuration `cfg`, one per planned phase.
pub fn build_tasks(cfg: &InstallConfig) -> (tasks: Vec<Task>)
    ensures
        tasks@.map_values(|t: Task| t.phase@) == planned(cfg.source, cfg.profile),
{
    let phases = planned_phases(cfg.source, cfg.profile);
    let mut tasks: Vec<Task> = Vec::new();
    let n = phases.len();
    let mut rest = phases;
    let mut rev: Vec<Phase> = Vec::new();
    // Move the phases out from the back, then emit them front to back.
    while rest.len() > 0
        invariant
            rest.len() + rev.len() == n,
            n == planned(cfg.source, cfg.profile).len(),
            forall|i: int| 0 <= i < rest.len() ==> #[trigger] rest@[i]@ == planned(cfg.source, cfg.profile)[i],
            forall|j: int| 0 <= j < rev.len() ==> #[trigger] rev@[j]@ == planned(cfg.source, cfg.profile)[n - 1 - j],
        decreases rest.len(),
    {
        let p = rest.pop().unwrap();
        rev.push(p);
    }
    while rev.len() > 0
        invariant
            tasks.len() + rev.len() == n,
            n == planned(cfg.source, cfg.profile).len(),
            forall|j: int| 0 <= j < rev.len() ==> #[trigger] rev@[j]@ == planned(cfg.source, cfg.profile)[n - 1 - j],
            forall|i: int| 0 <= i < tasks.len() ==> #[trigger] tasks@[i].phase@ == planned(cfg.source, cfg.profile)[i],
        decreases rev.len(),
    {
        let p = rev.pop().unwrap();
        tasks.push(Task { phase: p });
    }
    assert(tasks@.map_values(|t: Task| t.phase@) =~= planned(cfg.source, cfg.profile));
    tasks
}

// ---------------------------------------------------------------------------
// Showing a command line
// ---------------------------------------------------------------------------

/// A word needs quoting when it holds whitespace, a quote or a `$`.
pub open spec fn needs_quoting(s: Seq<char>) -> bool {
    exists|i: int| 0 <= i < s.len() && (is_ws(s[i]) || s[i] == '\'' || s[i] == '"' || s[i] == '$')
}

/// `s` with every `'` replaced by `'\''`.
pub open spec fn escape_quotes(s: Seq<char>) -> Seq<char>
    decreases s.len(),
{
    if s.len() == 0 {
        Seq::empty()
    } else {
        escape_quotes(s.drop_last()) + if s.last() == '\'' {
            seq!['\'', '\\', '\'', '\'']
        } else {
            seq![s.last()]
        }
    }
}

/// A word as shown in a command line: single-quoted when it needs quoting.
pub open spec fn shell_word(s: Seq<char>) -> Seq<char> {
    if needs_quoting(s) {
        seq!['\''] + escape_quotes(s) + seq!['\'']
    } else {
        s
    }
}

/// The pieces joined with `sep` between neighbours.
pub open spec fn join(parts: Seq<Seq<char>>, sep: Seq<char>) -> Seq<char>
    decreases parts.len(),
{
    if parts.len() == 0 {
        Seq::empty()
    } else if parts.len() == 1 {
        parts[0]
    } else {
        join(parts.drop_last(), sep) + sep + parts.last()
    }
}

/// A command line as shown in the log.
pub open spec fn shown_command(cmd: Seq<Seq<char>>) -> Seq<char> {
    join(cmd.map_values(|w: Seq<char>| shell_word(w)), seq![' '])
}

/// Quotes `s` for display when it holds whitespace, a quote or `$`.
pub fn shell_escape_if_needed(s: &str) -> (r: String)
    ensures
        r@ == shell_word(s@),
{
    let cs = chars_of(s);
    let mut needs = false;
    let mut i: usize = 0;
    while i < cs.len()
        invariant
            cs@ == s@,
            i <= cs.len(),
            needs == exists|j: int| 0 <= j < i && (is_ws(cs@[j]) || cs@[j] == '\'' || cs@[j] == '"' || cs@[j] == '$'),
        decreases cs.len() - i,
    {
        let c = cs[i];
        if is_whitespace(c) || c == '\'' || c == '"' || c == '$' {
            needs = true;
        }
        i = i + 1;
    }
    if !needs {
        return string_of(cs.as_slice());
    }
    let mut r = String::new();
    push_char(&mut r, '\'');
    let ghost r0 = r@;
    let mut k: usize = 0;
    while k < cs.len()
        invariant
            cs@ == s@,
            k <= cs.len(),
            r0 == seq!['\''],
            r@ == r0 + escape_quotes(cs@.take(k as int)),
        decreases cs.len() - k,
    {
        let c = cs[k];
        assert(cs@.take(k + 1).drop_last() == cs@.take(k as int));
        if c == '\'' {
            push_char(&mut r, '\'');
            push_char(&mut r, '\\');
            push_char(&mut r, '\'');
            push_char(&mut r, '\'');
        } else {
            push_char(&mut r, c);
        }
        assert(r@ =~= r0 + escape_quotes(cs@.take(k + 1)));
        k = k + 1;
    }
    assert(cs@.take(cs.len() as int) == cs@);
    push_char(&mut r, '\'');
    r
}

/// Joins the words of `words` with single spaces.
pub fn join_words(words: &[String]) -> (r: String)
    ensures
        r@ == join(strs(words@), seq![' ']),
{
    let mut r = String::new();
    let mut i: usize = 0;
    while i < words.len()
        invariant
            i <= words.len(),
            r@ == join(strs(words@).take(i as int), seq![' ']),
        decreases words.len() - i,
    {
        assert(strs(words@).take(i + 1).drop_last() =~= strs(words@).take(i as int));
        if i > 0 {
            push_char(&mut r, ' ');
        }
        push_str(&mut r, words[i].as_str());
        assert(r@ =~= join(strs(words@).take(i + 1), seq![' ']));
        i = i + 1;
    }
    assert(strs(words@).take(words.len() as int) =~= strs(words@));
    r
}

/// The command line `cmd` as shown in the log, each word quoted as needed.
pub fn render_cmd(cmd: &[String]) -> (r: String)
    ensures
        r@ == shown_command(strs(cmd@)),
{
    let mut shown: Vec<String> = Vec::new();
    let mut i: usize = 0;
    while i < cmd.len()
        invariant
            i <= cmd.len(),
            shown.len() == i,
            forall|j: int| 0 <= j < i ==> #[trigger] shown@[j]@ == shell_word(cmd@[j]@),
        decreases cmd.len() - i,
    {
        let w = shell_escape_if_needed(cmd[i].as_str());
        shown.push(w);
        i = i + 1;
    }
    assert(strs(shown@) =~= strs(cmd@).map_values(|w: Seq<char>| shell_word(w)));
    join_words(shown.as_slice())
}

// ---------------------------------------------------------------------------
// Running a command under sudo
// ---------------------------------------------------------------------------

/// Program and arguments that run `cmd` with root rights: directly when
/// already root (where `cmd` names the program), else through `sudo -n`,
/// which is handed `cmd` as it is, empty or not.
pub open spec fn sudo_command(cmd: Seq<Seq<char>>, am_root: bool) -> (Seq<char>, Seq<Seq<char>>) {
    if am_root {
        (cmd[0], cmd.drop_first())
    } else {
        ("sudo"@, seq!["-n"@] + cmd)
    }
}

fn copy_strings(v: &[String], from: usize) -> (out: Vec<String>)
    requires
        from <= v.len(),
    ensures
        strs(out@) == strs(v@).skip(from as int),
{
    let mut out: Vec<String> = Vec::new();
    let mut i = from;
    while i < v.len()
        invariant
            from <= i <= v.len(),
            out.len() == i - from,
            forall|j: int| 0 <= j < i - from ==> #[trigger] out@[j]@ == v@[from + j]@,
        decreases v.len() - i,
    {
        out.push(v[i].clone());
        i = i + 1;
    }
    assert(strs(out@) =~= strs(v@).skip(from as int));
    out
}

/// The program and arguments that run `cmd` with root rights.
pub fn build_sudo_cmd(cmd: &[String], am_root: bool) -> (r: (String, Vec<String>))
    requires
        !am_root || cmd.len() >= 1,
    ensures
        (r.0@, strs(r.1@)) == sudo_command(strs(cmd@), am_root),
{
    if am_root {
        let program = cmd[0].clone();
        let args = copy_strings(cmd, 1);
        (program, args)
    } else {
        let mut args: Vec<String> = Vec::new();
        args.push(owned("-n"));
        let rest = copy_strings(cmd, 0);
        let ghost a = strs(args@);
        let ghost b = strs(rest@);
        let mut rest = rest;
        args.append(&mut rest);
        assert(strs(args@) =~= a + b);
        assert(strs(cmd@).skip(0) =~= strs(cmd@));
        (owned("sudo"), args)
    }
}

/// What to do for a privileged command.
pub enum RunPlan {
    /// Only log that the command would run.
    DryRun { message: String },
    /// Run `program` with `args`, after logging `banner`.
    Execute { program: String, args: Vec<String>, banner: String },
}

/// The plan for running `cmd` with root rights.
pub open spec fn run_plan_ok(cmd: Seq<Seq<char>>, dry_run: bool, am_root: bool, p: RunPlan) -> bool {
    if dry_run {
        p matches RunPlan::DryRun { message } && message@ == "(dry-run) would run: "@
            + shown_command(cmd)
    } else {
        let (prog, args) = sudo_command(cmd, am_root);
        p matches RunPlan::Execute { program, args: a, banner } && program@ == prog && strs(a@)
            == args && banner@ == "$ "@ + prog + seq![' '] + join(args, seq![' '])
    }
}

/// Decides how a privileged command is run: in a dry run it is only logged;
/// otherwise it runs directly (as root) or through `sudo -n`, after a
/// `$ program args` log line.
pub fn plan_run(cmd: &[String], dry_run: bool, am_root: bool) -> (p: RunPlan)
    requires
        dry_run || !am_root || cmd.len() >= 1,
    ensures
        run_plan_ok(strs(cmd@), dry_run, am_root, p),
{
    if dry_run {
        let mut message = owned("(dry-run) would run: ");
        let shown = render_cmd(cmd);
        push_str(&mut message, shown.as_str());
        return RunPlan::DryRun { message };
    }
    let (program, args) = build_sudo_cmd(cmd, am_root);
    let mut banner = owned("$ ");
    push_str(&mut banner, program.as_str());
    push_char(&mut banner, ' ');
    let joined = join_words(args.as_slice());
    push_str(&mut banner, joined.as_str());
    assert(banner@ =~= "$ "@ + program@ + seq![' '] + joined@);
    RunPlan::Execute { program, args, banner }
}

/// The error reported when a command exits unsuccessfully.
pub fn failure_message(status: &str, cmd: &[String]) -> (r: String)
    ensures
        r@ == "command failed with status "@ + status@ + ": "@ + shown_command(strs(cmd@)),
{
    let mut r = owned("command failed with status ");
    push_str(&mut r, status);
    push_str(&mut r, ": ");
    let shown = render_cmd(cmd);
    push_str(&mut r, shown.as_str());
    r
}

// ---------------------------------------------------------------------------
// Phase log lines
// ---------------------------------------------------------------------------

/// `"<mark> phase <ordinal>: <name>"`.
pub open spec fn phase_line(mark: Seq<char>, p: (usize, Seq<char>, PhaseKind)) -> Seq<char> {
    mark + " phase "@ + dec(p.0 as nat) + ": "@ + p.1
}

fn phase_message(mark: &str, phase: &Phase) -> (r: String)
    ensures
        r@ == phase_line(mark@, phase@),
{
    let mut r = owned(mark);
    push_str(&mut r, " phase ");
    push_dec(&mut r, phase.ordinal as u64);
    push_str(&mut r, ": ");
    push_str(&mut r, phase.name.as_str());
    r
}

/// Logged when a phase starts.
pub fn phase_started_message(phase: &Phase) -> (r: String)
    ensures
        r@ == phase_line("▶"@, phase@),
{
    phase_message("▶", phase)
}

/// Logged when a phase succeeds.
pub fn phase_succeeded_message(phase: &Phase) -> (r: String)
    ensures
        r@ == phase_line("✓"@, phase@),
{
    phase_message("✓", phase)
}

/// Logged when a phase fails with `error`.
pub fn phase_failed_message(phase: &Phase, error: &str) -> (r: String)
    ensures
        r@ == phase_line("✗"@, phase@) + " — "@ + error@,
{
    let mut r = phase_message("✗", phase);
    push_str(&mut r, " — ");
    push_str(&mut r, error);
    r
}

/// The line the command-line mode prints before running task `i` (from 0)
/// of `total`: `">> phase <i + 1>/<total>: <name>"`.
pub fn phase_progress_line(i: usize, total: usize, name: &str) -> (r: String)
    requires
        i < total,
    ensures
        r@ == ">> phase "@ + dec((i + 1) as nat) + "/"@ + dec(total as nat) + ": "@ + name@,
{
    let mut r = owned(">> phase ");
    push_dec(&mut r, (i + 1) as u64);
    push_str(&mut r, "/");
    push_dec(&mut r, total as u64);
    push_str(&mut r, ": ");
    push_str(&mut r, name);
    r
}

} // verus!
