//! The installer wizard as a state machine: the application state, how a
//! key press changes it, and what the caller must do next.
use vstd::prelude::*;

use crate::log::LogRing;
use crate::model::{
    has_webui, profile_at, source_at, CheckStatus, InstallConfig, InstallProfile, InstallSource,
    PreflightCheck, Screen, PROFILE_COUNT, SOURCE_COUNT,
};
use crate::phases::{planned, planned_phases, Phase, PhaseKind};
use crate::preflight::{all_ok, none_failed};
use crate::text::{dec, owned, push_dec, push_str};

verus! {

/// A key, as the wizard distinguishes them.
#[derive(Debug, Clone, Copy, PartialEq, Eq, Structural)]
pub enum Key {
    Enter,
    Esc,
    Up,
    Down,
    Char(char),
    Other,
}

/// A key press, with whether Control was held.
#[derive(Debug, Clone, Copy, PartialEq, Eq, Structural)]
pub struct KeyPress {
    pub key: Key,
    pub ctrl: bool,
}

/// Work the caller must do after a key press; its results come back
/// through [`App::set_preflight`] and [`App::set_verify`].
#[derive(Debug, Clone, Copy, PartialEq, Eq, Structural)]
pub enum Action {
    Nothing,
    /// Run the pre-flight checks.
    RunPreflight,
    /// Start running the tasks of `app.phases`, reporting each phase's status.
    StartExecutor,
    /// Run the verify probes.
    RunVerify,
}

/// Number of lines the wizard's log keeps.
pub const LOG_CAPACITY: usize = 2000;

/// The wizard's state.
#[derive(Debug)]
pub struct App {
    pub screen: Screen,
    pub config: InstallConfig,
    pub preflight: Vec<PreflightCheck>,
    pub source_idx: usize,
    pub profile_idx: usize,
    pub config_focus: usize,
    /// The planned phases and their last known status.
    pub phases: Vec<(Phase, CheckStatus)>,
    pub current_phase: usize,
    pub verify: Vec<PreflightCheck>,
    pub log: LogRing,
    pub error_message: Option<String>,
    pub spinner_tick: usize,
    pub should_quit: bool,
    pub complete_url: Option<String>,
    /// The executor is running; the user may not quit with `q`.
    pub executor_running: bool,
}

/// The menu positions point into the offered lists.
pub open spec fn app_wf(a: App) -> bool {
    a.source_idx < SOURCE_COUNT && a.profile_idx < PROFILE_COUNT
}

/// The phase views and statuses of the progress list.
pub open spec fn phase_rows(v: Seq<(Phase, CheckStatus)>) -> Seq<((usize, Seq<char>, PhaseKind), CheckStatus)> {
    v.map_values(|x: (Phase, CheckStatus)| (x.0@, x.1))
}

/// The statuses of the progress list.
pub open spec fn statuses(v: Seq<(Phase, CheckStatus)>) -> Seq<CheckStatus> {
    v.map_values(|x: (Phase, CheckStatus)| x.1)
}

/// The progress list with the executor's statuses copied in, position by
/// position, as far as the executor reports.
pub open spec fn synced(v: Seq<(Phase, CheckStatus)>, st: Seq<CheckStatus>) -> Seq<(Phase, CheckStatus)> {
    Seq::new(v.len(), |i: int| (v[i].0, if i < st.len() { st[i] } else { v[i].1 }))
}

/// Some phase failed.
pub open spec fn any_failed(s: Seq<CheckStatus>) -> bool {
    exists|i: int| 0 <= i < s.len() && s[i] == CheckStatus::Fail
}

/// There are phases and all of them passed.
pub open spec fn all_passed(s: Seq<CheckStatus>) -> bool {
    s.len() > 0 && forall|i: int| 0 <= i < s.len() ==> s[i] == CheckStatus::Pass
}

/// The state after the keys every screen honours: `q` quits unless an
/// install is running, Control-C always quits.
pub open spec fn after_global(a: App, k: KeyPress) -> App {
    App {
        should_quit: a.should_quit || (k.key == Key::Char('q') && !a.executor_running) || (k.key
            == Key::Char('c') && k.ctrl),
        ..a
    }
}

/// The message shown when an install phase failed.
pub open spec fn install_failed_message() -> Seq<char> {
    "Install failed. See log above for the first failing phase."@
}

/// The WebUI address offered on the completion screen.
pub open spec fn complete_url_spec(c: InstallConfig) -> Seq<char> {
    "http://"@ + c.director_address@ + ":"@ + dec(c.webui_port as nat) + "/bareos-webui/"@
}

/// How the current screen handles key `k` in state `m`, leading to state
/// `n` and action `act`. `st` is what the executor reports, if it runs.
pub open spec fn screen_transition(
    m: App,
    k: KeyPress,
    st: Option<Seq<CheckStatus>>,
    n: App,
    act: Action,
) -> bool {
    let key = k.key;
    match m.screen {
        Screen::Welcome => act == Action::Nothing && n == if key == Key::Enter {
            App { screen: Screen::Preflight, ..m }
        } else {
            m
        },
        Screen::Preflight => if key == Key::Esc {
            act == Action::Nothing && n == App { screen: Screen::Welcome, ..m }
        } else if (key == Key::Char('r') || key == Key::Enter) && m.preflight@.len() == 0 {
            act == Action::RunPreflight && n == m
        } else if key == Key::Char('r') {
            act == Action::RunPreflight && n == App { preflight: n.preflight, ..m }
                && n.preflight@.len() == 0
        } else if key == Key::Enter && none_failed(m.preflight@) {
            act == Action::Nothing && n == App { screen: Screen::SourceSelect, ..m }
        } else {
            act == Action::Nothing && n == m
        },
        Screen::SourceSelect => act == Action::Nothing && n == if key == Key::Up {
            App { source_idx: if m.source_idx > 0 { (m.source_idx - 1) as usize } else { m.source_idx }, ..m }
        } else if key == Key::Down {
            App {
                source_idx: if m.source_idx + 1 < SOURCE_COUNT {
                    (m.source_idx + 1) as usize
                } else {
                    m.source_idx
                },
                ..m
            }
        } else if key == Key::Enter {
            App {
                config: InstallConfig { source: source_at(m.source_idx as int), ..m.config },
                screen: Screen::ProfileSelect,
                ..m
            }
        } else if key == Key::Esc {
            App { screen: Screen::Preflight, ..m }
        } else {
            m
        },
        Screen::ProfileSelect => act == Action::Nothing && n == if key == Key::Up {
            App { profile_idx: if m.profile_idx > 0 { (m.profile_idx - 1) as usize } else { m.profile_idx }, ..m }
        } else if key == Key::Down {
            App {
                profile_idx: if m.profile_idx + 1 < PROFILE_COUNT {
                    (m.profile_idx + 1) as usize
                } else {
                    m.profile_idx
                },
                ..m
            }
        } else if key == Key::Enter {
            App {
                config: InstallConfig { profile: profile_at(m.profile_idx as int), ..m.config },
                screen: Screen::Config,
                ..m
            }
        } else if key == Key::Esc {
            App { screen: Screen::SourceSelect, ..m }
        } else {
            m
        },
        Screen::Config => if key == Key::Esc {
            act == Action::Nothing && n == App { screen: Screen::ProfileSelect, ..m }
        } else if key == Key::Enter {
            &&& act == Action::StartExecutor
            &&& n == App {
                phases: n.phases,
                current_phase: 0,
                screen: Screen::Progress,
                executor_running: true,
                ..m
            }
            &&& phase_rows(n.phases@) == planned(m.config.source, m.config.profile).map_values(
                |p: (usize, Seq<char>, PhaseKind)| (p, CheckStatus::Pending),
            )
        } else {
            act == Action::Nothing && n == m
        },
        Screen::Progress => {
            let rows = match st {
                Some(s) => synced(m.phases@, s),
                None => m.phases@,
            };
            let sts = statuses(rows);
            &&& act == Action::Nothing
            &&& n.phases@ == rows
            &&& if key == Key::Enter && any_failed(sts) {
                &&& n == App {
                    phases: n.phases,
                    error_message: n.error_message,
                    executor_running: false,
                    screen: Screen::Error,
                    ..m
                }
                &&& n.error_message matches Some(e) && e@ == install_failed_message()
            } else if key == Key::Enter && all_passed(sts) {
                n == App { phases: n.phases, executor_running: false, screen: Screen::Verify, ..m }
            } else {
                n == App { phases: n.phases, ..m }
            }
        },
        Screen::Verify => if key == Key::Char('r') {
            act == Action::RunVerify && n == App { verify: n.verify, ..m } && n.verify@.len() == 0
        } else if key == Key::Enter && m.verify@.len() == 0 {
            act == Action::RunVerify && n == m
        } else if key == Key::Enter {
            &&& act == Action::Nothing
            &&& n == App { complete_url: n.complete_url, screen: Screen::Complete, ..m }
            &&& if has_webui(m.config.profile) {
                n.complete_url matches Some(u) && u@ == complete_url_spec(m.config)
            } else {
                n.complete_url == m.complete_url
            }
        } else {
            act == Action::Nothing && n == m
        },
        Screen::Complete => act == Action::Nothing && n == if key == Key::Enter || key == Key::Char(
            'q',
        ) {
            App { should_quit: true, ..m }
        } else {
            m
        },
        Screen::Error => act == Action::Nothing && n == if key == Key::Char('q') || key == Key::Enter
            || key == Key::Esc {
            App { should_quit: true, ..m }
        } else {
            m
        },
    }
}

/// The executor's report as a sequence.
pub open spec fn report_view(st: Option<&[CheckStatus]>) -> Option<Seq<CheckStatus>> {
    match st {
        Some(s) => Some(s@),
        None => None,
    }
}

impl App {
    /// The wizard at its welcome screen, with configuration `config`.
    pub fn new(config: InstallConfig) -> (a: App)
        ensures
            a.screen == Screen::Welcome,
            a.config == config,
            a.preflight@.len() == 0,
            a.source_idx == 0,
            a.profile_idx == 0,
            a.config_focus == 0,
            a.phases@.len() == 0,
            a.current_phase == 0,
            a.verify@.len() == 0,
            a.log@.len() == 0,
            a.log.max == LOG_CAPACITY,
            a.error_message is None,
            a.spinner_tick == 0,
            !a.should_quit,
            a.complete_url is None,
            !a.executor_running,
            app_wf(a),
    {
        App {
            screen: Screen::Welcome,
            config,
            preflight: Vec::new(),
            source_idx: 0,
            profile_idx: 0,
            config_focus: 0,
            phases: Vec::new(),
            current_phase: 0,
            verify: Vec::new(),
            log: LogRing::new(LOG_CAPACITY),
            error_message: None,
            spinner_tick: 0,
            should_quit: false,
            complete_url: None,
            executor_running: false,
        }
    }

    /// The install source under the menu cursor.
    pub fn selected_source(&self) -> (s: InstallSource)
        requires
            self.source_idx < SOURCE_COUNT,
        ensures
            s == source_at(self.source_idx as int),
    {
        InstallSource::at(self.source_idx)
    }

    /// The install profile under the menu cursor.
    pub fn selected_profile(&self) -> (p: InstallProfile)
        requires
            self.profile_idx < PROFILE_COUNT,
        ensures
            p == profile_at(self.profile_idx as int),
    {
        InstallProfile::at(self.profile_idx)
    }

    /// Advances the spinner, wrapping around.
    pub fn tick(&mut self)
        ensures
            *final(self) == (App {
                spinner_tick: if old(self).spinner_tick == usize::MAX {
                    0
                } else {
                    (old(self).spinner_tick + 1) as usize
                },
                ..*old(self)
            }),
    {
        if self.spinner_tick == usize::MAX {
            self.spinner_tick = 0;
        } else {
            self.spinner_tick = self.spinner_tick + 1;
        }
    }

    /// Records the pre-flight results.
    pub fn set_preflight(&mut self, checks: Vec<PreflightCheck>)
        ensures
            *final(self) == (App { preflight: checks, ..*old(self) }),
    {
        self.preflight = checks;
    }

    /// Records the verify results.
    pub fn set_verify(&mut self, checks: Vec<PreflightCheck>)
        ensures
            *final(self) == (App { verify: checks, ..*old(self) }),
    {
        self.verify = checks;
    }

    fn sync_phases(&mut self, st: &[CheckStatus])
        ensures
            *final(self) == (App { phases: final(self).phases, ..*old(self) }),
            final(self).phases@ == synced(old(self).phases@, st@),
    {
        let n = self.phases.len();
        let mut i: usize = 0;
        while i < n
            invariant
                n == self.phases.len(),
                n == old(self).phases@.len(),
                i <= n,
                *self == (App { phases: self.phases, ..*old(self) }),
                forall|j: int| 0 <= j < n ==> (#[trigger] self.phases@[j]).0 == old(self).phases@[j].0,
                forall|j: int| 0 <= j < i ==> (#[trigger] self.phases@[j]).1 == (if j < st@.len() { st@[j] } else { old(self).phases@[j].1 }),
                forall|j: int| i <= j < n ==> (#[trigger] self.phases@[j]).1 == old(self).phases@[j].1,
            decreases n - i,
        {
            if i < st.len() {
                self.phases[i].1 = st[i];
            }
            i = i + 1;
        }
        assert(self.phases@ =~= synced(old(self).phases@, st@));
    }

    /// Handles key `k`. `st` is what the executor reports for each phase,
    /// when one runs. Returns the work the caller must do next.
    pub fn handle_key(&mut self, k: KeyPress, st: Option<&[CheckStatus]>) -> (act: Action)
        requires
            app_wf(*old(self)),
        ensures
            app_wf(*final(self)),
            screen_transition(after_global(*old(self), k), k, report_view(st), *final(self), act),
    {
        if k.key == Key::Char('q') && !self.executor_running {
            self.should_quit = true;
        }
        if k.key == Key::Char('c') && k.ctrl {
            self.should_quit = true;
        }
        let ghost m = *self;
        assert(m == after_global(*old(self), k));
        let key = k.key;
        match self.screen {
            Screen::Welcome => {
                if key == Key::Enter {
                    self.screen = Screen::Preflight;
                }
                Action::Nothing
            },
            Screen::Preflight => {
                if key == Key::Esc {
                    self.screen = Screen::Welcome;
                    Action::Nothing
                } else if (key == Key::Char('r') || key == Key::Enter) && self.preflight.len() == 0 {
                    Action::RunPreflight
                } else if key == Key::Char('r') {
                    self.preflight.clear();
                    Action::RunPreflight
                } else if key == Key::Enter {
                    if all_ok(self.preflight.as_slice()) {
                        self.screen = Screen::SourceSelect;
                    }
                    Action::Nothing
                } else {
                    Action::Nothing
                }
            },
            Screen::SourceSelect => {
                if key == Key::Up {
                    if self.source_idx > 0 {
                        self.source_idx = self.source_idx - 1;
                    }
                } else if key == Key::Down {
                    if self.source_idx + 1 < SOURCE_COUNT {
                        self.source_idx = self.source_idx + 1;
                    }
                } else if key == Key::Enter {
                    self.config.source = self.selected_source();
                    self.screen = Screen::ProfileSelect;
                } else if key == Key::Esc {
                    self.screen = Screen::Preflight;
                }
                Action::Nothing
            },
            Screen::ProfileSelect => {
                if key == Key::Up {
                    if self.profile_idx > 0 {
                        self.profile_idx = self.profile_idx - 1;
                    }
                } else if key == Key::Down {
                    if self.profile_idx + 1 < PROFILE_COUNT {
                        self.profile_idx = self.profile_idx + 1;
                    }
                } else if key == Key::Enter {
                    self.config.profile = self.selected_profile();
                    self.screen = Screen::Config;
                } else if key == Key::Esc {
                    self.screen = Screen::SourceSelect;
                }
                Action::Nothing
            },
            Screen::Config => {
                if key == Key::Esc {
                    self.screen = Screen::ProfileSelect;
                    Action::Nothing
                } else if key == Key::Enter {
                    let planned_list = planned_phases(self.config.source, self.config.profile);
                    let ghost pv = planned(self.config.source, self.config.profile);
                    let mut rest = planned_list;
                    let mut rev: Vec<(Phase, CheckStatus)> = Vec::new();
                    let n = rest.len();
                    while rest.len() > 0
                        invariant
                            rest.len() + rev.len() == n,
                            n == pv.len(),
                            forall|i: int| 0 <= i < rest.len() ==> #[trigger] rest@[i]@ == pv[i],
                            forall|j: int| 0 <= j < rev.len() ==> (#[trigger] rev@[j]).0@ == pv[n - 1 - j] && rev@[j].1 == CheckStatus::Pending,
                        decreases rest.len(),
                    {
                        let p = rest.pop().unwrap();
                        rev.push((p, CheckStatus::Pending));
                    }
                    let mut rows: Vec<(Phase, CheckStatus)> = Vec::new();
                    while rev.len() > 0
                        invariant
                            rows.len() + rev.len() == n,
                            n == pv.len(),
                            forall|j: int| 0 <= j < rev.len() ==> (#[trigger] rev@[j]).0@ == pv[n - 1 - j] && rev@[j].1 == CheckStatus::Pending,
                            forall|i: int| 0 <= i < rows.len() ==> (#[trigger] rows@[i]).0@ == pv[i] && rows@[i].1 == CheckStatus::Pending,
                        decreases rev.len(),
                    {
                        let r = rev.pop().unwrap();
                        rows.push(r);
                    }
                    assert(phase_rows(rows@) =~= pv.map_values(
                        |p: (usize, Seq<char>, PhaseKind)| (p, CheckStatus::Pending),
                    ));
                    self.phases = rows;
                    self.current_phase = 0;
                    self.screen = Screen::Progress;
                    self.executor_running = true;
                    Action::StartExecutor
                } else {
                    Action::Nothing
                }
            },
            Screen::Progress => {
                match st {
                    Some(s) => self.sync_phases(s),
                    None => {},
                }
                let mut any_fail = false;
                let mut every_pass = self.phases.len() > 0;
                let mut i: usize = 0;
                while i < self.phases.len()
                    invariant
                        i <= self.phases.len(),
                        any_fail == exists|j: int| 0 <= j < i && self.phases@[j].1 == CheckStatus::Fail,
                        every_pass == (self.phases.len() > 0 && forall|j: int| 0 <= j < i ==> self.phases@[j].1 == CheckStatus::Pass),
                    decreases self.phases.len() - i,
                {
                    if self.phases[i].1 == CheckStatus::Fail {
                        any_fail = true;
                    }
                    if self.phases[i].1 != CheckStatus::Pass {
                        every_pass = false;
                    }
                    i = i + 1;
                }
                let ghost sts = statuses(self.phases@);
                assert(any_fail == any_failed(sts)) by {
                    if any_fail {
                        let j = choose|j: int| 0 <= j < self.phases.len() && self.phases@[j].1 == CheckStatus::Fail;
                        assert(sts[j] == CheckStatus::Fail);
                    }
                    if any_failed(sts) {
                        let j = choose|j: int| 0 <= j < sts.len() && sts[j] == CheckStatus::Fail;
                        assert(self.phases@[j].1 == CheckStatus::Fail);
                    }
                }
                assert(every_pass == all_passed(sts)) by {
                    if all_passed(sts) {
                        assert forall|j: int| 0 <= j < self.phases.len() implies self.phases@[j].1 == CheckStatus::Pass by {
                            assert(sts[j] == CheckStatus::Pass);
                        }
                    }
                }
                if key == Key::Enter && any_fail {
                    self.error_message = Some(owned("Install failed. See log above for the first failing phase."));
                    self.executor_running = false;
                    self.screen = Screen::Error;
                } else if key == Key::Enter && every_pass {
                    self.executor_running = false;
                    self.screen = Screen::Verify;
                }
                Action::Nothing
            },
            Screen::Verify => {
                if key == Key::Char('r') {
                    self.verify.clear();
                    Action::RunVerify
                } else if key == Key::Enter && self.verify.len() == 0 {
                    Action::RunVerify
                } else if key == Key::Enter {
                    if self.config.profile.installs_webui() {
                        let mut url = owned("http://");
                        push_str(&mut url, self.config.director_address.as_str());
                        push_str(&mut url, ":");
                        push_dec(&mut url, self.config.webui_port as u64);
                        push_str(&mut url, "/bareos-webui/");
                        self.complete_url = Some(url);
                    }
                    self.screen = Screen::Complete;
                    Action::Nothing
                } else {
                    Action::Nothing
                }
            },
            Screen::Complete => {
                if key == Key::Enter || key == Key::Char('q') {
                    self.should_quit = true;
                }
                Action::Nothing
            },
            Screen::Error => {
                if key == Key::Char('q') || key == Key::Enter || key == Key::Esc {
                    self.should_quit = true;
                }
                Action::Nothing
            },
        }
    }
}


// ---------------------------------------------------------------------------
// What the screens show
// ---------------------------------------------------------------------------

/// Frames of the activity spinner.
pub open spec fn spinner_frame(i: nat) -> Seq<char> {
    if i == 0 {
        "⠋"@
    } else if i == 1 {
        "⠙"@
    } else if i == 2 {
        "⠹"@
    } else if i == 3 {
        "⠸"@
    } else if i == 4 {
        "⠼"@
    } else if i == 5 {
        "⠴"@
    } else if i == 6 {
        "⠦"@
    } else if i == 7 {
        "⠧"@
    } else if i == 8 {
        "⠇"@
    } else {
        "⠏"@
    }
}

/// The glyph shown for a status; a running item shows the spinner frame of
/// the current tick.
pub open spec fn status_glyph_spec(s: CheckStatus, tick: usize) -> Seq<char> {
    match s {
        CheckStatus::Pending => "○"@,
        CheckStatus::Running => spinner_frame((tick % 10) as nat),
        CheckStatus::Pass => "✓"@,
        CheckStatus::Warn => "▶"@,
        CheckStatus::Fail => "✗"@,
    }
}

pub fn status_glyph(s: CheckStatus, tick: usize) -> (g: &'static str)
    ensures
        g@ == status_glyph_spec(s, tick),
{
    match s {
        CheckStatus::Pending => "○",
        CheckStatus::Running => {
            let i = tick % 10;
            if i == 0 {
                "⠋"
            } else if i == 1 {
                "⠙"
            } else if i == 2 {
                "⠹"
            } else if i == 3 {
                "⠸"
            } else if i == 4 {
                "⠼"
            } else if i == 5 {
                "⠴"
            } else if i == 6 {
                "⠦"
            } else if i == 7 {
                "⠧"
            } else if i == 8 {
                "⠇"
            } else {
                "⠏"
            }
        },
        CheckStatus::Pass => "✓",
        CheckStatus::Warn => "▶",
        CheckStatus::Fail => "✗",
    }
}

/// What the progress screen reports about the phases.
#[derive(Debug, Clone, Copy, PartialEq, Eq, Structural)]
pub struct ProgressSummary {
    /// Phases that passed.
    pub done: usize,
    /// All phases.
    pub total: usize,
    pub any_fail: bool,
    pub all_ok: bool,
    /// The first running phase, or 0.
    pub current: usize,
}

/// Number of items of `s` equal to `x`.
pub open spec fn count_of(s: Seq<CheckStatus>, x: CheckStatus) -> nat
    decreases s.len(),
{
    if s.len() == 0 {
        0
    } else {
        count_of(s.drop_last(), x) + if s.last() == x {
            1nat
        } else {
            0nat
        }
    }
}

/// The first index of `x` in `s`, or 0 when it does not occur.
pub open spec fn first_index_or_zero(s: Seq<CheckStatus>, x: CheckStatus) -> nat
    decreases s.len(),
{
    if s.len() == 0 {
        0
    } else if s[0] == x {
        0
    } else if exists|i: int| 0 <= i < s.len() && s[i] == x {
        1 + first_index_or_zero(s.drop_first(), x)
    } else {
        0
    }
}

/// The progress summary of the statuses `s`.
pub open spec fn summary_spec(s: Seq<CheckStatus>) -> ProgressSummary {
    ProgressSummary {
        done: count_of(s, CheckStatus::Pass) as usize,
        total: s.len() as usize,
        any_fail: any_failed(s),
        all_ok: all_passed(s),
        current: first_index_or_zero(s, CheckStatus::Running) as usize,
    }
}

proof fn lemma_count_le(s: Seq<CheckStatus>, x: CheckStatus)
    ensures
        count_of(s, x) <= s.len(),
    decreases s.len(),
{
    if s.len() > 0 {
        lemma_count_le(s.drop_last(), x);
    }
}

proof fn lemma_first_index(s: Seq<CheckStatus>, x: CheckStatus, k: int)
    requires
        0 <= k < s.len(),
        s[k] == x,
        forall|j: int| 0 <= j < k ==> s[j] != x,
    ensures
        first_index_or_zero(s, x) == k,
    decreases k,
{
    if k > 0 {
        assert(s.drop_first()[k - 1] == s[k]);
        assert forall|j: int| 0 <= j < k - 1 implies s.drop_first()[j] != x by {
            assert(s.drop_first()[j] == s[j + 1]);
        }
        lemma_first_index(s.drop_first(), x, k - 1);
    }
}

proof fn lemma_first_index_absent(s: Seq<CheckStatus>, x: CheckStatus)
    requires
        forall|j: int| 0 <= j < s.len() ==> s[j] != x,
    ensures
        first_index_or_zero(s, x) == 0,
{
}

/// Summarises the phases' statuses for the progress screen.
pub fn progress_summary(rows: &[(Phase, CheckStatus)]) -> (r: ProgressSummary)
    ensures
        r == summary_spec(statuses(rows@)),
{
    let ghost sts = statuses(rows@);
    let mut done: usize = 0;
    let mut any_fail = false;
    let mut every = rows.len() > 0;
    let mut current: Option<usize> = None;
    let mut i: usize = 0;
    assert(sts.take(0) =~= Seq::<CheckStatus>::empty());
    while i < rows.len()
        invariant
            i <= rows.len(),
            sts == statuses(rows@),
            done == count_of(sts.take(i as int), CheckStatus::Pass),
            done <= i,
            any_fail == exists|j: int| 0 <= j < i && sts[j] == CheckStatus::Fail,
            every == (rows.len() > 0 && forall|j: int| 0 <= j < i ==> sts[j] == CheckStatus::Pass),
            match current {
                Some(c) => c < i && sts[c as int] == CheckStatus::Running && forall|j: int|
                    0 <= j < c ==> sts[j] != CheckStatus::Running,
                None => forall|j: int| 0 <= j < i ==> sts[j] != CheckStatus::Running,
            },
        decreases rows.len() - i,
    {
        let st = rows[i].1;
        assert(sts[i as int] == st);
        assert(sts.take(i + 1).drop_last() =~= sts.take(i as int));
        if st == CheckStatus::Pass {
            done = done + 1;
        } else {
            every = false;
        }
        if st == CheckStatus::Fail {
            any_fail = true;
        }
        if current.is_none() && st == CheckStatus::Running {
            current = Some(i);
        }
        i = i + 1;
    }
    assert(sts.take(rows.len() as int) =~= sts);
    proof {
        match current {
            Some(c) => lemma_first_index(sts, CheckStatus::Running, c as int),
            None => lemma_first_index_absent(sts, CheckStatus::Running),
        }
    }
    ProgressSummary {
        done,
        total: rows.len(),
        any_fail,
        all_ok: every,
        current: match current {
            Some(c) => c,
            None => 0,
        },
    }
}

/// Index of the first log line that fits a bordered box `height` rows tall.
pub fn log_tail_start(len: usize, height: u16) -> (start: usize)
    ensures
        start == (if len > (if height >= 2 { height - 2 } else { 0 }) {
            len - (if height >= 2 { height - 2 } else { 0 })
        } else {
            0
        }),
{
    let rows: usize = if height >= 2 {
        (height - 2) as usize
    } else {
        0
    };
    if len > rows {
        len - rows
    } else {
        0
    }
}

/// `" Step <n>/<total> "` for the status bar.
pub fn step_label(screen: Screen) -> (s: String)
    ensures
        s@ == " Step "@ + dec(crate::model::screen_step(screen)) + "/"@ + dec(
            crate::model::TOTAL_STEPS as nat,
        ) + " "@,
{
    let mut s = owned(" Step ");
    push_dec(&mut s, screen.step() as u64);
    push_str(&mut s, "/");
    push_dec(&mut s, crate::model::TOTAL_STEPS as u64);
    push_str(&mut s, " ");
    s
}

/// A line of the printed plan: `"  [NN] name"`, the number right-aligned
/// in two columns.
pub open spec fn plan_line_spec(p: (usize, Seq<char>, PhaseKind)) -> Seq<char> {
    let d = dec(p.0 as nat);
    "  ["@ + (if d.len() < 2 {
        seq![' '] + d
    } else {
        d
    }) + "] "@ + p.1
}

pub fn plan_line(p: &Phase) -> (s: String)
    ensures
        s@ == plan_line_spec(p@),
{
    let mut s = owned("  [");
    if p.ordinal < 10 {
        crate::text::push_char(&mut s, ' ');
    }
    push_dec(&mut s, p.ordinal as u64);
    push_str(&mut s, "] ");
    push_str(&mut s, p.name.as_str());
    proof {
        let d = dec(p.ordinal as nat);
        if p.ordinal >= 10 {
            assert(d.len() >= 2) by {
                reveal_with_fuel(dec, 2);
            }
        } else {
            assert(d.len() == 1);
        }
    }
    s
}


// ---------------------------------------------------------------------------
// The executor's report
// ---------------------------------------------------------------------------

/// The report of `n` tasks before any ran.
pub fn pending_statuses(n: usize) -> (st: Vec<CheckStatus>)
    ensures
        st@ == Seq::new(n as nat, |i: int| CheckStatus::Pending),
{
    let mut st: Vec<CheckStatus> = Vec::new();
    let mut i: usize = 0;
    while i < n
        invariant
            i <= n,
            st@ == Seq::new(i as nat, |j: int| CheckStatus::Pending),
        decreases n - i,
    {
        st.push(CheckStatus::Pending);
        i = i + 1;
        assert(st@ =~= Seq::new(i as nat, |j: int| CheckStatus::Pending));
    }
    st
}

/// Task `i` starts running.
pub fn mark_running(st: &mut Vec<CheckStatus>, i: usize)
    requires
        i < old(st).len(),
    ensures
        final(st)@ == old(st)@.update(i as int, CheckStatus::Running),
{
    st.set(i, CheckStatus::Running);
}

/// Task `i` finished; returns whether the next task runs (only after a
/// success).
pub fn mark_finished(st: &mut Vec<CheckStatus>, i: usize, ok: bool) -> (go_on: bool)
    requires
        i < old(st).len(),
    ensures
        final(st)@ == old(st)@.update(i as int, if ok { CheckStatus::Pass } else { CheckStatus::Fail }),
        go_on == ok,
        old(st)@[i as int] == CheckStatus::Running ==> executor_moves(old(st)@, final(st)@),
{
    st.set(i, if ok { CheckStatus::Pass } else { CheckStatus::Fail });
    assert(old(st)@[i as int] == CheckStatus::Running ==> (0 <= i < old(st)@.len() && old(st)@[i as int] == CheckStatus::Running && (st@ == old(st)@.update(
            i as int,
            CheckStatus::Pass,
        ) || st@ == old(st)@.update(i as int, CheckStatus::Fail))));
    ok
}


/// Every task before `i` passed.
pub open spec fn passed_before(s: Seq<CheckStatus>, i: int) -> bool {
    forall|j: int| 0 <= j < i ==> s[j] == CheckStatus::Pass
}

/// `r` is the task the executor runs next on report `s`: the first task
/// that has not passed, when it is still pending; none once a task failed
/// or is running, or when every task passed.
pub open spec fn next_task_is(s: Seq<CheckStatus>, r: Option<usize>) -> bool {
    match r {
        Some(i) => i < s.len() && s[i as int] == CheckStatus::Pending && passed_before(s, i as int),
        None => forall|i: int|
            0 <= i < s.len() && passed_before(s, i) ==> s[i] != CheckStatus::Pending,
    }
}

/// The task to run next, if any.
pub fn next_task(st: &[CheckStatus]) -> (r: Option<usize>)
    ensures
        next_task_is(st@, r),
{
    let mut i: usize = 0;
    while i < st.len() && st[i] == CheckStatus::Pass
        invariant
            i <= st.len(),
            passed_before(st@, i as int),
        decreases st.len() - i,
    {
        i = i + 1;
    }
    if i < st.len() && st[i] == CheckStatus::Pending {
        Some(i)
    } else {
        proof {
            assert forall|j: int|
                0 <= j < st@.len() && passed_before(st@, j) implies st@[j] != CheckStatus::Pending by {
                if j < i {
                    assert(st@[j] == CheckStatus::Pass);
                } else if j > i {
                    assert(st@[i as int] != CheckStatus::Pass);
                }
            }
        }
        None
    }
}

/// Starts the next task, if there is one to run: marks it running and
/// returns its index; otherwise leaves the report as it is.
pub fn start_next(st: &mut Vec<CheckStatus>) -> (r: Option<usize>)
    ensures
        next_task_is(old(st)@, r),
        final(st)@ == (match r {
            Some(i) => old(st)@.update(i as int, CheckStatus::Running),
            None => old(st)@,
        }),
        r is Some ==> executor_moves(old(st)@, final(st)@),
{
    let r = next_task(st.as_slice());
    match r {
        Some(i) => {
            st.set(i, CheckStatus::Running);
            assert(next_task_is(old(st)@, Some(i)) && final(st)@ == old(st)@.update(i as int, CheckStatus::Running));
        },
        None => {},
    }
    r
}

/// One move of the executor on report `s`, giving `t`: it starts the next
/// task, or the running task ends passed or failed.
pub open spec fn executor_moves(s: Seq<CheckStatus>, t: Seq<CheckStatus>) -> bool {
    ||| exists|i: usize| next_task_is(s, Some(i)) && t == s.update(i as int, CheckStatus::Running)
    ||| exists|i: int|
        0 <= i < s.len() && #[trigger] s[i] == CheckStatus::Running && (t == s.update(
            i,
            CheckStatus::Pass,
        ) || t == s.update(i, CheckStatus::Fail))
}

/// A run of the executor over `n` tasks: the reports it goes through, from
/// all pending, one move at a time.
pub open spec fn executor_run(n: nat, states: Seq<Seq<CheckStatus>>) -> bool {
    &&& states.len() >= 1
    &&& states[0] == Seq::new(n, |i: int| CheckStatus::Pending)
    &&& forall|j: int| 0 <= j < states.len() - 1 ==> #[trigger] executor_moves(states[j], states[j + 1])
}

/// The executor's report once `k` tasks passed: those `k` passed, the one
/// after them (if any) is pending, running or failed, and the rest are
/// pending.
pub open spec fn run_shape(s: Seq<CheckStatus>, k: int) -> bool {
    &&& 0 <= k <= s.len()
    &&& passed_before(s, k)
    &&& forall|j: int| k < j < s.len() ==> s[j] == CheckStatus::Pending
    &&& k < s.len() ==> (s[k] == CheckStatus::Pending || s[k] == CheckStatus::Running || s[k]
        == CheckStatus::Fail)
}

/// The progress list as shown: `rows` with the executor's statuses `st`
/// copied in, position by position, as far as the executor reports.
pub fn synced_rows(rows: &[(Phase, CheckStatus)], st: &[CheckStatus]) -> (out: Vec<(Phase, CheckStatus)>)
    ensures
        phase_rows(out@) == phase_rows(synced(rows@, st@)),
{
    let mut out: Vec<(Phase, CheckStatus)> = Vec::new();
    let mut i: usize = 0;
    while i < rows.len()
        invariant
            i <= rows.len(),
            out.len() == i,
            forall|j: int|
                0 <= j < i ==> (#[trigger] out@[j]).0@ == rows@[j].0@ && out@[j].1 == synced(
                    rows@,
                    st@,
                )[j].1,
        decreases rows.len() - i,
    {
        let p = rows[i].0.copy();
        let s = if i < st.len() { st[i] } else { rows[i].1 };
        out.push((p, s));
        i = i + 1;
    }
    assert(phase_rows(out@) =~= phase_rows(synced(rows@, st@)));
    out
}

} // verus!
