//! The installer's domain model: install sources, profiles, configuration,
//! TUI screens and check outcomes.
use vstd::prelude::*;

use crate::text::owned;

verus! {

/// Where to get NQRustBackup binaries from.
#[derive(Debug, Clone, Copy, PartialEq, Eq, Structural)]
pub enum InstallSource {
    /// Use the upstream-compatible Bareos community packages (the default).
    UpstreamCompat,
    /// Build NQRustBackup `.deb` packages from the source tree with
    /// `dpkg-buildpackage`.
    BuildFromSource,
    /// Don't install server packages; just (re)write configuration and start
    /// services.
    ConfigureOnly,
}

/// Number of install sources offered.
pub const SOURCE_COUNT: usize = 3;

/// The install source at position `i` of the offered list.
pub open spec fn source_at(i: int) -> InstallSource {
    if i == 0 {
        InstallSource::UpstreamCompat
    } else if i == 1 {
        InstallSource::BuildFromSource
    } else {
        InstallSource::ConfigureOnly
    }
}

pub open spec fn source_name(s: InstallSource) -> Seq<char> {
    match s {
        InstallSource::UpstreamCompat => "Upstream-compatible packages"@,
        InstallSource::BuildFromSource => "Build from source (.deb)"@,
        InstallSource::ConfigureOnly => "Configure only (binaries already installed)"@,
    }
}

pub open spec fn source_description(s: InstallSource) -> Seq<char> {
    match s {
        InstallSource::UpstreamCompat => "Install Bareos community packages — config-compatible with NQRustBackup. ~5 min."@,
        InstallSource::BuildFromSource => "Build NQRustBackup debs from this repo with dpkg-buildpackage. ~30-60 min."@,
        InstallSource::ConfigureOnly => "Skip package install; write /etc/bareos configs and start services."@,
    }
}

impl InstallSource {
    /// The offered sources, in menu order.
    pub fn all() -> (v: Vec<InstallSource>)
        ensures
            v@.len() == SOURCE_COUNT,
            forall|i: int| 0 <= i < SOURCE_COUNT ==> v@[i] == source_at(i),
    {
        let v = vec![
            InstallSource::UpstreamCompat,
            InstallSource::BuildFromSource,
            InstallSource::ConfigureOnly,
        ];
        v
    }

    /// The source at menu position `i`.
    pub fn at(i: usize) -> (s: InstallSource)
        requires
            i < SOURCE_COUNT,
        ensures
            s == source_at(i as int),
    {
        if i == 0 {
            InstallSource::UpstreamCompat
        } else if i == 1 {
            InstallSource::BuildFromSource
        } else {
            InstallSource::ConfigureOnly
        }
    }

    pub fn name(&self) -> (r: &'static str)
        ensures
            r@ == source_name(*self),
    {
        match self {
            InstallSource::UpstreamCompat => "Upstream-compatible packages",
            InstallSource::BuildFromSource => "Build from source (.deb)",
            InstallSource::ConfigureOnly => "Configure only (binaries already installed)",
        }
    }

    pub fn description(&self) -> (r: &'static str)
        ensures
            r@ == source_description(*self),
    {
        match self {
            InstallSource::UpstreamCompat => {
                "Install Bareos community packages — config-compatible with NQRustBackup. ~5 min."
            },
            InstallSource::BuildFromSource => {
                "Build NQRustBackup debs from this repo with dpkg-buildpackage. ~30-60 min."
            },
            InstallSource::ConfigureOnly => {
                "Skip package install; write /etc/bareos configs and start services."
            },
        }
    }
}

impl Default for InstallSource {
    fn default() -> (s: InstallSource)
        ensures
            s == InstallSource::UpstreamCompat,
    {
        InstallSource::UpstreamCompat
    }
}

/// Which components to install.
#[derive(Debug, Clone, Copy, PartialEq, Eq, Structural)]
pub enum InstallProfile {
    /// Director + Storage + FileDaemon + Catalog + WebUI on one host (the default).
    AllInOne,
    /// Director + Storage + Catalog (no FD, no WebUI).
    ServerOnly,
    /// FileDaemon only (a client host).
    ClientOnly,
}

/// Number of install profiles offered.
pub const PROFILE_COUNT: usize = 3;

/// The install profile at position `i` of the offered list.
pub open spec fn profile_at(i: int) -> InstallProfile {
    if i == 0 {
        InstallProfile::AllInOne
    } else if i == 1 {
        InstallProfile::ServerOnly
    } else {
        InstallProfile::ClientOnly
    }
}

pub open spec fn profile_name(p: InstallProfile) -> Seq<char> {
    match p {
        InstallProfile::AllInOne => "All-in-One (recommended for testing)"@,
        InstallProfile::ServerOnly => "Server (Director + Storage + Catalog)"@,
        InstallProfile::ClientOnly => "Client (FileDaemon only)"@,
    }
}

pub open spec fn profile_description(p: InstallProfile) -> Seq<char> {
    match p {
        InstallProfile::AllInOne => "DIR + SD + FD + PostgreSQL + WebUI on this host. Single host, full stack."@,
        InstallProfile::ServerOnly => "Backup server only. Clients install separately with ClientOnly."@,
        InstallProfile::ClientOnly => "File Daemon only. Point it at a remote DIR with `nqrustbackup-installer configure-client`."@,
    }
}

/// The profile runs a Director.
pub open spec fn has_director(p: InstallProfile) -> bool {
    p is AllInOne || p is ServerOnly
}

/// The profile runs a Storage daemon.
pub open spec fn has_storage(p: InstallProfile) -> bool {
    p is AllInOne || p is ServerOnly
}

/// The profile runs a File daemon.
pub open spec fn has_filedaemon(p: InstallProfile) -> bool {
    p is AllInOne || p is ClientOnly
}

/// The profile serves the WebUI.
pub open spec fn has_webui(p: InstallProfile) -> bool {
    p is AllInOne
}

/// The profile hosts the PostgreSQL catalog.
pub open spec fn has_catalog(p: InstallProfile) -> bool {
    p is AllInOne || p is ServerOnly
}

impl InstallProfile {
    /// The offered profiles, in menu order.
    pub fn all() -> (v: Vec<InstallProfile>)
        ensures
            v@.len() == PROFILE_COUNT,
            forall|i: int| 0 <= i < PROFILE_COUNT ==> v@[i] == profile_at(i),
    {
        let v = vec![InstallProfile::AllInOne, InstallProfile::ServerOnly, InstallProfile::ClientOnly];
        v
    }

    /// The profile at menu position `i`.
    pub fn at(i: usize) -> (p: InstallProfile)
        requires
            i < PROFILE_COUNT,
        ensures
            p == profile_at(i as int),
    {
        if i == 0 {
            InstallProfile::AllInOne
        } else if i == 1 {
            InstallProfile::ServerOnly
        } else {
            InstallProfile::ClientOnly
        }
    }

    pub fn name(&self) -> (r: &'static str)
        ensures
            r@ == profile_name(*self),
    {
        match self {
            InstallProfile::AllInOne => "All-in-One (recommended for testing)",
            InstallProfile::ServerOnly => "Server (Director + Storage + Catalog)",
            InstallProfile::ClientOnly => "Client (FileDaemon only)",
        }
    }

    pub fn description(&self) -> (r: &'static str)
        ensures
            r@ == profile_description(*self),
    {
        match self {
            InstallProfile::AllInOne => "DIR + SD + FD + PostgreSQL + WebUI on this host. Single host, full stack.",
            InstallProfile::ServerOnly => "Backup server only. Clients install separately with ClientOnly.",
            InstallProfile::ClientOnly => "File Daemon only. Point it at a remote DIR with `nqrustbackup-installer configure-client`.",
        }
    }

    pub fn installs_director(&self) -> (r: bool)
        ensures
            r == has_director(*self),
    {
        matches!(self, InstallProfile::AllInOne | InstallProfile::ServerOnly)
    }

    pub fn installs_storage(&self) -> (r: bool)
        ensures
            r == has_storage(*self),
    {
        matches!(self, InstallProfile::AllInOne | InstallProfile::ServerOnly)
    }

    pub fn installs_filedaemon(&self) -> (r: bool)
        ensures
            r == has_filedaemon(*self),
    {
        matches!(self, InstallProfile::AllInOne | InstallProfile::ClientOnly)
    }

    pub fn installs_webui(&self) -> (r: bool)
        ensures
            r == has_webui(*self),
    {
        matches!(self, InstallProfile::AllInOne)
    }

    pub fn installs_catalog(&self) -> (r: bool)
        ensures
            r == has_catalog(*self),
    {
        matches!(self, InstallProfile::AllInOne | InstallProfile::ServerOnly)
    }
}

impl Default for InstallProfile {
    fn default() -> (p: InstallProfile)
        ensures
            p == InstallProfile::AllInOne,
    {
        InstallProfile::AllInOne
    }
}

/// The resolved install configuration. Paths are held as text.
#[derive(Debug, Clone)]
pub struct InstallConfig {
    pub source: InstallSource,
    pub profile: InstallProfile,
    pub data_dir: String,
    pub config_dir: String,
    pub storage_dir: String,
    pub webui_port: u16,
    pub director_address: String,
    pub dry_run: bool,
}

/// The configuration the TUI starts from.
pub open spec fn is_default_config(c: InstallConfig) -> bool {
    &&& c.source == InstallSource::UpstreamCompat
    &&& c.profile == InstallProfile::AllInOne
    &&& c.data_dir@ == "/var/lib/bareos"@
    &&& c.config_dir@ == "/etc/bareos"@
    &&& c.storage_dir@ == "/var/lib/bareos/storage"@
    &&& c.webui_port == 9100
    &&& c.director_address@ == "localhost"@
    &&& !c.dry_run
}

impl Default for InstallConfig {
    fn default() -> (c: InstallConfig)
        ensures
            is_default_config(c),
    {
        InstallConfig {
            source: InstallSource::UpstreamCompat,
            profile: InstallProfile::AllInOne,
            data_dir: owned("/var/lib/bareos"),
            config_dir: owned("/etc/bareos"),
            storage_dir: owned("/var/lib/bareos/storage"),
            webui_port: 9100,
            director_address: owned("localhost"),
            dry_run: false,
        }
    }
}

/// Which screen the TUI is currently on.
#[derive(Debug, Clone, Copy, PartialEq, Eq, Structural)]
pub enum Screen {
    Welcome,
    Preflight,
    SourceSelect,
    ProfileSelect,
    Config,
    Progress,
    Verify,
    Complete,
    Error,
}

/// Number of numbered steps in the wizard.
pub const TOTAL_STEPS: usize = 8;

pub open spec fn screen_title(s: Screen) -> Seq<char> {
    match s {
        Screen::Welcome => "Welcome"@,
        Screen::Preflight => "Pre-flight checks"@,
        Screen::SourceSelect => "Install source"@,
        Screen::ProfileSelect => "Install profile"@,
        Screen::Config => "Configuration"@,
        Screen::Progress => "Installing"@,
        Screen::Verify => "Verification"@,
        Screen::Complete => "Complete"@,
        Screen::Error => "Error"@,
    }
}

/// Wizard step number of a screen; the error screen is step 0.
pub open spec fn screen_step(s: Screen) -> nat {
    match s {
        Screen::Welcome => 1,
        Screen::Preflight => 2,
        Screen::SourceSelect => 3,
        Screen::ProfileSelect => 4,
        Screen::Config => 5,
        Screen::Progress => 6,
        Screen::Verify => 7,
        Screen::Complete => 8,
        Screen::Error => 0,
    }
}

impl Screen {
    pub fn title(&self) -> (r: &'static str)
        ensures
            r@ == screen_title(*self),
    {
        match self {
            Screen::Welcome => "Welcome",
            Screen::Preflight => "Pre-flight checks",
            Screen::SourceSelect => "Install source",
            Screen::ProfileSelect => "Install profile",
            Screen::Config => "Configuration",
            Screen::Progress => "Installing",
            Screen::Verify => "Verification",
            Screen::Complete => "Complete",
            Screen::Error => "Error",
        }
    }

    pub fn step(&self) -> (r: usize)
        ensures
            r == screen_step(*self),
            r <= TOTAL_STEPS,
    {
        match self {
            Screen::Welcome => 1,
            Screen::Preflight => 2,
            Screen::SourceSelect => 3,
            Screen::ProfileSelect => 4,
            Screen::Config => 5,
            Screen::Progress => 6,
            Screen::Verify => 7,
            Screen::Complete => 8,
            Screen::Error => 0,
        }
    }
}

impl Default for Screen {
    fn default() -> (s: Screen)
        ensures
            s == Screen::Welcome,
    {
        Screen::Welcome
    }
}

/// Outcome of a check or an install phase.
#[derive(Debug, Clone, Copy, PartialEq, Eq, Structural)]
pub enum CheckStatus {
    Pending,
    Running,
    Pass,
    Warn,
    Fail,
}

/// A single check outcome, as shown in the pre-flight and verify screens.
#[derive(Debug, Clone)]
pub struct PreflightCheck {
    pub name: String,
    pub status: CheckStatus,
    pub detail: String,
}

/// Severity of a log line.
#[derive(Debug, Clone, Copy, PartialEq, Eq, Structural)]
pub enum LogLevel {
    Info,
    Success,
    Warn,
    Error,
}

} // verus!
