//! Pre-flight checks: what the host's facts (OS release, architecture,
//! privileges, disks, systemd, network) mean for the install.
use vstd::prelude::*;

use crate::model::{CheckStatus, PreflightCheck};
use crate::text::{
    chars_of, dec, has_prefix, lines, lines_of, owned, parse_uint, parse_unsigned, push_dec,
    push_str, string_of, strip_prefix_chars, tokens, tokens_of,
    trim, trim_by, trim_char, trim_chars, views,
};

verus! {

/// Facts about the running operating system.
#[derive(Debug, Clone)]
pub struct OsInfo {
    pub id: String,
    pub version_id: String,
    pub pretty_name: String,
    pub is_debian_family: bool,
}

/// A value from `/etc/os-release`: trimmed, then stripped of double quotes.
pub open spec fn unquote_spec(v: Seq<char>) -> Seq<char> {
    trim_by(trim(v), |c: char| c == '"')
}

/// `(ID, VERSION_ID, PRETTY_NAME)` after reading `ls` in order; a later
/// assignment overrides an earlier one.
pub open spec fn os_fields(ls: Seq<Seq<char>>) -> (Seq<char>, Seq<char>, Seq<char>)
    decreases ls.len(),
{
    if ls.len() == 0 {
        ("unknown"@, "0"@, "Unknown"@)
    } else {
        let f = os_fields(ls.drop_last());
        let l = ls.last();
        if has_prefix(l, "ID="@) {
            (unquote_spec(l.skip(3)), f.1, f.2)
        } else if has_prefix(l, "VERSION_ID="@) {
            (f.0, unquote_spec(l.skip(11)), f.2)
        } else if has_prefix(l, "PRETTY_NAME="@) {
            (f.0, f.1, unquote_spec(l.skip(12)))
        } else {
            f
        }
    }
}

/// The facts `/etc/os-release` with contents `text` gives.
pub open spec fn os_info_spec(text: Seq<char>) -> (Seq<char>, Seq<char>, Seq<char>, bool) {
    let f = os_fields(lines(text));
    (f.0, f.1, f.2, f.0 == "debian"@ || f.0 == "ubuntu"@)
}

/// Strips surrounding whitespace, then surrounding double quotes.
fn unquote_chars(s: &[char]) -> (r: Vec<char>)
    ensures
        r@ == unquote_spec(s@),
{
    let t = trim_chars(s);
    trim_char(t.as_slice(), '"')
}

/// An `/etc/os-release` value without surrounding whitespace and quotes.
pub fn unquote(s: &str) -> (r: String)
    ensures
        r@ == unquote_spec(s@),
{
    let cs = chars_of(s);
    let u = unquote_chars(cs.as_slice());
    string_of(u.as_slice())
}

/// Whether the characters `s` spell the literal `lit`.
pub fn eq_lit(s: &[char], lit: &str) -> (r: bool)
    ensures
        r == (s@ == lit@),
{
    let l = chars_of(lit);
    if l.len() != s.len() {
        return false;
    }
    let mut i: usize = 0;
    while i < s.len()
        invariant
            l@ == lit@,
            l.len() == s.len(),
            i <= s.len(),
            forall|j: int| 0 <= j < i ==> s@[j] == l@[j],
        decreases s.len() - i,
    {
        if s[i] != l[i] {
            assert(s@[i as int] != lit@[i as int]);
            return false;
        }
        i = i + 1;
    }
    assert(s@ =~= lit@);
    true
}

/// The OS facts given by the contents of `/etc/os-release` (an unreadable
/// file reads as empty: id `unknown`, version `0`, name `Unknown`).
pub fn detect_os(text: &str) -> (os: OsInfo)
    ensures
        (os.id@, os.version_id@, os.pretty_name@, os.is_debian_family) == os_info_spec(text@),
{
    let ls = lines_of(text);
    let mut id = chars_of("unknown");
    let mut version = chars_of("0");
    let mut pretty = chars_of("Unknown");
    let mut i: usize = 0;
    assert(views(ls@).take(0) =~= Seq::<Seq<char>>::empty());
    while i < ls.len()
        invariant
            i <= ls.len(),
            views(ls@) == lines(text@),
            (id@, version@, pretty@) == os_fields(views(ls@).take(i as int)),
        decreases ls.len() - i,
    {
        let l = &ls[i];
        assert(views(ls@).take(i + 1).drop_last() =~= views(ls@).take(i as int));
        assert(views(ls@).take(i + 1).last() == l@);
        if let Some(v) = strip_prefix_chars(l.as_slice(), "ID=") {
            proof {
                reveal_strlit("ID=");
            }
            id = unquote_chars(v.as_slice());
        } else if let Some(v) = strip_prefix_chars(l.as_slice(), "VERSION_ID=") {
            proof {
                reveal_strlit("VERSION_ID=");
            }
            version = unquote_chars(v.as_slice());
        } else if let Some(v) = strip_prefix_chars(l.as_slice(), "PRETTY_NAME=") {
            proof {
                reveal_strlit("PRETTY_NAME=");
            }
            pretty = unquote_chars(v.as_slice());
        }
        i = i + 1;
    }
    assert(views(ls@).take(ls.len() as int) =~= views(ls@));
    let deb = eq_lit(id.as_slice(), "debian") || eq_lit(id.as_slice(), "ubuntu");
    OsInfo {
        id: string_of(id.as_slice()),
        version_id: string_of(version.as_slice()),
        pretty_name: string_of(pretty.as_slice()),
        is_debian_family: deb,
    }
}

/// The effective uid recorded in `/proc/self/status` text: the second
/// number of the first `Uid:` line that has one; 1000 when there is none.
pub open spec fn effective_uid_in(ls: Seq<Seq<char>>) -> u32
    decreases ls.len(),
{
    if ls.len() == 0 {
        1000
    } else {
        let l = ls[0];
        let found: Option<nat> = if has_prefix(l, "Uid:"@) {
            let parts = tokens(l.skip(4));
            if parts.len() >= 2 {
                parse_unsigned(parts[1], u32::MAX as nat)
            } else {
                None
            }
        } else {
            None
        };
        match found {
            Some(v) => v as u32,
            None => effective_uid_in(ls.drop_first()),
        }
    }
}

/// Reads the effective uid from the contents of `/proc/self/status`.
pub fn parse_effective_uid(status_text: &str) -> (uid: u32)
    ensures
        uid == effective_uid_in(lines(status_text@)),
{
    let ls = lines_of(status_text);
    let mut i: usize = 0;
    assert(views(ls@).skip(0) =~= views(ls@));
    while i < ls.len()
        invariant
            i <= ls.len(),
            views(ls@) == lines(status_text@),
            effective_uid_in(lines(status_text@)) == effective_uid_in(views(ls@).skip(i as int)),
        decreases ls.len() - i,
    {
        let ghost rest = views(ls@).skip(i as int);
        assert(rest[0] == ls@[i as int]@);
        assert(rest.drop_first() =~= views(ls@).skip(i + 1));
        if let Some(r) = strip_prefix_chars(ls[i].as_slice(), "Uid:") {
            proof {
                reveal_strlit("Uid:");
            }
            let parts = tokens_of(r.as_slice());
            if parts.len() >= 2 {
                assert(views(parts@)[1] == parts@[1]@);
                if let Some(e) = parse_uint(parts[1].as_slice(), 0xFFFF_FFFF) {
                    return e as u32;
                }
            }
        }
        i = i + 1;
    }
    1000
}

// ---------------------------------------------------------------------------
// The individual checks
// ---------------------------------------------------------------------------

impl View for PreflightCheck {
    type V = (Seq<char>, CheckStatus, Seq<char>);

    open spec fn view(&self) -> (Seq<char>, CheckStatus, Seq<char>) {
        (self.name@, self.status, self.detail@)
    }
}

/// The operating-system check: Debian and Ubuntu are supported.
pub open spec fn os_check_spec(pretty: Seq<char>, debian_family: bool) -> (
    Seq<char>,
    CheckStatus,
    Seq<char>,
) {
    if debian_family {
        ("Operating system"@, CheckStatus::Pass, pretty + " (supported)"@)
    } else {
        (
            "Operating system"@,
            CheckStatus::Warn,
            pretty + " — installer targets Debian/Ubuntu; use --dry-run elsewhere"@,
        )
    }
}

pub fn os_check(os: &OsInfo) -> (c: PreflightCheck)
    ensures
        c@ == os_check_spec(os.pretty_name@, os.is_debian_family),
{
    let mut detail = os.pretty_name.clone();
    if os.is_debian_family {
        push_str(&mut detail, " (supported)");
        PreflightCheck { name: owned("Operating system"), status: CheckStatus::Pass, detail }
    } else {
        push_str(&mut detail, " — installer targets Debian/Ubuntu; use --dry-run elsewhere");
        PreflightCheck { name: owned("Operating system"), status: CheckStatus::Warn, detail }
    }
}

/// The architecture check: only x86_64 is tested.
pub open spec fn arch_check_spec(arch: Seq<char>) -> (Seq<char>, CheckStatus, Seq<char>) {
    if arch == "x86_64"@ {
        ("Architecture"@, CheckStatus::Pass, arch)
    } else {
        ("Architecture"@, CheckStatus::Warn, arch + " (only x86_64 tested)"@)
    }
}

pub fn arch_check(arch: &str) -> (c: PreflightCheck)
    ensures
        c@ == arch_check_spec(arch@),
{
    let a = chars_of(arch);
    let mut detail = owned(arch);
    if eq_lit(a.as_slice(), "x86_64") {
        PreflightCheck { name: owned("Architecture"), status: CheckStatus::Pass, detail }
    } else {
        push_str(&mut detail, " (only x86_64 tested)");
        PreflightCheck { name: owned("Architecture"), status: CheckStatus::Warn, detail }
    }
}

/// The privileges check: root, or password-less sudo, is fine; sudo that
/// may prompt is a warning; no sudo at all fails.
pub open spec fn privileges_check_spec(euid: u32, sudo_nopasswd: bool, sudo_present: bool) -> (
    Seq<char>,
    CheckStatus,
    Seq<char>,
) {
    let uid = "uid="@ + dec(euid as nat);
    if euid == 0 {
        ("Privileges"@, CheckStatus::Pass, "running as root"@)
    } else if sudo_nopasswd {
        ("Privileges"@, CheckStatus::Pass, uid + ", sudo NOPASSWD available"@)
    } else if sudo_present {
        ("Privileges"@, CheckStatus::Warn, uid + ", sudo present (may prompt)"@)
    } else {
        ("Privileges"@, CheckStatus::Fail, uid + " and no sudo — cannot system install"@)
    }
}

/// `sudo_nopasswd` is only looked at when `euid` is not 0, and
/// `sudo_present` only when neither holds.
pub fn privileges_check(euid: u32, sudo_nopasswd: bool, sudo_present: bool) -> (c: PreflightCheck)
    ensures
        c@ == privileges_check_spec(euid, sudo_nopasswd, sudo_present),
{
    if euid == 0 {
        return PreflightCheck {
            name: owned("Privileges"),
            status: CheckStatus::Pass,
            detail: owned("running as root"),
        };
    }
    let mut detail = owned("uid=");
    push_dec(&mut detail, euid as u64);
    if sudo_nopasswd {
        push_str(&mut detail, ", sudo NOPASSWD available");
        PreflightCheck { name: owned("Privileges"), status: CheckStatus::Pass, detail }
    } else if sudo_present {
        push_str(&mut detail, ", sudo present (may prompt)");
        PreflightCheck { name: owned("Privileges"), status: CheckStatus::Warn, detail }
    } else {
        push_str(&mut detail, " and no sudo — cannot system install");
        PreflightCheck { name: owned("Privileges"), status: CheckStatus::Fail, detail }
    }
}

/// A mounted filesystem and its free space in bytes.
#[derive(Debug, Clone)]
pub struct MountSpace {
    pub mount_point: String,
    pub available: u64,
}

/// Walking the mounts in order, the longest mount point that prefixes
/// `anc` (a later one only wins when strictly longer): its length and free
/// space.
pub open spec fn best_mount_fold(anc: Seq<char>, ms: Seq<(Seq<char>, u64)>) -> (nat, Option<u64>)
    decreases ms.len(),
{
    if ms.len() == 0 {
        (0, None)
    } else {
        let (bl, ba) = best_mount_fold(anc, ms.drop_last());
        let m = ms.last();
        if has_prefix(anc, m.0) && m.0.len() > bl {
            (m.0.len(), Some(m.1))
        } else {
            (bl, ba)
        }
    }
}

/// The views of a list of mounts.
pub open spec fn mount_views(ms: Seq<MountSpace>) -> Seq<(Seq<char>, u64)> {
    ms.map_values(|m: MountSpace| (m.mount_point@, m.available))
}

/// Free space of the mount holding `ancestor`: the longest mount point that
/// is a prefix of it.
pub fn best_mount_space(ancestor: &str, mounts: &[MountSpace]) -> (r: Option<u64>)
    ensures
        r == best_mount_fold(ancestor@, mount_views(mounts@)).1,
{
    let anc = chars_of(ancestor);
    let mut best_len: usize = 0;
    let mut best: Option<u64> = None;
    let mut i: usize = 0;
    assert(mount_views(mounts@).take(0) =~= Seq::<(Seq<char>, u64)>::empty());
    while i < mounts.len()
        invariant
            i <= mounts.len(),
            anc@ == ancestor@,
            (best_len as nat, best) == best_mount_fold(ancestor@, mount_views(mounts@).take(i as int)),
        decreases mounts.len() - i,
    {
        let m = &mounts[i];
        assert(mount_views(mounts@).take(i + 1).drop_last() =~= mount_views(mounts@).take(i as int));
        assert(mount_views(mounts@).take(i + 1).last() == (m.mount_point@, m.available));
        let mp = chars_of(m.mount_point.as_str());
        let pre = is_prefix_of(mp.as_slice(), anc.as_slice());
        if pre && mp.len() > best_len {
            best_len = mp.len();
            best = Some(m.available);
        }
        i = i + 1;
    }
    assert(mount_views(mounts@).take(mounts.len() as int) =~= mount_views(mounts@));
    best
}

/// Whether `p` is a prefix of `s`.
fn is_prefix_of(p: &[char], s: &[char]) -> (r: bool)
    ensures
        r == has_prefix(s@, p@),
{
    if p.len() > s.len() {
        return false;
    }
    let mut i: usize = 0;
    while i < p.len()
        invariant
            p.len() <= s.len(),
            i <= p.len(),
            forall|j: int| 0 <= j < i ==> s@[j] == p@[j],
        decreases p.len() - i,
    {
        if s[i] != p[i] {
            assert(s@.take(p.len() as int)[i as int] != p@[i as int]);
            return false;
        }
        i = i + 1;
    }
    assert(s@.take(p.len() as int) =~= p@);
    true
}

/// Bytes in a mebibyte.
pub const MIB: u64 = 1048576;

/// The space check for a directory that exists (or whose nearest existing
/// ancestor sits on a mount with `avail` bytes free, if known).
pub open spec fn disk_check_spec(
    name: Seq<char>,
    path: Seq<char>,
    needed_mib: u64,
    avail: Option<u64>,
    writable: bool,
) -> (Seq<char>, CheckStatus, Seq<char>) {
    let free: nat = (match avail {
        Some(a) => a,
        None => 0u64,
    }) as nat / (MIB as nat);
    let status = if free >= needed_mib && writable {
        CheckStatus::Pass
    } else if free >= needed_mib {
        CheckStatus::Warn
    } else {
        CheckStatus::Fail
    };
    let detail = path + ": "@ + dec(free) + " MiB free (need ≥"@ + dec(needed_mib as nat)
        + " MiB)"@ + if writable {
        Seq::<char>::empty()
    } else {
        ", not writable"@
    };
    (name, status, detail)
}

pub fn disk_check(name: &str, path: &str, needed_mib: u64, avail: Option<u64>, writable: bool) -> (c:
    PreflightCheck)
    ensures
        c@ == disk_check_spec(name@, path@, needed_mib, avail, writable),
{
    let free = match avail {
        Some(a) => a,
        None => 0,
    } / MIB;
    let status = if free >= needed_mib && writable {
        CheckStatus::Pass
    } else if free >= needed_mib {
        CheckStatus::Warn
    } else {
        CheckStatus::Fail
    };
    let mut detail = owned(path);
    push_str(&mut detail, ": ");
    push_dec(&mut detail, free);
    push_str(&mut detail, " MiB free (need ≥");
    push_dec(&mut detail, needed_mib);
    push_str(&mut detail, " MiB)");
    if !writable {
        push_str(&mut detail, ", not writable");
    }
    assert(detail@ =~= disk_check_spec(name@, path@, needed_mib, avail, writable).2);
    PreflightCheck { name: owned(name), status, detail }
}

/// The space check for a directory none of whose ancestors exists.
pub open spec fn missing_dir_check_spec(name: Seq<char>, path: Seq<char>) -> (
    Seq<char>,
    CheckStatus,
    Seq<char>,
) {
    (name, CheckStatus::Warn, path + " does not exist yet — will be created"@)
}

pub fn missing_dir_check(name: &str, path: &str) -> (c: PreflightCheck)
    ensures
        c@ == missing_dir_check_spec(name@, path@),
{
    let mut detail = owned(path);
    push_str(&mut detail, " does not exist yet — will be created");
    PreflightCheck { name: owned(name), status: CheckStatus::Warn, detail }
}

/// What was found on disk for a directory the install needs.
#[derive(Debug, Clone)]
pub struct DiskProbe {
    /// The directory, as displayed.
    pub path: String,
    /// Its nearest existing ancestor (itself when it exists), if any.
    pub ancestor: Option<String>,
    /// Whether a file can be created in that ancestor.
    pub writable: bool,
}

/// The space check of a probed directory.
pub open spec fn probe_check_spec(
    name: Seq<char>,
    probe: DiskProbe,
    needed_mib: u64,
    ms: Seq<(Seq<char>, u64)>,
) -> (Seq<char>, CheckStatus, Seq<char>) {
    match probe.ancestor {
        None => missing_dir_check_spec(name, probe.path@),
        Some(a) => disk_check_spec(
            name,
            probe.path@,
            needed_mib,
            best_mount_fold(a@, ms).1,
            probe.writable,
        ),
    }
}

pub fn probe_check(name: &str, probe: &DiskProbe, needed_mib: u64, mounts: &[MountSpace]) -> (c:
    PreflightCheck)
    ensures
        c@ == probe_check_spec(name@, *probe, needed_mib, mount_views(mounts@)),
{
    match &probe.ancestor {
        None => missing_dir_check(name, probe.path.as_str()),
        Some(a) => {
            let avail = best_mount_space(a.as_str(), mounts);
            disk_check(name, probe.path.as_str(), needed_mib, avail, probe.writable)
        },
    }
}

/// The systemd check.
pub open spec fn systemd_check_spec(present: bool) -> (Seq<char>, CheckStatus, Seq<char>) {
    if present {
        ("systemd"@, CheckStatus::Pass, "present"@)
    } else {
        (
            "systemd"@,
            CheckStatus::Warn,
            "not detected; services won't be managed by systemctl"@,
        )
    }
}

pub fn systemd_check(present: bool) -> (c: PreflightCheck)
    ensures
        c@ == systemd_check_spec(present),
{
    if present {
        PreflightCheck { name: owned("systemd"), status: CheckStatus::Pass, detail: owned("present") }
    } else {
        PreflightCheck {
            name: owned("systemd"),
            status: CheckStatus::Warn,
            detail: owned("not detected; services won't be managed by systemctl"),
        }
    }
}

/// The network check (name resolution of the package host).
pub open spec fn network_check_spec(resolved: bool) -> (Seq<char>, CheckStatus, Seq<char>) {
    if resolved {
        ("Network (download.bareos.org)"@, CheckStatus::Pass, "reachable"@)
    } else {
        (
            "Network (download.bareos.org)"@,
            CheckStatus::Warn,
            "DNS failed; upstream-compat install needs internet"@,
        )
    }
}

pub fn network_check(resolved: bool) -> (c: PreflightCheck)
    ensures
        c@ == network_check_spec(resolved),
{
    if resolved {
        PreflightCheck {
            name: owned("Network (download.bareos.org)"),
            status: CheckStatus::Pass,
            detail: owned("reachable"),
        }
    } else {
        PreflightCheck {
            name: owned("Network (download.bareos.org)"),
            status: CheckStatus::Warn,
            detail: owned("DNS failed; upstream-compat install needs internet"),
        }
    }
}

/// Space the install directory needs, in MiB.
pub const INSTALL_DIR_MIB: u64 = 2048;

/// Space the storage directory needs, in MiB.
pub const STORAGE_DIR_MIB: u64 = 20480;

/// Everything the pre-flight checks look at, gathered from the host.
#[derive(Debug, Clone)]
pub struct HostFacts {
    pub os: OsInfo,
    pub arch: String,
    pub euid: u32,
    pub sudo_nopasswd: bool,
    pub sudo_present: bool,
    pub install_dir: DiskProbe,
    pub storage_dir: DiskProbe,
    pub mounts: Vec<MountSpace>,
    pub has_systemd: bool,
    pub network_ok: bool,
}

/// The checks, in the order the pre-flight screen lists them.
pub open spec fn preflight_spec(f: HostFacts) -> Seq<(Seq<char>, CheckStatus, Seq<char>)> {
    seq![
        os_check_spec(f.os.pretty_name@, f.os.is_debian_family),
        arch_check_spec(f.arch@),
        privileges_check_spec(f.euid, f.sudo_nopasswd, f.sudo_present),
        probe_check_spec("Install dir writeable"@, f.install_dir, INSTALL_DIR_MIB, mount_views(f.mounts@)),
        probe_check_spec("Storage dir writeable"@, f.storage_dir, STORAGE_DIR_MIB, mount_views(f.mounts@)),
        systemd_check_spec(f.has_systemd),
        network_check_spec(f.network_ok),
    ]
}

/// The views of a list of checks.
pub open spec fn check_views(v: Seq<PreflightCheck>) -> Seq<(Seq<char>, CheckStatus, Seq<char>)> {
    v.map_values(|c: PreflightCheck| c@)
}

/// All pre-flight checks for the gathered host facts.
pub fn run_all_checks(facts: &HostFacts) -> (out: Vec<PreflightCheck>)
    ensures
        check_views(out@) == preflight_spec(*facts),
{
    let mut out: Vec<PreflightCheck> = Vec::new();
    out.push(os_check(&facts.os));
    out.push(arch_check(facts.arch.as_str()));
    out.push(privileges_check(facts.euid, facts.sudo_nopasswd, facts.sudo_present));
    out.push(
        probe_check("Install dir writeable", &facts.install_dir, INSTALL_DIR_MIB, facts.mounts.as_slice()),
    );
    out.push(
        probe_check("Storage dir writeable", &facts.storage_dir, STORAGE_DIR_MIB, facts.mounts.as_slice()),
    );
    out.push(systemd_check(facts.has_systemd));
    out.push(network_check(facts.network_ok));
    assert(check_views(out@) =~= preflight_spec(*facts));
    out
}

/// No check failed.
pub open spec fn none_failed(checks: Seq<PreflightCheck>) -> bool {
    forall|i: int| 0 <= i < checks.len() ==> checks[i].status != CheckStatus::Fail
}

/// Whether no check failed (warnings do not block).
pub fn all_ok(checks: &[PreflightCheck]) -> (r: bool)
    ensures
        r == none_failed(checks@),
{
    let mut i: usize = 0;
    while i < checks.len()
        invariant
            i <= checks.len(),
            forall|j: int| 0 <= j < i ==> checks@[j].status != CheckStatus::Fail,
        decreases checks.len() - i,
    {
        if checks[i].status == CheckStatus::Fail {
            return false;
        }
        i = i + 1;
    }
    true
}

} // verus!
