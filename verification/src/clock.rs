//! Local wall-clock readings and their textual forms.
use vstd::prelude::*;

use chrono::{Datelike, Timelike};

use crate::text::{dec, push_char, push_dec, push_pad2, push_str};

verus! {

/// A reading of the local wall clock, broken into calendar fields.
#[derive(Debug, Clone, Copy, PartialEq, Eq, Structural)]
pub struct LocalClock {
    pub year: i32,
    pub month: u32,
    pub day: u32,
    pub hour: u32,
    pub minute: u32,
    pub second: u32,
    /// Nanoseconds since the whole second; `1_000_000_000..` marks a leap second.
    pub nanosecond: u32,
}

/// The ranges `chrono` documents for each calendar field.
pub open spec fn clock_valid(c: LocalClock) -> bool {
    &&& 1 <= c.month <= 12
    &&& 1 <= c.day <= 31
    &&& c.hour < 24
    &&& c.minute < 60
    &&& c.second < 60
    &&& c.nanosecond < 2_000_000_000
}

/// Reads the system clock as the time elapsed since the Unix epoch
/// (`SystemTime::elapsed` on `std::time::UNIX_EPOCH`): whole seconds and the
/// nanoseconds past them. `None` when the clock reads before the epoch. The
/// reading depends on the time, so only the range of the nanoseconds, which
/// `Duration::subsec_nanos` documents, is stated.
#[verifier::external_body]
fn unix_time() -> (r: Option<(u64, u32)>)
    ensures
        r matches Some(t) ==> t.1 < 1_000_000_000,
{
    let d = std::time::UNIX_EPOCH.elapsed().ok()?;
    Some((d.as_secs(), d.subsec_nanos()))
}

/// The local calendar reading of the instant `secs` seconds and `nanos`
/// nanoseconds after the Unix epoch: `chrono::DateTime::from_timestamp`,
/// then `with_timezone(&chrono::Local)` and its `Datelike` / `Timelike`
/// fields. `None` where `from_timestamp` has no date for the instant. The
/// fields depend on the machine's time zone, so nothing is said of them
/// beyond the ranges chrono documents for each.
#[verifier::external_body]
fn local_clock_at(secs: i64, nanos: u32) -> (r: Option<LocalClock>)
    ensures
        r matches Some(c) ==> clock_valid(c),
{
    let t = chrono::DateTime::from_timestamp(secs, nanos)?.with_timezone(&chrono::Local);
    Some(LocalClock {
        year: t.year(),
        month: t.month(),
        day: t.day(),
        hour: t.hour(),
        minute: t.minute(),
        second: t.second(),
        nanosecond: t.nanosecond(),
    })
}

/// The local time now; `None` when the system clock reads before the Unix
/// epoch or beyond the dates chrono can hold.
pub fn local_now() -> (r: Option<LocalClock>)
    ensures
        r matches Some(c) ==> clock_valid(c),
{
    match unix_time() {
        None => None,
        Some((secs, nanos)) => {
            if secs <= 0x7FFF_FFFF_FFFF_FFFF {
                local_clock_at(secs as i64, nanos)
            } else {
                None
            }
        },
    }
}

/// The start of the Unix epoch, 1970-01-01 00:00:00.
pub open spec fn epoch_clock() -> LocalClock {
    LocalClock { year: 1970, month: 1, day: 1, hour: 0, minute: 0, second: 0, nanosecond: 0 }
}

/// The reading `r`, or the start of the Unix epoch when there is none.
pub fn reading_or_epoch(r: Option<LocalClock>) -> (c: LocalClock)
    ensures
        c == (match r {
            Some(x) => x,
            None => epoch_clock(),
        }),
{
    match r {
        Some(x) => x,
        None => LocalClock { year: 1970, month: 1, day: 1, hour: 0, minute: 0, second: 0, nanosecond: 0 },
    }
}

/// The local time now, or the start of the Unix epoch when the clock
/// cannot be read (see `local_now`).
pub fn current_clock() -> (c: LocalClock)
    ensures
        clock_valid(c),
{
    reading_or_epoch(local_now())
}

/// The second as printed: a leap second shows as 60.
pub open spec fn shown_second(c: LocalClock) -> nat {
    if c.nanosecond >= 1_000_000_000 {
        (c.second + 1) as nat
    } else {
        c.second as nat
    }
}

/// Two-digit zero-padded field (`%H`, `%M`, `%S`, `%m`, `%d`).
pub open spec fn two(n: nat) -> Seq<char> {
    crate::text::pad2(n)
}

/// `n` zero-padded to at least `w` digits.
pub open spec fn pad_to(n: nat, w: nat) -> Seq<char> {
    let d = dec(n);
    if d.len() >= w {
        d
    } else {
        Seq::new((w - d.len()) as nat, |i: int| '0') + d
    }
}

/// The year as `%Y` prints it: four digits, zero-padded, for years
/// 0..=9999; otherwise a sign and at least four digits.
pub open spec fn year_text(y: int) -> Seq<char> {
    if 0 <= y <= 9999 {
        pad_to(y as nat, 4)
    } else if y < 0 {
        seq!['-'] + pad_to((-y) as nat, 4)
    } else {
        seq!['+'] + pad_to(y as nat, 4)
    }
}

/// `%H:%M:%S`.
pub open spec fn hms(c: LocalClock) -> Seq<char> {
    two(c.hour as nat) + seq![':'] + two(c.minute as nat) + seq![':'] + two(shown_second(c))
}

/// `%Y%m%d-%H%M%S`.
pub open spec fn compact_stamp(c: LocalClock) -> Seq<char> {
    year_text(c.year as int) + two(c.month as nat) + two(c.day as nat) + seq!['-'] + two(
        c.hour as nat,
    ) + two(c.minute as nat) + two(shown_second(c))
}

fn shown_second_of(c: &LocalClock) -> (s: u64)
    ensures
        s == shown_second(*c),
{
    if c.nanosecond >= 1_000_000_000 {
        c.second as u64 + 1
    } else {
        c.second as u64
    }
}

/// Formats the time of day as `HH:MM:SS`.
pub fn format_hms(c: &LocalClock) -> (s: String)
    ensures
        s@ == hms(*c),
{
    let mut s = String::new();
    push_pad2(&mut s, c.hour as u64);
    push_char(&mut s, ':');
    push_pad2(&mut s, c.minute as u64);
    push_char(&mut s, ':');
    push_pad2(&mut s, shown_second_of(c));
    s
}

/// Appends `n` zero-padded to four digits.
fn push_pad4(s: &mut String, n: u64)
    ensures
        final(s)@ == old(s)@ + pad_to(n as nat, 4),
{
    let mut d = String::new();
    push_dec(&mut d, n);
    let len = d.as_str().unicode_len();
    if len < 4 {
        let mut k: usize = 0;
        let ghost s0 = s@;
        while k < 4 - len
            invariant
                len < 4,
                k <= 4 - len,
                s@ == s0 + Seq::new(k as nat, |i: int| '0'),
            decreases 4 - len - k,
        {
            push_char(s, '0');
            assert(s@ =~= s0 + Seq::new((k + 1) as nat, |i: int| '0'));
            k = k + 1;
        }
    }
    push_str(s, d.as_str());
    assert(s@ =~= old(s)@ + pad_to(n as nat, 4));
}

/// Formats the reading as `YYYYmmdd-HHMMSS`.
pub fn format_compact(c: &LocalClock) -> (s: String)
    ensures
        s@ == compact_stamp(*c),
{
    let mut s = String::new();
    let y = c.year;
    if 0 <= y && y <= 9999 {
        push_pad4(&mut s, y as u64);
    } else if y < 0 {
        push_char(&mut s, '-');
        let a: u64 = (0i64 - (y as i64)) as u64;
        push_pad4(&mut s, a);
    } else {
        push_char(&mut s, '+');
        push_pad4(&mut s, y as u64);
    }
    let ghost s_year = s@;
    assert(s_year == year_text(c.year as int));
    push_pad2(&mut s, c.month as u64);
    push_pad2(&mut s, c.day as u64);
    push_char(&mut s, '-');
    push_pad2(&mut s, c.hour as u64);
    push_pad2(&mut s, c.minute as u64);
    push_pad2(&mut s, shown_second_of(c));
    s
}

/// Reads the local clock and formats it as `YYYYmmdd-HHMMSS`; the start
/// of the Unix epoch stands in when the clock cannot be read.
pub fn now_compact() -> (s: String)
    ensures
        exists|c: LocalClock| clock_valid(c) && s@ == compact_stamp(c),
{
    let c = current_clock();
    format_compact(&c)
}

} // verus!
