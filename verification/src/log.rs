//! A bounded log of timestamped lines that keeps the newest entries.
use vstd::prelude::*;

use crate::clock::{clock_valid, current_clock, format_hms, hms, LocalClock};
use crate::model::LogLevel;
use crate::text::push_str;

verus! {

/// One log line.
#[derive(Debug, Clone)]
pub struct LogEntry {
    pub time: LocalClock,
    pub level: LogLevel,
    pub message: String,
}

impl View for LogEntry {
    type V = (LocalClock, LogLevel, Seq<char>);

    open spec fn view(&self) -> (LocalClock, LogLevel, Seq<char>) {
        (self.time, self.level, self.message@)
    }
}

/// The views of a sequence of entries.
pub open spec fn entry_views(v: Seq<LogEntry>) -> Seq<(LocalClock, LogLevel, Seq<char>)> {
    v.map_values(|e: LogEntry| e@)
}

/// The newest `max` items of `s` (all of them when there are at most `max`).
pub open spec fn keep_newest<T>(s: Seq<T>, max: nat) -> Seq<T> {
    if s.len() > max {
        s.skip(s.len() - max)
    } else {
        s
    }
}

/// A log that holds at most `max` lines, dropping the oldest first.
#[derive(Debug, Clone)]
pub struct LogRing {
    pub entries: Vec<LogEntry>,
    pub max: usize,
}

impl View for LogRing {
    type V = Seq<(LocalClock, LogLevel, Seq<char>)>;

    open spec fn view(&self) -> Seq<(LocalClock, LogLevel, Seq<char>)> {
        entry_views(self.entries@)
    }
}

fn copy_entry(e: &LogEntry) -> (r: LogEntry)
    ensures
        r@ == e@,
{
    LogEntry { time: e.time, level: e.level, message: e.message.clone() }
}

impl LogRing {
    /// An empty log holding at most `max` lines.
    pub fn new(max: usize) -> (r: LogRing)
        ensures
            r@ == Seq::<(LocalClock, LogLevel, Seq<char>)>::empty(),
            r.max == max,
    {
        LogRing { entries: Vec::with_capacity(max), max }
    }

    /// Appends a line stamped `time`, then drops the oldest lines beyond `max`.
    pub fn push_at(&mut self, time: LocalClock, level: LogLevel, message: String)
        ensures
            final(self).max == old(self).max,
            final(self)@ == keep_newest(old(self)@.push((time, level, message@)), old(self).max as nat),
    {
        let ghost before = self@;
        let ghost mv = message@;
        self.entries.push(LogEntry { time, level, message });
        assert(entry_views(self.entries@) =~= before.push((time, level, mv)));
        let len = self.entries.len();
        if len > self.max {
            let over = len - self.max;
            let ghost all = entry_views(self.entries@);
            let kept = self.entries.split_off(over);
            self.entries = kept;
            assert(entry_views(self.entries@) =~= all.skip(over as int));
        }
    }

    /// Appends a line stamped with the current local time (the start of the
    /// Unix epoch when the clock cannot be read), then drops the
    /// oldest lines beyond `max`.
    pub fn push(&mut self, level: LogLevel, message: String)
        ensures
            final(self).max == old(self).max,
            exists|t: LocalClock|
                clock_valid(t) && final(self)@ == keep_newest(
                    old(self)@.push((t, level, message@)),
                    old(self).max as nat,
                ),
    {
        let t = current_clock();
        self.push_at(t, level, message);
    }

    /// A copy of the lines, oldest first.
    pub fn snapshot(&self) -> (v: Vec<LogEntry>)
        ensures
            entry_views(v@) == self@,
    {
        let mut v: Vec<LogEntry> = Vec::new();
        let mut i: usize = 0;
        while i < self.entries.len()
            invariant
                i <= self.entries.len(),
                v.len() == i,
                forall|j: int| 0 <= j < i ==> #[trigger] v@[j]@ == self.entries@[j]@,
            decreases self.entries.len() - i,
        {
            v.push(copy_entry(&self.entries[i]));
            i = i + 1;
        }
        assert(entry_views(v@) =~= self@);
        v
    }

    /// Number of lines held.
    pub fn len(&self) -> (n: usize)
        ensures
            n == self@.len(),
    {
        self.entries.len()
    }
}

/// The level tag printed before a log line.
pub open spec fn level_tag(l: LogLevel) -> Seq<char> {
    match l {
        LogLevel::Info => "INFO"@,
        LogLevel::Success => "OK  "@,
        LogLevel::Warn => "WARN"@,
        LogLevel::Error => "ERR "@,
    }
}

/// The four-character tag of a level.
pub fn tag_of(l: LogLevel) -> (r: &'static str)
    ensures
        r@ == level_tag(l),
{
    match l {
        LogLevel::Info => "INFO",
        LogLevel::Success => "OK  ",
        LogLevel::Warn => "WARN",
        LogLevel::Error => "ERR ",
    }
}

/// A log line as the command-line mode prints it: `HH:MM:SS  TAG  message`.
pub fn console_line(e: &LogEntry) -> (r: String)
    ensures
        r@ == hms(e.time) + "  "@ + level_tag(e.level) + "  "@ + e.message@,
{
    let mut r = format_hms(&e.time);
    push_str(&mut r, "  ");
    push_str(&mut r, tag_of(e.level));
    push_str(&mut r, "  ");
    push_str(&mut r, e.message.as_str());
    r
}

} // verus!
