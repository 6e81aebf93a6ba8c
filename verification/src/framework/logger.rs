//! The console logger: which records it shows and how it lays them out.

use vstd::prelude::*;
use vstd::string::StringExecFns;
use crate::framework::fmt::{append_padded_decimal, digits, pad_left};

verus! {

/// The level of a log record, from the most to the least severe.
#[derive(Clone, Copy, PartialEq, Eq, Structural)]
pub enum Level {
    Error,
    Warn,
    Info,
    Debug,
    Trace,
}

/// The most verbose level a logger shows; `Off` shows nothing.
#[derive(Clone, Copy, PartialEq, Eq, Structural)]
pub enum LevelFilter {
    Off,
    Error,
    Warn,
    Info,
    Debug,
    Trace,
}

/// Verbosity of a level: `Error` is 1, `Trace` is 5.
pub open spec fn level_rank(l: Level) -> int {
    match l {
        Level::Error => 1,
        Level::Warn => 2,
        Level::Info => 3,
        Level::Debug => 4,
        Level::Trace => 5,
    }
}

/// Verbosity of a filter: `Off` is 0, `Trace` is 5.
pub open spec fn filter_rank(f: LevelFilter) -> int {
    match f {
        LevelFilter::Off => 0,
        LevelFilter::Error => 1,
        LevelFilter::Warn => 2,
        LevelFilter::Info => 3,
        LevelFilter::Debug => 4,
        LevelFilter::Trace => 5,
    }
}

/// The escape sequence that resets the terminal's colours.
pub open spec fn ansi_reset() -> Seq<char> {
    seq!['\x1b', '[', '0', 'm']
}

/// The escape sequence that dims the text.
pub open spec fn ansi_dim() -> Seq<char> {
    seq!['\x1b', '[', '2', 'm']
}

/// The colour escape sequence of a level: red, yellow, green, blue, magenta.
pub open spec fn level_color(l: Level) -> Seq<char> {
    match l {
        Level::Error => seq!['\x1b', '[', '3', '1', 'm'],
        Level::Warn => seq!['\x1b', '[', '3', '3', 'm'],
        Level::Info => seq!['\x1b', '[', '3', '2', 'm'],
        Level::Debug => seq!['\x1b', '[', '3', '4', 'm'],
        Level::Trace => seq!['\x1b', '[', '3', '5', 'm'],
    }
}

/// The name of a level, right-aligned to five characters.
pub open spec fn level_label(l: Level) -> Seq<char> {
    match l {
        Level::Error => seq!['E', 'R', 'R', 'O', 'R'],
        Level::Warn => seq![' ', 'W', 'A', 'R', 'N'],
        Level::Info => seq![' ', 'I', 'N', 'F', 'O'],
        Level::Debug => seq!['D', 'E', 'B', 'U', 'G'],
        Level::Trace => seq!['T', 'R', 'A', 'C', 'E'],
    }
}

/// The line written for a record. With colours:
/// `{dim}{timestamp}{reset} {color}{label}{reset} {dim}{target}:{reset} {message}`;
/// without: `{timestamp}{label} {target}: {message}`.
pub open spec fn record_line(
    ansi: bool,
    timestamp: Seq<char>,
    level: Level,
    target: Seq<char>,
    message: Seq<char>,
) -> Seq<char> {
    if ansi {
        ansi_dim() + timestamp + ansi_reset() + seq![' '] + level_color(level) + level_label(level)
            + ansi_reset() + seq![' '] + ansi_dim() + target + seq![':'] + ansi_reset() + seq![' ']
            + message
    } else {
        timestamp + level_label(level) + seq![' '] + target + seq![':', ' '] + message
    }
}

/// The time stamp of a record: the seconds since start right-aligned to four
/// characters, a dot, the milliseconds as three digits, and `s`.
pub open spec fn timestamp_text(secs: nat, millis: nat) -> Seq<char> {
    pad_left(digits(secs, 10, false), 4, ' ') + seq!['.'] + pad_left(digits(millis, 10, false), 3, '0')
        + seq!['s']
}

/// The console logger: records up to `max_level` are shown, with colours if
/// `ansi_support`.
pub struct Logger {
    pub max_level: LevelFilter,
    pub ansi_support: bool,
}

fn level_color_str(l: Level) -> (r: &'static str)
    ensures
        r@ == level_color(l),
{
    proof {
        reveal_strlit("\x1b[31m");
        reveal_strlit("\x1b[33m");
        reveal_strlit("\x1b[32m");
        reveal_strlit("\x1b[34m");
        reveal_strlit("\x1b[35m");
    }
    match l {
        Level::Error => "\x1b[31m",
        Level::Warn => "\x1b[33m",
        Level::Info => "\x1b[32m",
        Level::Debug => "\x1b[34m",
        Level::Trace => "\x1b[35m",
    }
}

fn level_label_str(l: Level) -> (r: &'static str)
    ensures
        r@ == level_label(l),
{
    proof {
        reveal_strlit("ERROR");
        reveal_strlit(" WARN");
        reveal_strlit(" INFO");
        reveal_strlit("DEBUG");
        reveal_strlit("TRACE");
    }
    match l {
        Level::Error => "ERROR",
        Level::Warn => " WARN",
        Level::Info => " INFO",
        Level::Debug => "DEBUG",
        Level::Trace => "TRACE",
    }
}

impl Logger {
    /// Whether records of `level` are shown.
    pub fn enabled(&self, level: Level) -> (r: bool)
        ensures
            r == (level_rank(level) <= filter_rank(self.max_level)),
    {
        let rank: u8 = match level {
            Level::Error => 1,
            Level::Warn => 2,
            Level::Info => 3,
            Level::Debug => 4,
            Level::Trace => 5,
        };
        let max: u8 = match self.max_level {
            LevelFilter::Off => 0,
            LevelFilter::Error => 1,
            LevelFilter::Warn => 2,
            LevelFilter::Info => 3,
            LevelFilter::Debug => 4,
            LevelFilter::Trace => 5,
        };
        rank <= max
    }

    /// The line to write for a record of `level` from `target` with `message`,
    /// stamped with `timestamp`; `None` if the logger does not show `level`.
    pub fn format_record(&self, timestamp: &str, level: Level, target: &str, message: &str) -> (r:
        Option<String>)
        ensures
            level_rank(level) > filter_rank(self.max_level) ==> r is None,
            level_rank(level) <= filter_rank(self.max_level) ==> (r matches Some(line) && line@
                == record_line(self.ansi_support, timestamp@, level, target@, message@)),
    {
        if !self.enabled(level) {
            return None;
        }
        proof {
            reveal_strlit("\x1b[0m");
            reveal_strlit("\x1b[2m");
            reveal_strlit(" ");
            reveal_strlit(":");
            reveal_strlit(": ");
        }
        let mut line = String::new();
        if self.ansi_support {
            line.append("\x1b[2m");
            line.append(timestamp);
            line.append("\x1b[0m");
            line.append(" ");
            line.append(level_color_str(level));
            line.append(level_label_str(level));
            line.append("\x1b[0m");
            line.append(" ");
            line.append("\x1b[2m");
            line.append(target);
            line.append(":");
            line.append("\x1b[0m");
            line.append(" ");
            line.append(message);
        } else {
            line.append(timestamp);
            line.append(level_label_str(level));
            line.append(" ");
            line.append(target);
            line.append(": ");
            line.append(message);
        }
        assert(line@ =~= record_line(self.ansi_support, timestamp@, level, target@, message@));
        Some(line)
    }

    /// The time stamp for a record written `secs` seconds and `millis`
    /// milliseconds after the logger started.
    pub fn elapsed_timestamp(secs: u64, millis: u32) -> (r: String)
        ensures
            r@ == timestamp_text(secs as nat, millis as nat),
    {
        proof {
            reveal_strlit(" ");
            reveal_strlit("0");
            reveal_strlit(".");
            reveal_strlit("s");
        }
        let mut out = String::new();
        append_padded_decimal(&mut out, secs, 4, " ");
        out.append(".");
        append_padded_decimal(&mut out, millis as u64, 3, "0");
        out.append("s");
        assert(out@ =~= timestamp_text(secs as nat, millis as nat));
        out
    }
}

/// A logger shows a record exactly when its level is at least as severe as the
/// filter: `Off` shows nothing, `Error` only errors, `Warn` errors and warnings,
/// `Info` everything but debug and trace records, `Debug` everything but trace
/// records, and `Trace` everything.
pub proof fn lemma_filter_shows_levels_as_severe(f: LevelFilter, l: Level)
    ensures
        (level_rank(l) <= filter_rank(f)) == match f {
            LevelFilter::Off => false,
            LevelFilter::Error => l == Level::Error,
            LevelFilter::Warn => l == Level::Error || l == Level::Warn,
            LevelFilter::Info => l == Level::Error || l == Level::Warn || l == Level::Info,
            LevelFilter::Debug => l != Level::Trace,
            LevelFilter::Trace => true,
        },
{
}

} // verus!
