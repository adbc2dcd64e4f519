//! Severity levels and their resolution from a free-form string.

use vstd::prelude::*;

verus! {

/// Severity threshold, ordered from most restrictive (`Off` admits nothing)
/// to least restrictive (`Trace` admits every record).
#[derive(Clone, Copy, Debug, PartialEq, Eq, Structural)]
pub enum Level {
    Off,
    Error,
    Warn,
    Info,
    Debug,
    Trace,
}

impl Level {
    /// Position of the level in the severity order: the number of record
    /// severities it admits.
    pub open spec fn rank(self) -> nat {
        match self {
            Level::Off => 0,
            Level::Error => 1,
            Level::Warn => 2,
            Level::Info => 3,
            Level::Debug => 4,
            Level::Trace => 5,
        }
    }

    /// Whether a threshold set to `self` lets a record logged at `record`
    /// through. `Off` is a threshold, never a record severity, so it is
    /// admitted by nothing.
    pub open spec fn spec_admits(self, record: Level) -> bool {
        record != Level::Off && record.rank() <= self.rank()
    }

    /// The level's position in the severity order, as a machine value.
    pub fn rank_value(self) -> (n: u8)
        ensures
            n == self.rank(),
    {
        match self {
            Level::Off => 0,
            Level::Error => 1,
            Level::Warn => 2,
            Level::Info => 3,
            Level::Debug => 4,
            Level::Trace => 5,
        }
    }

    /// Threshold filter: does a threshold of `self` admit a record at `record`?
    pub fn admits(self, record: Level) -> (b: bool)
        ensures
            b == self.spec_admits(record),
    {
        record != Level::Off && record.rank_value() <= self.rank_value()
    }
}

/// ASCII case folding of a single character; everything outside `'A'..='Z'`
/// is left as it is.
pub open spec fn lower_char(c: char) -> char {
    if 65 <= c as u32 && c as u32 <= 90 {
        (((c as u32) + 32) as u8) as char
    } else {
        c
    }
}

/// ASCII-case-insensitive match of `s` against a lower-case word `w`.
pub open spec fn matches_ignore_case(s: Seq<char>, w: Seq<char>) -> bool {
    s.len() == w.len() && forall|i: int| 0 <= i < s.len() ==> #[trigger] lower_char(s[i]) == w[i]
}

/// The severity that a configuration string resolves to: one of the six
/// recognized names, compared without regard to ASCII case, and `Off` for
/// everything else.
pub open spec fn level_of(s: Seq<char>) -> Level {
    if matches_ignore_case(s, "trace"@) {
        Level::Trace
    } else if matches_ignore_case(s, "debug"@) {
        Level::Debug
    } else if matches_ignore_case(s, "info"@) {
        Level::Info
    } else if matches_ignore_case(s, "warn"@) {
        Level::Warn
    } else if matches_ignore_case(s, "error"@) {
        Level::Error
    } else {
        Level::Off
    }
}

fn lower_char_value(c: char) -> (r: char)
    ensures
        r == lower_char(c),
{
    let u = c as u32;
    if 65 <= u && u <= 90 {
        ((u + 32) as u8) as char
    } else {
        c
    }
}

/// ASCII-case-insensitive comparison of `s` with the word `w`.
fn eq_ignore_case(s: &str, w: &str) -> (b: bool)
    ensures
        b == matches_ignore_case(s@, w@),
{
    let n = s.unicode_len();
    if n != w.unicode_len() {
        return false;
    }
    let mut i: usize = 0;
    while i < n
        invariant
            n == s@.len(),
            n == w@.len(),
            i <= n,
            forall|j: int| 0 <= j < i ==> lower_char(s@[j]) == w@[j],
        decreases n - i,
    {
        if lower_char_value(s.get_char(i)) != w.get_char(i) {
            return false;
        }
        i += 1;
    }
    true
}

/// Resolves a verbosity string to a severity level. The six recognized
/// names map to their level whatever their case; any other string, the
/// empty one included, resolves to `Off`, so that nothing is logged.
pub fn get_level(level: &str) -> (r: Level)
    ensures
        r == level_of(level@),
{
    if eq_ignore_case(level, "trace") {
        Level::Trace
    } else if eq_ignore_case(level, "debug") {
        Level::Debug
    } else if eq_ignore_case(level, "info") {
        Level::Info
    } else if eq_ignore_case(level, "warn") {
        Level::Warn
    } else if eq_ignore_case(level, "error") {
        Level::Error
    } else {
        Level::Off
    }
}

/// Law: each of the six recognized names, in any ASCII case, resolves to
/// the level of that name, and a string that matches none of them resolves
/// to `Off`, the most restrictive level.
pub proof fn lemma_level_resolution(s: Seq<char>)
    ensures
        matches_ignore_case(s, "trace"@) ==> level_of(s) == Level::Trace,
        matches_ignore_case(s, "debug"@) ==> level_of(s) == Level::Debug,
        matches_ignore_case(s, "info"@) ==> level_of(s) == Level::Info,
        matches_ignore_case(s, "warn"@) ==> level_of(s) == Level::Warn,
        matches_ignore_case(s, "error"@) ==> level_of(s) == Level::Error,
        matches_ignore_case(s, "off"@) ==> level_of(s) == Level::Off,
        !matches_ignore_case(s, "trace"@) && !matches_ignore_case(s, "debug"@)
            && !matches_ignore_case(s, "info"@) && !matches_ignore_case(s, "warn"@)
            && !matches_ignore_case(s, "error"@) ==> level_of(s) == Level::Off,
{
    reveal_strlit("trace");
    reveal_strlit("debug");
    reveal_strlit("info");
    reveal_strlit("warn");
    reveal_strlit("error");
    reveal_strlit("off");
    if matches_ignore_case(s, "debug"@) {
        assert(lower_char(s[0]) == 'd');
        assert(!matches_ignore_case(s, "trace"@));
    }
    if matches_ignore_case(s, "warn"@) {
        assert(lower_char(s[0]) == 'w');
        assert(!matches_ignore_case(s, "info"@));
    }
    if matches_ignore_case(s, "error"@) {
        assert(lower_char(s[0]) == 'e');
        assert(!matches_ignore_case(s, "trace"@));
        assert(!matches_ignore_case(s, "debug"@));
    }
}

/// Law: the levels are totally ordered by how much they admit. `Off`
/// admits no record, `Trace` admits every record severity, and raising a
/// threshold in the order never drops a record the lower one admitted.
pub proof fn lemma_threshold_order(lower: Level, higher: Level, record: Level)
    ensures
        !Level::Off.spec_admits(record),
        record != Level::Off ==> Level::Trace.spec_admits(record),
        lower.rank() <= higher.rank() && lower.spec_admits(record)
            ==> higher.spec_admits(record),
{
}

} // verus!
