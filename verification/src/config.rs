//! The configuration plan: every value that drives the logging sinks.

use vstd::prelude::*;
use crate::level::Level;
use crate::level::get_level;
use crate::level::level_of;

verus! {

/// Size, in bytes, that the active log file may reach before it is rotated.
pub const ROTATION_SIZE_LIMIT: u64 = 5000 * 102400;

/// The values that a logging backend needs to stand up the configured
/// sinks: a size-rotated file sink and, when enabled, a console sink on
/// standard error, both filtered to `level`.
pub struct LogConfig {
    /// Minimum severity that either sink records.
    pub level: Level,
    /// Path of the active log file.
    pub file_path: String,
    /// Naming pattern for rotated files: the file path followed by the
    /// index marker `{}`.
    pub roller_pattern: String,
    /// Byte size of the active file at which rotation triggers.
    pub size_limit: u64,
    /// Number of rotated file generations to retain.
    pub window_count: u32,
    /// Whether records are mirrored to standard error.
    pub stderr_enabled: bool,
}

impl LogConfig {
    /// Well-formedness: the rotation policy keeps at least one window, and
    /// the roller pattern is the file path with the index marker appended.
    pub open spec fn wf(self) -> bool {
        &&& self.window_count >= 1
        &&& self.roller_pattern@ == self.file_path@ + "{}"@
    }

    /// Whether a record at `record` reaches the file sink.
    pub open spec fn spec_emits_to_file(self, record: Level) -> bool {
        self.level.spec_admits(record)
    }

    /// Whether a record at `record` reaches standard error.
    pub open spec fn spec_emits_to_stderr(self, record: Level) -> bool {
        self.stderr_enabled && self.level.spec_admits(record)
    }

    /// Decides whether a record logged at `record` is written to the file
    /// sink: exactly when the configured threshold admits it.
    pub fn emits_to_file(&self, record: Level) -> (b: bool)
        ensures
            b == self.spec_emits_to_file(record),
    {
        self.level.admits(record)
    }

    /// Decides whether a record logged at `record` is written to standard
    /// error: exactly when the console sink is enabled and the configured
    /// threshold admits the record.
    pub fn emits_to_stderr(&self, record: Level) -> (b: bool)
        ensures
            b == self.spec_emits_to_stderr(record),
    {
        self.stderr_enabled && self.level.admits(record)
    }
}

/// Law: with the console sink enabled, each record is mirrored. It reaches
/// standard error exactly when it reaches the file sink, and it reaches
/// both exactly when the configured threshold admits its severity.
pub proof fn lemma_stderr_mirrors_file(c: LogConfig, record: Level)
    requires
        c.stderr_enabled,
    ensures
        c.spec_emits_to_stderr(record) == c.spec_emits_to_file(record),
        c.spec_emits_to_file(record) == c.level.spec_admits(record),
{
}

/// Law: with the console sink disabled, no record reaches standard error,
/// whatever its severity.
pub proof fn lemma_stderr_silent_when_disabled(c: LogConfig, record: Level)
    requires
        !c.stderr_enabled,
    ensures
        !c.spec_emits_to_stderr(record),
{
}

/// Law: a well-formed plan's roller pattern ends in the index marker `{}`,
/// so the pattern always holds the marker that the roller substitutes, and
/// building the rotation policy from the plan cannot fail on it.
pub proof fn lemma_pattern_has_marker(c: LogConfig)
    requires
        c.wf(),
    ensures
        c.roller_pattern@.len() >= 2,
        c.roller_pattern@[c.roller_pattern@.len() - 2] == '{',
        c.roller_pattern@[c.roller_pattern@.len() - 1] == '}',
{
    reveal_strlit("{}");
}

/// Relies on `String::push_str`: the characters of `suffix` are appended
/// to `s`.
#[verifier::external_body]
fn push_str(s: &mut String, suffix: &str)
    ensures
        final(s)@ == old(s)@ + suffix@,
{
    s.push_str(suffix);
}

/// Translates the caller's settings into the configuration plan: the level
/// string is resolved to a severity, the roller pattern is derived from the
/// file path, and the rotation bounds are fixed. A window count of zero
/// would make the rotation policy unconstructible, so it is excluded.
pub fn build_config(level: &str, file_path: &str, enable_stderr: bool, rotation_window_count: u32) -> (c: LogConfig)
    requires
        rotation_window_count >= 1,
    ensures
        c.level == level_of(level@),
        c.file_path@ == file_path@,
        c.roller_pattern@ == file_path@ + "{}"@,
        c.size_limit == ROTATION_SIZE_LIMIT,
        c.window_count == rotation_window_count,
        c.stderr_enabled == enable_stderr,
        c.wf(),
{
    let resolved = get_level(level);
    let mut pattern = file_path.to_owned();
    push_str(&mut pattern, "{}");
    LogConfig {
        level: resolved,
        file_path: file_path.to_owned(),
        roller_pattern: pattern,
        size_limit: ROTATION_SIZE_LIMIT,
        window_count: rotation_window_count,
        stderr_enabled: enable_stderr,
    }
}

} // verus!
