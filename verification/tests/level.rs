use logsetup::Level;
use logsetup::get_level;

#[test]
fn recognized_levels_resolve_exactly() {
    assert_eq!(get_level("trace"), Level::Trace);
    assert_eq!(get_level("debug"), Level::Debug);
    assert_eq!(get_level("info"), Level::Info);
    assert_eq!(get_level("warn"), Level::Warn);
    assert_eq!(get_level("error"), Level::Error);
    assert_eq!(get_level("off"), Level::Off);
}

#[test]
fn case_is_ignored() {
    assert_eq!(get_level("TRACE"), Level::Trace);
    assert_eq!(get_level("Debug"), Level::Debug);
    assert_eq!(get_level("iNfO"), Level::Info);
    assert_eq!(get_level("WaRn"), Level::Warn);
    assert_eq!(get_level("ERROR"), Level::Error);
}

#[test]
fn unrecognized_resolves_to_off() {
    assert_eq!(get_level(""), Level::Off);
    assert_eq!(get_level("warning"), Level::Off);
    assert_eq!(get_level("inf"), Level::Off);
    assert_eq!(get_level("debugg"), Level::Off);
    assert_eq!(get_level(" debug"), Level::Off);
    assert_eq!(get_level("42"), Level::Off);
}

#[test]
fn off_admits_nothing() {
    assert!(!Level::Off.admits(Level::Off));
    assert!(!Level::Off.admits(Level::Error));
    assert!(!Level::Off.admits(Level::Warn));
    assert!(!Level::Off.admits(Level::Info));
    assert!(!Level::Off.admits(Level::Debug));
    assert!(!Level::Off.admits(Level::Trace));
}

#[test]
fn trace_admits_every_record() {
    assert!(Level::Trace.admits(Level::Error));
    assert!(Level::Trace.admits(Level::Warn));
    assert!(Level::Trace.admits(Level::Info));
    assert!(Level::Trace.admits(Level::Debug));
    assert!(Level::Trace.admits(Level::Trace));
}

#[test]
fn warn_threshold_cuts_below_warn() {
    assert!(Level::Warn.admits(Level::Error));
    assert!(Level::Warn.admits(Level::Warn));
    assert!(!Level::Warn.admits(Level::Info));
    assert!(!Level::Warn.admits(Level::Debug));
    assert!(!Level::Warn.admits(Level::Trace));
}
