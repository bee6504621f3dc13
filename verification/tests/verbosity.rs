use parallelion::verbosity::log_level;
use parallelion::verbosity::LogLevel;

#[test]
fn verbose_flags_escalate_the_level() {
    assert_eq!(log_level(false, 0), LogLevel::Warn);
    assert_eq!(log_level(false, 1), LogLevel::Info);
    assert_eq!(log_level(false, 2), LogLevel::Debug);
    assert_eq!(log_level(false, 3), LogLevel::Trace);
    assert_eq!(log_level(false, 99), LogLevel::Trace);
}

#[test]
fn quiet_wins_over_verbose() {
    assert_eq!(log_level(true, 0), LogLevel::ErrorOnly);
    assert_eq!(log_level(true, 5), LogLevel::ErrorOnly);
}
