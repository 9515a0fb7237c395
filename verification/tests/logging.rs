use comtrya_lib::logging::{log_settings, LogLevel, LogSettings};

#[test]
fn no_verbosity_flag_logs_at_info() {
    assert_eq!(
        LogSettings { max_level: LogLevel::Info, ansi: true },
        log_settings(0, false)
    );
}

#[test]
fn one_verbosity_flag_logs_at_debug() {
    assert_eq!(LogLevel::Debug, log_settings(1, false).max_level);
}

#[test]
fn two_or_more_verbosity_flags_log_at_trace() {
    assert_eq!(LogLevel::Trace, log_settings(2, false).max_level);
    assert_eq!(LogLevel::Trace, log_settings(3, false).max_level);
    assert_eq!(LogLevel::Trace, log_settings(u8::MAX, true).max_level);
}

#[test]
fn no_color_turns_ansi_off_at_every_level() {
    for verbose in [0u8, 1, 2, 200] {
        assert!(log_settings(verbose, false).ansi);
        assert!(!log_settings(verbose, true).ansi);
        assert_eq!(
            log_settings(verbose, false).max_level,
            log_settings(verbose, true).max_level
        );
    }
}
