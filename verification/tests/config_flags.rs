use gatherfiles::config::Verbosity;
use gatherfiles::config::verbosity_from_flags;

#[test]
fn quiet_silences_everything() {
    assert_eq!(verbosity_from_flags(true, 0), Verbosity::Off);
    assert_eq!(verbosity_from_flags(true, 3), Verbosity::Off);
}

#[test]
fn no_debug_flag_means_info() {
    assert_eq!(verbosity_from_flags(false, 0), Verbosity::Info);
}

#[test]
fn one_debug_flag_means_debug() {
    assert_eq!(verbosity_from_flags(false, 1), Verbosity::Debug);
}

#[test]
fn repeated_debug_flags_mean_trace() {
    assert_eq!(verbosity_from_flags(false, 2), Verbosity::Trace);
    assert_eq!(verbosity_from_flags(false, 7), Verbosity::Trace);
}
