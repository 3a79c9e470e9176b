//! The command-line output decisions and the once-taken networking consent.

use wasix_journal::consent::{route_networking, NetBackend, NetworkConsent, NetworkError};
use wasix_journal::output::{ColorChoice, LevelFilter, LogFormat, Output};

fn output(verbose: u8) -> Output {
    Output { verbose, quiet: false, log_format: LogFormat::Text, color: ColorChoice::Auto }
}

#[test]
fn verbosity_selects_default_level() {
    assert_eq!(output(0).default_log_level(), LevelFilter::Off);
    assert_eq!(output(1).default_log_level(), LevelFilter::Warn);
    assert_eq!(output(2).default_log_level(), LevelFilter::Info);
    assert_eq!(output(3).default_log_level(), LevelFilter::Debug);
    assert_eq!(output(4).default_log_level(), LevelFilter::Trace);
    assert_eq!(output(255).default_log_level(), LevelFilter::Trace);
}

#[test]
fn verbosity_selects_target_level_one_step_up() {
    assert_eq!(output(0).target_log_level(), None);
    assert_eq!(output(1).target_log_level(), Some(LevelFilter::Info));
    assert_eq!(output(2).target_log_level(), Some(LevelFilter::Debug));
    assert_eq!(output(3).target_log_level(), Some(LevelFilter::Trace));
    assert_eq!(output(9).target_log_level(), Some(LevelFilter::Trace));
}

#[test]
fn is_verbose_means_at_least_one_repetition() {
    assert!(!output(0).is_verbose());
    assert!(output(1).is_verbose());
    assert!(output(200).is_verbose());
}

#[test]
fn color_choice_decides_ansi_output() {
    let mut o = output(0);
    o.color = ColorChoice::Auto;
    assert!(o.should_emit_colors(true));
    assert!(!o.should_emit_colors(false));
    o.color = ColorChoice::Always;
    assert!(o.should_emit_colors(false));
    o.color = ColorChoice::Never;
    assert!(!o.should_emit_colors(true));
}

#[test]
fn quiet_hides_progress() {
    let mut o = output(0);
    assert!(!o.progress_hidden());
    o.quiet = true;
    assert!(o.progress_hidden());
}

#[test]
fn output_defaults_are_quiet_text_auto() {
    let o = Output::default();
    assert_eq!(o.verbose, 0);
    assert!(!o.quiet);
    assert_eq!(o.log_format, LogFormat::Text);
    assert_eq!(o.color, ColorChoice::Auto);
    assert_eq!(LogFormat::default(), LogFormat::Text);
}

#[test]
fn consent_is_taken_once_and_kept() {
    let mut c = NetworkConsent::new();
    assert_eq!(c.get_or_init(Ok(true)), Ok(true));
    // A later, different answer never replaces the first decision.
    assert_eq!(c.get_or_init(Ok(false)), Ok(true));
    assert_eq!(c.get_or_init(Err(NetworkError::UnknownError)), Ok(true));

    let mut denied = NetworkConsent::new();
    assert_eq!(denied.get_or_init(Ok(false)), Ok(false));
    assert_eq!(denied.get_or_init(Ok(true)), Ok(false));

    let mut failed = NetworkConsent::new();
    assert_eq!(
        failed.get_or_init(Err(NetworkError::UnknownError)),
        Err(NetworkError::UnknownError)
    );
}

#[test]
fn routing_follows_the_decision() {
    assert_eq!(route_networking(Ok(true)), Ok(NetBackend::Capable));
    assert_eq!(route_networking(Ok(false)), Ok(NetBackend::Unsupported));
    assert_eq!(
        route_networking(Err(NetworkError::UnknownError)),
        Err(NetworkError::UnknownError)
    );
}
