//! Decimal rendering, colour codes and the message lines the commands
//! print.

use gt::text::{u64_to_dec, usize_to_dec};
use gt::ui::{bold, format_message, green, red, Color, ColoredString, MessageLevel};

#[test]
fn numbers_render_in_decimal() {
    assert_eq!(u64_to_dec(0), "0");
    assert_eq!(u64_to_dec(7), "7");
    assert_eq!(u64_to_dec(10), "10");
    assert_eq!(u64_to_dec(42), "42");
    assert_eq!(u64_to_dec(1234567890), "1234567890");
    assert_eq!(u64_to_dec(u64::MAX), "18446744073709551615");
    assert_eq!(usize_to_dec(305), "305");
}

#[test]
fn colour_codes_are_the_ansi_sequences() {
    assert_eq!(Color::Red.code(), "\x1b[0;31m");
    assert_eq!(Color::Green.code(), "\x1b[0;32m");
    assert_eq!(Color::Reset.code(), "\x1b[0m");
    assert_eq!(Color::Bold.code(), "\x1b[1m");
}

#[test]
fn coloured_text_renders_with_and_without_colour() {
    let text = ColoredString::new("hello".to_string(), Color::Cyan);
    assert_eq!(text.render(false), "hello");
    assert_eq!(text.render(true), "\x1b[0;36mhello\x1b[0m");
    assert_eq!(red("x".to_string()).render(true), "\x1b[0;31mx\x1b[0m");
    assert_eq!(green("y".to_string()).render(false), "y");
    assert_eq!(bold("z".to_string()).color, Color::Bold);
}

#[test]
fn message_lines_carry_their_prefix() {
    assert_eq!(format_message(MessageLevel::Info, "ready"), "[INFO] ready");
    assert_eq!(format_message(MessageLevel::Step, "working"), "[STEP] working");
    assert_eq!(format_message(MessageLevel::Success, "done"), "[SUCCESS] done");
    assert_eq!(format_message(MessageLevel::Warning, "careful"), "[WARN] careful");
    assert_eq!(format_message(MessageLevel::Error, "broken"), "[ERROR] broken");
}

#[test]
fn warnings_and_errors_go_to_the_error_stream() {
    assert!(!MessageLevel::Info.on_error_stream());
    assert!(!MessageLevel::Step.on_error_stream());
    assert!(!MessageLevel::Success.on_error_stream());
    assert!(MessageLevel::Warning.on_error_stream());
    assert!(MessageLevel::Error.on_error_stream());
    assert_eq!(MessageLevel::Error.color(), Color::Red);
    assert_eq!(MessageLevel::Info.prefix(), "[INFO]");
}

#[test]
fn tool_wide_defaults_are_conservative() {
    let config = gt::GtConfig::default();
    assert_eq!(config.default_remote, "origin");
    assert_eq!(config.default_base, "main");
    assert!(config.auto_push);
    assert!(!config.verbose);
    assert!(config.github_token.is_none());

    let repo_config = gt::config::repository::RepoConfig::default();
    assert_eq!(repo_config.main_branch_remote_ref(), "origin/main");
}
