//! Configuration overlay, defaults, and the rendered stylesheet.

use waylock::args::Args;
use waylock::blur::BlurMethod;
use waylock::config::{
    Config, IDLE_TIMEOUT, START_HIDDEN, date_format, idle_timeout, load_config, start_hidden,
    time_format,
};
use waylock::css::{attach_style_fmt, decimal_string};

fn full_config() -> Config {
    Config::new(
        Some("Adwaita".to_string()),
        Some("/tmp/config.toml".to_string()),
        Some("/tmp/style.css".to_string()),
        Some("/tmp/bg.png".to_string()),
        Some(5),
        Some(true),
        Some("%H:%M:%S".to_string()),
        Some("%d.%m.%Y".to_string()),
    )
}

fn empty_config() -> Config {
    Config::new(None, None, None, None, None, None, None, None)
}

#[test]
fn defaults_are_the_documented_ones() {
    let c = Config::default();
    assert_eq!(c.get_idle_timeout(), 30);
    assert!(!c.get_start_hidden());
    assert_eq!(c.get_time_format(), "%H:%M");
    assert_eq!(c.get_date_format(), "%A, %d %B %Y");
    assert_eq!(c.get_gtk_theme(), None);
    assert_eq!(c.get_background(), None);
    assert_eq!(idle_timeout(), Some(IDLE_TIMEOUT));
    assert_eq!(start_hidden(), Some(START_HIDDEN));
    assert_eq!(time_format(), Some("%H:%M".to_string()));
    assert_eq!(date_format(), Some("%A, %d %B %Y".to_string()));
}

#[test]
fn merge_prefers_the_overlay_where_present() {
    let merged = full_config().merge(Config::new(
        None,
        None,
        None,
        None,
        Some(120),
        None,
        Some("%I:%M %p".to_string()),
        None,
    ));
    // Overridden settings take the overlay's values ...
    assert_eq!(merged.get_idle_timeout(), 120);
    assert_eq!(merged.get_time_format(), "%I:%M %p");
    // ... and untouched ones keep the base's.
    assert_eq!(merged.get_gtk_theme(), Some(&"Adwaita".to_string()));
    assert!(merged.get_start_hidden());
    assert_eq!(merged.get_date_format(), "%d.%m.%Y");
    assert_eq!(merged.get_background(), Some(&"/tmp/bg.png".to_string()));
}

#[test]
fn merge_keeps_the_base_where_the_overlay_is_empty() {
    let merged = full_config().merge(empty_config());
    assert_eq!(merged.get_idle_timeout(), 5);
    assert!(merged.get_start_hidden());
    assert_eq!(merged.get_time_format(), "%H:%M:%S");
}

#[test]
fn getters_fall_back_to_the_given_paths() {
    let c = empty_config();
    assert_eq!(
        c.get_style(Some("/home/u/.config/style.css".to_string())),
        Some("/home/u/.config/style.css".to_string())
    );
    assert_eq!(c.get_style(None), None);
    assert_eq!(
        c.get_config(Some("/home/u/.config/config.toml".to_string())),
        Some("/home/u/.config/config.toml".to_string())
    );
    let with_style = full_config();
    assert_eq!(
        with_style.get_style(Some("/elsewhere.css".to_string())),
        Some("/tmp/style.css".to_string())
    );
    assert_eq!(
        with_style.get_config(None),
        Some("/tmp/config.toml".to_string())
    );
}

#[test]
fn load_config_uses_the_parsed_file_or_the_defaults() {
    let adopted = load_config(Some(full_config()));
    assert_eq!(adopted.get_idle_timeout(), 5);
    let fallback = load_config(None);
    assert_eq!(fallback.get_idle_timeout(), 30);
    assert_eq!(fallback.get_time_format(), "%H:%M");
}

#[test]
fn args_carry_settings_and_the_daemon_switch() {
    let args = Args { config: full_config(), daemonize: true };
    assert!(args.daemonize);
    assert_eq!(args.config.get_idle_timeout(), 5);
}

#[test]
fn blur_methods_are_distinct() {
    assert_ne!(BlurMethod::CPU, BlurMethod::GPU);
    assert_eq!(BlurMethod::CPU, BlurMethod::CPU);
}

#[test]
fn decimal_rendering_is_exact() {
    assert_eq!(decimal_string(0), "0");
    assert_eq!(decimal_string(7), "7");
    assert_eq!(decimal_string(30), "30");
    assert_eq!(decimal_string(10), "10");
    assert_eq!(decimal_string(12345), "12345");
    assert_eq!(decimal_string(u64::MAX), "18446744073709551615");
}

#[test]
fn stylesheet_names_the_duration_twice() {
    let sheet = attach_style_fmt(300);
    let expected = "
.time {
    transition: 300ms ease-in-out;
    font-size: 48pt;
    font-family: monospace;
}
window:not(.hidden) .time {
    font-size: 40pt;
}
.date {
    transition: 300ms ease-in-out;
    font-size: 24pt;
    font-family: monospace;
}
window:not(.hidden) .date {
    font-size: 20pt;
}

.error-label {
    color: red;
}
";
    assert_eq!(sheet, expected);
    assert_eq!(attach_style_fmt(0).matches("0ms").count(), 2);
}
