//! The lock screen's configuration: every setting is optional, with a
//! documented default, and a configuration read from a file can be overlaid
//! with one parsed from the command line. Reading and parsing the file are
//! the front end's business; this module holds the settings themselves, the
//! overlay rule, and the defaults.

use vstd::prelude::*;

verus! {

/// Default idle timeout before the form hides, in seconds.
pub const IDLE_TIMEOUT: u64 = 30;

/// Whether the form starts hidden, by default.
pub const START_HIDDEN: bool = false;

/// The default clock time format.
pub open spec fn spec_time_format() -> Seq<char> {
    "%H:%M"@
}

/// The default clock date format.
pub open spec fn spec_date_format() -> Seq<char> {
    "%A, %d %B %Y"@
}

/// The settings of the lock screen. Every field is optional: an absent value
/// means "use the default", and lets another configuration source fill it in.
#[derive(Debug)]
pub struct Config {
    gtk_theme: Option<String>,
    config: Option<String>,
    style: Option<String>,
    background: Option<String>,
    idle_timeout: Option<u64>,
    start_hidden: Option<bool>,
    time_format: Option<String>,
    date_format: Option<String>,
}

/// The mathematical value of a [`Config`].
pub ghost struct ConfigView {
    pub gtk_theme: Option<Seq<char>>,
    pub config: Option<Seq<char>>,
    pub style: Option<Seq<char>>,
    pub background: Option<Seq<char>>,
    pub idle_timeout: Option<u64>,
    pub start_hidden: Option<bool>,
    pub time_format: Option<Seq<char>>,
    pub date_format: Option<Seq<char>>,
}

/// The value of an optional string setting.
pub open spec fn opt_view(o: Option<String>) -> Option<Seq<char>> {
    match o {
        Some(s) => Some(s@),
        None => None,
    }
}

impl View for Config {
    type V = ConfigView;

    closed spec fn view(&self) -> ConfigView {
        ConfigView {
            gtk_theme: opt_view(self.gtk_theme),
            config: opt_view(self.config),
            style: opt_view(self.style),
            background: opt_view(self.background),
            idle_timeout: self.idle_timeout,
            start_hidden: self.start_hidden,
            time_format: opt_view(self.time_format),
            date_format: opt_view(self.date_format),
        }
    }
}

/// The default configuration: no theme, file paths or background, and the
/// documented defaults for the remaining settings.
pub open spec fn spec_default_config() -> ConfigView {
    ConfigView {
        gtk_theme: None,
        config: None,
        style: None,
        background: None,
        idle_timeout: Some(IDLE_TIMEOUT),
        start_hidden: Some(START_HIDDEN),
        time_format: Some(spec_time_format()),
        date_format: Some(spec_date_format()),
    }
}

/// The overlay rule for one setting: the overriding value where present,
/// else the base value.
pub open spec fn spec_or<T>(base: Option<T>, over: Option<T>) -> Option<T> {
    match over {
        Some(v) => Some(v),
        None => base,
    }
}

/// The overlay of a whole configuration on another, setting by setting.
pub open spec fn spec_merge(base: ConfigView, over: ConfigView) -> ConfigView {
    ConfigView {
        gtk_theme: spec_or(base.gtk_theme, over.gtk_theme),
        config: spec_or(base.config, over.config),
        style: spec_or(base.style, over.style),
        background: spec_or(base.background, over.background),
        idle_timeout: spec_or(base.idle_timeout, over.idle_timeout),
        start_hidden: spec_or(base.start_hidden, over.start_hidden),
        time_format: spec_or(base.time_format, over.time_format),
        date_format: spec_or(base.date_format, over.date_format),
    }
}

fn opt_or<T>(base: Option<T>, over: Option<T>) -> (r: Option<T>)
    ensures
        r == spec_or(base, over),
{
    match over {
        Some(v) => Some(v),
        None => base,
    }
}

impl Config {
    /// A configuration with every setting given explicitly (absent ones as
    /// `None`).
    pub fn new(
        gtk_theme: Option<String>,
        config: Option<String>,
        style: Option<String>,
        background: Option<String>,
        idle_timeout: Option<u64>,
        start_hidden: Option<bool>,
        time_format: Option<String>,
        date_format: Option<String>,
    ) -> (c: Config)
        ensures
            c@ == (ConfigView {
                gtk_theme: opt_view(gtk_theme),
                config: opt_view(config),
                style: opt_view(style),
                background: opt_view(background),
                idle_timeout,
                start_hidden,
                time_format: opt_view(time_format),
                date_format: opt_view(date_format),
            }),
    {
        Config {
            gtk_theme,
            config,
            style,
            background,
            idle_timeout,
            start_hidden,
            time_format,
            date_format,
        }
    }

    /// Overlay `other` on this configuration: every setting present in
    /// `other` wins, every absent one keeps this configuration's value.
    pub fn merge(self, other: Self) -> (r: Self)
        ensures
            r@ == spec_merge(self@, other@),
    {
        Config {
            gtk_theme: opt_or(self.gtk_theme, other.gtk_theme),
            config: opt_or(self.config, other.config),
            style: opt_or(self.style, other.style),
            background: opt_or(self.background, other.background),
            idle_timeout: opt_or(self.idle_timeout, other.idle_timeout),
            start_hidden: opt_or(self.start_hidden, other.start_hidden),
            time_format: opt_or(self.time_format, other.time_format),
            date_format: opt_or(self.date_format, other.date_format),
        }
    }

    /// The configured GTK theme name, if one was set.
    pub fn get_gtk_theme(&self) -> (r: Option<&String>)
        ensures
            match r {
                Some(s) => self@.gtk_theme matches Some(t) && s@ == t,
                None => self@.gtk_theme is None,
            },
    {
        self.gtk_theme.as_ref()
    }

    /// The stylesheet path to use: the configured one, else the given
    /// fallback (the conventional per-user path, found by the front end).
    pub fn get_style(&self, fallback: Option<String>) -> (r: Option<String>)
        ensures
            opt_view(r) == spec_or(opt_view(fallback), self@.style),
    {
        match &self.style {
            Some(s) => Some(s.clone()),
            None => fallback,
        }
    }

    /// The configuration-file path to use: the configured one, else the
    /// given fallback (the conventional per-user path, found by the front
    /// end).
    pub fn get_config(&self, fallback: Option<String>) -> (r: Option<String>)
        ensures
            opt_view(r) == spec_or(opt_view(fallback), self@.config),
    {
        match &self.config {
            Some(s) => Some(s.clone()),
            None => fallback,
        }
    }

    /// The configured background path, if one was set.
    pub fn get_background(&self) -> (r: Option<&String>)
        ensures
            match r {
                Some(s) => self@.background matches Some(t) && s@ == t,
                None => self@.background is None,
            },
    {
        self.background.as_ref()
    }

    /// The idle timeout in seconds, the default where unset.
    pub fn get_idle_timeout(&self) -> (r: u64)
        ensures
            r == spec_or(Some(IDLE_TIMEOUT), self@.idle_timeout)->0,
    {
        match self.idle_timeout {
            Some(v) => v,
            None => IDLE_TIMEOUT,
        }
    }

    /// Whether the form starts hidden, the default where unset.
    pub fn get_start_hidden(&self) -> (r: bool)
        ensures
            r == spec_or(Some(START_HIDDEN), self@.start_hidden)->0,
    {
        match self.start_hidden {
            Some(v) => v,
            None => START_HIDDEN,
        }
    }

    /// The clock's time format, the default where unset.
    pub fn get_time_format(&self) -> (r: &str)
        ensures
            r@ == (match self@.time_format {
                Some(t) => t,
                None => spec_time_format(),
            }),
    {
        match &self.time_format {
            Some(s) => s.as_str(),
            None => "%H:%M",
        }
    }

    /// The clock's date format, the default where unset.
    pub fn get_date_format(&self) -> (r: &str)
        ensures
            r@ == (match self@.date_format {
                Some(t) => t,
                None => spec_date_format(),
            }),
    {
        match &self.date_format {
            Some(s) => s.as_str(),
            None => "%A, %d %B %Y",
        }
    }
}

impl Default for Config {
    /// The default configuration, as [`spec_default_config`] states it.
    fn default() -> (c: Config)
        ensures
            c@ == spec_default_config(),
    {
        Config::new(
            None,
            None,
            None,
            None,
            Some(IDLE_TIMEOUT),
            Some(START_HIDDEN),
            Some(String::from_str("%H:%M")),
            Some(String::from_str("%A, %d %B %Y")),
        )
    }
}

/// The default idle timeout, as an overridable setting.
pub fn idle_timeout() -> (r: Option<u64>)
    ensures
        r == Some(IDLE_TIMEOUT),
{
    Some(IDLE_TIMEOUT)
}

/// The default form visibility, as an overridable setting.
pub fn start_hidden() -> (r: Option<bool>)
    ensures
        r == Some(START_HIDDEN),
{
    Some(START_HIDDEN)
}

/// The default time format, as an overridable setting.
pub fn time_format() -> (r: Option<String>)
    ensures
        r matches Some(s) && s@ == spec_time_format(),
{
    Some(String::from_str("%H:%M"))
}

/// The default date format, as an overridable setting.
pub fn date_format() -> (r: Option<String>)
    ensures
        r matches Some(s) && s@ == spec_date_format(),
{
    Some(String::from_str("%A, %d %B %Y"))
}

/// Adopt the configuration file's contents once the front end has read and
/// parsed them: the parsed settings where the file was usable, the defaults
/// where it was missing or malformed.
pub fn load_config(parsed: Option<Config>) -> (c: Config)
    ensures
        c@ == (match parsed {
            Some(p) => p@,
            None => spec_default_config(),
        }),
{
    match parsed {
        Some(p) => p,
        None => Config::default(),
    }
}

} // verus!
