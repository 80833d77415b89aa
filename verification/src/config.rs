//! The configuration of the daemon: the partial form that a configuration
//! source supplies, the resolved form that the daemon runs with, and the
//! defaults that fill what a source leaves out.

use crate::fatal::FatalError;
use crate::text::{lowered, lowered_equals};
use vstd::prelude::*;
use vstd::string::*;

verus! {

/// What a configuration source supplies. Each field may be left out.
#[derive(Clone, Debug, PartialEq, Eq)]
pub struct AppConfig {
    /// The identity of the watched device, as `vvvv:pppp` in hexadecimal.
    pub usb_device_id: Option<String>,
    /// The input code to select when the device appears.
    pub system_one_input: Option<u16>,
    /// The input code to select when the device goes away.
    pub system_two_input: Option<u16>,
    /// The log level: `error`, `warn`, `info`, `debug` or `trace`.
    pub log_level: Option<String>,
    /// Whether the display tool is asked to use its alternative DDC mode.
    pub ddc_alt: Option<bool>,
}

/// The configuration the daemon runs with. It is fixed at startup.
#[derive(Clone, Debug, PartialEq, Eq)]
pub struct ResolvedConfig {
    pub usb_device_id: String,
    pub system_one_input: u16,
    pub system_two_input: u16,
    pub log_level: String,
    pub ddc_alt: bool,
}

/// The mathematical content of an [`AppConfig`].
pub struct AppConfigView {
    pub usb_device_id: Option<Seq<char>>,
    pub system_one_input: Option<u16>,
    pub system_two_input: Option<u16>,
    pub log_level: Option<Seq<char>>,
    pub ddc_alt: Option<bool>,
}

/// The mathematical content of a [`ResolvedConfig`].
pub struct ResolvedConfigView {
    pub usb_device_id: Seq<char>,
    pub system_one_input: u16,
    pub system_two_input: u16,
    pub log_level: Seq<char>,
    pub ddc_alt: bool,
}

/// How much the daemon writes to its log.
#[derive(Clone, Copy, Debug, PartialEq, Eq, Structural)]
pub enum LogLevel {
    Error,
    Warn,
    Info,
    Debug,
    Trace,
}

/// What was found where the configuration file should be.
#[derive(Clone, Debug, PartialEq, Eq)]
pub enum ConfigSource {
    /// There is no file.
    Missing,
    /// There is a file and it cannot be read as a configuration.
    Malformed,
    /// There is a file and this is what it supplies.
    Loaded(AppConfig),
}

/// The configuration to run with, and whether the defaults are to be written
/// to disk because no file was there.
#[derive(Clone, Debug, PartialEq, Eq)]
pub struct LoadedConfig {
    pub config: ResolvedConfig,
    pub write_defaults: bool,
}

/// The input code selected when the device appears, unless configured.
pub const DEFAULT_SYSTEM_ONE_INPUT: u16 = 15;

/// The input code selected when the device goes away, unless configured.
pub const DEFAULT_SYSTEM_TWO_INPUT: u16 = 18;

/// The text of an optional string, if there is one.
pub open spec fn text_of(field: Option<String>) -> Option<Seq<char>> {
    match field {
        Some(text) => Some(text@),
        None => None,
    }
}

impl View for AppConfig {
    type V = AppConfigView;

    open spec fn view(&self) -> AppConfigView {
        AppConfigView {
            usb_device_id: text_of(self.usb_device_id),
            system_one_input: self.system_one_input,
            system_two_input: self.system_two_input,
            log_level: text_of(self.log_level),
            ddc_alt: self.ddc_alt,
        }
    }
}

impl View for ResolvedConfig {
    type V = ResolvedConfigView;

    open spec fn view(&self) -> ResolvedConfigView {
        ResolvedConfigView {
            usb_device_id: self.usb_device_id@,
            system_one_input: self.system_one_input,
            system_two_input: self.system_two_input,
            log_level: self.log_level@,
            ddc_alt: self.ddc_alt,
        }
    }
}

impl AppConfigView {
    /// The configuration that supplies nothing.
    pub open spec fn empty() -> AppConfigView {
        AppConfigView {
            usb_device_id: None,
            system_one_input: None,
            system_two_input: None,
            log_level: None,
            ddc_alt: None,
        }
    }

    /// Each field as supplied, or its default where it was left out.
    pub open spec fn with_defaults(self) -> ResolvedConfigView {
        ResolvedConfigView {
            usb_device_id: match self.usb_device_id {
                Some(text) => text,
                None => "046d:c547"@,
            },
            system_one_input: match self.system_one_input {
                Some(code) => code,
                None => DEFAULT_SYSTEM_ONE_INPUT,
            },
            system_two_input: match self.system_two_input {
                Some(code) => code,
                None => DEFAULT_SYSTEM_TWO_INPUT,
            },
            log_level: match self.log_level {
                Some(text) => text,
                None => "info"@,
            },
            ddc_alt: match self.ddc_alt {
                Some(flag) => flag,
                None => false,
            },
        }
    }

    /// Each field from `self` where it supplies one, else from `lower`.
    pub open spec fn layered_over(self, lower: AppConfigView) -> AppConfigView {
        AppConfigView {
            usb_device_id: if self.usb_device_id is Some {
                self.usb_device_id
            } else {
                lower.usb_device_id
            },
            system_one_input: if self.system_one_input is Some {
                self.system_one_input
            } else {
                lower.system_one_input
            },
            system_two_input: if self.system_two_input is Some {
                self.system_two_input
            } else {
                lower.system_two_input
            },
            log_level: if self.log_level is Some {
                self.log_level
            } else {
                lower.log_level
            },
            ddc_alt: if self.ddc_alt is Some {
                self.ddc_alt
            } else {
                lower.ddc_alt
            },
        }
    }
}

impl AppConfig {
    /// The configuration that supplies nothing.
    pub fn empty() -> (config: AppConfig)
        ensures
            config@ == AppConfigView::empty(),
    {
        AppConfig {
            usb_device_id: None,
            system_one_input: None,
            system_two_input: None,
            log_level: None,
            ddc_alt: None,
        }
    }

    /// Fills every field that was left out with its default: the device
    /// `046d:c547`, the input codes 15 and 18, the level `info`, and the
    /// alternative DDC mode off.
    pub fn with_defaults(self) -> (resolved: ResolvedConfig)
        ensures
            resolved@ == self@.with_defaults(),
    {
        ResolvedConfig {
            usb_device_id: match self.usb_device_id {
                Some(text) => text,
                None => String::from_str("046d:c547"),
            },
            system_one_input: match self.system_one_input {
                Some(code) => code,
                None => DEFAULT_SYSTEM_ONE_INPUT,
            },
            system_two_input: match self.system_two_input {
                Some(code) => code,
                None => DEFAULT_SYSTEM_TWO_INPUT,
            },
            log_level: match self.log_level {
                Some(text) => text,
                None => String::from_str("info"),
            },
            ddc_alt: match self.ddc_alt {
                Some(flag) => flag,
                None => false,
            },
        }
    }

    /// Puts this configuration over a lower one: a field comes from `self`
    /// where it supplies one, and from `lower` where it does not.
    pub fn layered_over(self, lower: AppConfig) -> (merged: AppConfig)
        ensures
            merged@ == self@.layered_over(lower@),
    {
        AppConfig {
            usb_device_id: match self.usb_device_id {
                Some(text) => Some(text),
                None => lower.usb_device_id,
            },
            system_one_input: match self.system_one_input {
                Some(code) => Some(code),
                None => lower.system_one_input,
            },
            system_two_input: match self.system_two_input {
                Some(code) => Some(code),
                None => lower.system_two_input,
            },
            log_level: match self.log_level {
                Some(text) => Some(text),
                None => lower.log_level,
            },
            ddc_alt: match self.ddc_alt {
                Some(flag) => Some(flag),
                None => lower.ddc_alt,
            },
        }
    }
}

/// The views of a list of configurations.
pub open spec fn views_of(providers: Seq<AppConfig>) -> Seq<AppConfigView> {
    Seq::new(providers.len(), |i: int| providers[i]@)
}

/// A list of configurations laid over one another, the first on top: each
/// field comes from the first configuration that supplies it.
pub open spec fn layered(providers: Seq<AppConfigView>) -> AppConfigView
    decreases providers.len(),
{
    if providers.len() == 0 {
        AppConfigView::empty()
    } else {
        providers.first().layered_over(layered(providers.drop_first()))
    }
}

/// Resolves the configuration from a list of sources in the order of their
/// priority, the first being the highest: each field comes from the first
/// source that supplies it, and from the defaults when none does.
pub fn resolve(providers: Vec<AppConfig>) -> (resolved: ResolvedConfig)
    ensures
        resolved@ == layered(views_of(providers@)).with_defaults(),
{
    let ghost all = views_of(providers@);
    let mut remaining = providers;
    let mut merged = AppConfig::empty();
    loop
        invariant
            all == views_of(providers@),
            remaining@.len() <= all.len(),
            views_of(remaining@) == all.take(remaining@.len() as int),
            merged@ == layered(all.skip(remaining@.len() as int)),
        decreases remaining@.len(),
    {
        let ghost before = remaining@.len() as int;
        let ghost stored = remaining@;
        match remaining.pop() {
            Some(upper) => {
                proof {
                    let stack = all.skip(before - 1);
                    assert(stack.drop_first() =~= all.skip(before));
                    assert(stack.first() == all[before - 1]);
                    assert(views_of(stored)[before - 1] == upper@);
                    assert(all.take(before)[before - 1] == upper@);
                    assert(views_of(remaining@) =~= all.take(before - 1));
                }
                merged = upper.layered_over(merged);
            },
            None => {
                assert(all.skip(0) =~= all);
                return merged.with_defaults();
            },
        }
    }
}

/// The level that a configured text asks for. The names are read without
/// regard to the case of their letters, `warning` is another name for `warn`,
/// and any other text asks for `info`.
pub open spec fn level_named(text: Seq<char>) -> LogLevel {
    let low = lowered(text);
    if low == "error"@ {
        LogLevel::Error
    } else if low == "warn"@ || low == "warning"@ {
        LogLevel::Warn
    } else if low == "debug"@ {
        LogLevel::Debug
    } else if low == "trace"@ {
        LogLevel::Trace
    } else {
        LogLevel::Info
    }
}

impl LogLevel {
    /// The name of the level in small letters.
    pub open spec fn label(self) -> Seq<char> {
        match self {
            LogLevel::Error => "error"@,
            LogLevel::Warn => "warn"@,
            LogLevel::Info => "info"@,
            LogLevel::Debug => "debug"@,
            LogLevel::Trace => "trace"@,
        }
    }

    /// Reads the level that a configured text asks for.
    pub fn parse(text: &str) -> (level: LogLevel)
        ensures
            level == level_named(text@),
    {
        if lowered_equals(text, "error") {
            LogLevel::Error
        } else if lowered_equals(text, "warn") || lowered_equals(text, "warning") {
            LogLevel::Warn
        } else if lowered_equals(text, "debug") {
            LogLevel::Debug
        } else if lowered_equals(text, "trace") {
            LogLevel::Trace
        } else {
            LogLevel::Info
        }
    }

    /// The name of the level in small letters.
    pub fn name(&self) -> (name: &'static str)
        ensures
            name@ == self.label(),
    {
        match self {
            LogLevel::Error => "error",
            LogLevel::Warn => "warn",
            LogLevel::Info => "info",
            LogLevel::Debug => "debug",
            LogLevel::Trace => "trace",
        }
    }
}

impl ResolvedConfig {
    /// The log level that this configuration asks for.
    pub fn level(&self) -> (level: LogLevel)
        ensures
            level == level_named(self.log_level@),
    {
        LogLevel::parse(self.log_level.as_str())
    }
}

/// Decides what to run with from what was found on disk. A missing file is
/// no failure: the defaults are used and are to be written to disk. A file
/// that cannot be read as a configuration is fatal. A file that can be read
/// is completed with the defaults and nothing is written.
pub fn load_config(source: ConfigSource) -> (loaded: Result<LoadedConfig, FatalError>)
    ensures
        match source {
            ConfigSource::Missing => loaded matches Ok(found) && found.write_defaults
                && found.config@ == AppConfigView::empty().with_defaults(),
            ConfigSource::Malformed => loaded == Err::<LoadedConfig, FatalError>(
                FatalError::ConfigMalformed,
            ),
            ConfigSource::Loaded(partial) => loaded matches Ok(found) && !found.write_defaults
                && found.config@ == partial@.with_defaults(),
        },
{
    match source {
        ConfigSource::Missing => Ok(
            LoadedConfig { config: AppConfig::empty().with_defaults(), write_defaults: true },
        ),
        ConfigSource::Malformed => Err(FatalError::ConfigMalformed),
        ConfigSource::Loaded(partial) => Ok(
            LoadedConfig { config: partial.with_defaults(), write_defaults: false },
        ),
    }
}

} // verus!
