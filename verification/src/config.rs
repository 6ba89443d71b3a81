//! The settings, and what is accepted as one.

use crate::paths::{below, path_below};
use crate::text::{ascii_lower, concat2, concat3, opt_view, same_text, to_ascii_lower};
use crate::time::{clock_time, parse_clock_time};
use vstd::prelude::*;

verus! {

/// The settings of the calendar.
#[derive(Debug, PartialEq, Eq)]
pub struct Config {
    pub theme: String,
    pub week_start: String,
    pub time_format: String,
    pub default_view: String,
    pub show_week_numbers: bool,
    pub refresh_seconds: u64,
    pub backend: String,
    pub service_path: Option<String>,
    pub event: EventConfig,
    pub cache: CacheConfig,
}

/// The settings for new and moved events.
#[derive(Debug, PartialEq, Eq)]
pub struct EventConfig {
    pub default_duration_minutes: u16,
    pub default_start_time: String,
    pub time_rounding_minutes: u16,
    pub move_step_minutes: u16,
}

/// How many days around the current one are kept.
#[derive(Clone, Copy, Debug, PartialEq, Eq, Structural)]
pub struct CacheConfig {
    pub past_days: u32,
    pub future_days: u32,
}

impl Clone for EventConfig {
    fn clone(&self) -> (r: Self)
        ensures
            r == *self,
    {
        EventConfig {
            default_duration_minutes: self.default_duration_minutes,
            default_start_time: self.default_start_time.clone(),
            time_rounding_minutes: self.time_rounding_minutes,
            move_step_minutes: self.move_step_minutes,
        }
    }
}

impl Clone for Config {
    fn clone(&self) -> (r: Self)
        ensures
            r == *self,
    {
        Config {
            theme: self.theme.clone(),
            week_start: self.week_start.clone(),
            time_format: self.time_format.clone(),
            default_view: self.default_view.clone(),
            show_week_numbers: self.show_week_numbers,
            refresh_seconds: self.refresh_seconds,
            backend: self.backend.clone(),
            service_path: self.service_path.clone(),
            event: self.event.clone(),
            cache: self.cache,
        }
    }
}

impl Default for CacheConfig {
    fn default() -> (r: Self)
        ensures
            r == (CacheConfig { past_days: 365, future_days: 730 }),
    {
        CacheConfig { past_days: 365, future_days: 730 }
    }
}

impl Default for EventConfig {
    fn default() -> (r: Self)
        ensures
            r.default_duration_minutes == 60,
            r.default_start_time@ == "09:00"@,
            r.time_rounding_minutes == 15,
            r.move_step_minutes == 15,
    {
        EventConfig {
            default_duration_minutes: 60,
            default_start_time: "09:00".to_owned(),
            time_rounding_minutes: 15,
            move_step_minutes: 15,
        }
    }
}

impl Default for Config {
    fn default() -> (r: Self)
        ensures
            is_default(r),
    {
        Config {
            theme: "dark".to_owned(),
            week_start: "monday".to_owned(),
            time_format: "24h".to_owned(),
            default_view: "week".to_owned(),
            show_week_numbers: true,
            refresh_seconds: 60,
            backend: "eventkit".to_owned(),
            service_path: None,
            event: EventConfig::default(),
            cache: CacheConfig::default(),
        }
    }
}

/// Whether a text is one of two words, whatever the case of its letters.
pub open spec fn either(text: Seq<char>, a: Seq<char>, b: Seq<char>) -> bool {
    ascii_lower(text) == a || ascii_lower(text) == b
}

fn is_either(text: &str, a: &str, b: &str) -> (r: bool)
    ensures
        r == either(text@, a@, b@),
{
    let lower = to_ascii_lower(text);
    same_text(lower.as_str(), a) || same_text(lower.as_str(), b)
}

impl Config {
    /// The first setting that is not accepted, by what is said of it.
    pub open spec fn fault(self) -> Option<Seq<char>> {
        if !either(self.theme@, "dark"@, "light"@) {
            Some("theme must be either \"dark\" or \"light\""@)
        } else if !either(self.week_start@, "monday"@, "sunday"@) {
            Some("week_start must be either \"monday\" or \"sunday\""@)
        } else if !either(self.time_format@, "12h"@, "24h"@) {
            Some("time_format must be either \"12h\" or \"24h\""@)
        } else if !either(self.default_view@, "day"@, "week"@) && !either(
            self.default_view@,
            "month"@,
            "agenda"@,
        ) {
            Some("default_view must be one of \"day\", \"week\", \"month\", or \"agenda\""@)
        } else if !either(self.backend@, "eventkit"@, "mock"@) {
            Some("backend must be either \"eventkit\" or \"mock\""@)
        } else if self.refresh_seconds == 0 {
            Some("refresh_seconds must be greater than zero"@)
        } else if self.event.default_duration_minutes == 0 {
            Some("event.default_duration_minutes must be greater than zero"@)
        } else if self.event.time_rounding_minutes == 0 {
            Some("event.time_rounding_minutes must be greater than zero"@)
        } else if self.event.move_step_minutes == 0 {
            Some("event.move_step_minutes must be greater than zero"@)
        } else if clock_time(self.event.default_start_time@) is None {
            Some("event.default_start_time must use HH:MM"@)
        } else if self.cache.past_days > 3_650 {
            Some("cache.past_days must not exceed 3650"@)
        } else if self.cache.future_days > 3_650 {
            Some("cache.future_days must not exceed 3650"@)
        } else {
            None
        }
    }

    fn validate_words(&self) -> (r: Result<(), String>)
        ensures
            match r {
                Err(error) => self.fault() == Some(error@),
                Ok(()) => either(self.theme@, "dark"@, "light"@) && either(
                    self.week_start@,
                    "monday"@,
                    "sunday"@,
                ) && either(self.time_format@, "12h"@, "24h"@) && (either(
                    self.default_view@,
                    "day"@,
                    "week"@,
                ) || either(self.default_view@, "month"@, "agenda"@)) && either(
                    self.backend@,
                    "eventkit"@,
                    "mock"@,
                ),
            },
    {
        if !is_either(self.theme.as_str(), "dark", "light") {
            return Err("theme must be either \"dark\" or \"light\"".to_owned());
        }
        if !is_either(self.week_start.as_str(), "monday", "sunday") {
            return Err("week_start must be either \"monday\" or \"sunday\"".to_owned());
        }
        if !is_either(self.time_format.as_str(), "12h", "24h") {
            return Err("time_format must be either \"12h\" or \"24h\"".to_owned());
        }
        if !is_either(self.default_view.as_str(), "day", "week") && !is_either(
            self.default_view.as_str(),
            "month",
            "agenda",
        ) {
            return Err(
                "default_view must be one of \"day\", \"week\", \"month\", or \"agenda\"".to_owned(),
            );
        }
        if !is_either(self.backend.as_str(), "eventkit", "mock") {
            return Err("backend must be either \"eventkit\" or \"mock\"".to_owned());
        }
        Ok(())
    }

    /// Accepts the settings, or says what is wrong with the first that is not accepted.
    pub fn validate(&self) -> (r: Result<(), String>)
        ensures
            match r {
                Ok(()) => self.fault() is None,
                Err(error) => self.fault() == Some(error@),
            },
    {
        match self.validate_words() {
            Ok(()) => {},
            Err(error) => return Err(error),
        }
        if self.refresh_seconds == 0 {
            return Err("refresh_seconds must be greater than zero".to_owned());
        }
        if self.event.default_duration_minutes == 0 {
            return Err("event.default_duration_minutes must be greater than zero".to_owned());
        }
        if self.event.time_rounding_minutes == 0 {
            return Err("event.time_rounding_minutes must be greater than zero".to_owned());
        }
        if self.event.move_step_minutes == 0 {
            return Err("event.move_step_minutes must be greater than zero".to_owned());
        }
        if parse_clock_time(self.event.default_start_time.as_str()).is_none() {
            return Err("event.default_start_time must use HH:MM".to_owned());
        }
        if self.cache.past_days > 3_650 {
            return Err("cache.past_days must not exceed 3650".to_owned());
        }
        if self.cache.future_days > 3_650 {
            return Err("cache.future_days must not exceed 3650".to_owned());
        }
        Ok(())
    }
}

/// What was found in the place of the settings.
#[derive(Debug)]
pub enum StoredConfig {
    Missing,
    /// The file could not be read.
    Unreadable(String),
    /// The file does not hold settings.
    Unparsable(String),
    Read(Config),
}

/// The directory of the settings, below the user's directory for such things, or below the current
/// one.
pub open spec fn config_directory(base: Option<Seq<char>>) -> Seq<char> {
    path_below(
        match base {
            Some(base) => base,
            None => "."@,
        },
        "tui-calendar"@,
    )
}

/// The file of the settings: the one in the environment, or the one in the directory.
pub open spec fn config_path(variable: Option<Seq<char>>, base: Option<Seq<char>>) -> Seq<char> {
    match variable {
        Some(path) => path,
        None => path_below(config_directory(base), "config.toml"@),
    }
}

impl Config {
    /// The directory of the settings.
    pub fn directory(base: Option<String>) -> (r: String)
        ensures
            r@ == config_directory(opt_view(base)),
    {
        match base {
            Some(base) => below(base.as_str(), "tui-calendar"),
            None => below(".", "tui-calendar"),
        }
    }

    /// The file of the settings.
    pub fn path(variable: Option<String>, base: Option<String>) -> (r: String)
        ensures
            r@ == config_path(opt_view(variable), opt_view(base)),
    {
        match variable {
            Some(path) => path,
            None => below(Self::directory(base).as_str(), "config.toml"),
        }
    }

    /// The directory of what is kept between two runs, below the user's directory for such things,
    /// or below that of the settings.
    pub fn data_directory(data: Option<String>, base: Option<String>) -> (r: String)
        ensures
            r@ == path_below(
                match opt_view(data) {
                    Some(data) => data,
                    None => config_directory(opt_view(base)),
                },
                "tui-calendar"@,
            ),
    {
        match data {
            Some(data) => below(data.as_str(), "tui-calendar"),
            None => below(Self::directory(base).as_str(), "tui-calendar"),
        }
    }

    /// The settings that were found at a path. Where there are none, the settings are as they are at
    /// first; what is not accepted is an error.
    pub fn load_from(path: &str, stored: StoredConfig) -> (r: Result<Config, String>)
        ensures
            match stored {
                StoredConfig::Missing => r is Ok && is_default(r->Ok_0),
                StoredConfig::Unreadable(error) => r is Err && r->Err_0@ == "reading "@ + path@
                    + ": "@ + error@,
                StoredConfig::Unparsable(error) => r is Err && r->Err_0@ == "parsing "@ + path@
                    + ": "@ + error@,
                StoredConfig::Read(config) => match config.fault() {
                    None => r == Ok::<Config, String>(config),
                    Some(text) => r is Err && r->Err_0@ == "validating "@ + path@ + ": "@ + text,
                },
            },
    {
        match stored {
            StoredConfig::Missing => Ok(Config::default()),
            StoredConfig::Unreadable(error) => Err(
                concat2(concat3("reading ", path, ": ").as_str(), error.as_str()),
            ),
            StoredConfig::Unparsable(error) => Err(
                concat2(concat3("parsing ", path, ": ").as_str(), error.as_str()),
            ),
            StoredConfig::Read(config) => match config.validate() {
                Ok(()) => Ok(config),
                Err(text) => Err(
                    concat2(concat3("validating ", path, ": ").as_str(), text.as_str()),
                ),
            },
        }
    }
}

/// Whether settings are as they are at first.
pub open spec fn is_default(config: Config) -> bool {
    &&& config.theme@ == "dark"@
    &&& config.week_start@ == "monday"@
    &&& config.time_format@ == "24h"@
    &&& config.default_view@ == "week"@
    &&& config.show_week_numbers
    &&& config.refresh_seconds == 60
    &&& config.backend@ == "eventkit"@
    &&& config.service_path is None
    &&& config.event.default_duration_minutes == 60
    &&& config.event.default_start_time@ == "09:00"@
    &&& config.event.time_rounding_minutes == 15
    &&& config.event.move_step_minutes == 15
    &&& config.cache == (CacheConfig { past_days: 365, future_days: 730 })
}

} // verus!
