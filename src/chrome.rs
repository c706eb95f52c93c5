//! Configuration of a `chromedriver` instance and of the Chrome sessions it
//! opens.

use vstd::prelude::*;
use crate::client::Capabilities;
use crate::json::{Json, JsonValue};
use crate::text::{decimal, push_decimal};
use vstd::string::StringExecFns;

verus! {

/// The name of the driver binary.
pub const BINARY: &'static str = "chromedriver";

/// The log level passed to chromedriver.
#[derive(Clone, Copy, Debug, PartialEq, Eq, Structural)]
pub enum LogLevel {
    Off,
    Severe,
    Warning,
    Info,
    Debug,
    All,
}

/// The name chromedriver gives a log level on its command line.
pub open spec fn level_name(level: LogLevel) -> Seq<char> {
    match level {
        LogLevel::Off => "OFF"@,
        LogLevel::Severe => "SEVERE"@,
        LogLevel::Warning => "WARNING"@,
        LogLevel::Info => "INFO"@,
        LogLevel::Debug => "DEBUG"@,
        LogLevel::All => "ALL"@,
    }
}

impl Default for LogLevel {
    fn default() -> (r: LogLevel)
        ensures
            r == LogLevel::Off,
    {
        LogLevel::Off
    }
}

impl LogLevel {
    /// The level's name, as chromedriver spells it.
    pub fn as_str(&self) -> (r: &'static str)
        ensures
            r@ == level_name(*self),
    {
        match self {
            LogLevel::Off => "OFF",
            LogLevel::Severe => "SEVERE",
            LogLevel::Warning => "WARNING",
            LogLevel::Info => "INFO",
            LogLevel::Debug => "DEBUG",
            LogLevel::All => "ALL",
        }
    }

    /// The level's name, as chromedriver spells it.
    pub fn to_string(&self) -> (r: String)
        ensures
            r@ == level_name(*self),
    {
        self.as_str().to_owned()
    }
}

/// Configuration of a chromedriver instance.
#[derive(Clone, Copy, Debug)]
pub struct DriverConfig {
    log_level: LogLevel,
}

impl View for DriverConfig {
    type V = LogLevel;

    closed spec fn view(&self) -> LogLevel {
        self.log_level
    }
}

impl Default for DriverConfig {
    fn default() -> (r: DriverConfig)
        ensures
            r@ == LogLevel::Off,
    {
        DriverConfig { log_level: LogLevel::Off }
    }
}

/// The command-line arguments of a chromedriver instance.
pub open spec fn driver_args(port: u16, level: LogLevel) -> Seq<Seq<char>> {
    seq!["--port="@ + decimal(port as nat), "--log-level="@ + level_name(level)]
}

impl DriverConfig {
    /// A configuration with the given log level.
    pub fn new(log_level: LogLevel) -> (r: DriverConfig)
        ensures
            r@ == log_level,
    {
        DriverConfig { log_level }
    }

    /// The arguments that start chromedriver on `port` with this
    /// configuration.
    pub fn command_args(&self, port: u16) -> (r: Vec<String>)
        ensures
            r@.map_values(|s: String| s@) == driver_args(port, self@),
    {
        let mut port_arg = "--port=".to_owned();
        push_decimal(&mut port_arg, port as u64);
        let mut level_arg = "--log-level=".to_owned();
        level_arg.append(self.log_level.as_str());
        let r = vec![port_arg, level_arg];
        assert(r@.map_values(|s: String| s@) =~= driver_args(port, self@));
        r
    }
}

/// Configuration of the Chrome sessions opened on a driver.
#[derive(Clone, Copy, Debug)]
pub struct Config {
    headless: bool,
}

impl View for Config {
    type V = bool;

    /// Whether the browser runs without showing its interface.
    closed spec fn view(&self) -> bool {
        self.headless
    }
}

impl Default for Config {
    fn default() -> (r: Config)
        ensures
            r@ == false,
    {
        Config { headless: false }
    }
}

/// The capabilities of a Chrome session.
pub open spec fn chrome_capabilities(headless: bool) -> JsonValue {
    JsonValue::Object(
        seq![
            ("browserName"@, JsonValue::Str("chrome"@)),
            (
                "goog:chromeOptions"@,
                JsonValue::Object(
                    seq![
                        ("w3c"@, JsonValue::Bool(true)),
                        (
                            "args"@,
                            JsonValue::Array(
                                if headless {
                                    seq![JsonValue::Str("--headless"@)]
                                } else {
                                    seq![]
                                },
                            ),
                        ),
                    ],
                ),
            ),
        ],
    )
}

impl Config {
    /// Sets whether the browser runs without showing its interface.
    pub fn headless(&mut self, headless: bool) -> (r: &mut Config)
        ensures
            r@ == headless,
            final(self)@ == final(r)@,
    {
        self.headless = headless;
        self
    }

    /// The capabilities that ask for a session with this configuration.
    pub fn to_capabilities(&self) -> (r: Capabilities)
        ensures
            r@ == chrome_capabilities(self@),
    {
        let args = if self.headless {
            Json::array1(Json::text("--headless"))
        } else {
            let a = Json::Array(Vec::new());
            assert(a@->Array_0 =~= Seq::<JsonValue>::empty());
            a
        };
        let options = Json::object2("w3c", Json::Bool(true), "args", args);
        Capabilities::new(Json::object2("browserName", Json::text("chrome"), "goog:chromeOptions", options))
    }
}

} // verus!
