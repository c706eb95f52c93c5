//! Configuration of a `geckodriver` instance and of the Firefox sessions it
//! opens.

use vstd::prelude::*;
use crate::client::Capabilities;
use crate::json::{Json, JsonValue};
use crate::text::{decimal, push_decimal};

verus! {

/// The name of the driver binary.
pub const BINARY: &'static str = "geckodriver";

/// The command-line arguments of a geckodriver instance.
pub open spec fn driver_args(port: u16) -> Seq<Seq<char>> {
    seq!["--port="@ + decimal(port as nat)]
}

/// The arguments that start geckodriver on `port`.
pub fn command_args(port: u16) -> (r: Vec<String>)
    ensures
        r@.map_values(|s: String| s@) == driver_args(port),
{
    let mut port_arg = "--port=".to_owned();
    push_decimal(&mut port_arg, port as u64);
    let r = vec![port_arg];
    assert(r@.map_values(|s: String| s@) =~= driver_args(port));
    r
}

/// Configuration of the Firefox sessions opened on a driver.
#[derive(Clone, Copy, Debug)]
pub struct Config {
    headless: bool,
}

impl View for Config {
    type V = bool;

    /// Whether the browser runs without showing its interface.
    closed spec fn view(&self) -> bool {
        self.headless
    }
}

impl Default for Config {
    fn default() -> (r: Config)
        ensures
            r@ == false,
    {
        Config { headless: false }
    }
}

/// The capabilities of a Firefox session.
pub open spec fn firefox_capabilities(headless: bool) -> JsonValue {
    JsonValue::Object(
        seq![
            ("browserName"@, JsonValue::Str("firefox"@)),
            (
                "moz:firefoxOptions"@,
                JsonValue::Object(
                    seq![
                        (
                            "args"@,
                            JsonValue::Array(
                                if headless {
                                    seq![JsonValue::Str("--headless"@)]
                                } else {
                                    seq![]
                                },
                            ),
                        ),
                    ],
                ),
            ),
        ],
    )
}

impl Config {
    /// Sets whether the browser runs without showing its interface.
    pub fn headless(&mut self, headless: bool) -> (r: &mut Config)
        ensures
            r@ == headless,
            final(self)@ == final(r)@,
    {
        self.headless = headless;
        self
    }

    /// The capabilities that ask for a session with this configuration.
    pub fn to_capabilities(&self) -> (r: Capabilities)
        ensures
            r@ == firefox_capabilities(self@),
    {
        let args = if self.headless {
            Json::array1(Json::text("--headless"))
        } else {
            let a = Json::Array(Vec::new());
            assert(a@->Array_0 =~= Seq::<JsonValue>::empty());
            a
        };
        let options = Json::object1("args", args);
        Capabilities::new(Json::object2("browserName", Json::text("firefox"), "moz:firefoxOptions", options))
    }
}

} // verus!
