//! Remote control of a browser through the WebDriver wire protocol: the
//! request paths and bodies of every session operation, the decoding of the
//! driver's replies into one error model, and the decisions that supervise a
//! local driver process (its port, its start-up polling and its shutdown).

pub mod chrome;
pub mod client;
pub mod driver;
pub mod gecko;
pub mod json;
pub mod port;
pub mod text;
pub mod wire;

pub use client::{By, Capabilities, Client, Element, Timeouts, Window};
pub use driver::{DriverHolder, Supervisor};
pub use json::{Json, JsonValue};
pub use wire::{Error, Method, Request, Response, TransportError, WdError};
