//! Protocol engine for a USB-serial dongle that drives Somfy RTS blinds.
//!
//! The library holds the logic of the protocol: how replies are framed in a
//! byte stream, how commands are written on the wire, how replies are
//! classified and projected into typed records, and which operation each
//! phase of a connection allows. Reading and writing the serial port is left
//! to the caller, who hands the library the bytes that arrived.
use vstd::prelude::*;

pub use dongle::{somfy_dongle, Factory, Ready, SomfyRTSDongle, State, Waiting};
pub use model::{
    AddressVal, Alive, BadBlindDetails, BlindAddress, Command, DongleCommand, Empty, LedAction,
    LedColor, Response, RtsCommand,
};
pub use wire::WireFormat;

pub mod address;
pub mod bridge;
pub mod discovery;
pub mod dongle;
pub mod frame;
pub mod json;
pub mod model;
pub mod payload;
pub mod range;
pub mod ser;
pub mod text;
pub mod wire;
