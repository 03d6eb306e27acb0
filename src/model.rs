//! The vocabulary of requests to the dongle and of its replies.
use vstd::prelude::*;
use crate::json::JsonValue;

verus! {

/// A request to the dongle.
#[derive(Debug, PartialEq, Eq, Structural)]
pub enum Command {
    /// A command to the dongle itself.
    CmdDongle(DongleCommand),
    /// A radio command to a blind.
    CmdRts(RtsCommand),
    /// Reads the address record of a blind.
    GetAddress(u8),
    /// Writes an address record; its encoding is not known, so it cannot be
    /// sent.
    SetAddress,
    /// Drives the dongle's LED: colour, action and duration.
    Led(LedColor, LedAction, u16),
    /// Clears the address record of a blind.
    ResetAddress(u8),
}

/// Commands to the dongle itself.
#[derive(Debug, Clone, Copy, PartialEq, Eq, Structural)]
pub enum DongleCommand {
    /// Asks whether the dongle is alive.
    Alive,
    /// Reboots the dongle.
    Resethw,
    /// Restores the factory settings.
    FactoryReset,
    /// The first built-in self test.
    Bcheck,
    /// The second built-in self test.
    Bstart,
}

/// Radio commands, each to the blind with the given identifier.
#[derive(Debug, Clone, Copy, PartialEq, Eq, Structural)]
pub enum RtsCommand {
    Up(u8),
    Down(u8),
    Prog(u8),
    My(u8),
    Stop(u8),
    ProgRt(u8),
    FourCycles(u8),
}

/// Colours of the dongle's LED.
#[derive(Debug, Clone, Copy, PartialEq, Eq, Structural)]
pub enum LedColor {
    Red,
    Green,
}

/// What the dongle's LED does.
#[derive(Debug, Clone, Copy, PartialEq, Eq, Structural)]
pub enum LedAction {
    Fix,
    Blink,
}

/// A reply to a command: the payload the dongle sent, or the failure it
/// reported.
#[derive(Debug)]
pub enum Response<T> {
    DongleOk(T),
    DongleErr(String),
}

impl<T> Response<T> {
    /// The payload as `Ok`, the reported failure as `Err`.
    pub fn into_result(self) -> (r: Result<T, String>)
        ensures
            self matches Response::DongleOk(t) ==> r == Ok::<T, String>(t),
            self matches Response::DongleErr(e) ==> r == Err::<T, String>(e),
    {
        match self {
            Response::DongleOk(t) => Ok(t),
            Response::DongleErr(e) => Err(e),
        }
    }
}

/// The payload of a reply that carries nothing.
#[derive(Debug, PartialEq, Eq)]
pub struct Empty {}

/// The payload of the alive check: signal strength and the three parts of
/// the dongle's identity.
#[derive(Debug, PartialEq, Eq)]
pub struct Alive {
    pub rssi_val: i32,
    pub id: [String; 3],
}

/// The address record of a blind as the dongle sends it: an identifier, a
/// hex address and a hex rolling code, each of which may be missing or of
/// another kind.
#[derive(Debug, PartialEq)]
pub struct AddressVal {
    pub address_val: [JsonValue; 3],
}

/// A checked address record.
#[derive(Debug, PartialEq, Eq)]
pub struct BlindAddress {
    pub id: u8,
    pub addr: [u8; 3],
    pub rolling_code: [u8; 2],
}

/// Why an address record could not be checked.
#[derive(Debug, Clone, Copy, PartialEq, Eq, Structural)]
pub enum BadBlindDetails {
    MissingId,
    MissingAddress,
    MissingRollingCode,
    BadHexValue,
}

} // verus!
