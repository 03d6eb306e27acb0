//! The connection's phases and what each of them allows.
//!
//! A connection starts out `Waiting`. The handshake moves it to `Ready`,
//! bound to one wire format; the factory request moves it to `Factory`.
//! Each move consumes the connection, so no phase can be gone back to. The
//! transport itself belongs to the caller: it writes the text these methods
//! give and hands back the frames it read.
use vstd::prelude::*;
use vstd::string::*;
use crate::frame;
use crate::json::{JsonValue, field, str_field};
use crate::model::{Command, Response};
use crate::payload::{Payload, PayloadError, str_text};
use crate::ser::command_json;
use crate::text::{next_sep, find_sep, same_text};
use crate::wire::{WireFormat, encoded};

verus! {

/// Failures of an operation on a connection.
#[derive(Debug, PartialEq)]
pub enum Error {
    /// The transport failed; the text describes how.
    Io(String),
    /// The dongle refused the handshake.
    Dongle(String),
    /// A reply does not hold the expected payload.
    Json(PayloadError),
    /// Reading a frame failed.
    Comm(frame::Error),
    /// A reply carries no known acknowledgement.
    Protocol,
    /// The request cannot be written: the wire format or the command has no
    /// known encoding.
    Unsupported,
}

/// The error of an operation whose frame could not be read: a transport
/// failure stays one, any other failure is a communication error.
pub open spec fn frame_failure(e: frame::Error) -> Error {
    match e {
        frame::Error::Io(s) => Error::Io(s),
        other => Error::Comm(other),
    }
}

impl Error {
    /// The error of an operation whose frame could not be read.
    pub fn from_frame(e: frame::Error) -> (r: Error)
        ensures
            r == frame_failure(e),
    {
        match e {
            frame::Error::Io(s) => Error::Io(s),
            other => Error::Comm(other),
        }
    }
}

/// What the frame reader does after one attempt of its strategy: it returns
/// the frame that was read (`Ok(Some(_))`), reads more bytes when the buffer
/// holds no whole frame yet (`Ok(None)`), and stops on any other failure.
pub fn next_step<T>(attempt: Result<T, frame::Error>) -> (r: Result<Option<T>, Error>)
    ensures
        attempt matches Ok(v) ==> r == Ok::<Option<T>, Error>(Some(v)),
        attempt == Err::<T, frame::Error>(frame::Error::Incomplete) ==> r == Ok::<
            Option<T>,
            Error,
        >(None),
        attempt matches Err(e) ==> e != frame::Error::Incomplete ==> r == Err::<Option<T>, Error>(
            frame_failure(e),
        ),
{
    match attempt {
        Ok(v) => Ok(Some(v)),
        Err(frame::Error::Incomplete) => Ok(None),
        Err(e) => Err(Error::from_frame(e)),
    }
}

/// The first field of the handshake reply.
pub const MARKER: &'static str = "RTSDONGLE";

/// The second field of a handshake reply that accepts.
pub const ACCEPTED: &'static str = "OK";

/// How many lines the handshake reply has.
pub const INIT_REPLY_LINES: u8 = 1;

/// The request that puts the dongle in its factory mode.
pub const FACTORY_REQUEST: &'static str = "$GOTO-FACTORY";

/// How many lines the factory reply has.
pub const FACTORY_REPLY_LINES: u8 = 11;

/// A phase of a connection.
pub trait State {}

/// Opened, before any handshake.
pub struct Waiting;

/// In factory mode, with the lines the dongle sent.
pub struct Factory(Vec<String>);

/// After the handshake, bound to a wire format.
pub struct Ready(WireFormat);

impl State for Waiting {}
impl State for Factory {}
impl State for Ready {}

/// The protocol side of a connection in phase `S`.
pub struct SomfyRTSDongle<S> {
    state: S,
}

/// A connection that was just opened.
pub fn somfy_dongle() -> SomfyRTSDongle<Waiting> {
    SomfyRTSDongle { state: Waiting }
}

/// The text of the error for a refused handshake.
pub const REFUSED_TEXT: &'static str = "Dongle KO";

/// Why a handshake reply was not accepted.
#[derive(Debug, Clone, Copy, PartialEq, Eq, Structural)]
pub enum Refusal {
    /// A field is missing or the marker is wrong.
    Framing,
    /// The dongle answered something other than `OK`.
    Refused,
}

/// What a handshake reply line gives: the device identity, from the third
/// comma-separated field, where the first is the marker and the second `OK`.
pub open spec fn handshake_outcome(s: Seq<char>) -> Result<Seq<char>, Refusal> {
    let c0 = next_sep(s, 0, ',');
    let c1 = next_sep(s, c0 + 1, ',');
    let c2 = next_sep(s, c1 + 1, ',');
    if s.subrange(0, c0) != MARKER@ || c0 >= s.len() {
        Err(Refusal::Framing)
    } else if s.subrange(c0 + 1, c1) != ACCEPTED@ {
        Err(Refusal::Refused)
    } else if c1 >= s.len() {
        Err(Refusal::Framing)
    } else {
        Ok(s.subrange(c1 + 1, c2))
    }
}

impl SomfyRTSDongle<Waiting> {
    /// Reads the handshake reply line.
    pub fn parse_response(line: &str) -> (r: Result<String, Error>)
        ensures
            match handshake_outcome(line@) {
                Ok(id) => r is Ok && r->Ok_0@ == id,
                Err(Refusal::Framing) => r == Err::<String, Error>(
                    Error::Comm(frame::Error::Incomplete),
                ),
                Err(Refusal::Refused) => r is Err && (r->Err_0 matches Error::Dongle(t)
                    && t@ == REFUSED_TEXT@),
            },
    {
        let n = line.unicode_len();
        let c0 = find_sep(line, n, 0, ',');
        if !same_text(line.substring_char(0, c0), MARKER) || c0 >= n {
            return Err(Error::Comm(frame::Error::Incomplete));
        }
        let c1 = find_sep(line, n, c0 + 1, ',');
        if !same_text(line.substring_char(c0 + 1, c1), ACCEPTED) {
            return Err(Error::Dongle(REFUSED_TEXT.to_owned()));
        }
        if c1 >= n {
            return Err(Error::Comm(frame::Error::Incomplete));
        }
        let c2 = find_sep(line, n, c1 + 1, ',');
        Ok(line.substring_char(c1 + 1, c2).to_owned())
    }

    /// Completes the handshake that selected `format`, given the reply line:
    /// the device identity and the connection bound to `format`.
    pub fn initialize(self, format: WireFormat, line: &str) -> (r: Result<
        (String, SomfyRTSDongle<Ready>),
        Error,
    >)
        ensures
            match handshake_outcome(line@) {
                Ok(id) => r is Ok && r->Ok_0.0@ == id && r->Ok_0.1.format_spec() == format,
                Err(Refusal::Framing) => r is Err && r->Err_0 == Error::Comm(
                    frame::Error::Incomplete,
                ),
                Err(Refusal::Refused) => r is Err && (r->Err_0 matches Error::Dongle(t)
                    && t@ == REFUSED_TEXT@),
            },
    {
        match Self::parse_response(line) {
            Ok(id) => Ok((id, SomfyRTSDongle { state: Ready(format) })),
            Err(e) => Err(e),
        }
    }

    /// Enters factory mode, given the lines the dongle sent.
    pub fn factory_info(self, lines: Vec<String>) -> (r: SomfyRTSDongle<Factory>)
        ensures
            r.data_spec() == lines@,
    {
        SomfyRTSDongle { state: Factory(lines) }
    }
}

impl SomfyRTSDongle<Factory> {
    /// The lines the dongle sent when it entered factory mode.
    pub closed spec fn data_spec(&self) -> Seq<String> {
        self.state.0@
    }

    /// The lines the dongle sent when it entered factory mode.
    pub fn data(self) -> (r: Vec<String>)
        ensures
            r@ == self.data_spec(),
    {
        self.state.0
    }
}

/// The acknowledgement of a reply.
pub open spec fn ack_of(v: JsonValue) -> Option<Seq<char>> {
    match field(v, "ACK"@) {
        Some(x) => str_text(x),
        None => None,
    }
}

/// The failure text of a refused command; empty where there is none.
pub open spec fn error_text_of(v: JsonValue) -> Seq<char> {
    match field(v, "ERROR"@) {
        Some(JsonValue::Str(s)) => s@,
        _ => Seq::empty(),
    }
}

impl SomfyRTSDongle<Ready> {
    /// The wire format the connection is bound to.
    pub closed spec fn format_spec(&self) -> WireFormat {
        self.state.0
    }

    /// The wire format the connection is bound to.
    pub fn format(&self) -> (r: WireFormat)
        ensures
            r == self.format_spec(),
    {
        self.state.0
    }

    /// What to write for `cmd`: its text, carried by the bound format.
    pub fn request(&self, cmd: &Command) -> (r: Result<String, Error>)
        ensures
            match command_json(*cmd) {
                None => r == Err::<String, Error>(Error::Unsupported),
                Some(t) => match encoded(self.format_spec(), t) {
                    None => r == Err::<String, Error>(Error::Unsupported),
                    Some(w) => r is Ok && r->Ok_0@ == w,
                },
            },
    {
        match cmd.to_json() {
            None => Err(Error::Unsupported),
            Some(text) => match self.state.0.encode_data(text.as_str()) {
                None => Err(Error::Unsupported),
                Some(w) => Ok(w),
            },
        }
    }

    /// Classifies the reply to a command: a payload of type `T` where the
    /// dongle acknowledged it, the reported failure where it refused it.
    pub fn reply<T: Payload>(&self, value: JsonValue) -> (r: Result<Response<T>, Error>)
        ensures
            ack_of(value) == Some("DONGLE_OK"@) && T::fits(value) ==> (r matches Ok(
                Response::DongleOk(p)) && T::holds(value, p)),
            ack_of(value) == Some("DONGLE_OK"@) && !T::fits(value) ==> (r matches Err(
                Error::Json(_))),
            ack_of(value) == Some("DONGLE_KO"@) ==> (r matches Ok(Response::DongleErr(m)) && m@
                == error_text_of(value)),
            ack_of(value) != Some("DONGLE_OK"@) && ack_of(value) != Some("DONGLE_KO"@) ==> r
                == Err::<Response<T>, Error>(Error::Protocol),
    {
        proof {
            reveal_strlit("DONGLE_OK");
            reveal_strlit("DONGLE_KO");
            assert("DONGLE_OK"@[7] != "DONGLE_KO"@[7]);
        }
        let ack = str_field(&value, "ACK");
        match ack {
            Some(a) => {
                if same_text(a.as_str(), "DONGLE_OK") {
                    match T::from_json(value) {
                        Ok(p) => Ok(Response::DongleOk(p)),
                        Err(e) => Err(Error::Json(e)),
                    }
                } else if same_text(a.as_str(), "DONGLE_KO") {
                    let message = match str_field(&value, "ERROR") {
                        Some(m) => m,
                        None => String::new(),
                    };
                    Ok(Response::DongleErr(message))
                } else {
                    Err(Error::Protocol)
                }
            },
            None => Err(Error::Protocol),
        }
    }
}

} // verus!
