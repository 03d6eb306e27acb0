//! The decisions of the bridge between the dongle and a home-automation
//! message broker: which blinds to announce, the topics it uses, and which
//! radio command an incoming message asks for.
use vstd::prelude::*;
use vstd::string::*;
use crate::frame::{text_of, utf8_str};
use crate::json::JsonValue;
use crate::model::{AddressVal, RtsCommand};
use crate::payload::str_text;
use crate::range::{parsed_u8, parsed_u16, parse_u8};
use crate::ser::{decimal, push_decimal};
use crate::text::{next_sep, find_sep, same_text};

verus! {

/// The node name under which the bridge publishes.
pub const NODE_ID: &'static str = "somfy-rts";

/// The prefix of the broker's discovery topics.
pub const DISCOVERY_PREFIX: &'static str = "homeassistant";

/// The kind of device the blinds are announced as.
pub const COMPONENT: &'static str = "cover";

/// The rolling code of an address slot that holds no blind.
pub const UNUSED_ROLLING_CODE: &'static str = "0000";

/// Whether an address record holds a blind: its rolling code is a string
/// other than the unused one.
pub fn is_usable_blind(blind: &AddressVal) -> (r: bool)
    ensures
        r == (str_text(blind.address_val@[2]) matches Some(code) && code != UNUSED_ROLLING_CODE@),
{
    match &blind.address_val[2] {
        JsonValue::Str(code) => !same_text(code.as_str(), UNUSED_ROLLING_CODE),
        _ => false,
    }
}

/// The topic on which the bridge listens for orders to blind `id`.
pub open spec fn command_topic_of(id: u8) -> Seq<char> {
    NODE_ID@ + "/cover/"@ + decimal(id as nat) + "/set"@
}

/// The topic that tells whether the dongle is online.
pub open spec fn state_topic_of() -> Seq<char> {
    NODE_ID@ + "/dongle/state"@
}

/// The topic on which a blind is announced.
pub open spec fn config_topic_of(dongle_id: Seq<char>, addr: Seq<char>) -> Seq<char> {
    DISCOVERY_PREFIX@ + "/"@ + COMPONENT@ + "/"@ + dongle_id + "/"@ + addr + "/config"@
}

/// The topic on which the bridge listens for orders to blind `id`.
pub fn command_topic(id: u8) -> (r: String)
    ensures
        r@ == command_topic_of(id),
{
    let mut t = NODE_ID.to_owned();
    t.append("/cover/");
    push_decimal(&mut t, id as u16);
    t.append("/set");
    t
}

/// The topic that tells whether the dongle is online.
pub fn state_topic() -> (r: String)
    ensures
        r@ == state_topic_of(),
{
    let mut t = NODE_ID.to_owned();
    t.append("/dongle/state");
    t
}

/// The topic on which a blind is announced.
pub fn config_topic(dongle_id: &str, addr: &str) -> (r: String)
    ensures
        r@ == config_topic_of(dongle_id@, addr@),
{
    let mut t = DISCOVERY_PREFIX.to_owned();
    t.append("/");
    t.append(COMPONENT);
    t.append("/");
    t.append(dongle_id);
    t.append("/");
    t.append(addr);
    t.append("/config");
    t
}

/// Why an incoming message carries no order.
#[derive(Debug, PartialEq)]
pub enum OrderError {
    /// The topic has no segment for the blind.
    BadTopic,
    /// The topic's blind segment is not a `u8`.
    BadBlindId,
    /// The message is not UTF-8 text.
    BadPayload,
    /// The message is no known order; it is kept.
    UnknownOrder(String),
}

/// The third `/`-separated segment of a topic, which names the blind.
pub open spec fn blind_segment(t: Seq<char>) -> Option<Seq<char>> {
    let s1 = next_sep(t, 0, '/');
    let s2 = next_sep(t, s1 + 1, '/');
    if s1 >= t.len() || s2 >= t.len() {
        None
    } else {
        Some(t.subrange(s2 + 1, next_sep(t, s2 + 1, '/')))
    }
}

/// The radio command an order text asks for.
pub open spec fn order_of(text: Seq<char>, id: u8) -> Option<RtsCommand> {
    if text == "UP"@ {
        Some(RtsCommand::Up(id))
    } else if text == "DOWN"@ {
        Some(RtsCommand::Down(id))
    } else if text == "STOP"@ {
        Some(RtsCommand::Stop(id))
    } else {
        None
    }
}

/// The radio command that a message on `topic` asks for.
pub fn order_for(topic: &str, payload: &[u8]) -> (r: Result<RtsCommand, OrderError>)
    ensures
        blind_segment(topic@) is None ==> r == Err::<RtsCommand, OrderError>(OrderError::BadTopic),
        blind_segment(topic@) matches Some(seg) ==> parsed_u8(seg) is None ==> r == Err::<
            RtsCommand,
            OrderError,
        >(OrderError::BadBlindId),
        blind_segment(topic@) matches Some(seg) ==> parsed_u8(seg) is Some ==> text_of(payload@)
            is None ==> r == Err::<RtsCommand, OrderError>(OrderError::BadPayload),
        blind_segment(topic@) matches Some(seg) ==> parsed_u8(seg) matches Some(id) ==> text_of(
            payload@,
        ) matches Some(t) ==> (order_of(t, id) matches Some(c) ==> r == Ok::<
            RtsCommand,
            OrderError,
        >(c)),
        blind_segment(topic@) matches Some(seg) ==> parsed_u8(seg) matches Some(id) ==> text_of(
            payload@,
        ) matches Some(t) ==> (order_of(t, id) is None ==> (r matches Err(
            OrderError::UnknownOrder(o),
        ) && o@ == t)),
{
    proof {
        reveal_strlit("UP");
        reveal_strlit("DOWN");
        reveal_strlit("STOP");
    }
    let n = topic.unicode_len();
    let s1 = find_sep(topic, n, 0, '/');
    if s1 >= n {
        return Err(OrderError::BadTopic);
    }
    let s2 = find_sep(topic, n, s1 + 1, '/');
    if s2 >= n {
        return Err(OrderError::BadTopic);
    }
    let s3 = find_sep(topic, n, s2 + 1, '/');
    let id = match parse_u8(topic.substring_char(s2 + 1, s3)) {
        Some(id) => id,
        None => {
            return Err(OrderError::BadBlindId);
        },
    };
    let text = match utf8_str(payload) {
        Ok(t) => t,
        Err(_) => {
            return Err(OrderError::BadPayload);
        },
    };
    if same_text(text, "UP") {
        Ok(RtsCommand::Up(id))
    } else if same_text(text, "DOWN") {
        Ok(RtsCommand::Down(id))
    } else if same_text(text, "STOP") {
        Ok(RtsCommand::Stop(id))
    } else {
        Err(OrderError::UnknownOrder(text.to_owned()))
    }
}

/// The text of the error that reading a `u16` from a text gives.
pub uninterp spec fn int_error_text(s: Seq<char>) -> Seq<char>;

/// Relies on <u16 as FromStr>::from_str, which accepts an optional `+`
/// followed by one or more decimal digits whose value is at most 65535, and
/// on the text of its ParseIntError, which depends on the input alone.
#[verifier::external_body]
fn parse_u16(s: &str) -> (r: Result<u16, String>)
    ensures
        parsed_u16(s@) matches Some(v) ==> r is Ok && r->Ok_0 == v,
        parsed_u16(s@) is None ==> r is Err && r->Err_0@ == int_error_text(s@),
{
    s.parse::<u16>().map_err(|e| e.to_string())
}

/// What a broker option text `id:host:port` gives: the client id, the host
/// and the port, or the message that says what is wrong.
pub open spec fn mqtt_target_of(arg: Seq<char>) -> Result<(Seq<char>, Seq<char>, u16), Seq<char>> {
    let c0 = next_sep(arg, 0, ':');
    let c1 = next_sep(arg, c0 + 1, ':');
    let c2 = next_sep(arg, c1 + 1, ':');
    if c0 >= arg.len() {
        Err("Missing 'host' in MQTT option string"@)
    } else if c1 >= arg.len() {
        Err("Missing 'port' in MQTT option string"@)
    } else {
        match parsed_u16(arg.subrange(c1 + 1, c2)) {
            Some(p) => Ok((arg.subrange(0, c0), arg.subrange(c0 + 1, c1), p)),
            None => Err(
                "Bad 'port' value in MQTT option string: "@ + int_error_text(
                    arg.subrange(c1 + 1, c2),
                ),
            ),
        }
    }
}

/// Reads a broker option text `id:host:port`.
pub fn mqtt_option(arg: &str) -> (r: Result<(String, String, u16), String>)
    ensures
        match mqtt_target_of(arg@) {
            Ok((id, host, port)) => r is Ok && r->Ok_0.0@ == id && r->Ok_0.1@ == host && r->Ok_0.2
                == port,
            Err(m) => r is Err && r->Err_0@ == m,
        },
{
    let n = arg.unicode_len();
    let c0 = find_sep(arg, n, 0, ':');
    if c0 >= n {
        return Err("Missing 'host' in MQTT option string".to_owned());
    }
    let c1 = find_sep(arg, n, c0 + 1, ':');
    if c1 >= n {
        return Err("Missing 'port' in MQTT option string".to_owned());
    }
    let c2 = find_sep(arg, n, c1 + 1, ':');
    match parse_u16(arg.substring_char(c1 + 1, c2)) {
        Ok(port) => Ok(
            (arg.substring_char(0, c0).to_owned(), arg.substring_char(c0 + 1, c1).to_owned(), port),
        ),
        Err(e) => {
            let mut m = "Bad 'port' value in MQTT option string: ".to_owned();
            m.append(e.as_str());
            Err(m)
        },
    }
}

} // verus!
