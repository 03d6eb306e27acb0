//! The two wire formats a connection can be bound to.
use vstd::prelude::*;

verus! {

/// Handshake token that selects the obfuscated wire format.
pub const HELLO_NORMAL: &'static str = "$HELLOSOMFYBG3174";

/// Handshake token that turns obfuscation off.
pub const HELLO_CRYPTO_OFF: &'static str = "$CRYPTO_OFF_3145";

/// How command text is carried on the wire once a connection is ready.
#[derive(Clone, Copy, Debug, PartialEq, Eq, Structural)]
pub enum WireFormat {
    /// The obfuscated format. Its transform is not known, so every use of it
    /// to carry data fails.
    Normal,
    /// Text travels as it is.
    CryptoOff,
}

/// What `encode_data` produces for a text: the text itself in the
/// passthrough format, nothing in the obfuscated one.
pub open spec fn encoded(format: WireFormat, data: Seq<char>) -> Option<Seq<char>> {
    match format {
        WireFormat::CryptoOff => Some(data),
        WireFormat::Normal => None,
    }
}

/// What `decode_data` produces for a text received on the wire.
pub open spec fn decoded(format: WireFormat, data: Seq<char>) -> Option<Seq<char>> {
    match format {
        WireFormat::CryptoOff => Some(data),
        WireFormat::Normal => None,
    }
}

impl WireFormat {
    /// The handshake token that selects this format.
    pub fn init_message(&self) -> (r: &'static str)
        ensures
            *self == WireFormat::Normal ==> r@ == HELLO_NORMAL@,
            *self == WireFormat::CryptoOff ==> r@ == HELLO_CRYPTO_OFF@,
    {
        match self {
            WireFormat::Normal => HELLO_NORMAL,
            WireFormat::CryptoOff => HELLO_CRYPTO_OFF,
        }
    }

    /// Turns command text into what is written on the wire; `None` where the
    /// format cannot carry data.
    pub fn encode_data(&self, data: &str) -> (r: Option<String>)
        ensures
            r is Some <==> encoded(*self, data@) is Some,
            r is Some ==> r->0@ == encoded(*self, data@)->0,
    {
        match self {
            WireFormat::CryptoOff => Some(data.to_owned()),
            WireFormat::Normal => None,
        }
    }

    /// Turns text received on the wire back into reply text; `None` where the
    /// format cannot carry data.
    pub fn decode_data(&self, data: &str) -> (r: Option<String>)
        ensures
            r is Some <==> decoded(*self, data@) is Some,
            r is Some ==> r->0@ == decoded(*self, data@)->0,
    {
        match self {
            WireFormat::CryptoOff => Some(data.to_owned()),
            WireFormat::Normal => None,
        }
    }
}

} // verus!
