//! Checking a blind's address record.
use vstd::prelude::*;
use crate::json::{JsonValue, JsonNumber};
use crate::model::{AddressVal, BlindAddress, BadBlindDetails};

verus! {

/// The value of a hex digit, upper or lower case.
pub open spec fn hex_val(c: char) -> Option<u8> {
    if '0' <= c && c <= '9' {
        Some((c as u32 - 48) as u8)
    } else if 'a' <= c && c <= 'f' {
        Some((c as u32 - 87) as u8)
    } else if 'A' <= c && c <= 'F' {
        Some((c as u32 - 55) as u8)
    } else {
        None
    }
}

/// The `n` bytes that exactly `2 * n` hex digits spell, the high half of each
/// byte first.
pub open spec fn hex_bytes(s: Seq<char>, n: nat) -> Option<Seq<u8>> {
    if s.len() == 2 * n && forall|i: int| 0 <= i < s.len() ==> (#[trigger] hex_val(s[i])) is Some {
        Some(
            Seq::new(
                n,
                |i: int| (hex_val(s[2 * i])->0 as int * 16 + hex_val(s[2 * i + 1])->0 as int) as u8,
            ),
        )
    } else {
        None
    }
}

/// Relies on hex::FromHex for [u8; 3]: accepts exactly six hex digits of
/// either case and gives the bytes they spell.
#[verifier::external_body]
fn hex_array3(s: &str) -> (r: Option<[u8; 3]>)
    ensures
        r is Some <==> hex_bytes(s@, 3) is Some,
        r matches Some(a) ==> a@ == hex_bytes(s@, 3)->0,
{
    <[u8; 3] as hex::FromHex>::from_hex(s).ok()
}

/// Relies on hex::FromHex for [u8; 2]: accepts exactly four hex digits of
/// either case and gives the bytes they spell.
#[verifier::external_body]
fn hex_array2(s: &str) -> (r: Option<[u8; 2]>)
    ensures
        r is Some <==> hex_bytes(s@, 2) is Some,
        r matches Some(a) ==> a@ == hex_bytes(s@, 2)->0,
{
    <[u8; 2] as hex::FromHex>::from_hex(s).ok()
}

/// A non-negative integer value.
pub open spec fn as_u64(v: JsonValue) -> Option<u64> {
    match v {
        JsonValue::Number(JsonNumber::PosInt(u)) => Some(u),
        _ => None,
    }
}

/// What checking an address record gives. The identifier keeps its low
/// byte.
pub open spec fn checked_address(v: Seq<JsonValue>) -> Result<(u8, Seq<u8>, Seq<u8>), BadBlindDetails> {
    match as_u64(v[0]) {
        None => Err(BadBlindDetails::MissingId),
        Some(id) => match v[1] {
            JsonValue::Str(a) => match hex_bytes(a@, 3) {
                None => Err(BadBlindDetails::BadHexValue),
                Some(addr) => match v[2] {
                    JsonValue::Str(rc) => match hex_bytes(rc@, 2) {
                        None => Err(BadBlindDetails::BadHexValue),
                        Some(code) => Ok(((id % 256) as u8, addr, code)),
                    },
                    _ => Err(BadBlindDetails::MissingRollingCode),
                },
            },
            _ => Err(BadBlindDetails::MissingAddress),
        },
    }
}

impl BlindAddress {
    /// Checks an address record: the identifier must be a non-negative
    /// integer, of which the low byte is kept; the address must be six hex
    /// digits, the rolling code four.
    pub fn try_from(value: AddressVal) -> (r: Result<BlindAddress, BadBlindDetails>)
        ensures
            match checked_address(value.address_val@) {
                Ok((id, addr, code)) => r is Ok && r->Ok_0.id == id && r->Ok_0.addr@ == addr
                    && r->Ok_0.rolling_code@ == code,
                Err(e) => r == Err::<BlindAddress, BadBlindDetails>(e),
            },
    {
        let id = match &value.address_val[0] {
            JsonValue::Number(JsonNumber::PosInt(u)) => (*u % 256) as u8,
            _ => {
                return Err(BadBlindDetails::MissingId);
            },
        };
        let addr = match &value.address_val[1] {
            JsonValue::Str(a) => match hex_array3(a.as_str()) {
                Some(x) => x,
                None => {
                    return Err(BadBlindDetails::BadHexValue);
                },
            },
            _ => {
                return Err(BadBlindDetails::MissingAddress);
            },
        };
        let rolling_code = match &value.address_val[2] {
            JsonValue::Str(rc) => match hex_array2(rc.as_str()) {
                Some(x) => x,
                None => {
                    return Err(BadBlindDetails::BadHexValue);
                },
            },
            _ => {
                return Err(BadBlindDetails::MissingRollingCode);
            },
        };
        Ok(BlindAddress { id, addr, rolling_code })
    }
}

} // verus!
