//! Projections of a reply's JSON value into the typed payloads.
use vstd::prelude::*;
use crate::json::{JsonValue, JsonNumber, field, get_field, take_field};
use crate::model::{Alive, AddressVal, Empty};

verus! {

/// Why a reply's value does not hold the expected payload: the field that
/// is missing or of the wrong kind.
#[derive(Debug, PartialEq, Eq)]
pub struct PayloadError {
    pub field: String,
}

/// A number that fits in an `i32`.
pub open spec fn as_i32(v: JsonValue) -> Option<i32> {
    match v {
        JsonValue::Number(JsonNumber::PosInt(u)) => if u <= i32::MAX {
            Some(u as i32)
        } else {
            None
        },
        JsonValue::Number(JsonNumber::NegInt(i)) => if i32::MIN <= i {
            Some(i as i32)
        } else {
            None
        },
        _ => None,
    }
}

/// The text of a string value.
pub open spec fn str_text(v: JsonValue) -> Option<Seq<char>> {
    match v {
        JsonValue::Str(s) => Some(s@),
        _ => None,
    }
}

/// The texts of a list of exactly three strings.
pub open spec fn three_strings(v: JsonValue) -> Option<Seq<Seq<char>>> {
    match v {
        JsonValue::Array(a) => if a@.len() == 3 && str_text(a@[0]) is Some && str_text(a@[1]) is Some
            && str_text(a@[2]) is Some {
            Some(seq![str_text(a@[0])->0, str_text(a@[1])->0, str_text(a@[2])->0])
        } else {
            None
        },
        _ => None,
    }
}

/// The field `RSSI-VAL` as an `i32`.
pub open spec fn alive_rssi(v: JsonValue) -> Option<i32> {
    match field(v, "RSSI-VAL"@) {
        Some(x) => as_i32(x),
        None => None,
    }
}

/// The field `ID` as three strings.
pub open spec fn alive_id(v: JsonValue) -> Option<Seq<Seq<char>>> {
    match field(v, "ID"@) {
        Some(x) => three_strings(x),
        None => None,
    }
}

/// The field `ADDRESS-VAL` as a list of exactly three values.
pub open spec fn address_items(v: JsonValue) -> Option<Seq<JsonValue>> {
    match field(v, "ADDRESS-VAL"@) {
        Some(JsonValue::Array(a)) => if a@.len() == 3 {
            Some(a@)
        } else {
            None
        },
        _ => None,
    }
}

/// A payload that a reply's JSON value may hold.
pub trait Payload: Sized {
    /// Whether `v` holds a payload of this type.
    spec fn fits(v: JsonValue) -> bool;

    /// Whether `p` is the payload that `v` holds.
    spec fn holds(v: JsonValue, p: Self) -> bool;

    /// The payload that `v` holds.
    fn from_json(v: JsonValue) -> (r: Result<Self, PayloadError>)
        ensures
            r is Ok <==> Self::fits(v),
            r matches Ok(p) ==> Self::holds(v, p);
}

/// Reads a number that fits in an `i32`.
fn number_i32(v: &JsonValue) -> (r: Option<i32>)
    ensures
        r == as_i32(*v),
{
    match v {
        JsonValue::Number(JsonNumber::PosInt(u)) => if *u <= i32::MAX as u64 {
            Some(*u as i32)
        } else {
            None
        },
        JsonValue::Number(JsonNumber::NegInt(i)) => if i32::MIN as i64 <= *i {
            Some(*i as i32)
        } else {
            None
        },
        _ => None,
    }
}

/// Copies the text of a string value.
fn string_of(v: &JsonValue) -> (r: Option<String>)
    ensures
        r is Some <==> str_text(*v) is Some,
        r is Some ==> r->0@ == str_text(*v)->0,
{
    match v {
        JsonValue::Str(s) => Some(s.clone()),
        _ => None,
    }
}

fn missing(name: &str) -> (r: PayloadError)
    ensures
        r.field@ == name@,
{
    PayloadError { field: name.to_owned() }
}

impl Payload for Empty {
    open spec fn fits(v: JsonValue) -> bool {
        v is Object
    }

    open spec fn holds(v: JsonValue, p: Self) -> bool {
        true
    }

    fn from_json(v: JsonValue) -> (r: Result<Self, PayloadError>) {
        match v {
            JsonValue::Object(_) => Ok(Empty {}),
            _ => Err(missing("")),
        }
    }
}

impl Payload for Alive {
    open spec fn fits(v: JsonValue) -> bool {
        alive_rssi(v) is Some && alive_id(v) is Some
    }

    open spec fn holds(v: JsonValue, p: Self) -> bool {
        alive_rssi(v) == Some(p.rssi_val) && alive_id(v) == Some(
            seq![p.id[0]@, p.id[1]@, p.id[2]@],
        )
    }

    fn from_json(v: JsonValue) -> (r: Result<Self, PayloadError>) {
        let rssi = match get_field(&v, "RSSI-VAL") {
            Some(x) => number_i32(x),
            None => None,
        };
        let rssi_val = match rssi {
            Some(x) => x,
            None => {
                return Err(missing("RSSI-VAL"));
            },
        };
        let ids = match get_field(&v, "ID") {
            Some(JsonValue::Array(a)) => if a.len() == 3 {
                match (string_of(&a[0]), string_of(&a[1]), string_of(&a[2])) {
                    (Some(x), Some(y), Some(z)) => Some([x, y, z]),
                    _ => None,
                }
            } else {
                None
            },
            _ => None,
        };
        match ids {
            Some(id) => {
                let p = Alive { rssi_val, id };
                assert(seq![p.id[0]@, p.id[1]@, p.id[2]@] =~= alive_id(v)->0);
                Ok(p)
            },
            None => Err(missing("ID")),
        }
    }
}

impl Payload for AddressVal {
    open spec fn fits(v: JsonValue) -> bool {
        address_items(v) is Some
    }

    open spec fn holds(v: JsonValue, p: Self) -> bool {
        address_items(v) == Some(p.address_val@)
    }

    fn from_json(v: JsonValue) -> (r: Result<Self, PayloadError>) {
        match take_field(v, "ADDRESS-VAL") {
            Some(JsonValue::Array(mut items)) => if items.len() == 3 {
                let ghost all = items@;
                let c = items.pop().unwrap();
                let b = items.pop().unwrap();
                let a = items.pop().unwrap();
                let p = AddressVal { address_val: [a, b, c] };
                assert(p.address_val@ =~= all);
                Ok(p)
            } else {
                Err(missing("ADDRESS-VAL"))
            },
            _ => Err(missing("ADDRESS-VAL")),
        }
    }
}

} // verus!
