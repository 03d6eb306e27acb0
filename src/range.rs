//! Ranges of blind identifiers as a user writes them: `3..7`, `3..=7`,
//! `..7`, `3..` or `..`.
use vstd::prelude::*;
use vstd::string::*;

verus! {

/// The lowest blind identifier.
pub const FIRST_BLIND: u8 = 1;

/// The end of the identifiers: blinds go up to and including it in an
/// inclusive range, up to and excluding it in an open one.
pub const LAST_BLIND: u8 = 100;

/// The first position at or after `i` where two dots follow each other.
pub open spec fn first_dots(s: Seq<char>, i: int) -> Option<int>
    decreases s.len() - i,
{
    if i < 0 || i + 1 >= s.len() {
        None
    } else if s[i] == '.' && s[i + 1] == '.' {
        Some(i)
    } else {
        first_dots(s, i + 1)
    }
}

pub open spec fn is_digit(c: char) -> bool {
    '0' <= c && c <= '9'
}

/// The value of a run of decimal digits.
pub open spec fn digits_value(d: Seq<char>) -> nat
    decreases d.len(),
{
    if d.len() == 0 {
        0
    } else {
        digits_value(d.drop_last()) * 10 + (d.last() as u32 - 48) as nat
    }
}

/// The value a text spells as an unsigned integer: an optional `+` and
/// then one or more decimal digits.
pub open spec fn parsed_digits(s: Seq<char>) -> Option<nat> {
    let d = if s.len() > 0 && s[0] == '+' {
        s.drop_first()
    } else {
        s
    };
    if d.len() > 0 && (forall|i: int| 0 <= i < d.len() ==> is_digit(#[trigger] d[i])) {
        Some(digits_value(d))
    } else {
        None
    }
}

/// The `u8` a text spells: its digits' value, where it is at most 255.
pub open spec fn parsed_u8(s: Seq<char>) -> Option<u8> {
    match parsed_digits(s) {
        Some(v) => if v <= u8::MAX {
            Some(v as u8)
        } else {
            None
        },
        None => None,
    }
}

/// The `u16` a text spells: its digits' value, where it is at most 65535.
pub open spec fn parsed_u16(s: Seq<char>) -> Option<u16> {
    match parsed_digits(s) {
        Some(v) => if v <= u16::MAX {
            Some(v as u16)
        } else {
            None
        },
        None => None,
    }
}

/// The message for a text that is not a range.
pub open spec fn bad_range(s: Seq<char>) -> Seq<char> {
    "`"@ + s + "` isn't a valid range."@
}

/// The message for a bound that is not a `u8`.
pub open spec fn bad_bound(s: Seq<char>) -> Seq<char> {
    "`"@ + s + "` isn't a valid bound."@
}

/// The identifiers a range text stands for, as the half-open interval
/// `[lo, hi)`, or the message that says why it stands for none. An
/// inclusive end is capped at the last blind.
pub open spec fn range_bounds(arg: Seq<char>) -> Result<(int, int), Seq<char>> {
    match first_dots(arg, 0) {
        None => Err(bad_range(arg)),
        Some(i) => {
            let start = arg.subrange(0, i);
            let end = arg.subrange(i + 2, arg.len() as int);
            let lo: Option<int> = if start.len() == 0 {
                Some(FIRST_BLIND as int)
            } else {
                match parsed_u8(start) {
                    Some(x) => Some(x as int),
                    None => None,
                }
            };
            match lo {
                None => Err(bad_bound(start)),
                Some(lo) => if end.len() > 0 && end[0] == '=' {
                    match parsed_u8(end.drop_first()) {
                        None => Err(bad_bound(end)),
                        Some(e) => Ok(
                            (lo, if e > LAST_BLIND {
                                LAST_BLIND as int + 1
                            } else {
                                e as int + 1
                            }),
                        ),
                    }
                } else if end.len() == 0 {
                    Ok((lo, LAST_BLIND as int))
                } else {
                    match parsed_u8(end) {
                        None => Err(bad_bound(end)),
                        Some(e) => Ok((lo, e as int)),
                    }
                },
            }
        },
    }
}

/// The identifiers from `lo` up to but excluding `hi`.
pub open spec fn ids_between(lo: int, hi: int) -> Seq<u8> {
    Seq::new(if hi > lo { (hi - lo) as nat } else { 0 }, |k: int| (lo + k) as u8)
}

/// Relies on <u8 as FromStr>::from_str: accepts an optional `+` followed by
/// one or more decimal digits whose value is at most 255.
#[verifier::external_body]
pub(crate) fn parse_u8(s: &str) -> (r: Option<u8>)
    ensures
        r == parsed_u8(s@),
{
    s.parse::<u8>().ok()
}

/// The message that quotes `s` and ends with `tail`.
fn quoted_message(s: &str, tail: &str) -> (r: String)
    ensures
        r@ == "`"@ + s@ + tail@,
{
    let mut m = "`".to_owned();
    m.append(s);
    m.append(tail);
    m
}

fn find_dots(s: &str, n: usize) -> (r: Option<usize>)
    requires
        n == s@.len(),
    ensures
        r matches Some(i) ==> first_dots(s@, 0) == Some(i as int) && i + 2 <= n,
        r is None ==> first_dots(s@, 0) is None,
{
    let mut i: usize = 0;
    while i < n && n - i >= 2
        invariant
            i <= n,
            n == s@.len(),
            first_dots(s@, 0) == first_dots(s@, i as int),
        decreases n - i,
    {
        if s.get_char(i) == '.' && s.get_char(i + 1) == '.' {
            return Some(i);
        }
        i = i + 1;
    }
    None
}

/// The blind identifiers that a range text stands for, in increasing order.
pub fn validate_range(arg: &str) -> (r: Result<Vec<u8>, String>)
    ensures
        match range_bounds(arg@) {
            Ok((lo, hi)) => r is Ok && r->Ok_0@ == ids_between(lo, hi),
            Err(m) => r is Err && r->Err_0@ == m,
        },
{
    let n = arg.unicode_len();
    let i = match find_dots(arg, n) {
        Some(i) => i,
        None => {
            return Err(quoted_message(arg, "` isn't a valid range."));
        },
    };
    let start = arg.substring_char(0, i);
    let end = arg.substring_char(i + 2, n);
    let lo: u8 = if i == 0 {
        FIRST_BLIND
    } else {
        match parse_u8(start) {
            Some(x) => x,
            None => {
                return Err(quoted_message(start, "` isn't a valid bound."));
            },
        }
    };
    let m = n - (i + 2);
    let hi: u16 = if m > 0 && end.get_char(0) == '=' {
        match parse_u8(end.substring_char(1, m)) {
            Some(e) => {
                assert(end@.subrange(1, m as int) =~= end@.drop_first());
                if e > LAST_BLIND {
                    LAST_BLIND as u16 + 1
                } else {
                    e as u16 + 1
                }
            },
            None => {
                assert(end@.subrange(1, m as int) =~= end@.drop_first());
                return Err(quoted_message(end, "` isn't a valid bound."));
            },
        }
    } else if m == 0 {
        LAST_BLIND as u16
    } else {
        match parse_u8(end) {
            Some(e) => e as u16,
            None => {
                return Err(quoted_message(end, "` isn't a valid bound."));
            },
        }
    };
    let mut ids: Vec<u8> = Vec::new();
    let mut k: u16 = lo as u16;
    while k < hi
        invariant
            lo <= k,
            k <= hi || hi <= lo,
            hi <= lo ==> k == lo,
            hi <= 256,
            ids@ == ids_between(lo as int, k as int),
        decreases hi - k,
    {
        ids.push(k as u8);
        assert(ids@ =~= ids_between(lo as int, k + 1));
        k = k + 1;
    }
    assert(ids@ =~= ids_between(lo as int, hi as int));
    Ok(ids)
}

} // verus!
