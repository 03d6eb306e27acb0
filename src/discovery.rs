//! Which serial ports are the dongle, and how to open one.
use vstd::prelude::*;
use vstd::string::*;

verus! {

/// The dongle's USB vendor identifier.
pub const VENDOR_ID: u16 = 8883;

/// The dongle's USB product identifier.
pub const PRODUCT_ID: u16 = 1551;

/// The serial line's speed; it uses 8 data bits, 1 stop bit, no parity.
pub const BAUD_RATE: u32 = 9600;

/// Whether `tty` occurs in the text.
pub open spec fn mentions_tty(s: Seq<char>) -> bool {
    exists|i: int| 0 <= i && i + 3 <= s.len() && #[trigger] s.subrange(i, i + 3) == "tty"@
}

/// Whether a port is the dongle: its path names a terminal device and it
/// is a USB port with the dongle's vendor and product identifiers.
pub fn is_rts_dongle(port_name: &str, usb_ids: Option<(u16, u16)>) -> (r: bool)
    ensures
        r == (mentions_tty(port_name@) && usb_ids == Some((VENDOR_ID, PRODUCT_ID))),
{
    let ids_match = match usb_ids {
        Some((vid, pid)) => vid == VENDOR_ID && pid == PRODUCT_ID,
        None => false,
    };
    if !ids_match {
        return false;
    }
    assert(usb_ids == Some((VENDOR_ID, PRODUCT_ID)));
    let n = port_name.unicode_len();
    let wanted = "tty".to_owned();
    proof {
        reveal_strlit("tty");
    }
    let mut i: usize = 0;
    while i < n && n - i >= 3
        invariant
            i <= n,
            usb_ids == Some((VENDOR_ID, PRODUCT_ID)),
            n == port_name@.len(),
            wanted@ == "tty"@,
            forall|j: int| 0 <= j < i ==> #[trigger] port_name@.subrange(j, j + 3) != "tty"@,
        decreases n - i,
    {
        if port_name.substring_char(i, i + 3).to_owned() == wanted {
            assert(port_name@.subrange(i as int, i + 3) == "tty"@);
            return true;
        }
        i = i + 1;
    }
    proof {
        assert forall|j: int| 0 <= j && j + 3 <= port_name@.len() implies #[trigger] port_name@.subrange(j, j + 3) != "tty"@ by {
            assert(j < i);
        }
    }
    false
}

} // verus!
