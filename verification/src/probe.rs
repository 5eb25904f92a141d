//! Transport probing: deriving a stable device address and label from what
//! the port reports about itself.
//!
//! Opening the port and reading its descriptors is I/O and happens outside
//! the library; the values read (serial number, vendor and product id, a
//! timestamp for the fallback) come in as plain arguments.

use vstd::prelude::*;

use crate::strutil::{dec_chars, hex4_chars, push_dec, push_hex4};

verus! {

/// The address a probe derives, by priority: the hardware serial number if
/// present, else the vendor/product id pair if both are present, else a
/// timestamp fallback.
pub open spec fn derived_address(
    serial_number: Option<Seq<char>>,
    vendor_id: Option<u16>,
    product_id: Option<u16>,
    fallback_ts: u64,
) -> Seq<char> {
    if serial_number is Some {
        "serial:"@ + serial_number->0
    } else if vendor_id is Some && product_id is Some {
        "usb:"@ + hex4_chars(vendor_id->0 as nat) + seq![':'] + hex4_chars(product_id->0 as nat)
    } else {
        "serial-port-"@ + dec_chars(fallback_ts as nat)
    }
}

/// The label a probe derives: the serial number, else a formatted
/// vendor/product pair, else absent.
pub open spec fn derived_label(
    serial_number: Option<Seq<char>>,
    vendor_id: Option<u16>,
    product_id: Option<u16>,
) -> Option<Seq<char>> {
    if serial_number is Some {
        serial_number
    } else if vendor_id is Some && product_id is Some {
        Some("USB "@ + hex4_chars(vendor_id->0 as nat) + seq![':'] + hex4_chars(product_id->0 as nat))
    } else {
        None
    }
}

/// The view of an optional string.
pub open spec fn opt_str_view(s: Option<String>) -> Option<Seq<char>> {
    match s {
        Some(v) => Some(v@),
        None => None,
    }
}

/// Derives the device address from the probed port descriptors.
pub fn derive_address(
    serial_number: &Option<String>,
    vendor_id: Option<u16>,
    product_id: Option<u16>,
    fallback_ts: u64,
) -> (r: String)
    ensures
        r@ == derived_address(opt_str_view(*serial_number), vendor_id, product_id, fallback_ts),
{
    match serial_number {
        Some(sn) => {
            let s = String::from_str("serial:");
            s.concat(sn.as_str())
        },
        None => {
            if vendor_id.is_some() && product_id.is_some() {
                let v: u16 = *vendor_id.as_ref().unwrap();
                let p: u16 = *product_id.as_ref().unwrap();
                let s = String::from_str("usb:");
                let s = push_hex4(s, v);
                let s = s.concat(":");
                let s = push_hex4(s, p);
                proof {
                    reveal_strlit(":");
                    assert(s@ =~= "usb:"@ + hex4_chars(v as nat) + seq![':'] + hex4_chars(
                        p as nat,
                    ));
                }
                s
            } else {
                let s = String::from_str("serial-port-");
                push_dec(s, fallback_ts)
            }
        },
    }
}

/// Derives the device label from the probed port descriptors.
pub fn derive_label(
    serial_number: &Option<String>,
    vendor_id: Option<u16>,
    product_id: Option<u16>,
) -> (r: Option<String>)
    ensures
        opt_str_view(r) == derived_label(opt_str_view(*serial_number), vendor_id, product_id),
{
    match serial_number {
        Some(sn) => Some(sn.clone()),
        None => {
            if vendor_id.is_some() && product_id.is_some() {
                let v: u16 = *vendor_id.as_ref().unwrap();
                let p: u16 = *product_id.as_ref().unwrap();
                let s = String::from_str("USB ");
                let s = push_hex4(s, v);
                let s = s.concat(":");
                let s = push_hex4(s, p);
                proof {
                    reveal_strlit(":");
                    assert(s@ =~= "USB "@ + hex4_chars(v as nat) + seq![':'] + hex4_chars(
                        p as nat,
                    ));
                }
                Some(s)
            } else {
                None
            }
        },
    }
}

/// A probed descriptor string counts only when it is non-empty; an empty one
/// is treated as absent.
pub fn nonempty_or_none(s: Option<String>) -> (r: Option<String>)
    ensures
        match s {
            Some(v) => if v@.len() == 0 {
                r is None
            } else {
                r == Some(v)
            },
            None => r is None,
        },
{
    match s {
        Some(v) => {
            if v.as_str().is_empty() {
                None
            } else {
                Some(v)
            }
        },
        None => None,
    }
}

/// Which candidate the pre-pairing nudge settles on: the first of the
/// service/characteristic candidates, tried in priority order, whose wake
/// write went through. Every attempt is best-effort, so no outcome fails the
/// caller; `None` means no candidate accepted the write.
pub fn nudge_pick_candidate(attempts: &Vec<bool>) -> (r: Option<usize>)
    ensures
        match r {
            Some(i) => i < attempts@.len() && attempts@[i as int] && (forall|j: int|
                0 <= j < i ==> !attempts@[j]),
            None => forall|j: int| 0 <= j < attempts@.len() ==> !attempts@[j],
        },
{
    let mut i: usize = 0;
    while i < attempts.len()
        invariant
            i <= attempts@.len(),
            forall|j: int| 0 <= j < i ==> !attempts@[j],
        decreases attempts@.len() - i,
    {
        if attempts[i] {
            return Some(i);
        }
        i = i + 1;
    }
    None
}

} // verus!
