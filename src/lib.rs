//! Host side of the i2c-tiny-usb protocol: I2C bus transactions tunnelled
//! through USB vendor control transfers.
//!
//! The protocol logic is written as two state machines, [`transfer::Transfer`]
//! for a batch of messages and [`probe::Probe`] for the capability probe, that
//! ask for one control transfer at a time. [`connection`] runs them over any
//! [`connection::Connection`], and [`device::I2c`] keeps what a handle on one
//! bridge needs.
use vstd::prelude::*;

pub mod connection;
pub mod device;
pub mod error;
pub mod flags;
pub mod probe;
pub mod transfer;
pub mod wire;

pub use connection::{check_device, transfer, Connection};
pub use device::I2c;
pub use error::Error;
pub use flags::{ReadFlags, WriteFlags};
pub use transfer::Message;
pub use wire::{ControlRequest, Reply};

verus! {

/// Whether a USB device with these ids is a known i2c-tiny-usb bridge: the
/// FTDI id pair or the EZPrototypes one.
pub open spec fn known_device(vendor_id: u16, product_id: u16) -> bool {
    ||| vendor_id == 0x0403 && product_id == 0xc631
    ||| vendor_id == 0x1c40 && product_id == 0x0534
}

/// Whether a USB device with these ids is a known i2c-tiny-usb bridge.
pub fn is_supported_device(vendor_id: u16, product_id: u16) -> (r: bool)
    ensures
        r == known_device(vendor_id, product_id),
{
    let known: [(u16, u16); 2] = [(0x0403, 0xc631), (0x1c40, 0x0534)];
    let mut i: usize = 0;
    while i < 2
        invariant
            0 <= i <= 2,
            known@ == seq![(0x0403u16, 0xc631u16), (0x1c40u16, 0x0534u16)],
            forall|j: int| 0 <= j < i ==> known@[j] != (vendor_id, product_id),
        decreases 2 - i,
    {
        let (vid, pid) = known[i];
        if vid == vendor_id && pid == product_id {
            return true;
        }
        i = i + 1;
    }
    false
}

} // verus!
