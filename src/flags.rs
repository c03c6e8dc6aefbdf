//! Per-message modifier sets, as bitmasks with the bit values of the `i2c`
//! crate's `ReadFlags` and `WriteFlags`.
use vstd::prelude::*;

verus! {

/// Modifiers of a read message.
#[derive(Debug, Clone, Copy, PartialEq, Eq, Structural)]
pub struct ReadFlags {
    pub bits: u16,
}

/// Modifiers of a write message.
#[derive(Debug, Clone, Copy, PartialEq, Eq, Structural)]
pub struct WriteFlags {
    pub bits: u16,
}

impl ReadFlags {
    /// The message length is given by the first byte received.
    pub const RECEIVE_LEN: u16 = 0x01;
    /// Do not acknowledge the last byte read.
    pub const NACK: u16 = 0x02;
    /// Flip the read/write bit of the address.
    pub const REVERSE_RW: u16 = 0x04;
    /// Send no start condition before this message.
    pub const NO_START: u16 = 0x08;
    /// Send a stop condition after this message.
    pub const STOP: u16 = 0x10;

    pub open spec fn has(self, flag: u16) -> bool {
        self.bits & flag == flag
    }

    pub fn empty() -> (r: ReadFlags)
        ensures
            r.bits == 0,
    {
        ReadFlags { bits: 0 }
    }

    pub fn from_bits(bits: u16) -> (r: ReadFlags)
        ensures
            r.bits == bits,
    {
        ReadFlags { bits }
    }

    pub fn bits(&self) -> (r: u16)
        ensures
            r == self.bits,
    {
        self.bits
    }

    pub fn is_empty(&self) -> (r: bool)
        ensures
            r == (self.bits == 0),
    {
        self.bits == 0
    }

    /// Whether every bit of `flag` is set.
    pub fn contains(&self, flag: u16) -> (r: bool)
        ensures
            r == self.has(flag),
    {
        self.bits & flag == flag
    }

    pub fn union(&self, flag: u16) -> (r: ReadFlags)
        ensures
            r.bits == self.bits | flag,
    {
        ReadFlags { bits: self.bits | flag }
    }
}

impl WriteFlags {
    /// Go on when the peripheral does not acknowledge.
    pub const IGNORE_NACK: u16 = 0x01;
    /// Flip the read/write bit of the address.
    pub const REVERSE_RW: u16 = 0x02;
    /// Send no start condition before this message.
    pub const NO_START: u16 = 0x04;
    /// Send a stop condition after this message.
    pub const STOP: u16 = 0x08;

    pub open spec fn has(self, flag: u16) -> bool {
        self.bits & flag == flag
    }

    pub fn empty() -> (r: WriteFlags)
        ensures
            r.bits == 0,
    {
        WriteFlags { bits: 0 }
    }

    pub fn from_bits(bits: u16) -> (r: WriteFlags)
        ensures
            r.bits == bits,
    {
        WriteFlags { bits }
    }

    pub fn bits(&self) -> (r: u16)
        ensures
            r == self.bits,
    {
        self.bits
    }

    pub fn is_empty(&self) -> (r: bool)
        ensures
            r == (self.bits == 0),
    {
        self.bits == 0
    }

    /// Whether every bit of `flag` is set.
    pub fn contains(&self, flag: u16) -> (r: bool)
        ensures
            r == self.has(flag),
    {
        self.bits & flag == flag
    }

    pub fn union(&self, flag: u16) -> (r: WriteFlags)
        ensures
            r.bits == self.bits | flag,
    {
        WriteFlags { bits: self.bits | flag }
    }
}

} // verus!
