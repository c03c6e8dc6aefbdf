//! Wire-level vocabulary of the i2c-tiny-usb protocol: command codes, status
//! values, functionality bits, per-message flag fields and the control
//! requests and replies exchanged with the bridge.
use crate::error::Error;
use crate::flags::{ReadFlags, WriteFlags};
use rusb::Error as UsbError;
use vstd::prelude::*;

verus! {

pub const CMD_ECHO: u8 = 0;
pub const CMD_GET_FUNC: u8 = 1;
pub const CMD_SET_DELAY: u8 = 2;
pub const CMD_GET_STATUS: u8 = 3;
pub const CMD_I2C_IO: u8 = 4;

/// OR'd onto `CMD_I2C_IO` for the first message of a batch.
pub const CMD_I2C_BEGIN: u8 = 1;
/// OR'd onto `CMD_I2C_IO` for the last message of a batch.
pub const CMD_I2C_END: u8 = 2;

pub const STATUS_IDLE: u8 = 0;
pub const STATUS_ADDRESS_ACK: u8 = 1;
pub const STATUS_ADDRESS_NAK: u8 = 2;

/// Functionality bit: plain I2C transfers.
pub const I2C_FUNC_I2C: u32 = 0x0000_0001;
/// Functionality bit: non-default message flags are honoured.
pub const I2C_FUNC_PROTOCOL_MANGLING: u32 = 0x0000_0004;

pub const I2C_M_RD: u16 = 0x0001;
pub const I2C_M_NO_RD_ACK: u16 = 0x0800;
pub const I2C_M_IGNORE_NAK: u16 = 0x1000;
pub const I2C_M_REV_DIR_ADDR: u16 = 0x2000;
pub const I2C_M_NOSTART: u16 = 0x4000;

/// The command byte of message `i` in a batch of `n`.
pub open spec fn command_spec(i: int, n: int) -> u8 {
    CMD_I2C_IO | (if i == 0 { CMD_I2C_BEGIN } else { 0u8 }) | (if i == n - 1 {
        CMD_I2C_END
    } else {
        0u8
    })
}

/// The command byte of message `i` in a batch of `n`: `I2C_IO`, with `BEGIN`
/// on the first message and `END` on the last.
pub fn command(i: usize, n: usize) -> (r: u8)
    requires
        i < n,
    ensures
        r == command_spec(i as int, n as int),
{
    let mut cmd = CMD_I2C_IO;
    if i == 0 {
        cmd = cmd | CMD_I2C_BEGIN;
    }
    if i == n - 1 {
        cmd = cmd | CMD_I2C_END;
    }
    proof {
        assert(CMD_I2C_IO | 0u8 == CMD_I2C_IO) by (bit_vector);
        assert(CMD_I2C_IO | CMD_I2C_BEGIN | 0u8 == CMD_I2C_IO | CMD_I2C_BEGIN) by (bit_vector);
    }
    cmd
}

/// The flag field of a read message: `RD` always, and the bits of the modifiers.
pub open spec fn read_field_spec(flags: ReadFlags) -> u16 {
    I2C_M_RD | (if flags.has(ReadFlags::NACK) { I2C_M_NO_RD_ACK } else { 0u16 }) | (if flags.has(
        ReadFlags::REVERSE_RW,
    ) {
        I2C_M_REV_DIR_ADDR
    } else {
        0u16
    }) | (if flags.has(ReadFlags::NO_START) { I2C_M_NOSTART } else { 0u16 })
}

/// The flag field of a write message: the bits of the modifiers only.
pub open spec fn write_field_spec(flags: WriteFlags) -> u16 {
    0u16 | (if flags.has(WriteFlags::IGNORE_NACK) { I2C_M_IGNORE_NAK } else { 0u16 }) | (if flags.has(
        WriteFlags::REVERSE_RW,
    ) {
        I2C_M_REV_DIR_ADDR
    } else {
        0u16
    }) | (if flags.has(WriteFlags::NO_START) { I2C_M_NOSTART } else { 0u16 })
}

pub fn read_field(flags: ReadFlags) -> (r: u16)
    ensures
        r == read_field_spec(flags),
{
    let mut bits = I2C_M_RD;
    bits = bits | if flags.contains(ReadFlags::NACK) { I2C_M_NO_RD_ACK } else { 0 };
    bits = bits | if flags.contains(ReadFlags::REVERSE_RW) { I2C_M_REV_DIR_ADDR } else { 0 };
    bits = bits | if flags.contains(ReadFlags::NO_START) { I2C_M_NOSTART } else { 0 };
    bits
}

pub fn write_field(flags: WriteFlags) -> (r: u16)
    ensures
        r == write_field_spec(flags),
{
    let mut bits: u16 = 0;
    bits = bits | if flags.contains(WriteFlags::IGNORE_NACK) { I2C_M_IGNORE_NAK } else { 0 };
    bits = bits | if flags.contains(WriteFlags::REVERSE_RW) { I2C_M_REV_DIR_ADDR } else { 0 };
    bits = bits | if flags.contains(WriteFlags::NO_START) { I2C_M_NOSTART } else { 0 };
    bits
}

/// The unsigned integer whose little-endian bytes are `b`.
pub open spec fn le_value(b: Seq<u8>) -> nat
    decreases b.len(),
{
    if b.len() == 0 {
        0
    } else {
        b[0] as nat + 256 * le_value(b.drop_first())
    }
}

/// The value of two little-endian bytes.
pub fn le_u16(b: &Vec<u8>) -> (r: u16)
    requires
        b@.len() == 2,
    ensures
        r as nat == le_value(b@),
{
    proof {
        reveal_with_fuel(le_value, 3);
    }
    let lo = b[0] as u16;
    let hi = b[1] as u16;
    lo + 256 * hi
}

/// The value of four little-endian bytes.
pub fn le_u32(b: &Vec<u8>) -> (r: u32)
    requires
        b@.len() == 4,
    ensures
        r as nat == le_value(b@),
{
    proof {
        reveal_with_fuel(le_value, 5);
        assert(b@.drop_first().drop_first().drop_first().drop_first().len() == 0);
    }
    let b0 = b[0] as u32;
    let b1 = b[1] as u32;
    let b2 = b[2] as u32;
    let b3 = b[3] as u32;
    b0 + 256 * (b1 + 256 * (b2 + 256 * b3))
}

/// One USB control transfer that the protocol asks of the connection.
pub enum ControlRequest {
    /// Device to host: read `length` bytes.
    In { request: u8, value: u16, index: u16, length: usize },
    /// Host to device: write `data`.
    Out { request: u8, value: u16, index: u16, data: Vec<u8> },
}

/// A control transfer as a mathematical value.
pub enum RequestView {
    In { request: u8, value: u16, index: u16, length: nat },
    Out { request: u8, value: u16, index: u16, data: Seq<u8> },
}

impl View for ControlRequest {
    type V = RequestView;

    open spec fn view(&self) -> RequestView {
        match self {
            ControlRequest::In { request, value, index, length } => RequestView::In {
                request: *request,
                value: *value,
                index: *index,
                length: *length as nat,
            },
            ControlRequest::Out { request, value, index, data } => RequestView::Out {
                request: *request,
                value: *value,
                index: *index,
                data: data@,
            },
        }
    }
}

impl RequestView {
    pub open spec fn request(self) -> u8 {
        match self {
            RequestView::In { request, .. } => request,
            RequestView::Out { request, .. } => request,
        }
    }
}

/// What the connection answered to one control transfer.
pub enum Reply {
    /// The bytes that an `In` transfer delivered.
    Received(Vec<u8>),
    /// How many bytes an `Out` transfer moved.
    Sent(usize),
    /// The transfer failed in the transport.
    Failed(UsbError),
}

/// Whether `reply` is of the kind that `request` can get.
pub open spec fn fits(request: RequestView, reply: Reply) -> bool {
    match request {
        RequestView::In { .. } => !(reply is Sent),
        RequestView::Out { .. } => !(reply is Received),
    }
}

/// The outcome of a transfer that should have moved `length` bytes: a transport
/// error stands, and a short or long transfer is an I/O error.
pub open spec fn completion(reply: Reply, length: nat) -> Result<(), Error> {
    match reply {
        Reply::Received(b) => if b@.len() == length {
            Ok(())
        } else {
            Err(Error::Usb(UsbError::Io))
        },
        Reply::Sent(n) => if n as nat == length {
            Ok(())
        } else {
            Err(Error::Usb(UsbError::Io))
        },
        Reply::Failed(e) => Err(Error::Usb(e)),
    }
}

pub fn complete(reply: &Reply, length: usize) -> (r: Result<(), Error>)
    ensures
        r == completion(*reply, length as nat),
{
    match reply {
        Reply::Received(b) => if b.len() == length {
            Ok(())
        } else {
            Err(Error::Usb(UsbError::Io))
        },
        Reply::Sent(n) => if *n == length {
            Ok(())
        } else {
            Err(Error::Usb(UsbError::Io))
        },
        Reply::Failed(e) => Err(Error::Usb(*e)),
    }
}

} // verus!
