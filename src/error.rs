//! The error model: transport failures of rusb, and the peripheral's NACK.
use rusb::Error as UsbError;
use std::io::ErrorKind;
use vstd::prelude::*;

verus! {

/// The transport errors of rusb, carried by value through the protocol logic.
#[verifier::external_type_specification]
pub struct ExUsbError(UsbError);

/// The kinds of `std::io::Error`, to which the errors of this crate map.
#[verifier::external_type_specification]
pub struct ExErrorKind(ErrorKind);

/// Why an operation on the bus failed.
#[derive(Debug, Clone, Copy, PartialEq, Eq)]
pub enum Error {
    /// The USB transport failed, or the device broke the protocol.
    Usb(UsbError),
    /// The I2C peripheral did not acknowledge its address.
    Nack,
}

/// The I/O error kind that stands for `e` where a byte-stream error is wanted.
pub open spec fn io_kind_spec(e: Error) -> ErrorKind {
    match e {
        Error::Usb(UsbError::InvalidParam) => ErrorKind::InvalidInput,
        Error::Usb(UsbError::Access) => ErrorKind::PermissionDenied,
        Error::Usb(UsbError::NoDevice) => ErrorKind::ConnectionRefused,
        Error::Usb(UsbError::NotFound) => ErrorKind::Unsupported,
        Error::Usb(UsbError::Busy) => ErrorKind::ResourceBusy,
        Error::Usb(UsbError::Timeout) => ErrorKind::TimedOut,
        Error::Usb(UsbError::Pipe) => ErrorKind::BrokenPipe,
        Error::Usb(UsbError::Interrupted) => ErrorKind::Interrupted,
        Error::Usb(UsbError::NoMem) => ErrorKind::OutOfMemory,
        Error::Usb(UsbError::NotSupported) => ErrorKind::Unsupported,
        Error::Usb(_) => ErrorKind::Other,
        Error::Nack => ErrorKind::NotConnected,
    }
}

/// The error that stands for an I/O error of kind `k`.
pub open spec fn from_io_kind_spec(k: ErrorKind) -> Error {
    match k {
        ErrorKind::InvalidInput => Error::Usb(UsbError::InvalidParam),
        ErrorKind::PermissionDenied => Error::Usb(UsbError::Access),
        ErrorKind::ConnectionRefused => Error::Usb(UsbError::NoDevice),
        ErrorKind::Unsupported => Error::Usb(UsbError::NotFound),
        ErrorKind::ResourceBusy => Error::Usb(UsbError::Busy),
        ErrorKind::TimedOut => Error::Usb(UsbError::Timeout),
        ErrorKind::BrokenPipe => Error::Usb(UsbError::Pipe),
        ErrorKind::Interrupted => Error::Usb(UsbError::Interrupted),
        ErrorKind::OutOfMemory => Error::Usb(UsbError::NoMem),
        ErrorKind::NotConnected => Error::Nack,
        _ => Error::Usb(UsbError::Other),
    }
}

impl Error {
    /// The I/O error kind that stands for this error.
    pub fn io_kind(&self) -> (r: ErrorKind)
        ensures
            r == io_kind_spec(*self),
    {
        match self {
            Error::Usb(UsbError::InvalidParam) => ErrorKind::InvalidInput,
            Error::Usb(UsbError::Access) => ErrorKind::PermissionDenied,
            Error::Usb(UsbError::NoDevice) => ErrorKind::ConnectionRefused,
            Error::Usb(UsbError::NotFound) => ErrorKind::Unsupported,
            Error::Usb(UsbError::Busy) => ErrorKind::ResourceBusy,
            Error::Usb(UsbError::Timeout) => ErrorKind::TimedOut,
            Error::Usb(UsbError::Pipe) => ErrorKind::BrokenPipe,
            Error::Usb(UsbError::Interrupted) => ErrorKind::Interrupted,
            Error::Usb(UsbError::NoMem) => ErrorKind::OutOfMemory,
            Error::Usb(UsbError::NotSupported) => ErrorKind::Unsupported,
            Error::Usb(_) => ErrorKind::Other,
            Error::Nack => ErrorKind::NotConnected,
        }
    }

    /// The error that stands for an I/O error of kind `k`.
    pub fn from_io_kind(k: ErrorKind) -> (r: Error)
        ensures
            r == from_io_kind_spec(k),
    {
        match k {
            ErrorKind::InvalidInput => Error::Usb(UsbError::InvalidParam),
            ErrorKind::PermissionDenied => Error::Usb(UsbError::Access),
            ErrorKind::ConnectionRefused => Error::Usb(UsbError::NoDevice),
            ErrorKind::Unsupported => Error::Usb(UsbError::NotFound),
            ErrorKind::ResourceBusy => Error::Usb(UsbError::Busy),
            ErrorKind::TimedOut => Error::Usb(UsbError::Timeout),
            ErrorKind::BrokenPipe => Error::Usb(UsbError::Pipe),
            ErrorKind::Interrupted => Error::Usb(UsbError::Interrupted),
            ErrorKind::OutOfMemory => Error::Usb(UsbError::NoMem),
            ErrorKind::NotConnected => Error::Nack,
            _ => Error::Usb(UsbError::Other),
        }
    }
}

} // verus!
