use i2c_tiny_usb::is_supported_device;
use i2c_tiny_usb::probe::{supported_flags, Probe};
use i2c_tiny_usb::transfer::Transfer;
use i2c_tiny_usb::wire::{command, le_u16, le_u32, read_field, write_field};
use i2c_tiny_usb::{Connection, ControlRequest, Error, I2c, Message, ReadFlags, Reply, WriteFlags};
use std::collections::VecDeque;
use std::io::ErrorKind;

/// Answers every read from a queue of byte strings, and every write in full.
struct Bridge {
    reads: VecDeque<Vec<u8>>,
    requests: Vec<(u8, u16, u16)>,
    written: Vec<Vec<u8>>,
}

impl Bridge {
    fn new(reads: &[&[u8]]) -> Self {
        Bridge {
            reads: reads.iter().map(|r| r.to_vec()).collect(),
            requests: Vec::new(),
            written: Vec::new(),
        }
    }

    fn healthy(func: u8, more: &[&[u8]]) -> Self {
        let mut reads: Vec<Vec<u8>> = vec![vec![func, 0, 0, 0]];
        for x in [0u16, 0xaaaa, 0x5555, 0xffff, 0x55aa, 0xaa55, 0x0f0f, 0xf0f0] {
            reads.push(x.to_le_bytes().to_vec());
        }
        for r in more {
            reads.push(r.to_vec());
        }
        Bridge { reads: reads.into(), requests: Vec::new(), written: Vec::new() }
    }
}

impl Connection for Bridge {
    fn read_control(
        &mut self,
        request: u8,
        value: u16,
        index: u16,
        _length: usize,
    ) -> Result<Vec<u8>, rusb::Error> {
        self.requests.push((request, value, index));
        self.reads.pop_front().ok_or(rusb::Error::Io)
    }

    fn write_control(
        &mut self,
        request: u8,
        value: u16,
        index: u16,
        data: &[u8],
    ) -> Result<usize, rusb::Error> {
        self.requests.push((request, value, index));
        self.written.push(data.to_vec());
        Ok(data.len())
    }
}

#[test]
fn open_keeps_the_probed_flags() {
    let bus = I2c::open(Bridge::healthy(0x05, &[])).unwrap();
    let (r, w) = bus.i2c_transfer_support();
    assert_eq!(r.bits(), ReadFlags::NACK | ReadFlags::REVERSE_RW | ReadFlags::NO_START);
    assert_eq!(w.bits(), WriteFlags::IGNORE_NACK | WriteFlags::REVERSE_RW | WriteFlags::NO_START);
    assert_eq!(bus.address(), 0);
}

#[test]
fn open_fails_on_a_foreign_device() {
    assert!(matches!(I2c::open(Bridge::new(&[&[0, 0, 0, 0]])), Err(Error::Usb(rusb::Error::NotSupported))));
}

#[test]
fn ten_bit_address_is_refused() {
    let mut bus = I2c::open(Bridge::healthy(0x01, &[])).unwrap();
    assert_eq!(bus.set_slave_address(0x50, false), Ok(()));
    assert_eq!(bus.set_slave_address(0x150, true), Err(Error::Usb(rusb::Error::NotSupported)));
    assert_eq!(bus.address(), 0x50);
}

#[test]
fn stream_write_then_read() {
    let mut bus = I2c::open(Bridge::healthy(0x01, &[&[0], &[1, 2, 3, 4], &[0]])).unwrap();
    bus.set_slave_address(0x50, false).unwrap();
    assert_eq!(bus.write(&[0x20]), Ok(1));
    let mut buf = vec![0u8; 4];
    assert_eq!(bus.read(&mut buf), Ok(4));
    assert_eq!(buf, vec![1, 2, 3, 4]);
    assert_eq!(bus.flush(), Ok(()));
}

#[test]
fn stream_read_nack() {
    let mut bus = I2c::open(Bridge::healthy(0x01, &[&[], &[2]])).unwrap();
    let mut buf = vec![0u8; 2];
    assert_eq!(bus.read(&mut buf), Err(Error::Nack));
    assert_eq!(buf.len(), 2);
}

#[test]
fn bulk_transfer_through_the_handle() {
    let mut bus = I2c::open(Bridge::healthy(0x05, &[&[0], &[7, 8], &[0]])).unwrap();
    let mut msgs = vec![
        Message::Write { address: 0x50, data: vec![0x10], flags: WriteFlags::empty() },
        Message::Read { address: 0x50, data: vec![0, 0], flags: ReadFlags::empty() },
    ];
    assert_eq!(bus.i2c_transfer(&mut msgs), Ok(()));
    assert_eq!(msgs[1].data(), &vec![7, 8]);
    assert_eq!(msgs[1].address(), 0x50);
    assert_eq!(msgs[1].len(), 2);
}

#[test]
fn known_bridges() {
    assert!(is_supported_device(0x0403, 0xc631));
    assert!(is_supported_device(0x1c40, 0x0534));
    assert!(!is_supported_device(0x0403, 0x0534));
    assert!(!is_supported_device(0x1c40, 0xc631));
}

#[test]
fn io_kinds() {
    let cases = [
        (rusb::Error::InvalidParam, ErrorKind::InvalidInput),
        (rusb::Error::Access, ErrorKind::PermissionDenied),
        (rusb::Error::NoDevice, ErrorKind::ConnectionRefused),
        (rusb::Error::NotFound, ErrorKind::Unsupported),
        (rusb::Error::Busy, ErrorKind::ResourceBusy),
        (rusb::Error::Timeout, ErrorKind::TimedOut),
        (rusb::Error::Pipe, ErrorKind::BrokenPipe),
        (rusb::Error::Interrupted, ErrorKind::Interrupted),
        (rusb::Error::NoMem, ErrorKind::OutOfMemory),
        (rusb::Error::NotSupported, ErrorKind::Unsupported),
        (rusb::Error::Io, ErrorKind::Other),
        (rusb::Error::Overflow, ErrorKind::Other),
        (rusb::Error::BadDescriptor, ErrorKind::Other),
        (rusb::Error::Other, ErrorKind::Other),
    ];
    for (e, k) in cases {
        assert_eq!(Error::Usb(e).io_kind(), k);
    }
    assert_eq!(Error::Nack.io_kind(), ErrorKind::NotConnected);
}

#[test]
fn errors_from_io_kinds() {
    assert_eq!(Error::from_io_kind(ErrorKind::NotConnected), Error::Nack);
    assert_eq!(Error::from_io_kind(ErrorKind::TimedOut), Error::Usb(rusb::Error::Timeout));
    assert_eq!(Error::from_io_kind(ErrorKind::InvalidInput), Error::Usb(rusb::Error::InvalidParam));
    assert_eq!(Error::from_io_kind(ErrorKind::Unsupported), Error::Usb(rusb::Error::NotFound));
    assert_eq!(Error::from_io_kind(ErrorKind::UnexpectedEof), Error::Usb(rusb::Error::Other));
    for e in [rusb::Error::Access, rusb::Error::Busy, rusb::Error::Pipe, rusb::Error::NoMem] {
        assert_eq!(Error::from_io_kind(Error::Usb(e).io_kind()), Error::Usb(e));
    }
}

#[test]
fn command_bytes() {
    assert_eq!(command(0, 1), 7);
    assert_eq!(command(0, 3), 5);
    assert_eq!(command(1, 3), 4);
    assert_eq!(command(2, 3), 6);
}

#[test]
fn flag_fields() {
    assert_eq!(read_field(ReadFlags::empty()), 0x0001);
    assert_eq!(read_field(ReadFlags::from_bits(ReadFlags::NACK)), 0x0801);
    assert_eq!(read_field(ReadFlags::from_bits(ReadFlags::REVERSE_RW)), 0x2001);
    assert_eq!(read_field(ReadFlags::from_bits(ReadFlags::NO_START | ReadFlags::STOP)), 0x4001);
    assert_eq!(write_field(WriteFlags::empty()), 0);
    assert_eq!(write_field(WriteFlags::from_bits(WriteFlags::IGNORE_NACK)), 0x1000);
    assert_eq!(write_field(WriteFlags::from_bits(WriteFlags::REVERSE_RW)), 0x2000);
    assert_eq!(write_field(WriteFlags::from_bits(WriteFlags::NO_START)), 0x4000);
}

#[test]
fn little_endian_values() {
    assert_eq!(le_u16(&vec![0x34, 0x12]), 0x1234);
    assert_eq!(le_u32(&vec![0x78, 0x56, 0x34, 0x12]), 0x1234_5678);
}

#[test]
fn flags_granted_by_the_bitmask() {
    let (r, w) = supported_flags(0x04);
    assert_eq!((r.bits(), w.bits()), (0x0e, 0x07));
    let (r, w) = supported_flags(0x03);
    assert!(r.is_empty() && w.is_empty());
}

#[test]
fn machine_short_read_keeps_the_buffer() {
    let mut t = Transfer::new(vec![Message::Read {
        address: 0x50,
        data: vec![0u8; 3],
        flags: ReadFlags::empty(),
    }]);
    match t.request() {
        ControlRequest::In { request, value, index, length } => {
            assert_eq!((request, value, index, length), (7, 1, 0x50, 3));
        }
        ControlRequest::Out { .. } => panic!("a read goes in"),
    }
    t.step(Reply::Received(vec![0xAA]));
    assert!(!t.is_done());
    t.step(Reply::Received(vec![0]));
    assert_eq!(t.outcome(), Some(Err(Error::Usb(rusb::Error::Io))));
    assert_eq!(t.into_messages()[0].data(), &vec![0u8; 3]);
}

#[test]
fn machine_failed_status_read() {
    let mut t = Transfer::new(vec![Message::Write {
        address: 0x50,
        data: vec![1],
        flags: WriteFlags::empty(),
    }]);
    t.step(Reply::Sent(1));
    t.step(Reply::Failed(rusb::Error::Busy));
    assert_eq!(t.outcome(), Some(Err(Error::Usb(rusb::Error::Busy))));
}

#[test]
fn machine_short_write() {
    let mut t = Transfer::new(vec![Message::Write {
        address: 0x50,
        data: vec![1, 2],
        flags: WriteFlags::empty(),
    }]);
    t.step(Reply::Sent(1));
    t.step(Reply::Received(vec![0]));
    assert_eq!(t.outcome(), Some(Err(Error::Usb(rusb::Error::Io))));
}

#[test]
fn machine_probe_requests() {
    let mut p = Probe::new();
    match p.request() {
        ControlRequest::In { request, value, index, length } => {
            assert_eq!((request, value, index, length), (1, 0, 0, 4));
        }
        ControlRequest::Out { .. } => panic!("the probe only reads"),
    }
    p.step(Reply::Received(vec![1, 0, 0, 0]));
    match p.request() {
        ControlRequest::In { request, value, index, length } => {
            assert_eq!((request, value, index, length), (0, 0, 0, 2));
        }
        ControlRequest::Out { .. } => panic!("the probe only reads"),
    }
    p.step(Reply::Failed(rusb::Error::Timeout));
    assert_eq!(p.outcome(), Some(Err(Error::Usb(rusb::Error::Timeout))));
}

/// A read and a write on the reserved address 0x03, whose status reads are
/// NAKs, are both reported as `Nack`.
#[test]
fn test_nack() {
    let mut bus = I2c::open(Bridge::healthy(0x05, &[&[0, 0], &[2], &[2]])).unwrap();

    let mut read_msgs =
        vec![Message::Read { address: 0x03, data: vec![0u8; 2], flags: ReadFlags::empty() }];
    let read_res = bus.i2c_transfer(&mut read_msgs);
    assert_eq!(read_res, Err(Error::Nack));

    let mut write_msgs = vec![Message::Write {
        address: 0x03,
        data: vec![0, 1, 2, 3],
        flags: WriteFlags::empty(),
    }];
    let write_res = bus.i2c_transfer(&mut write_msgs);
    assert_eq!(write_res, Err(Error::Nack));
}

/// A zero-length "general call" read at address 0x00, acknowledged, succeeds
/// both as a batch and through `read`.
#[test]
fn test_general_call() {
    let mut bus = I2c::open(Bridge::healthy(0x05, &[&[], &[1], &[], &[1]])).unwrap();

    let mut msgs = vec![Message::Read { address: 0x00, data: vec![], flags: ReadFlags::empty() }];
    let read_res = bus.i2c_transfer(&mut msgs);
    assert!(read_res.is_ok());

    bus.set_slave_address(0x00, false).unwrap();
    let mut read_buf: Vec<u8> = vec![];
    let read_res = bus.read(&mut read_buf);
    assert!(read_res.is_ok());
}
