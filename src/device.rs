//! A handle on one bridge: its connection, the flags that the probe found
//! when it was opened, and the peripheral address that the byte-stream
//! operations go to.
use crate::connection::{check_device, transfer, Connection};
use crate::error::Error;
use crate::flags::{ReadFlags, WriteFlags};
use crate::probe::{probe_run, probe_start};
use crate::transfer::{initial, lemma_run_keeps_shape, run, Message};
use crate::wire::Reply;
use rusb::Error as UsbError;
use vstd::prelude::*;
use vstd::slice::slice_to_vec;

verus! {

/// An I2C bus behind an i2c-tiny-usb bridge.
pub struct I2c<C: Connection> {
    connection: C,
    supported_flags: (ReadFlags, WriteFlags),
    address: u16,
}

/// Whether some run of the batch `messages` ends with `outcome`, leaving the
/// messages as `after`.
pub open spec fn batch_may_end(messages: Seq<Message>, outcome: Result<(), Error>, after: Seq<Message>) -> bool {
    exists|replies: Seq<Reply>|
        {
            let end = #[trigger] run(initial(messages), replies);
            &&& end.outcome == Some(outcome)
            &&& after == end.messages
        }
}

/// The outcome of a byte-stream operation of `n` bytes, given that of its
/// one-message batch.
pub open spec fn stream_result(batch: Result<(), Error>, n: nat) -> Result<usize, Error> {
    match batch {
        Ok(_) => Ok(n as usize),
        Err(e) => Err(e),
    }
}

/// A batch keeps the number of messages and which of them are reads.
proof fn lemma_batch_keeps_shape(messages: Seq<Message>, outcome: Result<(), Error>, after: Seq<Message>)
    requires
        batch_may_end(messages, outcome, after),
    ensures
        after.len() == messages.len(),
        forall|j: int| 0 <= j < messages.len() ==> (#[trigger] after[j] is Read) == (messages[j] is Read),
{
    let replies = choose|replies: Seq<Reply>|
        {
            let end = #[trigger] run(initial(messages), replies);
            &&& end.outcome == Some(outcome)
            &&& after == end.messages
        };
    lemma_run_keeps_shape(initial(messages), replies);
}

impl<C: Connection> I2c<C> {
    pub closed spec fn flags_spec(&self) -> (ReadFlags, WriteFlags) {
        self.supported_flags
    }

    pub closed spec fn address_spec(&self) -> u16 {
        self.address
    }

    /// The connection to the bridge.
    pub closed spec fn connection_spec(&self) -> C {
        self.connection
    }

    /// Probes the bridge behind `connection` and, if it passes, makes a handle
    /// on it that keeps the flags found, with peripheral address 0.
    pub fn open(connection: C) -> (r: Result<I2c<C>, Error>)
        ensures
            exists|replies: Seq<Reply>|
                #[trigger] probe_run(probe_start(), replies).outcome == Some(
                    match r {
                        Ok(d) => Ok(d.flags_spec()),
                        Err(e) => Err(e),
                    },
                ),
            r is Ok ==> r->Ok_0.address_spec() == 0,
    {
        let mut connection = connection;
        match check_device(&mut connection) {
            Ok(supported_flags) => Ok(I2c { connection, supported_flags, address: 0 }),
            Err(e) => Err(e),
        }
    }

    /// The read and write flags that the bridge honours.
    pub fn i2c_transfer_support(&self) -> (r: (ReadFlags, WriteFlags))
        ensures
            r == self.flags_spec(),
    {
        self.supported_flags
    }

    /// The peripheral address that `read` and `write` go to.
    pub fn address(&self) -> (r: u16)
        ensures
            r == self.address_spec(),
    {
        self.address
    }

    /// Sets the peripheral address for `read` and `write`, with no control
    /// transfer. Ten-bit addresses are refused with `NotSupported`, and the
    /// handle stays as it was.
    pub fn set_slave_address(&mut self, addr: u16, tenbit: bool) -> (r: Result<(), Error>)
        ensures
            tenbit ==> r == Err::<(), Error>(Error::Usb(UsbError::NotSupported)) && *final(self)
                == *old(self),
            !tenbit ==> r is Ok && final(self).address_spec() == addr,
            final(self).flags_spec() == old(self).flags_spec(),
            final(self).connection_spec() == old(self).connection_spec(),
    {
        if tenbit {
            Err(Error::Usb(UsbError::NotSupported))
        } else {
            self.address = addr;
            Ok(())
        }
    }

    /// Runs `messages` as one I2C transaction.
    pub fn i2c_transfer(&mut self, messages: &mut Vec<Message>) -> (r: Result<(), Error>)
        ensures
            batch_may_end(old(messages)@, r, final(messages)@),
            old(messages)@.len() == 0 ==> r == Ok::<(), Error>(()),
            final(self).flags_spec() == old(self).flags_spec(),
            final(self).address_spec() == old(self).address_spec(),
    {
        transfer(&mut self.connection, messages)
    }

    /// Fills `buf` from the peripheral at the current address, in one read
    /// message without flags; gives the number of bytes read.
    pub fn read(&mut self, buf: &mut Vec<u8>) -> (r: Result<usize, Error>)
        ensures
            exists|after: Seq<Message>, outcome: Result<(), Error>|
                {
                    &&& #[trigger] batch_may_end(
                        seq![
                            Message::Read {
                                address: old(self).address_spec(),
                                data: *old(buf),
                                flags: ReadFlags { bits: 0 },
                            },
                        ],
                        outcome,
                        after,
                    )
                    &&& r == stream_result(outcome, old(buf)@.len())
                    &&& final(buf)@ == after[0].bytes()
                },
            final(self).flags_spec() == old(self).flags_spec(),
            final(self).address_spec() == old(self).address_spec(),
    {
        let n = buf.len();
        let mut data: Vec<u8> = Vec::new();
        std::mem::swap(&mut data, buf);
        let ghost first = Message::Read { address: self.address, data, flags: ReadFlags { bits: 0 } };
        let mut messages: Vec<Message> = Vec::new();
        messages.push(Message::Read { address: self.address, data, flags: ReadFlags::empty() });
        assert(messages@ =~= seq![first]);
        let ghost before = messages@;
        let result = transfer(&mut self.connection, &mut messages);
        let ghost after = messages@;
        proof {
            assert(batch_may_end(before, result, after));
            lemma_batch_keeps_shape(before, result, after);
        }
        match messages.pop() {
            Some(Message::Read { data, .. }) => {
                *buf = data;
            },
            _ => {},
        }
        assert(buf@ == after[0].bytes());
        match result {
            Ok(_) => Ok(n),
            Err(e) => Err(e),
        }
    }

    /// Sends `buf` to the peripheral at the current address, in one write
    /// message without flags; gives the number of bytes written.
    pub fn write(&mut self, buf: &[u8]) -> (r: Result<usize, Error>)
        ensures
            exists|after: Seq<Message>, outcome: Result<(), Error>, data: Vec<u8>|
                {
                    &&& data@ == buf@
                    &&& #[trigger] batch_may_end(
                        seq![
                            Message::Write {
                                address: old(self).address_spec(),
                                data,
                                flags: WriteFlags { bits: 0 },
                            },
                        ],
                        outcome,
                        after,
                    )
                    &&& r == stream_result(outcome, buf@.len())
                },
            final(self).flags_spec() == old(self).flags_spec(),
            final(self).address_spec() == old(self).address_spec(),
    {
        let data = slice_to_vec(buf);
        let ghost bytes = data;
        let ghost before = seq![
            Message::Write { address: self.address, data: bytes, flags: WriteFlags { bits: 0 } },
        ];
        let mut messages: Vec<Message> = Vec::new();
        messages.push(Message::Write { address: self.address, data, flags: WriteFlags::empty() });
        assert(messages@ =~= before);
        let result = transfer(&mut self.connection, &mut messages);
        assert(batch_may_end(before, result, messages@));
        let r = match result {
            Ok(_) => Ok(buf.len()),
            Err(e) => Err(e),
        };
        assert(r == stream_result(result, buf@.len()));
        assert(bytes@ == buf@);
        assert(before == seq![
            Message::Write { address: old(self).address_spec(), data: bytes, flags: WriteFlags { bits: 0 } },
        ]);
        r
    }

    /// Nothing is buffered, so there is nothing to flush.
    pub fn flush(&mut self) -> (r: Result<(), Error>)
        ensures
            r is Ok,
            *final(self) == *old(self),
    {
        Ok(())
    }
}

} // verus!
