//! The two control transfers that the protocol needs from a USB bridge, and
//! the loops that run a batch transfer or a capability probe over them.
use crate::error::Error;
use crate::flags::{ReadFlags, WriteFlags};
use crate::probe::{lemma_probe_run_push, probe_run, probe_start, Probe};
use crate::transfer::{initial, lemma_run_push, run, Message, Transfer};
use crate::wire::{fits, ControlRequest, Reply};
use rusb::Error as UsbError;
use vstd::prelude::*;

verus! {

/// Vendor control transfers addressed to the bridge's interface, each with a
/// fixed timeout. Backed by a USB device handle, or by a scripted stand-in.
pub trait Connection {
    /// Device to host: asks for `length` bytes and gives back those received.
    fn read_control(&mut self, request: u8, value: u16, index: u16, length: usize) -> Result<
        Vec<u8>,
        UsbError,
    >;

    /// Host to device: sends `data` and gives back how many bytes went out.
    fn write_control(&mut self, request: u8, value: u16, index: u16, data: &[u8]) -> Result<
        usize,
        UsbError,
    >;
}

/// Makes the control transfer `request` over `conn`.
pub fn perform<C: Connection>(conn: &mut C, request: ControlRequest) -> (r: Reply)
    ensures
        fits(request@, r),
{
    match request {
        ControlRequest::In { request, value, index, length } => match conn.read_control(
            request,
            value,
            index,
            length,
        ) {
            Ok(bytes) => Reply::Received(bytes),
            Err(e) => Reply::Failed(e),
        },
        ControlRequest::Out { request, value, index, data } => match conn.write_control(
            request,
            value,
            index,
            data.as_slice(),
        ) {
            Ok(n) => Reply::Sent(n),
            Err(e) => Reply::Failed(e),
        },
    }
}

/// Runs `messages` as one I2C transaction over `conn`. Whatever the
/// connection answers, the result and the messages afterwards (reads filled
/// in) are those of the batch transfer for some sequence of replies of the
/// right kinds.
pub fn transfer<C: Connection>(conn: &mut C, messages: &mut Vec<Message>) -> (r: Result<(), Error>)
    ensures
        exists|replies: Seq<Reply>|
            {
                let end = #[trigger] run(initial(old(messages)@), replies);
                &&& end.outcome == Some(r)
                &&& final(messages)@ == end.messages
            },
        old(messages)@.len() == 0 ==> r == Ok::<(), Error>(()),
{
    let mut batch: Vec<Message> = Vec::new();
    std::mem::swap(&mut batch, messages);
    let ghost start = initial(batch@);
    let mut t = Transfer::new(batch);
    let ghost mut replies: Seq<Reply> = Seq::empty();
    while !t.is_done()
        invariant
            t.wf(),
            run(start, replies) == t@,
            t@.messages.len() == start.messages.len(),
        decreases 2 * start.messages.len() - t@.issued,
    {
        let request = t.request();
        let reply = perform(conn, request);
        proof {
            lemma_run_push(start, replies, reply);
            replies = replies.push(reply);
        }
        t.step(reply);
    }
    let r = t.outcome().unwrap();
    *messages = t.into_messages();
    r
}

/// Probes the bridge behind `conn`: checks that it speaks this protocol and
/// finds the flags it honours. Whatever the connection answers, the result is
/// that of the probe for some sequence of replies of the right kinds.
pub fn check_device<C: Connection>(conn: &mut C) -> (r: Result<(ReadFlags, WriteFlags), Error>)
    ensures
        exists|replies: Seq<Reply>| #[trigger] probe_run(probe_start(), replies).outcome == Some(r),
{
    let mut p = Probe::new();
    let ghost mut replies: Seq<Reply> = Seq::empty();
    while !p.is_done()
        invariant
            p.wf(),
            probe_run(probe_start(), replies) == p@,
        decreases 9 - p@.stage,
    {
        let request = p.request();
        let reply = perform(conn, request);
        proof {
            lemma_probe_run_push(probe_start(), replies, reply);
            replies = replies.push(reply);
        }
        p.step(reply);
    }
    p.outcome().unwrap()
}

} // verus!
