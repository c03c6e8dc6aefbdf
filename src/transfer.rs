//! A batch of I2C messages run as one bus transaction: for each message a
//! main control transfer, then a status read that tells a NACK from a
//! transport failure.
use crate::error::Error;
use crate::flags::{ReadFlags, WriteFlags};
use crate::wire::{
    command, command_spec, complete, completion, read_field, read_field_spec, write_field,
    write_field_spec, fits, ControlRequest, Reply, RequestView, CMD_GET_STATUS, CMD_I2C_BEGIN,
    CMD_I2C_END, CMD_I2C_IO, STATUS_ADDRESS_NAK,
};
use rusb::Error as UsbError;
use vstd::prelude::*;

verus! {

/// One operation of a batch, addressed to a 7-bit peripheral address.
pub enum Message {
    /// Fill `data` from the peripheral.
    Read { address: u16, data: Vec<u8>, flags: ReadFlags },
    /// Send `data` to the peripheral.
    Write { address: u16, data: Vec<u8>, flags: WriteFlags },
}

impl Message {
    pub open spec fn bytes(self) -> Seq<u8> {
        match self {
            Message::Read { data, .. } => data@,
            Message::Write { data, .. } => data@,
        }
    }

    pub open spec fn address_spec(self) -> u16 {
        match self {
            Message::Read { address, .. } => address,
            Message::Write { address, .. } => address,
        }
    }

    pub fn len(&self) -> (r: usize)
        ensures
            r as nat == self.bytes().len(),
    {
        match self {
            Message::Read { data, .. } => data.len(),
            Message::Write { data, .. } => data.len(),
        }
    }

    pub fn address(&self) -> (r: u16)
        ensures
            r == self.address_spec(),
    {
        match self {
            Message::Read { address, .. } => *address,
            Message::Write { address, .. } => *address,
        }
    }

    pub fn data(&self) -> (r: &Vec<u8>)
        ensures
            r@ == self.bytes(),
    {
        match self {
            Message::Read { data, .. } => data,
            Message::Write { data, .. } => data,
        }
    }
}

/// The main control transfer of message `i` of a batch of `n`: the command
/// byte frames the batch, the flag field goes in `value`, the address in
/// `index`.
pub open spec fn main_request(m: Message, i: int, n: int) -> RequestView {
    match m {
        Message::Read { address, data, flags } => RequestView::In {
            request: command_spec(i, n),
            value: read_field_spec(flags),
            index: address,
            length: data@.len(),
        },
        Message::Write { address, data, flags } => RequestView::Out {
            request: command_spec(i, n),
            value: write_field_spec(flags),
            index: address,
            data: data@,
        },
    }
}

/// The one-byte read of the bridge's status after each message.
pub open spec fn status_request() -> RequestView {
    RequestView::In { request: CMD_GET_STATUS, value: 0, index: 0, length: 1 }
}

/// What the status read decides, given the outcome of the main transfer:
/// `Some` ends the batch with that result, `None` goes on. A failed status read
/// ends it with its own error; a NAK status ends it with `Nack`, before any
/// error of the main transfer; otherwise the main transfer's error stands.
pub open spec fn status_verdict(main: Result<(), Error>, reply: Reply) -> Option<Result<(), Error>> {
    match reply {
        Reply::Received(b) => if b@.len() != 1 {
            Some(Err(Error::Usb(UsbError::Io)))
        } else if b@[0] == STATUS_ADDRESS_NAK {
            Some(Err(Error::Nack))
        } else {
            match main {
                Err(e) => Some(Err(e)),
                Ok(_) => None,
            }
        },
        Reply::Sent(_) => Some(Err(Error::Usb(UsbError::Io))),
        Reply::Failed(e) => Some(Err(Error::Usb(e))),
    }
}

/// The state of a batch transfer, as a mathematical value.
pub struct TransferView {
    pub messages: Seq<Message>,
    /// The message being worked on.
    pub next: nat,
    /// Whether its main transfer is done and the status read is due.
    pub awaiting_status: bool,
    /// The outcome of its main transfer.
    pub main: Result<(), Error>,
    /// The result of the batch, once it is decided.
    pub outcome: Option<Result<(), Error>>,
    /// How many control transfers were asked for so far.
    pub issued: nat,
}

impl TransferView {
    pub open spec fn done(self) -> bool {
        self.outcome is Some
    }

    pub open spec fn wf(self) -> bool {
        &&& !self.done() ==> self.next < self.messages.len() && self.issued == 2 * self.next + (
        if self.awaiting_status {
            1nat
        } else {
            0nat
        })
        &&& self.issued <= 2 * self.messages.len()
        &&& !self.done() && !self.awaiting_status ==> self.main == Ok::<(), Error>(())
    }

    /// The control transfer due next, while the batch runs.
    pub open spec fn pending(self) -> RequestView {
        if self.awaiting_status {
            status_request()
        } else {
            main_request(self.messages[self.next as int], self.next as int, self.messages.len() as int)
        }
    }

    /// The state after the pending transfer got `reply`.
    pub open spec fn step(self, reply: Reply) -> TransferView {
        if self.awaiting_status {
            match status_verdict(self.main, reply) {
                Some(r) => TransferView { outcome: Some(r), issued: self.issued + 1, ..self },
                None => if self.next + 1 == self.messages.len() {
                    TransferView { outcome: Some(Ok(())), issued: self.issued + 1, ..self }
                } else {
                    TransferView {
                        next: self.next + 1,
                        awaiting_status: false,
                        main: Ok(()),
                        issued: self.issued + 1,
                        ..self
                    }
                },
            }
        } else {
            let m = self.messages[self.next as int];
            TransferView {
                messages: received_into(self.messages, self.next as int, reply),
                awaiting_status: true,
                main: completion(reply, m.bytes().len()),
                issued: self.issued + 1,
                ..self
            }
        }
    }
}

/// The messages after the main transfer of message `i` got `reply`: a read
/// that delivered all its bytes stores them.
pub open spec fn received_into(messages: Seq<Message>, i: int, reply: Reply) -> Seq<Message> {
    match (messages[i], reply) {
        (Message::Read { address, data, flags }, Reply::Received(b)) => if b@.len() == data@.len() {
            messages.update(i, Message::Read { address, data: b, flags })
        } else {
            messages
        },
        _ => messages,
    }
}

/// The state before any transfer: an empty batch is done at once.
pub open spec fn initial(messages: Seq<Message>) -> TransferView {
    TransferView {
        messages,
        next: 0,
        awaiting_status: false,
        main: Ok(()),
        outcome: if messages.len() == 0 {
            Some(Ok(()))
        } else {
            None
        },
        issued: 0,
    }
}

/// The state reached from `v` when the pending transfers get `replies` in
/// turn; replies that come after the batch is decided change nothing.
pub open spec fn run(v: TransferView, replies: Seq<Reply>) -> TransferView
    decreases replies.len(),
{
    if replies.len() == 0 || v.done() {
        v
    } else {
        run(v.step(replies[0]), replies.drop_first())
    }
}

/// One more reply extends a run by one step.
pub proof fn lemma_run_push(v: TransferView, replies: Seq<Reply>, reply: Reply)
    requires
        !run(v, replies).done(),
    ensures
        run(v, replies.push(reply)) == run(v, replies).step(reply),
    decreases replies.len(),
{
    let more = replies.push(reply);
    if replies.len() == 0 {
        assert(more.drop_first() =~= Seq::<Reply>::empty());
        assert(run(v.step(reply), more.drop_first()) == v.step(reply));
    } else {
        assert(more[0] == replies[0]);
        assert(more.drop_first() =~= replies.drop_first().push(reply));
        lemma_run_push(v.step(replies[0]), replies.drop_first(), reply);
    }
}

/// A batch transfer in progress: it asks for one control transfer at a time
/// and is told what came back.
pub struct Transfer {
    messages: Vec<Message>,
    next: usize,
    awaiting_status: bool,
    main: Result<(), Error>,
    outcome: Option<Result<(), Error>>,
    issued: Ghost<nat>,
}

impl View for Transfer {
    type V = TransferView;

    closed spec fn view(&self) -> TransferView {
        TransferView {
            messages: self.messages@,
            next: self.next as nat,
            awaiting_status: self.awaiting_status,
            main: self.main,
            outcome: self.outcome,
            issued: self.issued@,
        }
    }
}

/// The main control transfer of message `i` of a batch of `n`.
fn main_transfer(m: &Message, i: usize, n: usize) -> (r: ControlRequest)
    requires
        i < n,
    ensures
        r@ == main_request(*m, i as int, n as int),
{
    let request = command(i, n);
    match m {
        Message::Read { address, data, flags } => ControlRequest::In {
            request,
            value: read_field(*flags),
            index: *address,
            length: data.len(),
        },
        Message::Write { address, data, flags } => {
            let bytes = data.clone();
            assert(bytes@ =~= data@);
            ControlRequest::Out { request, value: write_field(*flags), index: *address, data: bytes }
        },
    }
}

/// Decides on the status read, given the outcome of the main transfer.
fn check_status(main: &Result<(), Error>, reply: &Reply) -> (r: Option<Result<(), Error>>)
    ensures
        r == status_verdict(*main, *reply),
{
    match reply {
        Reply::Received(b) => if b.len() != 1 {
            Some(Err(Error::Usb(UsbError::Io)))
        } else if b[0] == STATUS_ADDRESS_NAK {
            Some(Err(Error::Nack))
        } else {
            match main {
                Err(e) => Some(Err(*e)),
                Ok(_) => None,
            }
        },
        Reply::Sent(_) => Some(Err(Error::Usb(UsbError::Io))),
        Reply::Failed(e) => Some(Err(Error::Usb(*e))),
    }
}

impl Transfer {
    pub open spec fn wf(&self) -> bool {
        self@.wf()
    }

    /// Starts a batch; an empty one is done at once, with success.
    pub fn new(messages: Vec<Message>) -> (r: Transfer)
        ensures
            r@ == initial(messages@),
            r.wf(),
    {
        let empty = messages.len() == 0;
        Transfer {
            messages,
            next: 0,
            awaiting_status: false,
            main: Ok(()),
            outcome: if empty {
                Some(Ok(()))
            } else {
                None
            },
            issued: Ghost(0),
        }
    }

    pub fn is_done(&self) -> (r: bool)
        ensures
            r == self@.done(),
    {
        self.outcome.is_some()
    }

    /// The result of the batch, once it is decided.
    pub fn outcome(&self) -> (r: Option<Result<(), Error>>)
        ensures
            r == self@.outcome,
    {
        self.outcome
    }

    /// The control transfer due next.
    pub fn request(&self) -> (r: ControlRequest)
        requires
            self.wf(),
            !self@.done(),
        ensures
            r@ == self@.pending(),
    {
        if self.awaiting_status {
            ControlRequest::In { request: CMD_GET_STATUS, value: 0, index: 0, length: 1 }
        } else {
            main_transfer(&self.messages[self.next], self.next, self.messages.len())
        }
    }

    /// Takes in what the connection answered to the pending transfer.
    pub fn step(&mut self, reply: Reply)
        requires
            old(self).wf(),
            !old(self)@.done(),
        ensures
            final(self)@ == old(self)@.step(reply),
            final(self).wf(),
    {
        let ghost before = self@;
        if self.awaiting_status {
            match check_status(&self.main, &reply) {
                Some(r) => {
                    self.outcome = Some(r);
                },
                None => {
                    let n = self.messages.len();
                    if self.next + 1 == n {
                        self.outcome = Some(Ok(()));
                    } else {
                        self.next = self.next + 1;
                        self.awaiting_status = false;
                        self.main = Ok(());
                    }
                },
            }
        } else {
            let i = self.next;
            let length = self.messages[i].len();
            self.main = complete(&reply, length);
            let read = match &self.messages[i] {
                Message::Read { address, flags, .. } => Some((*address, *flags)),
                Message::Write { .. } => None,
            };
            match (read, reply) {
                (Some((address, flags)), Reply::Received(b)) => {
                    if b.len() == length {
                        self.messages.set(i, Message::Read { address, data: b, flags });
                    }
                },
                _ => {},
            }
            self.awaiting_status = true;
        }
        self.issued = Ghost(self.issued@ + 1);
        assert(self@.messages =~= before.step(reply).messages);
    }

    /// The messages of the batch, with the bytes that reads received.
    pub fn messages(&self) -> (r: &Vec<Message>)
        ensures
            r@ == self@.messages,
    {
        &self.messages
    }

    pub fn into_messages(self) -> (r: Vec<Message>)
        ensures
            r@ == self@.messages,
    {
        self.messages
    }
}

} // verus!

verus! {

/// Once a run is decided, later replies change nothing.
pub proof fn lemma_run_decided(v: TransferView, replies: Seq<Reply>, m: int)
    requires
        0 <= m <= replies.len(),
        run(v, replies.take(m)).done(),
    ensures
        run(v, replies) == run(v, replies.take(m)),
    decreases m,
{
    if m == 0 {
        assert(replies.take(0) =~= Seq::<Reply>::empty());
    } else if !v.done() {
        assert(replies.take(m)[0] == replies[0]);
        assert(replies.take(m).drop_first() =~= replies.drop_first().take(m - 1));
        lemma_run_decided(v.step(replies[0]), replies.drop_first(), m - 1);
    }
}

/// A step keeps a state well formed and counts one transfer more.
pub proof fn lemma_step_wf(v: TransferView, reply: Reply)
    requires
        v.wf(),
        !v.done(),
    ensures
        v.step(reply).wf(),
        v.step(reply).issued == v.issued + 1,
        v.step(reply).messages.len() == v.messages.len(),
{
}

/// A run from a well-formed state stays well formed, and while undecided it
/// has made one transfer per reply.
pub proof fn lemma_run_wf(v: TransferView, replies: Seq<Reply>)
    requires
        v.wf(),
    ensures
        run(v, replies).wf(),
        !run(v, replies).done() ==> run(v, replies).issued == v.issued + replies.len(),
    decreases replies.len(),
{
    if replies.len() > 0 && !v.done() {
        lemma_step_wf(v, replies[0]);
        lemma_run_wf(v.step(replies[0]), replies.drop_first());
    }
}

/// A run keeps the number of messages and which of them are reads.
pub proof fn lemma_run_keeps_shape(v: TransferView, replies: Seq<Reply>)
    requires
        v.wf(),
    ensures
        run(v, replies).messages.len() == v.messages.len(),
        forall|j: int|
            0 <= j < v.messages.len() ==> (#[trigger] run(v, replies).messages[j] is Read)
                == (v.messages[j] is Read),
    decreases replies.len(),
{
    if replies.len() > 0 && !v.done() {
        lemma_step_wf(v, replies[0]);
        lemma_run_keeps_shape(v.step(replies[0]), replies.drop_first());
        let w = v.step(replies[0]);
        assert forall|j: int| 0 <= j < v.messages.len() implies (w.messages[j] is Read) == (
        v.messages[j] is Read) by {}
    }
}

/// An empty batch is decided, successfully, before any control transfer: no
/// reply is ever asked for.
pub proof fn lemma_empty_batch(messages: Seq<Message>, replies: Seq<Reply>)
    requires
        messages.len() == 0,
    ensures
        initial(messages).outcome == Some(Ok::<(), Error>(())),
        run(initial(messages), replies) == initial(messages),
        run(initial(messages), replies).issued == 0,
{
}

/// Whether `reply`, the answer to control transfer number `k` of a batch,
/// lets the batch go on: the main transfer complete, the status not a NAK.
pub open spec fn clean_reply(messages: Seq<Message>, k: int, reply: Reply) -> bool {
    if k % 2 == 0 {
        let i = k / 2;
        &&& fits(main_request(messages[i], i, messages.len() as int), reply)
        &&& completion(reply, messages[i].bytes().len()) is Ok
    } else {
        &&& reply is Received
        &&& reply->Received_0@.len() == 1
        &&& reply->Received_0@[0] != STATUS_ADDRESS_NAK
    }
}

/// Where a batch stands after `2 * i` clean replies: about to send the main
/// transfer of message `i`, with messages `i` and later untouched.
proof fn lemma_clean_prefix(messages: Seq<Message>, replies: Seq<Reply>, i: int)
    requires
        messages.len() >= 1,
        replies.len() == 2 * messages.len(),
        forall|k: int| 0 <= k < replies.len() ==> clean_reply(messages, k, #[trigger] replies[k]),
        0 <= i < messages.len(),
    ensures
        ({
            let v = run(initial(messages), replies.take(2 * i));
            &&& !v.done()
            &&& v.next == i
            &&& !v.awaiting_status
            &&& v.main == Ok::<(), Error>(())
            &&& v.issued == 2 * i
            &&& v.messages.len() == messages.len()
            &&& forall|j: int| i <= j < messages.len() ==> v.messages[j] == messages[j]
        }),
    decreases i,
{
    let n = messages.len() as int;
    if i == 0 {
        assert(replies.take(0) =~= Seq::<Reply>::empty());
    } else {
        lemma_clean_prefix(messages, replies, i - 1);
        let a = replies.take(2 * i - 2);
        let v = run(initial(messages), a);
        let r0 = replies[2 * i - 2];
        let r1 = replies[2 * i - 1];
        assert(clean_reply(messages, 2 * i - 2, r0));
        assert(clean_reply(messages, 2 * i - 1, r1));
        assert(a.push(r0) =~= replies.take(2 * i - 1));
        assert(a.push(r0).push(r1) =~= replies.take(2 * i));
        lemma_run_push(initial(messages), a, r0);
        let w = v.step(r0);
        assert(w.messages.len() == n);
        assert forall|j: int| i <= j < n implies w.messages[j] == messages[j] by {
            assert(w.messages[j] == v.messages[j]);
        }
        lemma_run_push(initial(messages), a.push(r0), r1);
    }
}

/// A batch of `n >= 1` messages whose every reply lets it go on makes exactly
/// `2 * n` control transfers, main transfer and status read in turn: number
/// `2 * i` is the main transfer of message `i`, whose command byte is `I2C_IO`
/// with `BEGIN` when `i` is the first and `END` when it is the last, and
/// number `2 * i + 1` is a status read. Then the batch succeeds.
pub proof fn lemma_clean_batch(messages: Seq<Message>, replies: Seq<Reply>)
    requires
        messages.len() >= 1,
        replies.len() == 2 * messages.len(),
        forall|k: int| 0 <= k < replies.len() ==> clean_reply(messages, k, #[trigger] replies[k]),
    ensures
        forall|i: int|
            0 <= i < messages.len() ==> {
                let v = #[trigger] run(initial(messages), replies.take(2 * i));
                &&& !v.done()
                &&& v.pending() == main_request(messages[i], i, messages.len() as int)
                &&& v.pending().request() == CMD_I2C_IO | (if i == 0 {
                    CMD_I2C_BEGIN
                } else {
                    0u8
                }) | (if i == messages.len() - 1 {
                    CMD_I2C_END
                } else {
                    0u8
                })
            },
        forall|i: int|
            0 <= i < messages.len() ==> {
                let v = #[trigger] run(initial(messages), replies.take(2 * i + 1));
                &&& !v.done()
                &&& v.pending() == status_request()
            },
        run(initial(messages), replies).outcome == Some(Ok::<(), Error>(())),
        run(initial(messages), replies).issued == replies.len(),
{
    let n = messages.len() as int;
    assert forall|i: int| 0 <= i < n implies {
        let v = #[trigger] run(initial(messages), replies.take(2 * i));
        &&& !v.done()
        &&& v.pending() == main_request(messages[i], i, n)
        &&& v.pending().request() == CMD_I2C_IO | (if i == 0 {
            CMD_I2C_BEGIN
        } else {
            0u8
        }) | (if i == n - 1 {
            CMD_I2C_END
        } else {
            0u8
        })
    } by {
        lemma_clean_prefix(messages, replies, i);
    }
    assert forall|i: int| 0 <= i < n implies {
        let v = #[trigger] run(initial(messages), replies.take(2 * i + 1));
        &&& !v.done()
        &&& v.pending() == status_request()
    } by {
        lemma_clean_prefix(messages, replies, i);
        let a = replies.take(2 * i);
        assert(clean_reply(messages, 2 * i, replies[2 * i]));
        assert(a.push(replies[2 * i]) =~= replies.take(2 * i + 1));
        lemma_run_push(initial(messages), a, replies[2 * i]);
    }
    lemma_clean_prefix(messages, replies, n - 1);
    let a = replies.take(2 * n - 2);
    let r0 = replies[2 * n - 2];
    let r1 = replies[2 * n - 1];
    assert(clean_reply(messages, 2 * n - 2, r0));
    assert(clean_reply(messages, 2 * n - 1, r1));
    assert(a.push(r0) =~= replies.take(2 * n - 1));
    assert(a.push(r0).push(r1) =~= replies);
    lemma_run_push(initial(messages), a, r0);
    lemma_run_push(initial(messages), a.push(r0), r1);
}

/// A NAK from the status read ends the batch with `Nack` at once: whatever
/// replies follow, no control transfer comes after that status read, so no
/// later message is attempted.
pub proof fn lemma_nack_ends_batch(messages: Seq<Message>, replies: Seq<Reply>, k: int)
    requires
        0 <= k < replies.len(),
        !run(initial(messages), replies.take(k)).done(),
        run(initial(messages), replies.take(k)).awaiting_status,
        replies[k] is Received,
        replies[k]->Received_0@ == seq![STATUS_ADDRESS_NAK],
    ensures
        run(initial(messages), replies).outcome == Some(Err::<(), Error>(Error::Nack)),
        run(initial(messages), replies).issued == k + 1,
        run(initial(messages), replies).issued == 2 * run(initial(messages), replies).next + 2,
{
    let start = initial(messages);
    let v = run(start, replies.take(k));
    lemma_run_wf(start, replies.take(k));
    assert(replies.take(k).push(replies[k]) =~= replies.take(k + 1));
    lemma_run_push(start, replies.take(k), replies[k]);
    lemma_run_decided(start, replies, k + 1);
}

} // verus!
