//! The capability probe run when a bridge is opened: read its functionality
//! bitmask, then make it echo a set of test patterns.
use crate::error::Error;
use crate::flags::{ReadFlags, WriteFlags};
use crate::wire::{
    le_u16, le_u32, le_value, ControlRequest, Reply, RequestView, CMD_ECHO,
    CMD_GET_FUNC, I2C_FUNC_I2C, I2C_FUNC_PROTOCOL_MANGLING,
};
use rusb::Error as UsbError;
use vstd::prelude::*;

verus! {

/// How many patterns the bridge must echo.
pub const ECHO_COUNT: usize = 8;

/// The patterns that the bridge must echo, in order.
pub open spec fn echo_patterns() -> Seq<u16> {
    seq![0x0000u16, 0xaaaa, 0x5555, 0xffff, 0x55aa, 0xaa55, 0x0f0f, 0xf0f0]
}

/// The read and write flags that a bridge with functionality bitmask `func`
/// honours: all of them with protocol mangling, none without.
pub open spec fn capabilities(func: u32) -> (ReadFlags, WriteFlags) {
    if func & I2C_FUNC_PROTOCOL_MANGLING != 0 {
        (
            ReadFlags { bits: ReadFlags::NACK | ReadFlags::REVERSE_RW | ReadFlags::NO_START },
            WriteFlags {
                bits: WriteFlags::IGNORE_NACK | WriteFlags::REVERSE_RW | WriteFlags::NO_START,
            },
        )
    } else {
        (ReadFlags { bits: 0 }, WriteFlags { bits: 0 })
    }
}

/// The control transfer number `stage` of the probe: the functionality
/// bitmask first, then one echo per pattern, the pattern in `value`.
pub open spec fn probe_request(stage: nat) -> RequestView {
    if stage == 0 {
        RequestView::In { request: CMD_GET_FUNC, value: 0, index: 0, length: 4 }
    } else {
        RequestView::In {
            request: CMD_ECHO,
            value: echo_patterns()[stage - 1],
            index: 0,
            length: 2,
        }
    }
}

/// Whether `reply` is an echo of exactly `pattern`, as two little-endian bytes.
pub open spec fn echoes(reply: Reply, pattern: u16) -> bool {
    match reply {
        Reply::Received(b) => b@.len() == 2 && le_value(b@) == pattern as nat,
        _ => false,
    }
}

/// The state of a probe, as a mathematical value.
pub struct ProbeView {
    /// How many control transfers were asked for so far.
    pub stage: nat,
    /// The flags decided from the functionality bitmask.
    pub caps: (ReadFlags, WriteFlags),
    /// The result, once it is decided.
    pub outcome: Option<Result<(ReadFlags, WriteFlags), Error>>,
}

impl ProbeView {
    pub open spec fn done(self) -> bool {
        self.outcome is Some
    }

    pub open spec fn wf(self) -> bool {
        &&& self.stage <= ECHO_COUNT + 1
        &&& !self.done() ==> self.stage <= ECHO_COUNT
    }

    /// The control transfer due next, while the probe runs.
    pub open spec fn pending(self) -> RequestView {
        probe_request(self.stage)
    }

    /// The state after the pending transfer got `reply`. A failed or short
    /// bitmask read, and a bitmask without plain I2C, end the probe; so does a
    /// failed echo, or one that does not give back its pattern.
    pub open spec fn step(self, reply: Reply) -> ProbeView {
        let stage = self.stage + 1;
        if self.stage == 0 {
            match reply {
                Reply::Received(b) => if b@.len() != 4 {
                    ProbeView { stage, outcome: Some(Err(Error::Usb(UsbError::Io))), ..self }
                } else if le_value(b@) as u32 & I2C_FUNC_I2C == 0 {
                    ProbeView {
                        stage,
                        outcome: Some(Err(Error::Usb(UsbError::NotSupported))),
                        ..self
                    }
                } else {
                    ProbeView { stage, caps: capabilities(le_value(b@) as u32), ..self }
                },
                Reply::Sent(_) => ProbeView {
                    stage,
                    outcome: Some(Err(Error::Usb(UsbError::Io))),
                    ..self
                },
                Reply::Failed(e) => ProbeView { stage, outcome: Some(Err(Error::Usb(e))), ..self },
            }
        } else {
            match reply {
                Reply::Failed(e) => ProbeView { stage, outcome: Some(Err(Error::Usb(e))), ..self },
                _ => if !echoes(reply, echo_patterns()[self.stage - 1]) {
                    ProbeView { stage, outcome: Some(Err(Error::Usb(UsbError::Other))), ..self }
                } else if self.stage == ECHO_COUNT {
                    ProbeView { stage, outcome: Some(Ok(self.caps)), ..self }
                } else {
                    ProbeView { stage, ..self }
                },
            }
        }
    }
}

/// The probe before any transfer.
pub open spec fn probe_start() -> ProbeView {
    ProbeView { stage: 0, caps: (ReadFlags { bits: 0 }, WriteFlags { bits: 0 }), outcome: None }
}

/// The state reached from `v` when the pending transfers get `replies` in
/// turn; replies that come after the probe is decided change nothing.
pub open spec fn probe_run(v: ProbeView, replies: Seq<Reply>) -> ProbeView
    decreases replies.len(),
{
    if replies.len() == 0 || v.done() {
        v
    } else {
        probe_run(v.step(replies[0]), replies.drop_first())
    }
}

/// One more reply extends a run by one step.
pub proof fn lemma_probe_run_push(v: ProbeView, replies: Seq<Reply>, reply: Reply)
    requires
        !probe_run(v, replies).done(),
    ensures
        probe_run(v, replies.push(reply)) == probe_run(v, replies).step(reply),
    decreases replies.len(),
{
    let more = replies.push(reply);
    if replies.len() == 0 {
        assert(more.drop_first() =~= Seq::<Reply>::empty());
        assert(probe_run(v.step(reply), more.drop_first()) == v.step(reply));
    } else {
        assert(more[0] == replies[0]);
        assert(more.drop_first() =~= replies.drop_first().push(reply));
        lemma_probe_run_push(v.step(replies[0]), replies.drop_first(), reply);
    }
}

/// A capability probe in progress: it asks for one control transfer at a time
/// and is told what came back.
pub struct Probe {
    stage: usize,
    caps: (ReadFlags, WriteFlags),
    outcome: Option<Result<(ReadFlags, WriteFlags), Error>>,
}

impl View for Probe {
    type V = ProbeView;

    closed spec fn view(&self) -> ProbeView {
        ProbeView { stage: self.stage as nat, caps: self.caps, outcome: self.outcome }
    }
}

/// The flags that a bridge with functionality bitmask `func` honours.
pub fn supported_flags(func: u32) -> (r: (ReadFlags, WriteFlags))
    ensures
        r == capabilities(func),
{
    proof {
        assert(0u16 | 0x02u16 | 0x04u16 | 0x08u16 == 0x02u16 | 0x04u16 | 0x08u16) by (bit_vector);
        assert(0u16 | 0x01u16 | 0x02u16 | 0x04u16 == 0x01u16 | 0x02u16 | 0x04u16) by (bit_vector);
    }
    if func & I2C_FUNC_PROTOCOL_MANGLING != 0 {
        (
            ReadFlags::empty().union(ReadFlags::NACK).union(ReadFlags::REVERSE_RW).union(
                ReadFlags::NO_START,
            ),
            WriteFlags::empty().union(WriteFlags::IGNORE_NACK).union(WriteFlags::REVERSE_RW).union(
                WriteFlags::NO_START,
            ),
        )
    } else {
        (ReadFlags::empty(), WriteFlags::empty())
    }
}

/// The echo pattern number `i`.
fn echo_pattern(i: usize) -> (r: u16)
    requires
        i < ECHO_COUNT,
    ensures
        r == echo_patterns()[i as int],
{
    let patterns: [u16; 8] = [0x0000, 0xaaaa, 0x5555, 0xffff, 0x55aa, 0xaa55, 0x0f0f, 0xf0f0];
    assert(patterns@ =~= echo_patterns());
    patterns[i]
}

impl Probe {
    pub open spec fn wf(&self) -> bool {
        self@.wf()
    }

    pub fn new() -> (r: Probe)
        ensures
            r@ == probe_start(),
            r.wf(),
    {
        Probe { stage: 0, caps: (ReadFlags::empty(), WriteFlags::empty()), outcome: None }
    }

    pub fn is_done(&self) -> (r: bool)
        ensures
            r == self@.done(),
    {
        self.outcome.is_some()
    }

    /// The result of the probe, once it is decided.
    pub fn outcome(&self) -> (r: Option<Result<(ReadFlags, WriteFlags), Error>>)
        ensures
            r == self@.outcome,
    {
        self.outcome
    }

    /// The control transfer due next.
    pub fn request(&self) -> (r: ControlRequest)
        requires
            self.wf(),
            !self@.done(),
        ensures
            r@ == self@.pending(),
    {
        if self.stage == 0 {
            ControlRequest::In { request: CMD_GET_FUNC, value: 0, index: 0, length: 4 }
        } else {
            ControlRequest::In {
                request: CMD_ECHO,
                value: echo_pattern(self.stage - 1),
                index: 0,
                length: 2,
            }
        }
    }

    /// Takes in what the connection answered to the pending transfer.
    pub fn step(&mut self, reply: Reply)
        requires
            old(self).wf(),
            !old(self)@.done(),
        ensures
            final(self)@ == old(self)@.step(reply),
            final(self).wf(),
    {
        let stage = self.stage;
        self.stage = stage + 1;
        if stage == 0 {
            match &reply {
                Reply::Received(b) => if b.len() != 4 {
                    self.outcome = Some(Err(Error::Usb(UsbError::Io)));
                } else {
                    let func = le_u32(b);
                    if func & I2C_FUNC_I2C == 0 {
                        self.outcome = Some(Err(Error::Usb(UsbError::NotSupported)));
                    } else {
                        self.caps = supported_flags(func);
                    }
                },
                Reply::Sent(_) => {
                    self.outcome = Some(Err(Error::Usb(UsbError::Io)));
                },
                Reply::Failed(e) => {
                    self.outcome = Some(Err(Error::Usb(*e)));
                },
            }
        } else {
            let pattern = echo_pattern(stage - 1);
            match &reply {
                Reply::Failed(e) => {
                    self.outcome = Some(Err(Error::Usb(*e)));
                },
                _ => {
                    let echoed = match &reply {
                        Reply::Received(b) => b.len() == 2 && le_u16(b) == pattern,
                        _ => false,
                    };
                    if !echoed {
                        self.outcome = Some(Err(Error::Usb(UsbError::Other)));
                    } else if stage == ECHO_COUNT {
                        self.outcome = Some(Ok(self.caps));
                    }
                },
            }
        }
    }
}

} // verus!

verus! {

/// Once a probe is decided, later replies change nothing.
pub proof fn lemma_probe_decided(v: ProbeView, replies: Seq<Reply>, m: int)
    requires
        0 <= m <= replies.len(),
        probe_run(v, replies.take(m)).done(),
    ensures
        probe_run(v, replies) == probe_run(v, replies.take(m)),
    decreases m,
{
    if m == 0 {
        assert(replies.take(0) =~= Seq::<Reply>::empty());
    } else if !v.done() {
        assert(replies.take(m)[0] == replies[0]);
        assert(replies.take(m).drop_first() =~= replies.drop_first().take(m - 1));
        lemma_probe_decided(v.step(replies[0]), replies.drop_first(), m - 1);
    }
}

/// A run from a well-formed probe stays well formed, and while undecided it
/// has made one transfer per reply.
pub proof fn lemma_probe_run_wf(v: ProbeView, replies: Seq<Reply>)
    requires
        v.wf(),
    ensures
        probe_run(v, replies).wf(),
        probe_run(v, replies).stage <= v.stage + replies.len(),
        !probe_run(v, replies).done() ==> probe_run(v, replies).stage == v.stage + replies.len(),
    decreases replies.len(),
{
    if replies.len() > 0 && !v.done() {
        lemma_probe_run_wf(v.step(replies[0]), replies.drop_first());
    }
}

/// A functionality bitmask without plain I2C ends the probe with
/// `NotSupported` after that one read: no echo is ever asked for.
pub proof fn lemma_no_i2c_unsupported(replies: Seq<Reply>)
    requires
        replies.len() >= 1,
        replies[0] is Received,
        replies[0]->Received_0@.len() == 4,
        le_value(replies[0]->Received_0@) as u32 & I2C_FUNC_I2C == 0,
    ensures
        probe_run(probe_start(), replies).outcome == Some(
            Err::<(ReadFlags, WriteFlags), Error>(Error::Usb(UsbError::NotSupported)),
        ),
        probe_run(probe_start(), replies).stage == 1,
{
    assert(Seq::<Reply>::empty().push(replies[0]) =~= replies.take(1));
    lemma_probe_run_push(probe_start(), Seq::<Reply>::empty(), replies[0]);
    lemma_probe_decided(probe_start(), replies, 1);
}

/// An echo that does not give back its pattern exactly, but comes back, ends
/// the probe with the generic error `Other`.
pub proof fn lemma_bad_echo_fails(replies: Seq<Reply>, k: int)
    requires
        1 <= k < replies.len(),
        !probe_run(probe_start(), replies.take(k)).done(),
        !(replies[k] is Failed),
        !echoes(replies[k], echo_patterns()[k - 1]),
    ensures
        probe_run(probe_start(), replies).outcome == Some(
            Err::<(ReadFlags, WriteFlags), Error>(Error::Usb(UsbError::Other)),
        ),
{
    let start = probe_start();
    lemma_probe_run_wf(start, replies.take(k));
    assert(replies.take(k).push(replies[k]) =~= replies.take(k + 1));
    lemma_probe_run_push(start, replies.take(k), replies[k]);
    lemma_probe_decided(start, replies, k + 1);
}

/// With protocol mangling the bridge honours every read and every write flag
/// that it can carry; without, none.
pub proof fn lemma_capabilities(func: u32)
    ensures
        func & I2C_FUNC_PROTOCOL_MANGLING != 0 ==> {
            let (r, w) = capabilities(func);
            &&& r.bits != 0 && w.bits != 0
            &&& r.has(ReadFlags::NACK) && r.has(ReadFlags::REVERSE_RW) && r.has(ReadFlags::NO_START)
            &&& w.has(WriteFlags::IGNORE_NACK) && w.has(WriteFlags::REVERSE_RW) && w.has(
                WriteFlags::NO_START,
            )
        },
        func & I2C_FUNC_PROTOCOL_MANGLING == 0 ==> capabilities(func).0.bits == 0
            && capabilities(func).1.bits == 0,
{
    assert(0x02u16 | 0x04u16 | 0x08u16 == 0x0eu16) by (bit_vector);
    assert(0x01u16 | 0x02u16 | 0x04u16 == 0x07u16) by (bit_vector);
    assert(0x0eu16 & 0x02u16 == 0x02u16 && 0x0eu16 & 0x04u16 == 0x04u16 && 0x0eu16 & 0x08u16
        == 0x08u16) by (bit_vector);
    assert(0x07u16 & 0x01u16 == 0x01u16 && 0x07u16 & 0x02u16 == 0x02u16 && 0x07u16 & 0x04u16
        == 0x04u16) by (bit_vector);
}

/// Where a clean probe stands after `k` replies.
proof fn lemma_clean_echoes(replies: Seq<Reply>, k: int)
    requires
        1 <= k <= ECHO_COUNT + 1,
        replies.len() == ECHO_COUNT + 1,
        replies[0] is Received,
        replies[0]->Received_0@.len() == 4,
        le_value(replies[0]->Received_0@) as u32 & I2C_FUNC_I2C != 0,
        forall|j: int|
            1 <= j <= ECHO_COUNT ==> echoes(#[trigger] replies[j], echo_patterns()[j - 1]),
    ensures
        ({
            let v = probe_run(probe_start(), replies.take(k));
            let caps = capabilities(le_value(replies[0]->Received_0@) as u32);
            &&& v.stage == k
            &&& v.caps == caps
            &&& k <= ECHO_COUNT ==> !v.done()
            &&& k == ECHO_COUNT + 1 ==> v.outcome == Some(
                Ok::<(ReadFlags, WriteFlags), Error>(caps),
            )
        }),
    decreases k,
{
    let start = probe_start();
    if k == 1 {
        assert(Seq::<Reply>::empty().push(replies[0]) =~= replies.take(1));
        lemma_probe_run_push(start, Seq::<Reply>::empty(), replies[0]);
    } else {
        lemma_clean_echoes(replies, k - 1);
        assert(echoes(replies[k - 1], echo_patterns()[k - 2]));
        assert(replies.take(k - 1).push(replies[k - 1]) =~= replies.take(k));
        lemma_probe_run_push(start, replies.take(k - 1), replies[k - 1]);
    }
}

/// A bridge that reports plain I2C and echoes every pattern passes the probe,
/// after exactly nine transfers, with the flags that its bitmask grants.
pub proof fn lemma_clean_probe(replies: Seq<Reply>)
    requires
        replies.len() == ECHO_COUNT + 1,
        replies[0] is Received,
        replies[0]->Received_0@.len() == 4,
        le_value(replies[0]->Received_0@) as u32 & I2C_FUNC_I2C != 0,
        forall|k: int|
            1 <= k <= ECHO_COUNT ==> echoes(#[trigger] replies[k], echo_patterns()[k - 1]),
    ensures
        probe_run(probe_start(), replies).outcome == Some(
            Ok::<(ReadFlags, WriteFlags), Error>(
                capabilities(le_value(replies[0]->Received_0@) as u32),
            ),
        ),
        probe_run(probe_start(), replies).stage == ECHO_COUNT + 1,
{
    lemma_clean_echoes(replies, ECHO_COUNT + 1);
    assert(replies.take(ECHO_COUNT + 1) =~= replies);
}

} // verus!
