//! The forwarding loop between the tunnel device and one UDP peer, as a
//! state machine.
//!
//! The machine owns the frame buffer and the pending-transmission slot and
//! decides what is done next. It performs no input or output itself: the
//! driver carries out each [`Action`] on the device or the socket and reports
//! the outcome as an [`Event`].

use vstd::prelude::*;
use vstd::slice::slice_subrange;

verus! {

/// Size of the frame buffer: the largest frame that is forwarded.
pub const MTU: usize = 1500;

/// Address of a UDP peer, as plain numbers.
#[derive(Clone, Copy, Debug, PartialEq, Eq, Structural)]
pub enum PeerAddr {
    /// An IPv4 address, the first octet in the highest byte, and a port.
    V4 { ip: u32, port: u16 },
    /// An IPv6 address, the first segment in the highest bits, with port,
    /// flow information and scope.
    V6 { ip6: u128, port: u16, flowinfo: u32, scope_id: u32 },
}

/// Where in a cycle the loop stands.
#[derive(Clone, Copy, Debug, PartialEq, Eq, Structural)]
pub enum Stage {
    /// Between polls: nothing is outstanding.
    Idle,
    /// The pending datagram is being written to the device.
    Writing,
    /// The next datagram is awaited from the socket.
    Receiving,
    /// The device is being flushed.
    Flushing,
    /// A reply frame is awaited from the device.
    Reading,
    /// The reply is being sent to the peer.
    Sending,
    /// A fatal error ended the loop.
    Failed,
}

/// What the driver is to do next.
#[derive(Clone, Copy, Debug, PartialEq, Eq, Structural)]
pub enum Action {
    /// Write the first `len` bytes of the buffer to the device, as one frame.
    WriteDevice { len: usize },
    /// Receive one datagram from the socket.
    Receive,
    /// Flush the device.
    Flush,
    /// Read one frame from the device.
    ReadDevice,
    /// Send the first `len` bytes of the buffer to `peer`, as one datagram.
    Send { len: usize, peer: PeerAddr },
    /// Return to the caller and poll again when the resource is ready.
    Suspend,
    /// Stop: the loop has failed.
    Fail,
}

/// What the driver reports back.
#[derive(Clone, Debug)]
pub enum Event {
    /// The loop is polled.
    Resume,
    /// The device took the whole frame.
    Written,
    /// The socket delivered a datagram.
    Datagram { payload: Vec<u8>, peer: PeerAddr },
    /// The device was flushed.
    Flushed,
    /// The device delivered a frame.
    Frame { payload: Vec<u8> },
    /// The socket took the datagram.
    Sent,
    /// The operation would block.
    WouldBlock,
    /// The operation failed for good.
    Failed,
}

/// The loop's state as mathematics.
pub struct TunnelState {
    /// Content of the frame buffer.
    pub buffer: Seq<u8>,
    /// The pending-transmission slot: length and sender of the datagram that
    /// still has to reach the device.
    pub pending: Option<(nat, PeerAddr)>,
    /// Position in the cycle.
    pub stage: Stage,
    /// How many bytes of the buffer the outstanding write or send transmits.
    pub outgoing: nat,
}

impl TunnelState {
    /// The state a loop starts in: a zeroed buffer and nothing pending.
    pub open spec fn initial() -> TunnelState {
        TunnelState {
            buffer: Seq::new(MTU as nat, |i: int| 0u8),
            pending: None,
            stage: Stage::Idle,
            outgoing: 0,
        }
    }

    /// The invariant of the loop.
    pub open spec fn wf(self) -> bool {
        &&& self.buffer.len() == MTU
        &&& self.outgoing <= MTU
        &&& (self.pending matches Some((len, _)) ==> len <= MTU)
        &&& (self.stage == Stage::Receiving ==> self.pending is None)
        &&& (self.stage == Stage::Writing || self.stage == Stage::Flushing || self.stage
            == Stage::Reading || self.stage == Stage::Sending ==> self.pending is Some)
        &&& (self.stage == Stage::Writing ==> self.pending_len() == self.outgoing)
        &&& (self.stage != Stage::Writing && self.stage != Stage::Sending ==> self.outgoing == 0)
    }

    /// Length of the pending datagram; zero when nothing is pending.
    pub open spec fn pending_len(self) -> nat {
        match self.pending {
            Some((len, _)) => len,
            None => 0,
        }
    }

    /// Sender of the pending datagram: the peer that replies go to.
    pub open spec fn pending_peer(self) -> PeerAddr
        recommends
            self.pending is Some,
    {
        match self.pending {
            Some((_, peer)) => peer,
            None => arbitrary(),
        }
    }

    /// The bytes that the outstanding write or send transmits.
    pub open spec fn payload(self) -> Seq<u8> {
        self.buffer.take(self.outgoing as int)
    }

    /// The state with the given stage and outgoing length.
    pub open spec fn at(self, stage: Stage, outgoing: nat) -> TunnelState {
        TunnelState { stage, outgoing, ..self }
    }

    /// The start of a cycle: drain the pending datagram if there is one,
    /// else await the next.
    pub open spec fn begin_cycle(self) -> (TunnelState, Action) {
        match self.pending {
            Some((len, _)) => (
                self.at(Stage::Writing, len),
                Action::WriteDevice { len: len as usize },
            ),
            None => (self.at(Stage::Receiving, 0), Action::Receive),
        }
    }

    /// The loop stops for good.
    pub open spec fn fail(self) -> (TunnelState, Action) {
        (self.at(Stage::Failed, 0), Action::Fail)
    }

    /// The transition function: the state after `event`, and the action
    /// that the driver is to take.
    pub open spec fn step(self, event: Event) -> (TunnelState, Action) {
        match self.stage {
            Stage::Failed => (self, Action::Fail),
            Stage::Idle => match event {
                Event::Resume => self.begin_cycle(),
                _ => self.fail(),
            },
            Stage::Writing => match event {
                Event::Written => (
                    TunnelState { pending: None, ..self.at(Stage::Receiving, 0) },
                    Action::Receive,
                ),
                Event::WouldBlock => (self.at(Stage::Idle, 0), Action::Suspend),
                _ => self.fail(),
            },
            Stage::Receiving => match event {
                Event::Datagram { payload, peer } => if payload@.len() <= MTU {
                    (
                        TunnelState {
                            buffer: overlay(self.buffer, payload@),
                            pending: Some((payload@.len(), peer)),
                            ..self.at(Stage::Flushing, 0)
                        },
                        Action::Flush,
                    )
                } else {
                    self.fail()
                },
                Event::WouldBlock => (self.at(Stage::Idle, 0), Action::Suspend),
                _ => self.fail(),
            },
            Stage::Flushing => match event {
                Event::Flushed => (self.at(Stage::Reading, 0), Action::ReadDevice),
                Event::WouldBlock => (self.at(Stage::Idle, 0), Action::Suspend),
                _ => self.fail(),
            },
            Stage::Reading => match event {
                Event::Frame { payload } => if payload@.len() <= MTU && self.pending is Some {
                    (
                        TunnelState {
                            buffer: overlay(self.buffer, payload@),
                            ..self.at(Stage::Sending, payload@.len())
                        },
                        Action::Send { len: payload@.len() as usize, peer: self.pending_peer() },
                    )
                } else {
                    self.fail()
                },
                Event::WouldBlock => (self.at(Stage::Idle, 0), Action::Suspend),
                _ => self.fail(),
            },
            Stage::Sending => match event {
                Event::Sent => self.begin_cycle(),
                Event::WouldBlock => (self.at(Stage::Idle, 0), Action::Suspend),
                _ => self.fail(),
            },
        }
    }
}

/// Every transition keeps the loop's invariant.
pub proof fn lemma_step_keeps_invariant(s: TunnelState, event: Event)
    requires
        s.wf(),
    ensures
        s.step(event).0.wf(),
{
}

/// The pending slot never takes a second entry. Whenever the loop asks for
/// a datagram the slot is empty, and a datagram that arrives while an entry
/// is pending is not accepted: the loop fails and leaves buffer and slot as
/// they were.
pub proof fn lemma_receive_needs_empty_slot(s: TunnelState, event: Event)
    requires
        s.wf(),
    ensures
        s.step(event).1 == Action::Receive ==> s.step(event).0.pending is None,
        event is Datagram && s.pending is Some ==> {
            &&& s.step(event).1 == Action::Fail
            &&& s.step(event).0.pending == s.pending
            &&& s.step(event).0.buffer == s.buffer
        },
{
}

/// A would-block on the device write loses nothing. The loop parks with
/// buffer and slot untouched, the next poll asks for the same write of the
/// same bytes, and from there on the loop is in the very state that it was
/// in before the interruption.
pub proof fn lemma_would_block_retry(s: TunnelState)
    requires
        s.wf(),
        s.stage == Stage::Writing,
    ensures
        s.step(Event::WouldBlock).1 == Action::Suspend,
        s.step(Event::WouldBlock).0.buffer == s.buffer,
        s.step(Event::WouldBlock).0.pending == s.pending,
        s.step(Event::WouldBlock).0.step(Event::Resume) == (
            s,
            Action::WriteDevice { len: s.outgoing as usize },
        ),
        s.step(Event::WouldBlock).0.step(Event::Resume).0.step(Event::Written) == s.step(
            Event::Written,
        ),
{
}

/// A would-block while the loop waits for a datagram or for a reply parks
/// it without touching buffer or slot.
pub proof fn lemma_would_block_keeps_data(s: TunnelState)
    requires
        s.wf(),
        s.stage != Stage::Idle,
        s.stage != Stage::Failed,
    ensures
        s.step(Event::WouldBlock) == (s.at(Stage::Idle, 0), Action::Suspend),
{
}

/// A datagram reaches the device unchanged when no reply overwrites it
/// first: received, then parked at the device read, it is what the next
/// poll writes.
pub proof fn lemma_datagram_reaches_device(s: TunnelState, payload: Vec<u8>, peer: PeerAddr)
    requires
        s.wf(),
        s.stage == Stage::Receiving,
        payload@.len() <= MTU,
    ensures
        ({
            let received = s.step(Event::Datagram { payload, peer });
            let flushed = received.0.step(Event::Flushed);
            let parked = flushed.0.step(Event::WouldBlock);
            let resumed = parked.0.step(Event::Resume);
            &&& received.1 == Action::Flush
            &&& flushed.1 == Action::ReadDevice
            &&& parked.1 == Action::Suspend
            &&& resumed.1 == Action::WriteDevice { len: payload@.len() as usize }
            &&& resumed.0.payload() == payload@
        }),
{
    let received = s.step(Event::Datagram { payload, peer });
    let flushed = received.0.step(Event::Flushed);
    let parked = flushed.0.step(Event::WouldBlock);
    let resumed = parked.0.step(Event::Resume);
    assert(resumed.0.payload() =~= payload@);
}

/// A reply frame goes out unchanged, to the sender of the pending datagram.
pub proof fn lemma_reply_goes_to_pending_peer(s: TunnelState, reply: Vec<u8>)
    requires
        s.wf(),
        s.stage == Stage::Reading,
        reply@.len() <= MTU,
    ensures
        s.step(Event::Frame { payload: reply }).1 == (Action::Send {
            len: reply@.len() as usize,
            peer: s.pending_peer(),
        }),
        s.step(Event::Frame { payload: reply }).0.payload() == reply@,
        s.step(Event::Frame { payload: reply }).0.pending == s.pending,
{
    assert(s.step(Event::Frame { payload: reply }).0.payload() =~= reply@);
}

/// Only the latest peer is remembered. When a datagram from `a` and then
/// one from `b` arrive with no reply from the device in between, the reply
/// that follows goes to `b`.
pub proof fn lemma_reply_goes_to_latest_peer(
    s: TunnelState,
    first: Vec<u8>,
    a: PeerAddr,
    second: Vec<u8>,
    b: PeerAddr,
    reply: Vec<u8>,
)
    requires
        s.wf(),
        s.stage == Stage::Receiving,
        first@.len() <= MTU,
        second@.len() <= MTU,
        reply@.len() <= MTU,
    ensures
        ({
            let from_a = s.step(Event::Datagram { payload: first, peer: a }).0;
            let no_reply = from_a.step(Event::Flushed).0.step(Event::WouldBlock).0;
            let drained = no_reply.step(Event::Resume).0.step(Event::Written);
            let from_b = drained.0.step(Event::Datagram { payload: second, peer: b }).0;
            let replied = from_b.step(Event::Flushed).0.step(Event::Frame { payload: reply });
            &&& drained.1 == Action::Receive
            &&& replied.1 == Action::Send { len: reply@.len() as usize, peer: b }
            &&& replied.0.payload() == reply@
        }),
{
    let from_a = s.step(Event::Datagram { payload: first, peer: a }).0;
    let no_reply = from_a.step(Event::Flushed).0.step(Event::WouldBlock).0;
    let drained = no_reply.step(Event::Resume).0.step(Event::Written);
    let from_b = drained.0.step(Event::Datagram { payload: second, peer: b }).0;
    let at_read = from_b.step(Event::Flushed).0;
    assert(at_read.wf());
    assert(at_read.stage == Stage::Reading);
    assert(at_read.pending_peer() == b);
    lemma_reply_goes_to_pending_peer(at_read, reply);
}

/// Once failed, the loop stays failed and changes nothing.
pub proof fn lemma_failure_is_final(s: TunnelState, event: Event)
    requires
        s.stage == Stage::Failed,
    ensures
        s.step(event) == (s, Action::Fail),
{
}

/// `buffer` with `payload` written over its first bytes.
pub open spec fn overlay(buffer: Seq<u8>, payload: Seq<u8>) -> Seq<u8> {
    payload + buffer.skip(payload.len() as int)
}

/// Writes `payload` over the first bytes of `buffer`.
fn store(buffer: &mut Vec<u8>, payload: &Vec<u8>)
    requires
        payload@.len() <= old(buffer)@.len(),
    ensures
        final(buffer)@ == overlay(old(buffer)@, payload@),
{
    let n: usize = payload.len();
    let mut i: usize = 0;
    while i < n
        invariant
            n == payload@.len(),
            i <= n <= buffer@.len(),
            buffer@.len() == old(buffer)@.len(),
            forall|k: int| 0 <= k < i ==> buffer@[k] == payload@[k],
            forall|k: int| i <= k < buffer@.len() ==> buffer@[k] == old(buffer)@[k],
        decreases n - i,
    {
        buffer.set(i, payload[i]);
        i = i + 1;
    }
    assert(buffer@ =~= overlay(old(buffer)@, payload@));
}

/// The forwarding loop: the frame buffer, the pending-transmission slot
/// and the position in the cycle.
#[derive(Debug)]
pub struct Tunnel {
    /// An internal packet buffer, always `MTU` bytes long.
    buffer: Vec<u8>,
    /// Things to send: length and sender of the datagram not yet written
    /// to the device.
    to_send: Option<(usize, PeerAddr)>,
    /// Position in the cycle.
    stage: Stage,
    /// Length of what the outstanding write or send transmits.
    outgoing: usize,
}

impl View for Tunnel {
    type V = TunnelState;

    closed spec fn view(&self) -> TunnelState {
        TunnelState {
            buffer: self.buffer@,
            pending: match self.to_send {
                Some((len, peer)) => Some((len as nat, peer)),
                None => None,
            },
            stage: self.stage,
            outgoing: self.outgoing as nat,
        }
    }
}

impl Tunnel {
    /// Whether the loop's invariant holds.
    pub open spec fn wf(&self) -> bool {
        self@.wf()
    }

    /// Creates a new `Tunnel`: a zeroed buffer of `MTU` bytes and nothing
    /// pending.
    pub fn new() -> (t: Self)
        ensures
            t.wf(),
            t@ == TunnelState::initial(),
    {
        let t = Tunnel { buffer: vec![0u8; MTU], to_send: None, stage: Stage::Idle, outgoing: 0 };
        assert(t.buffer@ =~= TunnelState::initial().buffer);
        t
    }

    /// Position in the cycle.
    pub fn stage(&self) -> (s: Stage)
        ensures
            s == self@.stage,
    {
        self.stage
    }

    /// The pending-transmission slot.
    pub fn pending(&self) -> (p: Option<(usize, PeerAddr)>)
        ensures
            match p {
                Some((len, peer)) => self@.pending == Some((len as nat, peer)),
                None => self@.pending is None,
            },
    {
        self.to_send
    }

    /// Whether the loop has failed for good.
    pub fn is_failed(&self) -> (b: bool)
        ensures
            b == (self@.stage == Stage::Failed),
    {
        match self.stage {
            Stage::Failed => true,
            _ => false,
        }
    }

    /// The whole frame buffer.
    pub fn buffer(&self) -> (b: &[u8])
        ensures
            b@ == self@.buffer,
    {
        self.buffer.as_slice()
    }

    /// Starts a cycle: drains the pending datagram if there is one, else
    /// awaits the next.
    fn begin_cycle(&mut self) -> (action: Action)
        requires
            old(self).wf(),
        ensures
            final(self).wf(),
            (final(self)@, action) == old(self)@.begin_cycle(),
    {
        match self.to_send {
            Some((len, _)) => {
                self.stage = Stage::Writing;
                self.outgoing = len;
                Action::WriteDevice { len }
            },
            None => {
                self.stage = Stage::Receiving;
                self.outgoing = 0;
                Action::Receive
            },
        }
    }

    /// Parks the loop until it is polled again. The buffer and the pending
    /// slot stay as they are.
    fn suspend(&mut self) -> (action: Action)
        requires
            old(self).wf(),
        ensures
            final(self).wf(),
            final(self)@ == old(self)@.at(Stage::Idle, 0),
            action == Action::Suspend,
    {
        self.stage = Stage::Idle;
        self.outgoing = 0;
        Action::Suspend
    }

    /// Ends the loop for good.
    fn fail(&mut self) -> (action: Action)
        requires
            old(self).wf(),
        ensures
            final(self).wf(),
            (final(self)@, action) == old(self)@.fail(),
    {
        self.stage = Stage::Failed;
        self.outgoing = 0;
        Action::Fail
    }

    /// Takes the outcome of the last action and decides the next one.
    ///
    /// A cycle first writes the pending datagram, if any, to the device and
    /// clears the slot; then it receives the next datagram into the buffer
    /// and records its length and sender in the slot, flushes the device,
    /// reads one reply frame into the buffer and sends it to the recorded
    /// sender. A would-block parks the loop with the slot untouched; the
    /// next poll starts a cycle afresh. Any other failure, an event that
    /// does not answer the outstanding action, or a payload longer than
    /// `MTU` ends the loop.
    pub fn step(&mut self, event: Event) -> (action: Action)
        requires
            old(self).wf(),
        ensures
            final(self).wf(),
            (final(self)@, action) == old(self)@.step(event),
    {
        match self.stage {
            Stage::Failed => Action::Fail,
            Stage::Idle => match event {
                Event::Resume => self.begin_cycle(),
                _ => self.fail(),
            },
            Stage::Writing => match event {
                Event::Written => {
                    self.to_send = None;
                    self.stage = Stage::Receiving;
                    self.outgoing = 0;
                    Action::Receive
                },
                Event::WouldBlock => self.suspend(),
                _ => self.fail(),
            },
            Stage::Receiving => match event {
                Event::Datagram { payload, peer } => {
                    if payload.len() <= MTU {
                        store(&mut self.buffer, &payload);
                        self.to_send = Some((payload.len(), peer));
                        self.stage = Stage::Flushing;
                        self.outgoing = 0;
                        Action::Flush
                    } else {
                        self.fail()
                    }
                },
                Event::WouldBlock => self.suspend(),
                _ => self.fail(),
            },
            Stage::Flushing => match event {
                Event::Flushed => {
                    self.stage = Stage::Reading;
                    Action::ReadDevice
                },
                Event::WouldBlock => self.suspend(),
                _ => self.fail(),
            },
            Stage::Reading => match event {
                Event::Frame { payload } => {
                    match self.to_send {
                        Some((_, peer)) => {
                            if payload.len() <= MTU {
                                store(&mut self.buffer, &payload);
                                self.stage = Stage::Sending;
                                self.outgoing = payload.len();
                                Action::Send { len: payload.len(), peer }
                            } else {
                                self.fail()
                            }
                        },
                        None => self.fail(),
                    }
                },
                Event::WouldBlock => self.suspend(),
                _ => self.fail(),
            },
            Stage::Sending => match event {
                Event::Sent => self.begin_cycle(),
                Event::WouldBlock => self.suspend(),
                _ => self.fail(),
            },
        }
    }

    /// The bytes that the outstanding write or send transmits; empty when
    /// neither is outstanding.
    pub fn payload(&self) -> (p: &[u8])
        requires
            self.wf(),
        ensures
            p@ == self@.payload(),
    {
        slice_subrange(self.buffer.as_slice(), 0, self.outgoing)
    }
}

} // verus!
