//! The tunnel device: the configuration request that creates it and the
//! bookkeeping of a frame write.
//!
//! The request is a fixed binary contract with the kernel: a name field of
//! `IFNAMSIZ` bytes, padded with zeros, followed by the flags as a 16-bit
//! integer in the machine's byte order, in a record of `REQUEST_SIZE` bytes.

use vstd::prelude::*;
use vstd::slice::slice_to_vec;
use vstd::string::StringSliceAdditionalSpecFns;
use crate::error::{ErrorKind, TunnelError};

verus! {

/// Size of the kernel's interface-name field, the terminating zero included.
pub const IFNAMSIZ: usize = 16;

/// Size of the whole configuration record.
pub const REQUEST_SIZE: usize = 40;

/// Flag: point-to-point device that carries IP packets.
pub const IFF_TUN: u16 = 0x0001;

/// Flag: Ethernet-like device that carries link-layer frames.
pub const IFF_TAP: u16 = 0x0002;

/// Flag: no packet-information header in front of each frame.
pub const IFF_NO_PI: u16 = 0x1000;

/// The flags of the device that is created: Ethernet framing without the
/// packet-information header.
pub const DEVICE_FLAGS: u16 = 0x1002;

/// Request code of the configuration call.
pub const TUNSETIFF: u64 = 0x4004_54ca;

/// The device flags are the two flags that they stand for, and nothing of
/// the point-to-point mode.
pub proof fn lemma_device_flags()
    ensures
        DEVICE_FLAGS == IFF_TAP | IFF_NO_PI,
        DEVICE_FLAGS & IFF_TUN == 0,
        DEVICE_FLAGS & IFF_TAP == IFF_TAP,
        DEVICE_FLAGS & IFF_NO_PI == IFF_NO_PI,
{
    assert(0x1002u16 == 0x0002u16 | 0x1000u16) by (bit_vector);
    assert(0x1002u16 & 0x0001u16 == 0) by (bit_vector);
    assert(0x1002u16 & 0x0002u16 == 0x0002u16) by (bit_vector);
    assert(0x1002u16 & 0x1000u16 == 0x1000u16) by (bit_vector);
}

/// Byte order of the machine that issues the request.
#[derive(Clone, Copy, Debug, PartialEq, Eq, Structural)]
pub enum Endian {
    /// Least significant byte first.
    Little,
    /// Most significant byte first.
    Big,
}

/// `count` zero bytes.
pub open spec fn zeros(count: nat) -> Seq<u8> {
    Seq::new(count, |i: int| 0u8)
}

/// The name field: the name, then zeros up to `IFNAMSIZ` bytes.
pub open spec fn name_field(name: Seq<u8>) -> Seq<u8>
    recommends
        name.len() < IFNAMSIZ,
{
    name + zeros((IFNAMSIZ - name.len()) as nat)
}

/// The two bytes of the flags field.
pub open spec fn flags_field(flags: u16, endian: Endian) -> Seq<u8> {
    match endian {
        Endian::Little => seq![(flags % 256) as u8, (flags / 256) as u8],
        Endian::Big => seq![(flags / 256) as u8, (flags % 256) as u8],
    }
}

/// The whole record: name field, flags field, zeros.
pub open spec fn request_layout(name: Seq<u8>, flags: u16, endian: Endian) -> Seq<u8>
    recommends
        name.len() < IFNAMSIZ,
{
    name_field(name) + flags_field(flags, endian) + zeros((REQUEST_SIZE - IFNAMSIZ - 2) as nat)
}

/// A configuration request: the interface name and the device flags.
#[derive(Debug)]
pub struct ConfigRequest {
    /// The name's bytes, fewer than `IFNAMSIZ`.
    name: Vec<u8>,
    /// The flag bits.
    flags: u16,
}

impl ConfigRequest {
    /// The interface name, as bytes.
    pub closed spec fn name(&self) -> Seq<u8> {
        self.name@
    }

    /// The flag bits.
    pub closed spec fn flags(&self) -> u16 {
        self.flags
    }

    /// The name leaves room for the terminating zero.
    pub open spec fn wf(&self) -> bool {
        self.name().len() < IFNAMSIZ
    }

    /// Builds the request for an interface called `name`.
    ///
    /// A name that does not fit the name field together with its
    /// terminating zero is refused; it is never cut short.
    pub fn new(name: &str) -> (r: Result<ConfigRequest, TunnelError>)
        ensures
            r is Ok <==> name.spec_bytes().len() < IFNAMSIZ,
            r matches Ok(request) ==> {
                &&& request.wf()
                &&& request.name() == name.spec_bytes()
                &&& request.flags() == DEVICE_FLAGS
            },
            r matches Err(e) ==> e.kind == ErrorKind::NameTooLong,
    {
        let bytes = name.as_bytes();
        if bytes.len() < IFNAMSIZ {
            Ok(ConfigRequest { name: slice_to_vec(bytes), flags: DEVICE_FLAGS })
        } else {
            Err(TunnelError::with_kind(ErrorKind::NameTooLong, "interface name too long"))
        }
    }

    /// The flag bits.
    pub fn device_flags(&self) -> (f: u16)
        ensures
            f == self.flags(),
    {
        self.flags
    }

    /// The name field as the kernel reads it: `IFNAMSIZ` bytes, the name
    /// first, zeros after it.
    pub fn name_bytes(&self) -> (field: Vec<u8>)
        requires
            self.wf(),
        ensures
            field@ == name_field(self.name()),
            field@.len() == IFNAMSIZ,
    {
        let mut field: Vec<u8> = Vec::new();
        let mut i: usize = 0;
        while i < IFNAMSIZ
            invariant
                self.wf(),
                i <= IFNAMSIZ,
                field@.len() == i,
                forall|k: int| 0 <= k < i ==> field@[k] == name_field(self.name())[k],
            decreases IFNAMSIZ - i,
        {
            let byte: u8 = if i < self.name.len() {
                self.name[i]
            } else {
                0
            };
            field.push(byte);
            i = i + 1;
        }
        assert(field@ =~= name_field(self.name()));
        field
    }

    /// The record handed to the configuration call.
    pub fn to_bytes(&self, endian: Endian) -> (record: Vec<u8>)
        requires
            self.wf(),
        ensures
            record@ == request_layout(self.name(), self.flags(), endian),
            record@.len() == REQUEST_SIZE,
    {
        let mut record = self.name_bytes();
        let low: u8 = (self.flags % 256) as u8;
        let high: u8 = (self.flags / 256) as u8;
        match endian {
            Endian::Little => {
                record.push(low);
                record.push(high);
            },
            Endian::Big => {
                record.push(high);
                record.push(low);
            },
        }
        let ghost head = record@;
        let mut i: usize = IFNAMSIZ + 2;
        while i < REQUEST_SIZE
            invariant
                IFNAMSIZ + 2 <= i <= REQUEST_SIZE,
                record@.len() == i,
                head.len() == IFNAMSIZ + 2,
                record@ == head + zeros((i - IFNAMSIZ - 2) as nat),
            decreases REQUEST_SIZE - i,
        {
            record.push(0);
            i = i + 1;
            assert(record@ =~= head + zeros((i - IFNAMSIZ - 2) as nat));
        }
        assert(head =~= name_field(self.name()) + flags_field(self.flags(), endian));
        record
    }
}

/// Judges the status that the configuration call returned: a negative
/// status means that the kernel refused to create the device.
pub fn creation_result(status: i32) -> (r: Result<(), TunnelError>)
    ensures
        r is Ok <==> status >= 0,
        r matches Err(e) ==> e.kind == ErrorKind::DeviceCreationFailed,
{
    if status >= 0 {
        Ok(())
    } else {
        Err(TunnelError::with_kind(ErrorKind::DeviceCreationFailed, "device creation failed"))
    }
}

/// What a single write on the device handle came to.
#[derive(Clone, Copy, Debug, PartialEq, Eq, Structural)]
pub enum WriteOutcome {
    /// The device took `count` bytes.
    Wrote { count: usize },
    /// The write would block.
    WouldBlock,
    /// The write failed.
    Failed,
}

/// What a frame write does next.
#[derive(Clone, Copy, Debug, PartialEq, Eq, Structural)]
pub enum WriteStep {
    /// Write the frame from `offset` to its end.
    Write { offset: usize },
    /// The device has the whole frame.
    Complete,
    /// Give up and report an error of this kind to the caller.
    Abort { kind: ErrorKind },
}

/// Progress of one frame on its way into the device, as mathematics.
pub struct WriteState {
    /// Length of the frame.
    pub len: nat,
    /// How many of its bytes the device has taken.
    pub written: nat,
}

impl WriteState {
    /// No more is counted as written than the frame holds.
    pub open spec fn wf(self) -> bool {
        self.written <= self.len
    }

    /// The state of a write that has not begun.
    pub open spec fn start(len: nat) -> WriteState {
        WriteState { len, written: 0 }
    }

    /// What is to be done in this state: the rest is written until nothing
    /// is left.
    pub open spec fn next(self) -> WriteStep {
        if self.written < self.len {
            WriteStep::Write { offset: self.written as usize }
        } else {
            WriteStep::Complete
        }
    }

    /// The state after `outcome`, and what is to be done then. A short
    /// write moves the offset on. A write of nothing, or of more than was
    /// offered, is a failure. A would-block or a failure is handed to the
    /// caller as it is, and leaves the state where it was.
    pub open spec fn record(self, outcome: WriteOutcome) -> (WriteState, WriteStep) {
        match outcome {
            WriteOutcome::Wrote { count } => if 0 < count <= self.len - self.written {
                let moved = WriteState { written: self.written + count as nat, ..self };
                (moved, moved.next())
            } else {
                (self, WriteStep::Abort { kind: ErrorKind::IoFailure })
            },
            WriteOutcome::WouldBlock => (self, WriteStep::Abort { kind: ErrorKind::WouldBlock }),
            WriteOutcome::Failed => (self, WriteStep::Abort { kind: ErrorKind::IoFailure }),
        }
    }
}

/// A frame write is complete exactly when the device has every byte: a
/// part of a frame never counts as success.
pub proof fn lemma_complete_means_whole_frame(s: WriteState, outcome: WriteOutcome)
    requires
        s.wf(),
    ensures
        s.next() == WriteStep::Complete <==> s.written == s.len,
        s.record(outcome).0.wf(),
        s.record(outcome).1 == WriteStep::Complete ==> s.record(outcome).0.written == s.len,
        s.record(outcome).0.len == s.len,
        s.record(outcome).0.written >= s.written,
        s.record(outcome).1 is Write ==> s.record(outcome).0.written > s.written,
{
}

/// A would-block changes nothing, so the retry is the same write of the
/// same bytes from the same offset. One that comes before any byte was
/// taken leaves the write as it began, and what follows is what an
/// uninterrupted write would have done.
pub proof fn lemma_write_retry_is_identical(s: WriteState, outcome: WriteOutcome)
    requires
        s.wf(),
    ensures
        s.record(WriteOutcome::WouldBlock).0 == s,
        s.record(WriteOutcome::WouldBlock).1 == (WriteStep::Abort { kind: ErrorKind::WouldBlock }),
        s.record(WriteOutcome::WouldBlock).0.next() == s.next(),
        s.record(WriteOutcome::WouldBlock).0.record(outcome) == s.record(outcome),
        s.written == 0 ==> s.record(WriteOutcome::WouldBlock).0 == WriteState::start(s.len),
{
}

/// Progress of one frame on its way into the device.
#[derive(Clone, Copy, Debug)]
pub struct FrameWrite {
    /// Length of the frame.
    len: usize,
    /// How many of its bytes the device has taken.
    written: usize,
}

impl View for FrameWrite {
    type V = WriteState;

    closed spec fn view(&self) -> WriteState {
        WriteState { len: self.len as nat, written: self.written as nat }
    }
}

impl FrameWrite {
    /// Whether the invariant holds.
    pub open spec fn wf(&self) -> bool {
        self@.wf()
    }

    /// Begins the write of a frame of `len` bytes.
    pub fn new(len: usize) -> (w: Self)
        ensures
            w.wf(),
            w@ == WriteState::start(len as nat),
    {
        FrameWrite { len, written: 0 }
    }

    /// How many bytes the device has taken.
    pub fn written(&self) -> (n: usize)
        ensures
            n == self@.written,
    {
        self.written
    }

    /// How many bytes are still to be written.
    pub fn remaining(&self) -> (n: usize)
        requires
            self.wf(),
        ensures
            n == self@.len - self@.written,
    {
        self.len - self.written
    }

    /// Whether the device has the whole frame.
    pub fn is_complete(&self) -> (b: bool)
        ensures
            b == (self@.written >= self@.len),
    {
        self.written >= self.len
    }

    /// What is to be done now.
    pub fn next(&self) -> (step: WriteStep)
        ensures
            step == self@.next(),
    {
        if self.written < self.len {
            WriteStep::Write { offset: self.written }
        } else {
            WriteStep::Complete
        }
    }

    /// Takes the outcome of the last write and says what is to be done
    /// next.
    pub fn record(&mut self, outcome: WriteOutcome) -> (step: WriteStep)
        requires
            old(self).wf(),
        ensures
            final(self).wf(),
            (final(self)@, step) == old(self)@.record(outcome),
    {
        match outcome {
            WriteOutcome::Wrote { count } => {
                if 0 < count && count <= self.len - self.written {
                    self.written = self.written + count;
                    self.next()
                } else {
                    WriteStep::Abort { kind: ErrorKind::IoFailure }
                }
            },
            WriteOutcome::WouldBlock => WriteStep::Abort { kind: ErrorKind::WouldBlock },
            WriteOutcome::Failed => WriteStep::Abort { kind: ErrorKind::IoFailure },
        }
    }
}

} // verus!
