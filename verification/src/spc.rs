//! The caller's side of one emulator instance: its output buffers and its
//! place in the current frame.
//!
//! The engine writes samples into one of two buffers of equal size while the
//! caller reads what was last flushed from the other. This module decides
//! which buffer the engine is to write to; the caller tells the engine.
//!
//! Time is counted in clocks from the start of a frame. Within a frame the
//! mailbox ports are read and written at times that never go back, and the
//! frame ends at a time that is no earlier than the last of them. The next
//! frame starts at zero.
use vstd::prelude::*;
use libc::c_int;
use crate::args::{clock_time, port_data, port_index, stereo_len, valid_buffer_size};
use crate::constants::{Sample, PORT_COUNT};
use crate::error::{Error, ErrorKind};

verus! {

/// Where the engine is to put the samples that it generates.
#[derive(Clone, Copy, Debug, PartialEq, Eq, Structural)]
pub enum OutputTarget {
    /// Nowhere: generated samples are thrown away.
    Discard,
    /// The first buffer.
    BufferA,
    /// The second buffer.
    BufferB,
}

/// The latest time that the engine can be told of.
pub const MAX_TIME: usize = 0x7fff_ffff;

/// A read of a mailbox port, as the engine is to be asked for it.
#[derive(Clone, Copy, Debug, PartialEq, Eq, Structural)]
pub struct PortRead {
    /// The time of the read, in clocks from the start of the frame.
    pub time: c_int,
    /// The number of the port.
    pub port: c_int,
}

/// A write to a mailbox port, as the engine is to be told of it.
#[derive(Clone, Copy, Debug, PartialEq, Eq, Structural)]
pub struct PortWrite {
    /// The time of the write, in clocks from the start of the frame.
    pub time: c_int,
    /// The number of the port.
    pub port: c_int,
    /// The byte to write.
    pub data: c_int,
}

/// The caller's side of one emulator instance.
#[derive(Debug)]
pub struct Spc {
    buffer_a: Vec<Sample>,
    buffer_b: Vec<Sample>,
    buffer_a_active: bool,
    buffer_enabled: bool,
    time: usize,
}

/// The mathematical content of a [`Spc`].
pub struct SpcView {
    /// Contents of the first buffer.
    pub buffer_a: Seq<Sample>,
    /// Contents of the second buffer.
    pub buffer_b: Seq<Sample>,
    /// Whether the first buffer is the one that the engine writes to.
    pub a_active: bool,
    /// Whether the engine writes to a buffer at all.
    pub enabled: bool,
    /// The time of the latest port access in the current frame.
    pub time: nat,
}

impl SpcView {
    /// Both buffers have one valid length.
    pub open spec fn wf(self) -> bool {
        &&& self.buffer_a.len() == self.buffer_b.len()
        &&& valid_buffer_size(self.buffer_a.len() as int)
    }

    /// The length of each buffer.
    pub open spec fn capacity(self) -> nat {
        self.buffer_a.len()
    }

    /// The buffer that the engine writes to while output is enabled.
    pub open spec fn active(self) -> Seq<Sample> {
        if self.a_active {
            self.buffer_a
        } else {
            self.buffer_b
        }
    }

    /// Where the engine is to write.
    pub open spec fn target(self) -> OutputTarget {
        if !self.enabled {
            OutputTarget::Discard
        } else if self.a_active {
            OutputTarget::BufferA
        } else {
            OutputTarget::BufferB
        }
    }

    /// Whether something can happen at `time` in the current frame: time
    /// does not go back, and the engine can be told of it.
    pub open spec fn in_order(self, time: int) -> bool {
        self.time <= time <= MAX_TIME
    }

    /// The instance after a port access at `time`.
    pub open spec fn at(self, time: nat) -> SpcView {
        SpcView { time, ..self }
    }

    /// The instance at the start of a frame.
    pub open spec fn at_frame_start(self) -> SpcView {
        SpcView { time: 0, ..self }
    }
}

impl View for Spc {
    type V = SpcView;

    closed spec fn view(&self) -> SpcView {
        SpcView {
            buffer_a: self.buffer_a@,
            buffer_b: self.buffer_b@,
            a_active: self.buffer_a_active,
            enabled: self.buffer_enabled,
            time: self.time as nat,
        }
    }
}

/// A buffer of `len` samples of silence.
fn silence(len: usize) -> (buffer: Vec<Sample>)
    ensures
        buffer@ == Seq::new(len as nat, |i: int| 0i16),
{
    let mut buffer: Vec<Sample> = Vec::new();
    let mut i: usize = 0;
    while i < len
        invariant
            i <= len,
            buffer@ == Seq::new(i as nat, |k: int| 0i16),
        decreases len - i,
    {
        buffer.push(0);
        i = i + 1;
    }
    buffer
}

impl Spc {
    /// Makes the caller's side of an instance: two silent buffers of
    /// `buffer_size` samples each, output disabled, the first buffer next in
    /// line, at the start of a frame. A length that is odd, or too large
    /// for the engine, is refused.
    pub fn new(buffer_size: usize) -> (r: Result<Spc, Error>)
        ensures
            valid_buffer_size(buffer_size as int) ==> (r matches Ok(spc) && spc@.wf() && spc@
                == (SpcView {
                buffer_a: Seq::new(buffer_size as nat, |i: int| 0i16),
                buffer_b: Seq::new(buffer_size as nat, |i: int| 0i16),
                a_active: true,
                enabled: false,
                time: 0,
            })),
            !valid_buffer_size(buffer_size as int) ==> (r matches Err(e) && e.spec_kind()
                == ErrorKind::InvalidBufferSize),
    {
        match stereo_len(buffer_size) {
            Err(e) => Err(e),
            Ok(_) => Ok(
                Spc {
                    buffer_a: silence(buffer_size),
                    buffer_b: silence(buffer_size),
                    buffer_a_active: true,
                    buffer_enabled: false,
                    time: 0,
                },
            ),
        }
    }

    /// Switches output to the buffers on or off. Where that changes
    /// nothing, nothing is to be done and `None` comes back. Otherwise the
    /// first buffer becomes the active one, and the result names what the
    /// engine must now be told to write to.
    pub fn enable_buffer(&mut self, val: bool) -> (r: Option<OutputTarget>)
        ensures
            old(self)@.enabled == val ==> (r is None && final(self)@ == old(self)@),
            old(self)@.enabled != val ==> (final(self)@ == (SpcView {
                a_active: true,
                enabled: val,
                ..old(self)@
            }) && r == Some(final(self)@.target())),
    {
        if self.buffer_enabled == val {
            return None;
        }
        self.buffer_a_active = true;
        self.buffer_enabled = val;
        if val {
            Some(OutputTarget::BufferA)
        } else {
            Some(OutputTarget::Discard)
        }
    }

    /// Hands out the first `sample_count` samples of the active buffer,
    /// which the engine reports to have written, and makes the other buffer
    /// the active one. The engine is to be told of the new target, which
    /// [`Spc::standby`] names beforehand and [`Spc::target`] afterwards.
    pub fn flush_buffer(&mut self, sample_count: usize) -> (samples: &[Sample])
        requires
            old(self)@.wf(),
            old(self)@.enabled,
            sample_count <= old(self)@.capacity(),
        ensures
            samples@ == old(self)@.active().subrange(0, sample_count as int),
            final(self)@ == (SpcView { a_active: !old(self)@.a_active, ..old(self)@ }),
    {
        if self.buffer_a_active {
            self.buffer_a_active = false;
            vstd::slice::slice_subrange(self.buffer_a.as_slice(), 0, sample_count)
        } else {
            self.buffer_a_active = true;
            vstd::slice::slice_subrange(self.buffer_b.as_slice(), 0, sample_count)
        }
    }

    /// Reads a mailbox port at `time`. Where there is such a port and
    /// `time` is in order, the read is noted and comes back as the engine
    /// is to be asked for it. Otherwise nothing changes and nothing comes
    /// back.
    pub fn read_port(&mut self, time: usize, port: u32) -> (call: Option<PortRead>)
        ensures
            old(self)@.in_order(time as int) && port < PORT_COUNT ==> (call matches Some(read)
                && read.time == time && read.port == port && final(self)@ == old(self)@.at(
                time as nat,
            )),
            !(old(self)@.in_order(time as int) && port < PORT_COUNT) ==> (call is None
                && final(self)@ == old(self)@),
    {
        if time < self.time {
            return None;
        }
        match (clock_time(time), port_index(port)) {
            (Some(t), Some(p)) => {
                self.time = time;
                Some(PortRead { time: t, port: p })
            },
            _ => None,
        }
    }

    /// Writes `data` to a mailbox port at `time`. Where there is such a
    /// port and `time` is in order, the write is noted and comes back as
    /// the engine is to be told of it. Otherwise nothing changes and
    /// nothing comes back.
    pub fn write_port(&mut self, time: usize, port: u32, data: u8) -> (call: Option<PortWrite>)
        ensures
            old(self)@.in_order(time as int) && port < PORT_COUNT ==> (call matches Some(write)
                && write.time == time && write.port == port && write.data == data && final(self)@
                == old(self)@.at(time as nat)),
            !(old(self)@.in_order(time as int) && port < PORT_COUNT) ==> (call is None
                && final(self)@ == old(self)@),
    {
        if time < self.time {
            return None;
        }
        match (clock_time(time), port_index(port)) {
            (Some(t), Some(p)) => {
                self.time = time;
                Some(PortWrite { time: t, port: p, data: port_data(data) })
            },
            _ => None,
        }
    }

    /// Ends the frame at `end_time`. Where `end_time` is in order, the next
    /// frame starts at zero, and the time comes back as the engine is to be
    /// told of it. Otherwise nothing changes and nothing comes back.
    pub fn end_frame(&mut self, end_time: usize) -> (call: Option<c_int>)
        ensures
            old(self)@.in_order(end_time as int) ==> (call matches Some(t) && t == end_time
                && final(self)@ == old(self)@.at_frame_start()),
            !old(self)@.in_order(end_time as int) ==> (call is None
                && final(self)@ == old(self)@),
    {
        if end_time < self.time {
            return None;
        }
        match clock_time(end_time) {
            Some(t) => {
                self.time = 0;
                Some(t)
            },
            None => None,
        }
    }

    /// Notes that the engine was reset to its power-on state: a frame starts.
    pub fn reset(&mut self)
        ensures
            final(self)@ == old(self)@.at_frame_start(),
    {
        self.time = 0;
    }

    /// Notes that the reset switch of the engine was pressed: a frame starts.
    pub fn soft_reset(&mut self)
        ensures
            final(self)@ == old(self)@.at_frame_start(),
    {
        self.time = 0;
    }

    /// The time of the latest port access in the current frame.
    pub fn time(&self) -> (time: usize)
        ensures
            time == self@.time,
    {
        self.time
    }

    /// Whether output to the buffers is switched on.
    pub fn buffer_enabled(&self) -> (enabled: bool)
        ensures
            enabled == self@.enabled,
    {
        self.buffer_enabled
    }

    /// The length of each of the two buffers, in samples.
    pub fn capacity(&self) -> (len: usize)
        ensures
            len == self@.capacity(),
    {
        self.buffer_a.len()
    }

    /// Where the engine is to write now.
    pub fn target(&self) -> (target: OutputTarget)
        ensures
            target == self@.target(),
    {
        if !self.buffer_enabled {
            OutputTarget::Discard
        } else if self.buffer_a_active {
            OutputTarget::BufferA
        } else {
            OutputTarget::BufferB
        }
    }

    /// Where the engine is to write after the next flush.
    pub fn standby(&self) -> (target: OutputTarget)
        ensures
            target == (SpcView { a_active: !self@.a_active, ..self@ }).target(),
    {
        if !self.buffer_enabled {
            OutputTarget::Discard
        } else if self.buffer_a_active {
            OutputTarget::BufferB
        } else {
            OutputTarget::BufferA
        }
    }

    /// The samples of the buffer that `target` names, for the engine to
    /// fill; nothing for `Discard`. What is written there becomes the
    /// content of that buffer, and all else stays as it is.
    pub fn buffer_mut(&mut self, target: OutputTarget) -> (buffer: Option<&mut [Sample]>)
        ensures
            target == OutputTarget::Discard ==> (buffer is None && final(self)@ == old(self)@),
            target == OutputTarget::BufferA ==> (buffer matches Some(samples) && samples@
                == old(self)@.buffer_a && final(self)@ == (SpcView {
                buffer_a: final(samples)@,
                ..old(self)@
            })),
            target == OutputTarget::BufferB ==> (buffer matches Some(samples) && samples@
                == old(self)@.buffer_b && final(self)@ == (SpcView {
                buffer_b: final(samples)@,
                ..old(self)@
            })),
    {
        match target {
            OutputTarget::Discard => None,
            OutputTarget::BufferA => Some(self.buffer_a.as_mut_slice()),
            OutputTarget::BufferB => Some(self.buffer_b.as_mut_slice()),
        }
    }
}

/// Within a frame, what is accepted at a time can be followed by anything
/// at that time or later, up to the end of the frame; so a port access at
/// the very time at which the frame ends is accepted before the frame ends.
/// After the end of a frame every time that the engine can be told of is in
/// order again.
pub proof fn frame_order(spc: SpcView, time: nat, later: nat, next: nat)
    requires
        spc.in_order(time as int),
        time <= later <= MAX_TIME,
        next <= MAX_TIME,
    ensures
        spc.at(time).in_order(later as int),
        spc.at(time).in_order(time as int),
        spc.at(time).at_frame_start().in_order(next as int),
        forall|earlier: int| earlier < time ==> !spc.at(time).in_order(earlier),
{
}

} // verus!
