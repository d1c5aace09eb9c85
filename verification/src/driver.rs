//! The two-phase driver against the encoder adapter: a submission phase that
//! offers frames until the target count is reached or the adapter reports a
//! full queue, then a drain phase that turns each received packet into one
//! frame record. The driver owns the output buffer and keeps it a well-formed
//! IVF file at every step.

use crate::ivf::{
    lemma_ivf_file_push, spec_frame_record, spec_ivf_file, spec_ivf_header, write_ivf_frame,
    write_ivf_header,
};
use vstd::prelude::*;

verus! {

/// What the adapter said to one offered frame.
#[derive(Clone, Copy, Debug, PartialEq, Eq, Structural)]
pub enum SubmitStatus {
    /// The frame entered the adapter's queue.
    Accepted,
    /// The adapter's queue is full; submission must stop, but this is no error.
    QueueFull,
    /// The adapter failed; the run is aborted.
    Fatal,
}

/// What the adapter said when asked for its next packet.
pub enum PacketEvent {
    /// One encoded packet: its compressed bytes and its display-order index.
    /// Indices need not arrive in increasing order.
    Packet { data: Vec<u8>, display_index: u64 },
    /// The adapter has emitted every packet it will ever emit.
    StreamExhausted,
    /// The adapter wants more input, and none is coming: the drain ends.
    NeedMoreInput,
    /// A transient state: ask again, nothing was consumed.
    TryAgain,
    /// The adapter failed; the run is aborted.
    Fatal,
}

/// Where the driver stands.
#[derive(Clone, Copy, Debug, PartialEq, Eq, Structural)]
pub enum Phase {
    Submitting,
    Draining,
    Done,
    Failed,
}

/// Drives the submission and drain phases and accumulates the output file.
/// `frames` mirrors, in ghost form, the records written so far.
pub struct Driver {
    pub buf: Vec<u8>,
    pub width: u16,
    pub height: u16,
    pub frame_rate: u32,
    pub target: usize,
    pub submitted: usize,
    pub phase: Phase,
    pub frames: Ghost<Seq<(Seq<u8>, u64)>>,
}

impl Driver {
    /// The buffer is always the well-formed file for the frames recorded so
    /// far, and submission never exceeds its target.
    pub open spec fn wf(self) -> bool {
        &&& self.buf@ == spec_ivf_file(self.width, self.height, self.frame_rate, self.frames@)
        &&& self.submitted <= self.target
        &&& self.phase == Phase::Submitting ==> self.submitted < self.target
        &&& forall|i: int|
            0 <= i < self.frames@.len() ==> #[trigger] self.frames@[i].0.len() < 0x1_0000_0000
    }

    /// Opens the output with its header already written and no frames yet;
    /// with a zero target the submission phase is skipped.
    pub fn new(width: u16, height: u16, frame_rate: u32, target: usize) -> (d: Driver)
        ensures
            d.wf(),
            d.width == width,
            d.height == height,
            d.frame_rate == frame_rate,
            d.target == target,
            d.submitted == 0,
            d.phase == (if target == 0 { Phase::Draining } else { Phase::Submitting }),
            d.frames@ == Seq::<(Seq<u8>, u64)>::empty(),
            d.buf@ == spec_ivf_header(width, height, frame_rate),
    {
        let mut buf: Vec<u8> = Vec::new();
        write_ivf_header(&mut buf, width, height, frame_rate);
        let phase = if target == 0 {
            Phase::Draining
        } else {
            Phase::Submitting
        };
        Driver {
            buf,
            width,
            height,
            frame_rate,
            target,
            submitted: 0,
            phase,
            frames: Ghost(Seq::empty()),
        }
    }

    /// One submission-phase step. An accepted frame counts toward the target;
    /// reaching it begins the drain. A full queue also begins the drain with
    /// nothing counted — backpressure is not an error. Only a fatal report
    /// fails the run. The file bytes never change during submission.
    pub fn on_submit_status(&mut self, s: SubmitStatus)
        requires
            old(self).wf(),
            old(self).phase == Phase::Submitting,
        ensures
            final(self).wf(),
            final(self).buf == old(self).buf,
            final(self).frames == old(self).frames,
            final(self).width == old(self).width,
            final(self).height == old(self).height,
            final(self).frame_rate == old(self).frame_rate,
            final(self).target == old(self).target,
            s == SubmitStatus::Accepted ==> final(self).submitted == old(self).submitted + 1
                && final(self).phase == (if old(self).submitted + 1 == old(self).target {
                Phase::Draining
            } else {
                Phase::Submitting
            }),
            s == SubmitStatus::QueueFull ==> final(self).submitted == old(self).submitted
                && final(self).phase == Phase::Draining,
            s == SubmitStatus::Fatal ==> final(self).submitted == old(self).submitted
                && final(self).phase == Phase::Failed,
    {
        match s {
            SubmitStatus::Accepted => {
                self.submitted = self.submitted + 1;
                if self.submitted == self.target {
                    self.phase = Phase::Draining;
                }
            },
            SubmitStatus::QueueFull => {
                self.phase = Phase::Draining;
            },
            SubmitStatus::Fatal => {
                self.phase = Phase::Failed;
            },
        }
    }

    /// One drain-phase step. A packet becomes one frame record, appended in
    /// arrival order with its display index as the timestamp, monotonic or
    /// not. A payload too long for the 4-byte length prefix is unsupported
    /// and fails the run. Stream exhaustion and a want of further input both
    /// end the drain normally; a transient state changes nothing.
    pub fn on_packet_event(&mut self, e: PacketEvent)
        requires
            old(self).wf(),
            old(self).phase == Phase::Draining,
        ensures
            final(self).wf(),
            final(self).width == old(self).width,
            final(self).height == old(self).height,
            final(self).frame_rate == old(self).frame_rate,
            final(self).target == old(self).target,
            final(self).submitted == old(self).submitted,
            match e {
                PacketEvent::Packet { data, display_index } => {
                    if data@.len() < 0x1_0000_0000 {
                        &&& final(self).phase == Phase::Draining
                        &&& final(self).frames@ == old(self).frames@.push((data@, display_index))
                        &&& final(self).buf@ == old(self).buf@ + spec_frame_record(
                            data@,
                            display_index,
                        )
                    } else {
                        &&& final(self).phase == Phase::Failed
                        &&& final(self).frames == old(self).frames
                        &&& final(self).buf == old(self).buf
                    }
                },
                PacketEvent::StreamExhausted => final(self).phase == Phase::Done
                    && final(self).frames == old(self).frames
                    && final(self).buf == old(self).buf,
                PacketEvent::NeedMoreInput => final(self).phase == Phase::Done
                    && final(self).frames == old(self).frames
                    && final(self).buf == old(self).buf,
                PacketEvent::TryAgain => final(self).phase == Phase::Draining
                    && final(self).frames == old(self).frames
                    && final(self).buf == old(self).buf,
                PacketEvent::Fatal => final(self).phase == Phase::Failed
                    && final(self).frames == old(self).frames
                    && final(self).buf == old(self).buf,
            },
    {
        match e {
            PacketEvent::Packet { data, display_index } => {
                if (data.len() as u64) < 0x1_0000_0000u64 {
                    write_ivf_frame(&mut self.buf, &data, display_index);
                    proof {
                        lemma_ivf_file_push(
                            self.width,
                            self.height,
                            self.frame_rate,
                            self.frames@,
                            data@,
                            display_index,
                        );
                    }
                    self.frames = Ghost(self.frames@.push((data@, display_index)));
                } else {
                    self.phase = Phase::Failed;
                }
            },
            PacketEvent::StreamExhausted => {
                self.phase = Phase::Done;
            },
            PacketEvent::NeedMoreInput => {
                self.phase = Phase::Done;
            },
            PacketEvent::TryAgain => {
            },
            PacketEvent::Fatal => {
                self.phase = Phase::Failed;
            },
        }
    }

    /// Ends the run and hands the accumulated file over.
    pub fn into_bytes(self) -> (r: Vec<u8>)
        ensures
            r == self.buf,
    {
        self.buf
    }
}

} // verus!
