//! One audio pipeline: a sample ring fed by the caller and drained, one
//! 10 ms frame per pacing tick, towards a network audio sink.

use crate::ring::{fitting, RingChannel};
use crate::text::{decimal, decimal_digits};
use crate::types::LkAudioStats;
use vstd::prelude::*;
use vstd::string::StringExecFns;

verus! {

/// Smallest buffer depth, in milliseconds.
pub const MIN_BUFFER_MS: u32 = 100;

/// Largest buffer depth, in milliseconds.
pub const MAX_BUFFER_MS: u32 = 5000;

/// Buffer depth used when the caller names none.
pub const DEFAULT_BUFFER_MS: u32 = 1000;

/// Pacing period, in milliseconds.
pub const TICK_MS: u64 = 10;

/// The buffer depth in effect for a requested depth.
pub open spec fn clamp_buffer_ms(buffer_ms: u32) -> u32 {
    if buffer_ms < MIN_BUFFER_MS {
        MIN_BUFFER_MS
    } else if buffer_ms > MAX_BUFFER_MS {
        MAX_BUFFER_MS
    } else {
        buffer_ms
    }
}

/// Samples per channel in one 10 ms frame: a hundredth of the rate, at
/// least one.
pub open spec fn samples_per_tick(sample_rate: u32) -> nat {
    if sample_rate / 100 >= 1 {
        (sample_rate / 100) as nat
    } else {
        1
    }
}

/// Interleaved samples in one 10 ms frame.
pub open spec fn frame_len(sample_rate: u32, channels: u32) -> nat {
    samples_per_tick(sample_rate) * channels as nat
}

/// Slots of the ring: the samples of `buffer_ms` (clamped) of audio, at least
/// one frame and at least one slot.
pub open spec fn ring_slots(sample_rate: u32, channels: u32, buffer_ms: u32) -> nat {
    let timed = (sample_rate as nat * channels as nat * clamp_buffer_ms(buffer_ms) as nat) / 1000;
    let frame = frame_len(sample_rate, channels);
    let most = if timed >= frame {
        timed
    } else {
        frame
    };
    if most >= 1 {
        most
    } else {
        1
    }
}

/// The ring's capacity counted in whole frames of one sample per channel,
/// at least one.
pub open spec fn ring_frames(slots: nat, channels: u32) -> nat {
    if channels > 0 && slots / (channels as nat) >= 1 {
        slots / (channels as nat)
    } else {
        1
    }
}

/// Depth of the queue that the network sink keeps for itself, in
/// milliseconds: the pipeline's depth in whole steps of ten, cut down as far
/// as needed for depth times rate times channels to stay within 32 bits, which
/// is what the sink counts its queue in. Zero stands for a sink without a
/// queue of its own.
pub open spec fn sink_queue_ms(sample_rate: u32, channels: u32, buffer_ms: u32) -> nat {
    let per_second = sample_rate as nat * channels as nat;
    let depth = clamp_buffer_ms(buffer_ms) as nat;
    let most = if per_second > 0 && (u32::MAX as nat) / per_second < depth {
        (u32::MAX as nat) / per_second
    } else {
        depth
    };
    (most / 10) * 10
}

/// A counter one step on; it stays at its largest value once there.
pub open spec fn bump(counter: i32) -> i32 {
    if counter < i32::MAX {
        (counter + 1) as i32
    } else {
        counter
    }
}

/// `n` samples of silence.
pub open spec fn silence(n: nat) -> Seq<i16> {
    Seq::new(n, |i: int| 0i16)
}

/// The frame delivered at a tick when `queued` samples wait: the oldest
/// `frame` of them in order, and silence where they run short.
pub open spec fn paced_frame(queued: Seq<i16>, frame: nat) -> Seq<i16> {
    let got = fitting(frame, queued.len());
    queued.take(got as int) + silence((frame - got) as nat)
}

/// Sizes of a pipeline, worked out from its format before anything is built.
#[derive(Copy, Clone, Debug, PartialEq, Eq, Structural)]
pub struct PipelinePlan {
    pub sample_rate: u32,
    pub channels: u32,
    pub buffer_ms: u32,
    pub samples_per_10ms: u32,
    pub frame_samples: usize,
    pub capacity_samples: usize,
    pub capacity_frames: usize,
    pub sink_queue_ms: u32,
}

impl PipelinePlan {
    /// The plan is the one that `plan_pipeline` makes for its format and some
    /// requested depth.
    pub open spec fn wf(&self) -> bool {
        &&& self.sample_rate > 0
        &&& self.channels > 0
        &&& MIN_BUFFER_MS <= self.buffer_ms <= MAX_BUFFER_MS
        &&& self.samples_per_10ms == samples_per_tick(self.sample_rate)
        &&& self.frame_samples == frame_len(self.sample_rate, self.channels)
        &&& self.capacity_samples == ring_slots(self.sample_rate, self.channels, self.buffer_ms)
        &&& self.capacity_frames == ring_frames(self.capacity_samples as nat, self.channels)
        &&& self.sink_queue_ms == sink_queue_ms(self.sample_rate, self.channels, self.buffer_ms)
        &&& 2 * self.capacity_samples <= isize::MAX
    }
}

/// Why no pipeline can be planned for a format.
#[derive(Copy, Clone, Debug, PartialEq, Eq, Structural)]
pub enum PlanError {
    /// The sample rate or the channel count is zero.
    InvalidParameters,
    /// The ring would not fit into memory that can be allocated.
    BufferTooLarge,
}

/// The plan for a format, as a value.
pub open spec fn plan_of(sample_rate: u32, channels: u32, buffer_ms: u32) -> PipelinePlan {
    let slots = ring_slots(sample_rate, channels, buffer_ms);
    PipelinePlan {
        sample_rate,
        channels,
        buffer_ms: clamp_buffer_ms(buffer_ms),
        samples_per_10ms: samples_per_tick(sample_rate) as u32,
        frame_samples: frame_len(sample_rate, channels) as usize,
        capacity_samples: slots as usize,
        capacity_frames: ring_frames(slots, channels) as usize,
        sink_queue_ms: sink_queue_ms(sample_rate, channels, buffer_ms) as u32,
    }
}

/// What `plan_pipeline` answers for a format.
pub open spec fn plan_result(sample_rate: u32, channels: u32, buffer_ms: u32) -> Result<
    PipelinePlan,
    PlanError,
> {
    if sample_rate == 0 || channels == 0 {
        Err(PlanError::InvalidParameters)
    } else if 2 * ring_slots(sample_rate, channels, buffer_ms) > isize::MAX {
        Err(PlanError::BufferTooLarge)
    } else {
        Ok(plan_of(sample_rate, channels, buffer_ms))
    }
}

proof fn lemma_sizes(sample_rate: u32, channels: u32, buffer_ms: u32)
    requires
        sample_rate > 0,
        channels > 0,
    ensures
        sample_rate as nat * channels as nat <= 0xFFFF_FFFE_0000_0001,
        sample_rate as nat * channels as nat * clamp_buffer_ms(buffer_ms) as nat
            <= 0xFFFF_FFFE_0000_0001 * 5000,
        frame_len(sample_rate, channels) <= 0xFFFF_FFFE_0000_0001,
        1 <= frame_len(sample_rate, channels) <= ring_slots(sample_rate, channels, buffer_ms),
        channels <= frame_len(sample_rate, channels),
{
    let s = sample_rate as nat;
    let c = channels as nat;
    let m = clamp_buffer_ms(buffer_ms) as nat;
    let t = samples_per_tick(sample_rate);
    assert(s * c <= 0xFFFF_FFFF * 0xFFFF_FFFF) by (nonlinear_arith)
        requires
            s <= 0xFFFF_FFFF,
            c <= 0xFFFF_FFFF,
    ;
    assert(s * c * m <= 0xFFFF_FFFE_0000_0001 * 5000) by (nonlinear_arith)
        requires
            s * c <= 0xFFFF_FFFE_0000_0001,
            m <= 5000,
    ;
    assert(t * c <= 0xFFFF_FFFF * 0xFFFF_FFFF) by (nonlinear_arith)
        requires
            t <= 0xFFFF_FFFF,
            c <= 0xFFFF_FFFF,
    ;
    assert(c <= t * c) by (nonlinear_arith)
        requires
            t >= 1,
    ;
}

/// Validates a format and works out the sizes of its pipeline: the depth is
/// clamped to `[100, 5000]` ms, a frame holds 10 ms, the ring holds the
/// depth, at least one frame, and the sink's own queue is as deep as the ring
/// as far as the sink can count it.
pub fn plan_pipeline(sample_rate: u32, channels: u32, buffer_ms: u32) -> (res: Result<
    PipelinePlan,
    PlanError,
>)
    ensures
        res == plan_result(sample_rate, channels, buffer_ms),
        res matches Ok(plan) ==> plan.wf(),
{
    if sample_rate == 0 || channels == 0 {
        return Err(PlanError::InvalidParameters);
    }
    proof {
        lemma_sizes(sample_rate, channels, buffer_ms);
    }
    let depth: u32 = if buffer_ms < MIN_BUFFER_MS {
        MIN_BUFFER_MS
    } else if buffer_ms > MAX_BUFFER_MS {
        MAX_BUFFER_MS
    } else {
        buffer_ms
    };
    let per_tick: u32 = if sample_rate / 100 >= 1 {
        sample_rate / 100
    } else {
        1
    };
    let frame: u128 = per_tick as u128 * channels as u128;
    let timed: u128 = (sample_rate as u128 * channels as u128) * depth as u128 / 1000;
    let most: u128 = if timed >= frame {
        timed
    } else {
        frame
    };
    let slots: u128 = if most >= 1 {
        most
    } else {
        1
    };
    let limit: u128 = (isize::MAX as u128) / 2;
    if slots > limit {
        return Err(PlanError::BufferTooLarge);
    }
    let frames: u128 = if slots / (channels as u128) >= 1 {
        slots / (channels as u128)
    } else {
        1
    };
    assert(frames <= slots) by {
        assert(slots / (channels as u128) <= slots) by (nonlinear_arith)
            requires
                channels >= 1,
                slots >= 0,
        ;
    }
    assert(sample_rate as nat * channels as nat >= 1) by (nonlinear_arith)
        requires
            sample_rate >= 1,
            channels >= 1,
    ;
    let per_second: u64 = sample_rate as u64 * channels as u64;
    let fits: u64 = (u32::MAX as u64) / per_second;
    let most: u64 = if fits < depth as u64 {
        fits
    } else {
        depth as u64
    };
    let queue: u64 = most / 10 * 10;
    let plan = PipelinePlan {
        sample_rate,
        channels,
        buffer_ms: depth,
        samples_per_10ms: per_tick,
        frame_samples: frame as usize,
        capacity_samples: slots as usize,
        capacity_frames: frames as usize,
        sink_queue_ms: queue as u32,
    };
    Ok(plan)
}

/// The ring of a pipeline, with its size in frames and the counters of the
/// pipeline's underruns and overruns.
pub struct AudioRing {
    channel: RingChannel,
    capacity_frames: usize,
    underruns: i32,
    overruns: i32,
}

/// Frames reported as queued: the slots counted as `capacity_frames` whole
/// frames, less the free slots, in whole frames; zero for zero channels.
pub open spec fn queued_frames_of(capacity_frames: nat, channels: u32, free: nat) -> nat {
    if channels == 0 {
        0
    } else {
        let product = capacity_frames * channels as nat;
        let total = if product <= usize::MAX {
            product
        } else {
            usize::MAX as nat
        };
        let used = if total >= free {
            (total - free) as nat
        } else {
            0
        };
        used / (channels as nat)
    }
}

impl AudioRing {
    /// The ring is in order.
    pub closed spec fn wf(&self) -> bool {
        self.channel.wf()
    }

    /// The ring's capacity counted in whole frames.
    pub closed spec fn capacity_frames(&self) -> nat {
        self.capacity_frames as nat
    }

    /// The slots free for writing.
    pub closed spec fn free(&self) -> nat {
        self.channel.free()
    }

    /// An estimate of the queue's depth in frames of `channels` samples, for
    /// diagnostics only.
    pub fn queued_frames(&self, channels: u32) -> (n: usize)
        requires
            self.wf(),
        ensures
            n == queued_frames_of(self.capacity_frames(), channels, self.free()),
    {
        if channels == 0 {
            return 0;
        }
        assert(self.capacity_frames as nat * channels as nat <= 0xFFFF_FFFF_FFFF_FFFF
            * 0xFFFF_FFFF) by (nonlinear_arith)
            requires
                self.capacity_frames as nat <= 0xFFFF_FFFF_FFFF_FFFF,
                channels as nat <= 0xFFFF_FFFF,
        ;
        let product: u128 = self.capacity_frames as u128 * channels as u128;
        let total_samples: usize = if product <= usize::MAX as u128 {
            product as usize
        } else {
            usize::MAX
        };
        let free_slots: usize = self.channel.free_slots();
        let used_samples: usize = if total_samples >= free_slots {
            total_samples - free_slots
        } else {
            0
        };
        used_samples / channels as usize
    }
}

/// A pipeline as a value: its format, its sizes, the samples waiting in its
/// ring (oldest first) and its counters.
pub ghost struct PipelineView {
    pub label: Seq<char>,
    pub sample_rate: u32,
    pub channels: u32,
    pub frame_samples: nat,
    pub capacity_samples: nat,
    pub capacity_frames: nat,
    pub queued: Seq<i16>,
    pub underruns: i32,
    pub overruns: i32,
}

impl PipelineView {
    /// The pipeline right after it was built from `plan` under `label`.
    pub open spec fn fresh(label: Seq<char>, plan: PipelinePlan) -> PipelineView {
        PipelineView {
            label,
            sample_rate: plan.sample_rate,
            channels: plan.channels,
            frame_samples: plan.frame_samples as nat,
            capacity_samples: plan.capacity_samples as nat,
            capacity_frames: plan.capacity_frames as nat,
            queued: Seq::empty(),
            underruns: 0,
            overruns: 0,
        }
    }

    /// Slots free for writing.
    pub open spec fn free(self) -> nat {
        (self.capacity_samples - self.queued.len()) as nat
    }

    /// What a push of the batch `data` answers: the batch must hold a whole
    /// number of frames.
    pub open spec fn push_result(self, data: Seq<i16>) -> Result<(), PushError> {
        if data.len() % (self.channels as nat) != 0 {
            Err(PushError::Misaligned { len: data.len() as usize, channels: self.channels })
        } else {
            Ok(())
        }
    }

    /// The pipeline after an accepted batch `data`: the samples that fit
    /// are queued in order, the rest is dropped, and a batch that did not fit
    /// whole counts as one overrun.
    pub open spec fn after_push(self, data: Seq<i16>) -> PipelineView {
        let kept = fitting(data.len(), self.free());
        PipelineView {
            queued: self.queued + data.take(kept as int),
            overruns: if kept < data.len() {
                bump(self.overruns)
            } else {
                self.overruns
            },
            ..self
        }
    }

    /// The pipeline after a pacing tick: up to one frame of samples has left
    /// the ring, and a frame that came up short counts as one underrun.
    pub open spec fn after_tick(self) -> PipelineView {
        let got = fitting(self.frame_samples, self.queued.len());
        PipelineView {
            queued: self.queued.skip(got as int),
            underruns: if got < self.frame_samples {
                bump(self.underruns)
            } else {
                self.underruns
            },
            ..self
        }
    }

    /// The frame that a pacing tick delivers.
    pub open spec fn tick_frame(self) -> AudioFrameView {
        AudioFrameView {
            sample_rate: self.sample_rate,
            num_channels: self.channels,
            samples_per_channel: samples_per_tick(self.sample_rate) as u32,
            data: paced_frame(self.queued, self.frame_samples),
        }
    }

    /// The statistics snapshot of this pipeline; values too large for the
    /// record are reported as its largest value.
    pub open spec fn stats(self) -> LkAudioStats {
        LkAudioStats {
            sample_rate: capped(self.sample_rate as nat),
            channels: capped(self.channels as nat),
            ring_capacity_frames: capped(self.capacity_frames),
            ring_queued_frames: capped(
                queued_frames_of(self.capacity_frames, self.channels, self.free()),
            ),
            underruns: self.underruns,
            overruns: self.overruns,
        }
    }
}

/// `n` as a statistics field, which holds at most `i32::MAX`.
pub open spec fn capped(n: nat) -> i32 {
    if n <= i32::MAX {
        n as i32
    } else {
        i32::MAX
    }
}

fn cap_usize(n: usize) -> (c: i32)
    ensures
        c == capped(n as nat),
{
    if n <= i32::MAX as usize {
        n as i32
    } else {
        i32::MAX
    }
}

fn cap_u32(n: u32) -> (c: i32)
    ensures
        c == capped(n as nat),
{
    if n <= i32::MAX as u32 {
        n as i32
    } else {
        i32::MAX
    }
}

fn bumped(counter: i32) -> (next: i32)
    ensures
        next == bump(counter),
{
    if counter < i32::MAX {
        counter + 1
    } else {
        counter
    }
}

/// One frame of interleaved samples, as handed to the network audio sink.
#[derive(Clone, Debug, PartialEq, Eq)]
pub struct AudioFrame {
    pub sample_rate: u32,
    pub num_channels: u32,
    pub samples_per_channel: u32,
    pub data: Vec<i16>,
}

/// A frame as a value.
pub ghost struct AudioFrameView {
    pub sample_rate: u32,
    pub num_channels: u32,
    pub samples_per_channel: u32,
    pub data: Seq<i16>,
}

impl View for AudioFrame {
    type V = AudioFrameView;

    open spec fn view(&self) -> AudioFrameView {
        AudioFrameView {
            sample_rate: self.sample_rate,
            num_channels: self.num_channels,
            samples_per_channel: self.samples_per_channel,
            data: self.data@,
        }
    }
}

/// Why a batch of samples was not queued.
#[derive(Copy, Clone, Debug, PartialEq, Eq, Structural)]
pub enum PushError {
    /// The batch does not hold a whole number of frames.
    Misaligned { len: usize, channels: u32 },
}

impl PushError {
    /// The message of this error, as text.
    pub open spec fn message_spec(self) -> Seq<char> {
        match self {
            PushError::Misaligned { len, channels } => "pcm payload len "@ + decimal_digits(
                len as nat,
            ) + " is not divisible by channel count "@ + decimal_digits(channels as nat),
        }
    }

    /// The message of this error.
    pub fn message(&self) -> (text: String)
        ensures
            text@ == self.message_spec(),
    {
        match self {
            PushError::Misaligned { len, channels } => {
                let text = "pcm payload len ".to_owned();
                let text = text.concat(decimal(*len as u64).as_str());
                let text = text.concat(" is not divisible by channel count ");
                text.concat(decimal(*channels as u64).as_str())
            },
        }
    }
}

/// An audio pipeline: a fixed format, a ring of waiting samples and the
/// counters of its overruns and underruns.
pub struct AudioPipeline {
    label: String,
    sample_rate: u32,
    channels: u32,
    ring: AudioRing,
    frame_samples: usize,
}

impl View for AudioPipeline {
    type V = PipelineView;

    closed spec fn view(&self) -> PipelineView {
        PipelineView {
            label: self.label@,
            sample_rate: self.sample_rate,
            channels: self.channels,
            frame_samples: self.frame_samples as nat,
            capacity_samples: self.ring.channel.capacity(),
            capacity_frames: self.ring.capacity_frames as nat,
            queued: self.ring.channel@,
            underruns: self.ring.underruns,
            overruns: self.ring.overruns,
        }
    }
}

impl AudioPipeline {
    /// The format is valid, the frame is 10 ms of it, and the ring is in
    /// order and holds at least one frame.
    pub closed spec fn wf(&self) -> bool {
        &&& self.ring.channel.wf()
        &&& self.sample_rate > 0
        &&& self.channels > 0
        &&& self.frame_samples == frame_len(self.sample_rate, self.channels)
        &&& self.frame_samples <= self.ring.channel.capacity()
        &&& self.ring.capacity_frames == ring_frames(self.ring.channel.capacity(), self.channels)
    }

    /// What well-formedness says of the pipeline as a value.
    pub proof fn lemma_wf(&self)
        requires
            self.wf(),
        ensures
            self@.sample_rate > 0,
            self@.channels > 0,
            self@.frame_samples == frame_len(self@.sample_rate, self@.channels),
            self@.queued.len() <= self@.capacity_samples,
            self@.frame_samples <= self@.capacity_samples,
            self@.capacity_samples <= usize::MAX,
            self@.capacity_frames == ring_frames(self@.capacity_samples, self@.channels),
    {
        self.ring.channel.lemma_bounded();
    }

    /// Builds the pipeline that `plan` describes, with an empty ring and
    /// counters at zero.
    pub fn new(label: &str, plan: &PipelinePlan) -> (pipeline: AudioPipeline)
        requires
            plan.wf(),
        ensures
            pipeline.wf(),
            pipeline@ == PipelineView::fresh(label@, *plan),
    {
        let channel = RingChannel::new(plan.capacity_samples);
        AudioPipeline {
            label: label.to_owned(),
            sample_rate: plan.sample_rate,
            channels: plan.channels,
            ring: AudioRing {
                channel,
                capacity_frames: plan.capacity_frames,
                underruns: 0,
                overruns: 0,
            },
            frame_samples: plan.frame_samples,
        }
    }

    /// Queues a batch of interleaved samples without blocking. A batch that
    /// is not a whole number of frames is refused and nothing is queued.
    /// Otherwise the samples that fit are queued in order and the rest of the
    /// batch is dropped, which counts as one overrun however many were
    /// dropped.
    pub fn push(&mut self, data: &[i16]) -> (res: Result<(), PushError>)
        requires
            old(self).wf(),
        ensures
            final(self).wf(),
            res == old(self)@.push_result(data@),
            final(self)@ == if res is Ok {
                old(self)@.after_push(data@)
            } else {
                old(self)@
            },
    {
        if data.len() % self.channels as usize != 0 {
            return Err(PushError::Misaligned { len: data.len(), channels: self.channels });
        }
        let pushed = self.ring.channel.push_batch(data);
        if pushed < data.len() {
            self.ring.overruns = bumped(self.ring.overruns);
        }
        Ok(())
    }

    /// One pacing tick: takes up to one frame of samples out of the ring,
    /// oldest first, fills what is missing with silence, and counts a frame
    /// that came up short as one underrun.
    pub fn next_frame(&mut self) -> (frame: AudioFrame)
        requires
            old(self).wf(),
        ensures
            final(self).wf(),
            final(self)@ == old(self)@.after_tick(),
            frame@ == old(self)@.tick_frame(),
    {
        let ghost queued = self.ring.channel@;
        let mut data = self.ring.channel.pop_batch(self.frame_samples);
        let got: usize = data.len();
        if got < self.frame_samples {
            self.ring.underruns = bumped(self.ring.underruns);
            while data.len() < self.frame_samples
                invariant
                    got <= data@.len() <= self.frame_samples,
                    data@ == queued.take(got as int) + silence((data@.len() - got) as nat),
                decreases self.frame_samples - data@.len(),
            {
                data.push(0);
            }
        }
        let per_tick: u32 = if self.sample_rate / 100 >= 1 {
            self.sample_rate / 100
        } else {
            1
        };
        AudioFrame {
            sample_rate: self.sample_rate,
            num_channels: self.channels,
            samples_per_channel: per_tick,
            data,
        }
    }

    /// The pipeline's ring with its size in frames.
    pub fn ring(&self) -> (ring: &AudioRing)
        requires
            self.wf(),
        ensures
            ring.wf(),
            ring.capacity_frames() == self@.capacity_frames,
            ring.free() == self@.free(),
    {
        &self.ring
    }

    /// The label of the pipeline's track.
    pub fn label(&self) -> (label: &str)
        ensures
            label@ == self@.label,
    {
        self.label.as_str()
    }

    /// The samples per second.
    pub fn sample_rate(&self) -> (r: u32)
        ensures
            r == self@.sample_rate,
    {
        self.sample_rate
    }

    /// The number of interleaved channels.
    pub fn channels(&self) -> (c: u32)
        ensures
            c == self@.channels,
    {
        self.channels
    }

    /// The statistics snapshot of this pipeline.
    pub fn stats(&self) -> (stats: LkAudioStats)
        requires
            self.wf(),
        ensures
            stats == self@.stats(),
    {
        LkAudioStats {
            sample_rate: cap_u32(self.sample_rate),
            channels: cap_u32(self.channels),
            ring_capacity_frames: cap_usize(self.ring.capacity_frames),
            ring_queued_frames: cap_usize(self.ring.queued_frames(self.channels)),
            underruns: self.ring.underruns,
            overruns: self.ring.overruns,
        }
    }
}

} // verus!
