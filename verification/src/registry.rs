//! The audio pipelines of one client, by track id, with the distinguished
//! default pipeline of callers that name no track.

use crate::pipeline::{
    plan_pipeline, plan_result, ring_frames, AudioFrame, AudioFrameView, AudioPipeline,
    PipelinePlan, PipelineView, PlanError, PushError, DEFAULT_BUFFER_MS,
};
use crate::text::{decimal, decimal_digits};
use crate::types::LkAudioStats;
use std::collections::HashMap;
use vstd::prelude::*;
use vstd::string::StringExecFns;

verus! {

broadcast use vstd::std_specs::hash::group_hash_axioms;

/// The track id that no pipeline ever gets; it stands for "no track".
pub const NO_TRACK: u64 = 0;

/// The id that follows `id`: the next number, passing over `NO_TRACK` when
/// the numbers wrap around.
pub open spec fn id_after(id: u64) -> u64 {
    if id == u64::MAX {
        1
    } else {
        (id + 1) as u64
    }
}

/// A pipeline that has its id and its sizes and waits for its track to be
/// published.
#[derive(Copy, Clone, Debug, PartialEq, Eq, Structural)]
pub struct PendingTrack {
    pub id: u64,
    pub plan: PipelinePlan,
}

/// What `ensure_default` found.
#[derive(Copy, Clone, Debug, PartialEq, Eq, Structural)]
pub enum DefaultTrack {
    /// The default pipeline exists and has the requested format.
    Existing(u64),
    /// There is no default pipeline yet; this one is to be published.
    Pending(PendingTrack),
}

/// Why a pipeline was not registered.
#[derive(Clone, Debug, PartialEq, Eq)]
pub enum RegistryError {
    /// The sample rate or the channel count is zero.
    InvalidParameters,
    /// The ring would not fit into memory that can be allocated.
    BufferTooLarge,
    /// There is no connection to publish the track on.
    NotConnected,
    /// Publishing the track failed, with the reason given.
    PublishFailed(String),
    /// The default pipeline exists with another format.
    FormatMismatch { have_rate: u32, have_channels: u32, want_rate: u32, want_channels: u32 },
}

/// A registry error as a value.
pub ghost enum RegistryErrorView {
    InvalidParameters,
    BufferTooLarge,
    NotConnected,
    PublishFailed(Seq<char>),
    FormatMismatch { have_rate: u32, have_channels: u32, want_rate: u32, want_channels: u32 },
}

impl View for RegistryError {
    type V = RegistryErrorView;

    open spec fn view(&self) -> RegistryErrorView {
        match self {
            RegistryError::InvalidParameters => RegistryErrorView::InvalidParameters,
            RegistryError::BufferTooLarge => RegistryErrorView::BufferTooLarge,
            RegistryError::NotConnected => RegistryErrorView::NotConnected,
            RegistryError::PublishFailed(reason) => RegistryErrorView::PublishFailed(reason@),
            RegistryError::FormatMismatch { have_rate, have_channels, want_rate, want_channels } =>
                RegistryErrorView::FormatMismatch {
                    have_rate: *have_rate,
                    have_channels: *have_channels,
                    want_rate: *want_rate,
                    want_channels: *want_channels,
                },
        }
    }
}

impl RegistryErrorView {
    /// The message of this error, as text.
    pub open spec fn message(self) -> Seq<char> {
        match self {
            RegistryErrorView::InvalidParameters => "invalid audio parameters"@,
            RegistryErrorView::BufferTooLarge => "audio buffer too large"@,
            RegistryErrorView::NotConnected => "not connected"@,
            RegistryErrorView::PublishFailed(reason) => reason,
            RegistryErrorView::FormatMismatch {
                have_rate,
                have_channels,
                want_rate,
                want_channels,
            } => "default audio track already configured for "@ + decimal_digits(have_rate as nat)
                + " Hz ("@ + decimal_digits(have_channels as nat) + " ch), requested "@
                + decimal_digits(want_rate as nat) + " Hz ("@ + decimal_digits(
                want_channels as nat,
            ) + " ch)"@,
        }
    }
}

impl RegistryError {
    /// The message of this error.
    pub fn message(&self) -> (text: String)
        ensures
            text@ == self@.message(),
    {
        match self {
            RegistryError::InvalidParameters => "invalid audio parameters".to_owned(),
            RegistryError::BufferTooLarge => "audio buffer too large".to_owned(),
            RegistryError::NotConnected => "not connected".to_owned(),
            RegistryError::PublishFailed(reason) => reason.clone(),
            RegistryError::FormatMismatch { have_rate, have_channels, want_rate, want_channels } => {
                let text = "default audio track already configured for ".to_owned();
                let text = text.concat(decimal(*have_rate as u64).as_str());
                let text = text.concat(" Hz (");
                let text = text.concat(decimal(*have_channels as u64).as_str());
                let text = text.concat(" ch), requested ");
                let text = text.concat(decimal(*want_rate as u64).as_str());
                let text = text.concat(" Hz (");
                let text = text.concat(decimal(*want_channels as u64).as_str());
                text.concat(" ch)")
            },
        }
    }
}

/// The error of the registry that a planning error becomes.
pub open spec fn plan_error(e: PlanError) -> RegistryErrorView {
    match e {
        PlanError::InvalidParameters => RegistryErrorView::InvalidParameters,
        PlanError::BufferTooLarge => RegistryErrorView::BufferTooLarge,
    }
}

/// Why samples were not queued on a track.
#[derive(Copy, Clone, Debug, PartialEq, Eq, Structural)]
pub enum TrackPushError {
    /// No pipeline has the id.
    NotFound,
    /// The pipeline refused the batch.
    Rejected(PushError),
}

/// The registry as a value: the pipelines by id, the id of the default
/// pipeline if there is one, and the id that the next pipeline gets.
pub ghost struct RegistryView {
    pub tracks: Map<u64, PipelineView>,
    pub default_track: Option<u64>,
    pub next_id: u64,
}

impl RegistryView {
    /// The registry of a new client.
    pub open spec fn empty() -> RegistryView {
        RegistryView { tracks: Map::empty(), default_track: None, next_id: 1 }
    }

    /// What beginning a registration answers. A zero rate or channel count
    /// is refused first, then a missing connection, then a ring too large for
    /// memory; otherwise the pending pipeline gets the next id.
    pub open spec fn begin_result(
        self,
        connected: bool,
        sample_rate: u32,
        channels: u32,
        buffer_ms: u32,
    ) -> Result<PendingTrack, RegistryErrorView> {
        if sample_rate == 0 || channels == 0 {
            Err(RegistryErrorView::InvalidParameters)
        } else if !connected {
            Err(RegistryErrorView::NotConnected)
        } else {
            match plan_result(sample_rate, channels, buffer_ms) {
                Err(e) => Err(plan_error(e)),
                Ok(plan) => Ok(PendingTrack { id: self.next_id, plan }),
            }
        }
    }

    /// Whether beginning a registration uses up an id. A format that is
    /// refused (zero rate or channels, or a ring too large) changes nothing;
    /// a valid format uses up an id also where the connection is missing.
    pub open spec fn begin_takes_id(
        connected: bool,
        sample_rate: u32,
        channels: u32,
        buffer_ms: u32,
    ) -> bool {
        sample_rate != 0 && channels != 0 && (!connected || plan_result(
            sample_rate,
            channels,
            buffer_ms,
        ) is Ok)
    }

    /// The registry after a registration was begun.
    pub open spec fn after_begin(
        self,
        connected: bool,
        sample_rate: u32,
        channels: u32,
        buffer_ms: u32,
    ) -> RegistryView {
        if Self::begin_takes_id(connected, sample_rate, channels, buffer_ms) {
            self.after_alloc()
        } else {
            self
        }
    }

    /// The registry after an id was handed out.
    pub open spec fn after_alloc(self) -> RegistryView {
        RegistryView { next_id: id_after(self.next_id), ..self }
    }

    /// The registry after `pending` was published under `label` and entered.
    pub open spec fn after_insert(self, pending: PendingTrack, label: Seq<char>) -> RegistryView {
        RegistryView {
            tracks: self.tracks.insert(pending.id, PipelineView::fresh(label, pending.plan)),
            ..self
        }
    }

    /// What finishing a registration answers: the id of the pending pipeline
    /// when its track was published, the failure to publish otherwise.
    pub open spec fn finish_result(pending: PendingTrack, published: Result<(), String>) -> Result<
        u64,
        RegistryErrorView,
    > {
        match published {
            Ok(_) => Ok(pending.id),
            Err(reason) => Err(RegistryErrorView::PublishFailed(reason@)),
        }
    }

    /// The registry after a registration was finished: only a published
    /// pipeline is entered.
    pub open spec fn after_finish(
        self,
        pending: PendingTrack,
        label: Seq<char>,
        published: Result<(), String>,
    ) -> RegistryView {
        if published is Ok {
            self.after_insert(pending, label)
        } else {
            self
        }
    }

    /// The registry after the registration of the default pipeline was
    /// finished: a published pipeline is entered and becomes the default.
    pub open spec fn after_finish_default(self, pending: PendingTrack, published: Result<(), String>)
        -> RegistryView {
        if published is Ok {
            self.after_default_insert(pending)
        } else {
            self
        }
    }

    /// The registry after the pending default pipeline was published.
    pub open spec fn after_default_insert(self, pending: PendingTrack) -> RegistryView {
        RegistryView {
            default_track: Some(pending.id),
            ..self.after_insert(pending, default_label())
        }
    }

    /// The registry after the pipeline `id` was removed, if there was one.
    pub open spec fn after_remove(self, id: u64) -> RegistryView {
        RegistryView {
            tracks: self.tracks.remove(id),
            default_track: if self.default_track == Some(id) {
                None
            } else {
                self.default_track
            },
            ..self
        }
    }

    /// The registry after all pipelines were torn down; ids are not reused.
    pub open spec fn after_clear(self) -> RegistryView {
        RegistryView { tracks: Map::empty(), default_track: None, ..self }
    }

    /// What queueing the batch `data` on the pipeline `id` answers.
    pub open spec fn push_result(self, id: u64, data: Seq<i16>) -> Result<(), TrackPushError> {
        if !self.tracks.contains_key(id) {
            Err(TrackPushError::NotFound)
        } else {
            match self.tracks[id].push_result(data) {
                Ok(_) => Ok(()),
                Err(e) => Err(TrackPushError::Rejected(e)),
            }
        }
    }

    /// The registry after the batch `data` was handed in for the pipeline
    /// `id`: only an accepted batch changes anything, and only that pipeline.
    pub open spec fn after_push(self, id: u64, data: Seq<i16>) -> RegistryView {
        if self.push_result(id, data) is Ok {
            RegistryView {
                tracks: self.tracks.insert(id, self.tracks[id].after_push(data)),
                ..self
            }
        } else {
            self
        }
    }

    /// The frame that a pacing tick of the pipeline `id` delivers, if there
    /// is such a pipeline.
    pub open spec fn tick_frame(self, id: u64) -> Option<AudioFrameView> {
        if self.tracks.contains_key(id) {
            Some(self.tracks[id].tick_frame())
        } else {
            None
        }
    }

    /// The registry after a pacing tick of the pipeline `id`.
    pub open spec fn after_tick(self, id: u64) -> RegistryView {
        if self.tracks.contains_key(id) {
            RegistryView { tracks: self.tracks.insert(id, self.tracks[id].after_tick()), ..self }
        } else {
            self
        }
    }

    /// What `ensure_default` answers for a format.
    pub open spec fn ensure_default_result(
        self,
        connected: bool,
        sample_rate: u32,
        channels: u32,
    ) -> Result<DefaultTrack, RegistryErrorView> {
        match self.default_track {
            Some(id) => {
                let have = self.tracks[id];
                if have.sample_rate == sample_rate && have.channels == channels {
                    Ok(DefaultTrack::Existing(id))
                } else {
                    Err(
                        RegistryErrorView::FormatMismatch {
                            have_rate: have.sample_rate,
                            have_channels: have.channels,
                            want_rate: sample_rate,
                            want_channels: channels,
                        },
                    )
                }
            },
            None => match self.begin_result(connected, sample_rate, channels, DEFAULT_BUFFER_MS) {
                Ok(pending) => Ok(DefaultTrack::Pending(pending)),
                Err(e) => Err(e),
            },
        }
    }

    /// The registry after `ensure_default`: an existing default is left as
    /// it is, whatever the format asked for; without one, a registration of
    /// the default depth is begun.
    pub open spec fn after_ensure_default(self, connected: bool, sample_rate: u32, channels: u32)
        -> RegistryView {
        match self.default_track {
            Some(_) => self,
            None => self.after_begin(connected, sample_rate, channels, DEFAULT_BUFFER_MS),
        }
    }

    /// The statistics of the default pipeline; all zero without one.
    pub open spec fn default_stats(self) -> LkAudioStats {
        match self.default_track {
            Some(id) => if self.tracks.contains_key(id) {
                self.tracks[id].stats()
            } else {
                no_audio_stats()
            },
            None => no_audio_stats(),
        }
    }
}

/// The statistics reported when there is no default pipeline.
pub open spec fn no_audio_stats() -> LkAudioStats {
    LkAudioStats {
        sample_rate: 0,
        channels: 0,
        ring_capacity_frames: 0,
        ring_queued_frames: 0,
        underruns: 0,
        overruns: 0,
    }
}

/// The label of the default pipeline's track.
pub open spec fn default_label() -> Seq<char> {
    "ue-audio"@
}

/// The pipelines of one client.
pub struct PipelineRegistry {
    audio_tracks: HashMap<u64, AudioPipeline>,
    default_audio_track_id: Option<u64>,
    next_audio_track_id: u64,
}

impl View for PipelineRegistry {
    type V = RegistryView;

    closed spec fn view(&self) -> RegistryView {
        RegistryView {
            tracks: Map::new(
                |id: u64| self.audio_tracks@.contains_key(id),
                |id: u64| self.audio_tracks@[id]@,
            ),
            default_track: self.default_audio_track_id,
            next_id: self.next_audio_track_id,
        }
    }
}

impl PipelineRegistry {
    /// Every pipeline is well formed, the default pipeline (if any) is among
    /// the pipelines, and the next id is not `NO_TRACK`.
    pub closed spec fn wf(&self) -> bool {
        &&& forall|id: u64| #[trigger]
            self.audio_tracks@.contains_key(id) ==> self.audio_tracks@[id].wf()
        &&& self.default_audio_track_id matches Some(id) ==> self.audio_tracks@.contains_key(id)
        &&& self.next_audio_track_id != NO_TRACK
    }

    /// What well-formedness says of the registry as a value.
    pub proof fn lemma_wf(&self)
        requires
            self.wf(),
        ensures
            self@.next_id != NO_TRACK,
            self@.default_track matches Some(id) ==> self@.tracks.contains_key(id),
            self@.tracks.dom().finite(),
            forall|id: u64| #[trigger]
                self@.tracks.contains_key(id) ==> {
                    &&& self@.tracks[id].sample_rate > 0
                    &&& self@.tracks[id].channels > 0
                    &&& self@.tracks[id].queued.len() <= self@.tracks[id].capacity_samples
                    &&& self@.tracks[id].frame_samples <= self@.tracks[id].capacity_samples
                    &&& self@.tracks[id].capacity_samples <= usize::MAX
                    &&& self@.tracks[id].capacity_frames == ring_frames(
                        self@.tracks[id].capacity_samples,
                        self@.tracks[id].channels,
                    )
                },
    {
        assert(self@.tracks.dom() =~= self.audio_tracks@.dom());
        assert forall|id: u64| #[trigger] self@.tracks.contains_key(id) implies {
            &&& self@.tracks[id].sample_rate > 0
            &&& self@.tracks[id].channels > 0
            &&& self@.tracks[id].queued.len() <= self@.tracks[id].capacity_samples
            &&& self@.tracks[id].frame_samples <= self@.tracks[id].capacity_samples
            &&& self@.tracks[id].capacity_samples <= usize::MAX
            &&& self@.tracks[id].capacity_frames == ring_frames(
                self@.tracks[id].capacity_samples,
                self@.tracks[id].channels,
            )
        } by {
            self.audio_tracks@[id].lemma_wf();
        }
    }

    /// A registry without pipelines, whose first pipeline gets id 1.
    pub fn new() -> (registry: PipelineRegistry)
        ensures
            registry.wf(),
            registry@ == RegistryView::empty(),
    {
        let registry = PipelineRegistry {
            audio_tracks: HashMap::new(),
            default_audio_track_id: None,
            next_audio_track_id: 1,
        };
        assert(registry@.tracks =~= Map::empty());
        registry
    }

    /// Hands out the next track id. Ids count up from 1 and are never
    /// `NO_TRACK`, also after the numbers wrap around.
    pub fn next_audio_track_id(&mut self) -> (id: u64)
        requires
            old(self).wf(),
        ensures
            final(self).wf(),
            id == old(self)@.next_id,
            id != NO_TRACK,
            final(self)@ == old(self)@.after_alloc(),
    {
        let id = self.next_audio_track_id;
        self.next_audio_track_id = self.next_audio_track_id.wrapping_add(1);
        if self.next_audio_track_id == 0 {
            self.next_audio_track_id = 1;
        }
        id
    }

    /// First half of registering a pipeline. A zero rate or channel count is
    /// refused and changes nothing. A missing connection is refused next, and
    /// uses up an id. A ring too large for memory is refused and changes
    /// nothing. Otherwise the pipeline gets the next id, and the caller
    /// publishes the track and reports back with `finish_register`.
    pub fn begin_register(
        &mut self,
        connected: bool,
        sample_rate: u32,
        channels: u32,
        buffer_ms: u32,
    ) -> (res: Result<PendingTrack, RegistryError>)
        requires
            old(self).wf(),
        ensures
            final(self).wf(),
            final(self)@ == old(self)@.after_begin(connected, sample_rate, channels, buffer_ms),
            match res {
                Ok(pending) => old(self)@.begin_result(connected, sample_rate, channels, buffer_ms)
                    == Ok::<PendingTrack, RegistryErrorView>(pending) && pending.plan.wf(),
                Err(e) => old(self)@.begin_result(connected, sample_rate, channels, buffer_ms)
                    == Err::<PendingTrack, RegistryErrorView>(e@),
            },
    {
        if sample_rate == 0 || channels == 0 {
            return Err(RegistryError::InvalidParameters);
        }
        if !connected {
            let _ = self.next_audio_track_id();
            return Err(RegistryError::NotConnected);
        }
        match plan_pipeline(sample_rate, channels, buffer_ms) {
            Err(PlanError::InvalidParameters) => Err(RegistryError::InvalidParameters),
            Err(PlanError::BufferTooLarge) => Err(RegistryError::BufferTooLarge),
            Ok(plan) => {
                let id = self.next_audio_track_id();
                Ok(PendingTrack { id, plan })
            },
        }
    }

    /// Second half of registering a pipeline. When the track was published,
    /// the pipeline is built and entered under its id, which is returned. When
    /// publishing failed, nothing is entered and the failure is returned.
    pub fn finish_register(
        &mut self,
        pending: PendingTrack,
        label: &str,
        published: Result<(), String>,
    ) -> (res: Result<u64, RegistryError>)
        requires
            old(self).wf(),
            pending.plan.wf(),
        ensures
            final(self).wf(),
            final(self)@ == old(self)@.after_finish(pending, label@, published),
            match res {
                Ok(id) => RegistryView::finish_result(pending, published) == Ok::<
                    u64,
                    RegistryErrorView,
                >(id),
                Err(e) => RegistryView::finish_result(pending, published) == Err::<
                    u64,
                    RegistryErrorView,
                >(e@),
            },
    {
        match published {
            Err(reason) => Err(RegistryError::PublishFailed(reason)),
            Ok(_) => {
                let pipeline = AudioPipeline::new(label, &pending.plan);
                self.audio_tracks.insert(pending.id, pipeline);
                assert(self@.tracks =~= old(self)@.after_insert(pending, label@).tracks);
                Ok(pending.id)
            },
        }
    }

    /// Finds the default pipeline for a format. An existing default with this
    /// format is returned as it is. An existing default with another format is
    /// an error: the format of the default pipeline never changes. Without a
    /// default, a registration is begun for one.
    pub fn ensure_default(&mut self, connected: bool, sample_rate: u32, channels: u32) -> (res:
        Result<DefaultTrack, RegistryError>)
        requires
            old(self).wf(),
        ensures
            final(self).wf(),
            final(self)@ == old(self)@.after_ensure_default(connected, sample_rate, channels),
            match res {
                Ok(found) => old(self)@.ensure_default_result(connected, sample_rate, channels)
                    == Ok::<DefaultTrack, RegistryErrorView>(found),
                Err(e) => old(self)@.ensure_default_result(connected, sample_rate, channels)
                    == Err::<DefaultTrack, RegistryErrorView>(e@),
            },
            res matches Ok(DefaultTrack::Pending(pending)) ==> pending.plan.wf(),
    {
        if let Some(id) = self.default_audio_track_id {
            let found = self.audio_tracks.get(&id);
            let pipeline = found.unwrap();
            let have_rate = pipeline.sample_rate();
            let have_channels = pipeline.channels();
            if have_rate != sample_rate || have_channels != channels {
                return Err(
                    RegistryError::FormatMismatch {
                        have_rate,
                        have_channels,
                        want_rate: sample_rate,
                        want_channels: channels,
                    },
                );
            }
            return Ok(DefaultTrack::Existing(id));
        }
        match self.begin_register(connected, sample_rate, channels, DEFAULT_BUFFER_MS) {
            Ok(pending) => Ok(DefaultTrack::Pending(pending)),
            Err(e) => Err(e),
        }
    }

    /// Second half of creating the default pipeline: as `finish_register`
    /// under the default label, and on success the new pipeline becomes the
    /// default.
    pub fn finish_default(&mut self, pending: PendingTrack, published: Result<(), String>) -> (res:
        Result<u64, RegistryError>)
        requires
            old(self).wf(),
            pending.plan.wf(),
        ensures
            final(self).wf(),
            final(self)@ == old(self)@.after_finish_default(pending, published),
            match res {
                Ok(id) => RegistryView::finish_result(pending, published) == Ok::<
                    u64,
                    RegistryErrorView,
                >(id),
                Err(e) => RegistryView::finish_result(pending, published) == Err::<
                    u64,
                    RegistryErrorView,
                >(e@),
            },
    {
        match self.finish_register(pending, "ue-audio", published) {
            Ok(id) => {
                assert(self@.tracks.contains_key(id));
                self.default_audio_track_id = Some(id);
                Ok(id)
            },
            Err(e) => Err(e),
        }
    }

    /// Removes and tears down the pipeline `id`; if it was the default, there
    /// is no default afterwards. Removing an unknown id changes nothing.
    /// Returns whether there was such a pipeline.
    pub fn remove(&mut self, id: u64) -> (removed: bool)
        requires
            old(self).wf(),
        ensures
            final(self).wf(),
            removed == old(self)@.tracks.contains_key(id),
            final(self)@ == old(self)@.after_remove(id),
    {
        let gone = self.audio_tracks.remove(&id);
        if self.default_audio_track_id == Some(id) {
            self.default_audio_track_id = None;
        }
        assert(self@.tracks =~= old(self)@.tracks.remove(id));
        gone.is_some()
    }

    /// Tears down all pipelines, the default among them.
    pub fn clear(&mut self)
        requires
            old(self).wf(),
        ensures
            final(self).wf(),
            final(self)@ == old(self)@.after_clear(),
    {
        self.audio_tracks.clear();
        self.default_audio_track_id = None;
        assert(self@.tracks =~= Map::empty());
    }

    /// Queues a batch of samples on the pipeline `id`, as
    /// `AudioPipeline::push` does. Other pipelines are not touched.
    pub fn push(&mut self, id: u64, data: &[i16]) -> (res: Result<(), TrackPushError>)
        requires
            old(self).wf(),
        ensures
            final(self).wf(),
            res == old(self)@.push_result(id, data@),
            final(self)@ == old(self)@.after_push(id, data@),
    {
        match self.audio_tracks.remove(&id) {
            None => {
                assert(self@.tracks =~= old(self)@.tracks);
                Err(TrackPushError::NotFound)
            },
            Some(mut pipeline) => {
                let pushed = pipeline.push(data);
                self.audio_tracks.insert(id, pipeline);
                match pushed {
                    Ok(_) => {
                        assert(self@.tracks =~= old(self)@.tracks.insert(
                            id,
                            old(self)@.tracks[id].after_push(data@),
                        ));
                        Ok(())
                    },
                    Err(e) => {
                        assert(self@.tracks =~= old(self)@.tracks);
                        Err(TrackPushError::Rejected(e))
                    },
                }
            },
        }
    }

    /// One pacing tick of the pipeline `id`, as `AudioPipeline::next_frame`
    /// does it; `None` when there is no such pipeline. Other pipelines are not
    /// touched.
    pub fn next_frame(&mut self, id: u64) -> (res: Option<AudioFrame>)
        requires
            old(self).wf(),
        ensures
            final(self).wf(),
            final(self)@ == old(self)@.after_tick(id),
            match res {
                Some(frame) => old(self)@.tick_frame(id) == Some(frame@),
                None => old(self)@.tick_frame(id) is None,
            },
    {
        match self.audio_tracks.remove(&id) {
            None => {
                assert(self@.tracks =~= old(self)@.tracks);
                None
            },
            Some(mut pipeline) => {
                let frame = pipeline.next_frame();
                self.audio_tracks.insert(id, pipeline);
                assert(self@.tracks =~= old(self)@.tracks.insert(
                    id,
                    old(self)@.tracks[id].after_tick(),
                ));
                Some(frame)
            },
        }
    }

    /// Whether there is a pipeline `id`.
    pub fn contains(&self, id: u64) -> (b: bool)
        ensures
            b == self@.tracks.contains_key(id),
    {
        self.audio_tracks.contains_key(&id)
    }

    /// The channel count of the pipeline `id`, if there is one.
    pub fn channels_of(&self, id: u64) -> (channels: Option<u32>)
        ensures
            channels == if self@.tracks.contains_key(id) {
                Some(self@.tracks[id].channels)
            } else {
                None
            },
    {
        match self.audio_tracks.get(&id) {
            Some(pipeline) => Some(pipeline.channels()),
            None => None,
        }
    }

    /// The id of the default pipeline, if there is one.
    pub fn default_track(&self) -> (id: Option<u64>)
        ensures
            id == self@.default_track,
    {
        self.default_audio_track_id
    }

    /// The number of pipelines.
    pub fn len(&self) -> (n: usize)
        ensures
            n == self@.tracks.len(),
    {
        assert(self@.tracks.dom() =~= self.audio_tracks@.dom());
        self.audio_tracks.len()
    }

    /// The statistics of the default pipeline; all zero without one.
    pub fn default_stats(&self) -> (stats: LkAudioStats)
        requires
            self.wf(),
        ensures
            stats == self@.default_stats(),
    {
        let none = LkAudioStats {
            sample_rate: 0,
            channels: 0,
            ring_capacity_frames: 0,
            ring_queued_frames: 0,
            underruns: 0,
            overruns: 0,
        };
        match self.default_audio_track_id {
            Some(id) => match self.audio_tracks.get(&id) {
                Some(pipeline) => pipeline.stats(),
                None => none,
            },
            None => none,
        }
    }
}

} // verus!
