//! The state of one client and the operations of its public surface. Each
//! operation decides and records; connecting, publishing and transmitting are
//! done by the caller, who reports how they went.

use crate::config::{AudioOutputFormat, AudioPublishOptions, DataLabels, DataLabelsView};
use crate::dispatch::{
    callback_text, CallbackTable, DispatchAction, DispatchActionView, DispatchContext,
};
use crate::pipeline::{ring_frames, AudioFrame, PipelineView, DEFAULT_BUFFER_MS};
use crate::registry::{
    DefaultTrack, PendingTrack, PipelineRegistry, RegistryError, RegistryErrorView, RegistryView,
    TrackPushError,
};
use crate::sender::{
    no_data_stats, plan_send, plan_send_result, stats_after, DataLabel, DataStatsCounters,
    SendPlan, SendPlanView, SendState,
};
use crate::text::has_nul;
use crate::types::{
    err, failure, ok, success, LkAudioStats, LkAudioTrackConfig, LkConnectionState, LkDataStats,
    LkLogLevel, LkReliability, LkResult, LkResultView, LkRole, LK_ERR_ALREADY_CONNECTED,
    LK_ERR_CONNECT, LK_ERR_PARAMS, LK_ERR_PIPELINE, LK_ERR_PUSH, LK_ERR_SEND, LK_ERR_STATE,
    LK_ERR_UNSUPPORTED,
};
use vstd::prelude::*;
use vstd::string::StringExecFns;

verus! {

/// Everything one client holds: whether it is connected, its pipelines, which
/// callbacks are registered, its settings and its data counters.
pub struct ClientState {
    connected: bool,
    registry: PipelineRegistry,
    callbacks: CallbackTable,
    role: LkRole,
    audio_publish_opts: AudioPublishOptions,
    audio_output_format: AudioOutputFormat,
    data_labels: DataLabels,
    log_level: LkLogLevel,
    data_stats: DataStatsCounters,
}

/// A client as a value.
pub ghost struct ClientView {
    pub connected: bool,
    pub registry: RegistryView,
    pub callbacks: CallbackTable,
    pub role: LkRole,
    pub publish_options: AudioPublishOptions,
    pub output_format: AudioOutputFormat,
    pub labels: DataLabelsView,
    pub log_level: LkLogLevel,
    pub data_stats: LkDataStats,
}

impl View for ClientState {
    type V = ClientView;

    closed spec fn view(&self) -> ClientView {
        ClientView {
            connected: self.connected,
            registry: self.registry@,
            callbacks: self.callbacks,
            role: self.role,
            publish_options: self.audio_publish_opts,
            output_format: self.audio_output_format,
            labels: self.data_labels@,
            log_level: self.log_level,
            data_stats: self.data_stats@,
        }
    }
}

/// The label of a track whose creator names none.
pub open spec fn unnamed_track_label() -> Seq<char> {
    "ue-audio-track"@
}

/// The failure reported when a pipeline could not be set up, for the reason
/// `reason`, by an operation that introduces it with `intro`.
pub open spec fn pipeline_failure(intro: Seq<char>, reason: RegistryErrorView) -> LkResultView {
    failure(LK_ERR_PIPELINE, intro + reason.message())
}

/// The result of queueing samples, from what the registry answered.
pub open spec fn push_outcome(pushed: Result<(), TrackPushError>) -> LkResultView {
    match pushed {
        Ok(_) => success(),
        Err(TrackPushError::NotFound) => failure(LK_ERR_PUSH, "audio pipeline disappeared"@),
        Err(TrackPushError::Rejected(e)) => failure(
            LK_ERR_PUSH,
            "audio ring push failed: "@ + e.message_spec(),
        ),
    }
}

/// What a push on the default pipeline comes to.
#[derive(Clone, Debug, PartialEq, Eq)]
pub enum AudioPush {
    /// The call is over, with this result.
    Done(LkResult),
    /// There is no default pipeline yet: publish its track, then hand the
    /// samples in again together with how publishing went.
    Publish(PendingTrack),
}

/// The outcome of a push on the default pipeline, as a value.
pub ghost enum AudioPushView {
    Done(LkResultView),
    Publish(PendingTrack),
}

impl View for AudioPush {
    type V = AudioPushView;

    open spec fn view(&self) -> AudioPushView {
        match self {
            AudioPush::Done(res) => AudioPushView::Done(res@),
            AudioPush::Publish(pending) => AudioPushView::Publish(*pending),
        }
    }
}

/// What a request for a new track comes to.
#[derive(Clone, Debug, PartialEq, Eq)]
pub enum TrackCreate {
    /// The request is refused, with this result.
    Refused(LkResult),
    /// Publish a track under `label`, then report how it went.
    Publish { pending: PendingTrack, label: String },
}

/// The outcome of a request for a new track, as a value.
pub ghost enum TrackCreateView {
    Refused(LkResultView),
    Publish { pending: PendingTrack, label: Seq<char> },
}

impl View for TrackCreate {
    type V = TrackCreateView;

    open spec fn view(&self) -> TrackCreateView {
        match self {
            TrackCreate::Refused(res) => TrackCreateView::Refused(res@),
            TrackCreate::Publish { pending, label } => TrackCreateView::Publish {
                pending: *pending,
                label: label@,
            },
        }
    }
}

impl ClientView {
    /// A new client: not connected, no pipelines, no callbacks, role `Both`,
    /// default settings, quiet, nothing sent.
    pub open spec fn initial() -> ClientView {
        ClientView {
            connected: false,
            registry: RegistryView::empty(),
            callbacks: CallbackTable::none(),
            role: LkRole::Both,
            publish_options: AudioPublishOptions {
                bitrate_bps: 32_000,
                enable_dtx: false,
                stereo: false,
            },
            output_format: AudioOutputFormat { sample_rate: 48_000, channels: 1 },
            labels: DataLabelsView::initial(),
            log_level: LkLogLevel::Error,
            data_stats: no_data_stats(),
        }
    }

    /// The client after a connection was established in `role`.
    pub open spec fn after_connected(self, role: LkRole) -> ClientView {
        ClientView { connected: true, role, ..self }
    }

    /// The client after it disconnected: no connection and no pipelines.
    pub open spec fn after_disconnect(self) -> ClientView {
        ClientView { connected: false, registry: self.registry.after_clear(), ..self }
    }

    /// The call of the connection callback that reports `state`, if the
    /// callback is registered.
    pub open spec fn notify(self, state: LkConnectionState, reason_code: i32, message: Option<
        Seq<char>,
    >) -> DispatchActionView {
        if self.callbacks.connection {
            DispatchActionView::NotifyConnection { state, reason_code, message }
        } else {
            DispatchActionView::Nothing
        }
    }

    /// What a push on the track `id` answers: it needs a connection and the
    /// track.
    pub open spec fn track_push_result(self, id: u64, data: Seq<i16>) -> LkResultView {
        if !self.connected {
            failure(LK_ERR_STATE, "not connected"@)
        } else if !self.registry.tracks.contains_key(id) {
            failure(LK_ERR_STATE, "audio track not found"@)
        } else {
            push_outcome(self.registry.push_result(id, data))
        }
    }

    /// The client after a push on the track `id`.
    pub open spec fn after_track_push(self, id: u64, data: Seq<i16>) -> ClientView {
        if self.connected {
            ClientView { registry: self.registry.after_push(id, data), ..self }
        } else {
            self
        }
    }

    /// What a push on the default pipeline answers.
    pub open spec fn default_push_result(self, data: Seq<i16>, channels: i32, sample_rate: i32)
        -> AudioPushView {
        if channels <= 0 || sample_rate <= 0 {
            AudioPushView::Done(failure(LK_ERR_PARAMS, "bad params"@))
        } else if !self.connected {
            AudioPushView::Done(failure(LK_ERR_STATE, "not connected"@))
        } else {
            match self.registry.ensure_default_result(true, sample_rate as u32, channels as u32) {
                Err(e) => AudioPushView::Done(
                    pipeline_failure("audio pipeline init failed: "@, e),
                ),
                Ok(DefaultTrack::Pending(pending)) => AudioPushView::Publish(pending),
                Ok(DefaultTrack::Existing(id)) => AudioPushView::Done(
                    push_outcome(self.registry.push_result(id, data)),
                ),
            }
        }
    }

    /// The client after a push on the default pipeline.
    pub open spec fn after_default_push(self, data: Seq<i16>, channels: i32, sample_rate: i32)
        -> ClientView {
        if channels <= 0 || sample_rate <= 0 || !self.connected {
            self
        } else {
            match self.registry.default_track {
                Some(id) => match self.registry.ensure_default_result(
                    true,
                    sample_rate as u32,
                    channels as u32,
                ) {
                    Ok(_) => ClientView { registry: self.registry.after_push(id, data), ..self },
                    Err(_) => self,
                },
                None => ClientView {
                    registry: self.registry.after_begin(
                        true,
                        sample_rate as u32,
                        channels as u32,
                        DEFAULT_BUFFER_MS,
                    ),
                    ..self
                },
            }
        }
    }

    /// What is answered when the pending default pipeline was published (or
    /// not) and the samples are handed in again.
    pub open spec fn default_published_result(
        self,
        pending: PendingTrack,
        published: Result<(), String>,
        data: Seq<i16>,
    ) -> LkResultView {
        if !self.connected {
            pipeline_failure("audio pipeline init failed: "@, RegistryErrorView::NotConnected)
        } else {
            match published {
                Err(reason) => pipeline_failure(
                    "audio pipeline init failed: "@,
                    RegistryErrorView::PublishFailed(reason@),
                ),
                Ok(_) => push_outcome(
                    self.registry.after_default_insert(pending).push_result(pending.id, data),
                ),
            }
        }
    }

    /// The client after the pending default pipeline was published (or not)
    /// and the samples were handed in again.
    pub open spec fn after_default_published(
        self,
        pending: PendingTrack,
        published: Result<(), String>,
        data: Seq<i16>,
    ) -> ClientView {
        if self.connected && published is Ok {
            ClientView {
                registry: self.registry.after_default_insert(pending).after_push(pending.id, data),
                ..self
            }
        } else {
            self
        }
    }

    /// The buffer depth that a track request stands for: the default depth
    /// when the request gives zero or less.
    pub open spec fn requested_depth(buffer_ms: i32) -> u32 {
        if buffer_ms <= 0 {
            DEFAULT_BUFFER_MS
        } else {
            buffer_ms as u32
        }
    }

    /// The label that a track request stands for.
    pub open spec fn requested_label(name: Option<String>) -> Seq<char> {
        match name {
            Some(text) => text@,
            None => unnamed_track_label(),
        }
    }

    /// What a request for a new track answers.
    pub open spec fn track_create_result(self, config: LkAudioTrackConfig) -> TrackCreateView {
        if config.sample_rate <= 0 || config.channels <= 0 {
            TrackCreateView::Refused(failure(LK_ERR_PARAMS, "invalid audio track parameters"@))
        } else {
            match self.registry.begin_result(
                self.connected,
                config.sample_rate as u32,
                config.channels as u32,
                Self::requested_depth(config.buffer_ms),
            ) {
                Ok(pending) => TrackCreateView::Publish {
                    pending,
                    label: Self::requested_label(config.track_name),
                },
                Err(e) => TrackCreateView::Refused(
                    pipeline_failure("audio track create failed: "@, e),
                ),
            }
        }
    }

    /// The client after a request for a new track: a refused format changes
    /// nothing; otherwise a registration is begun.
    pub open spec fn after_track_create(self, config: LkAudioTrackConfig) -> ClientView {
        if config.sample_rate <= 0 || config.channels <= 0 {
            self
        } else {
            ClientView {
                registry: self.registry.after_begin(
                    self.connected,
                    config.sample_rate as u32,
                    config.channels as u32,
                    Self::requested_depth(config.buffer_ms),
                ),
                ..self
            }
        }
    }

    /// What is answered when the pending track was published (or not): its
    /// id on success, the failure otherwise.
    pub open spec fn track_created_result(self, pending: PendingTrack, published: Result<(), String>)
        -> Result<u64, LkResultView> {
        if !self.connected {
            Err(pipeline_failure("audio track create failed: "@, RegistryErrorView::NotConnected))
        } else {
            match published {
                Ok(_) => Ok(pending.id),
                Err(reason) => Err(
                    pipeline_failure(
                        "audio track create failed: "@,
                        RegistryErrorView::PublishFailed(reason@),
                    ),
                ),
            }
        }
    }

    /// The client after the pending track was published (or not): only a
    /// published track of a connected client is entered.
    pub open spec fn after_track_created(
        self,
        pending: PendingTrack,
        label: Seq<char>,
        published: Result<(), String>,
    ) -> ClientView {
        if self.connected && published is Ok {
            ClientView { registry: self.registry.after_insert(pending, label), ..self }
        } else {
            self
        }
    }

    /// What a send of `len` bytes answers before anything is transmitted: it
    /// needs a connection and a payload within the limit.
    pub open spec fn send_result(self, len: usize, tier: LkReliability, label: DataLabel) -> Result<
        SendPlanView,
        LkResultView,
    > {
        if !self.connected {
            Err(failure(LK_ERR_STATE, "not connected"@))
        } else {
            match plan_send_result(len, tier, label, self.labels) {
                Ok(plan) => Ok(plan),
                Err(e) => Err(failure(e.code(), e.message_spec())),
            }
        }
    }

    /// What a send answers in the end: success when an attempt succeeded,
    /// the failure of the last attempt otherwise.
    pub open spec fn send_finished_result(state: SendState, reason: Seq<char>) -> LkResultView {
        if state == SendState::Delivered {
            success()
        } else {
            failure(LK_ERR_SEND, "byte_stream write failed: "@ + reason)
        }
    }

    /// The client after a send according to `plan` ended in `state`.
    pub open spec fn after_send(self, plan: SendPlanView, state: SendState) -> ClientView {
        ClientView { data_stats: stats_after(self.data_stats, plan.tier, plan.len, state), ..self }
    }
}

impl ClientState {
    /// The pipelines are in order, the output format is valid, and a client
    /// without a connection has no pipelines.
    pub closed spec fn wf(&self) -> bool {
        &&& self.registry.wf()
        &&& self.audio_output_format.valid()
        &&& !self.connected ==> self.registry@.tracks =~= Map::empty()
            && self.registry@.default_track is None
    }

    /// What well-formedness says of the client as a value.
    pub proof fn lemma_wf(&self)
        requires
            self.wf(),
        ensures
            self@.output_format.valid(),
            self@.registry.next_id != 0,
            self@.registry.default_track matches Some(id) ==> self@.registry.tracks.contains_key(
                id,
            ),
            !self@.connected ==> self@.registry.tracks == Map::<u64, PipelineView>::empty()
                && self@.registry.default_track is None,
            forall|id: u64| #[trigger]
                self@.registry.tracks.contains_key(id) ==> {
                    &&& self@.registry.tracks[id].sample_rate > 0
                    &&& self@.registry.tracks[id].channels > 0
                    &&& self@.registry.tracks[id].queued.len()
                        <= self@.registry.tracks[id].capacity_samples
                    &&& self@.registry.tracks[id].capacity_samples <= usize::MAX
                    &&& self@.registry.tracks[id].capacity_frames == ring_frames(
                        self@.registry.tracks[id].capacity_samples,
                        self@.registry.tracks[id].channels,
                    )
                },
    {
        self.registry.lemma_wf();
    }

    /// Whether a message of level `level` is to be emitted.
    pub fn log_enabled(&self, level: LkLogLevel) -> (b: bool)
        ensures
            b == self@.log_level.emits(level),
    {
        self.log_level.emits(level)
    }

    /// What the dispatcher reads of the client.
    pub fn dispatch_context(&self) -> (ctx: DispatchContext)
        ensures
            ctx == (DispatchContext { callbacks: self@.callbacks, output: self@.output_format }),
    {
        DispatchContext { callbacks: self.callbacks, output: self.audio_output_format }
    }

    /// The role of the current or last connection.
    pub fn role(&self) -> (role: LkRole)
        ensures
            role == self@.role,
    {
        self.role
    }

    /// The advisory publish options.
    pub fn audio_publish_options(&self) -> (options: AudioPublishOptions)
        ensures
            options == self@.publish_options,
    {
        self.audio_publish_opts
    }

    /// The channel count of the track `id`, if there is such a track.
    pub fn track_channels(&self, id: u64) -> (channels: Option<u32>)
        ensures
            channels == if self@.registry.tracks.contains_key(id) {
                Some(self@.registry.tracks[id].channels)
            } else {
                None
            },
    {
        self.registry.channels_of(id)
    }

    /// The number of pipelines.
    pub fn track_count(&self) -> (n: usize)
        ensures
            n == self@.registry.tracks.len(),
    {
        self.registry.len()
    }

    /// The id of the default pipeline, if there is one.
    pub fn default_track(&self) -> (id: Option<u64>)
        ensures
            id == self@.registry.default_track,
    {
        self.registry.default_track()
    }

    fn notify(&self, state: LkConnectionState, reason_code: i32, message: Option<String>) -> (action:
        DispatchAction)
        ensures
            action@ == self@.notify(
                state,
                reason_code,
                match message {
                    Some(text) => Some(text@),
                    None => None,
                },
            ),
    {
        if self.callbacks.connection {
            DispatchAction::NotifyConnection { state, reason_code, message }
        } else {
            DispatchAction::Nothing
        }
    }
}

fn pipeline_error(intro: &str, e: &RegistryError) -> (res: LkResult)
    ensures
        res@ == pipeline_failure(intro@, e@),
{
    let text = intro.to_owned().concat(e.message().as_str());
    err(LK_ERR_PIPELINE, text.as_str())
}

fn push_error(pushed: Result<(), TrackPushError>) -> (res: LkResult)
    ensures
        res@ == push_outcome(pushed),
{
    match pushed {
        Ok(_) => ok(),
        Err(TrackPushError::NotFound) => err(LK_ERR_PUSH, "audio pipeline disappeared"),
        Err(TrackPushError::Rejected(e)) => {
            let text = "audio ring push failed: ".to_owned().concat(e.message().as_str());
            err(LK_ERR_PUSH, text.as_str())
        },
    }
}

/// Creates a client: not connected, without pipelines or callbacks, in role
/// `Both`, with default settings, and with all counters at zero.
pub fn lk_client_create() -> (client: ClientState)
    ensures
        client.wf(),
        client@ == ClientView::initial(),
{
    ClientState {
        connected: false,
        registry: PipelineRegistry::new(),
        callbacks: CallbackTable {
            data: false,
            data_ex: false,
            audio: false,
            audio_format_change: false,
            connection: false,
        },
        role: LkRole::Both,
        audio_publish_opts: AudioPublishOptions::default(),
        audio_output_format: AudioOutputFormat::default(),
        data_labels: DataLabels::default(),
        log_level: LkLogLevel::Error,
        data_stats: DataStatsCounters::default(),
    }
}

/// Records whether a plain data callback is registered.
pub fn lk_client_set_data_callback(client: &mut ClientState, registered: bool) -> (res: LkResult)
    requires
        old(client).wf(),
    ensures
        final(client).wf(),
        res@ == success(),
        final(client)@ == (ClientView {
            callbacks: CallbackTable { data: registered, ..old(client)@.callbacks },
            ..old(client)@
        }),
{
    client.callbacks.data = registered;
    ok()
}

/// Records whether an audio callback is registered.
pub fn lk_client_set_audio_callback(client: &mut ClientState, registered: bool) -> (res: LkResult)
    requires
        old(client).wf(),
    ensures
        final(client).wf(),
        res@ == success(),
        final(client)@ == (ClientView {
            callbacks: CallbackTable { audio: registered, ..old(client)@.callbacks },
            ..old(client)@
        }),
{
    client.callbacks.audio = registered;
    ok()
}

/// Records whether an extended data callback is registered.
pub fn lk_client_set_data_callback_ex(client: &mut ClientState, registered: bool) -> (res: LkResult)
    requires
        old(client).wf(),
    ensures
        final(client).wf(),
        res@ == success(),
        final(client)@ == (ClientView {
            callbacks: CallbackTable { data_ex: registered, ..old(client)@.callbacks },
            ..old(client)@
        }),
{
    client.callbacks.data_ex = registered;
    ok()
}

/// Records whether an output-format-change callback is registered.
pub fn lk_set_audio_format_change_callback(client: &mut ClientState, registered: bool) -> (res:
    LkResult)
    requires
        old(client).wf(),
    ensures
        final(client).wf(),
        res@ == success(),
        final(client)@ == (ClientView {
            callbacks: CallbackTable { audio_format_change: registered, ..old(client)@.callbacks },
            ..old(client)@
        }),
{
    client.callbacks.audio_format_change = registered;
    ok()
}

/// Records whether a connection callback is registered.
pub fn lk_set_connection_callback(client: &mut ClientState, registered: bool) -> (res: LkResult)
    requires
        old(client).wf(),
    ensures
        final(client).wf(),
        res@ == success(),
        final(client)@ == (ClientView {
            callbacks: CallbackTable { connection: registered, ..old(client)@.callbacks },
            ..old(client)@
        }),
{
    client.callbacks.connection = registered;
    ok()
}

/// Sets the advisory publish options; a flag is on when it is not zero.
pub fn lk_set_audio_publish_options(
    client: &mut ClientState,
    bitrate_bps: i32,
    enable_dtx: i32,
    stereo: i32,
) -> (res: LkResult)
    requires
        old(client).wf(),
    ensures
        final(client).wf(),
        res@ == success(),
        final(client)@ == (ClientView {
            publish_options: AudioPublishOptions {
                bitrate_bps,
                enable_dtx: enable_dtx != 0,
                stereo: stereo != 0,
            },
            ..old(client)@
        }),
{
    client.audio_publish_opts =
    AudioPublishOptions { bitrate_bps, enable_dtx: enable_dtx != 0, stereo: stereo != 0 };
    ok()
}

/// Sets the format in which remote audio is delivered. A rate or a channel
/// count that is not positive is refused and changes nothing.
pub fn lk_set_audio_output_format(client: &mut ClientState, sample_rate: i32, channels: i32) -> (res:
    LkResult)
    requires
        old(client).wf(),
    ensures
        final(client).wf(),
        sample_rate <= 0 || channels <= 0 ==> res@ == failure(
            LK_ERR_PARAMS,
            "invalid audio output format"@,
        ) && final(client)@ == old(client)@,
        sample_rate > 0 && channels > 0 ==> res@ == success() && final(client)@ == (ClientView {
            output_format: AudioOutputFormat { sample_rate, channels },
            ..old(client)@
        }),
{
    if sample_rate <= 0 || channels <= 0 {
        return err(LK_ERR_PARAMS, "invalid audio output format");
    }
    client.audio_output_format = AudioOutputFormat { sample_rate, channels };
    ok()
}

/// Sets the default topic of each tier for which a label is given; `None`
/// stands for a label that is missing or not valid text, and leaves the
/// tier's topic as it is.
pub fn lk_set_default_data_labels(
    client: &mut ClientState,
    reliable_label: Option<&str>,
    lossy_label: Option<&str>,
) -> (res: LkResult)
    requires
        old(client).wf(),
    ensures
        final(client).wf(),
        res@ == success(),
        final(client)@ == (ClientView {
            labels: DataLabelsView {
                reliable: match reliable_label {
                    Some(text) => text@,
                    None => old(client)@.labels.reliable,
                },
                lossy: match lossy_label {
                    Some(text) => text@,
                    None => old(client)@.labels.lossy,
                },
            },
            ..old(client)@
        }),
{
    if let Some(text) = reliable_label {
        client.data_labels.reliable = text.to_owned();
    }
    if let Some(text) = lossy_label {
        client.data_labels.lossy = text.to_owned();
    }
    ok()
}

/// Accepts reconnect backoff settings and ignores them: reconnecting is the
/// connection's own business.
pub fn lk_set_reconnect_backoff(client: &ClientState, initial_ms: i32, max_ms: i32) -> (res:
    LkResult)
    ensures
        res@ == success(),
{
    ok()
}

/// Refreshing credentials in mid-session is not supported: always fails, and
/// tells the caller to reconnect.
pub fn lk_refresh_token() -> (res: LkResult)
    ensures
        res@ == failure(
            LK_ERR_UNSUPPORTED,
            "Token refresh not supported; use disconnect + reconnect"@,
        ),
{
    err(LK_ERR_UNSUPPORTED, "Token refresh not supported; use disconnect + reconnect")
}

/// Changing the role in mid-session is not supported: always fails, and
/// tells the caller to reconnect.
pub fn lk_set_role(role: LkRole, auto_subscribe: i32) -> (res: LkResult)
    ensures
        res@ == failure(
            LK_ERR_UNSUPPORTED,
            "Dynamic role switching not supported; use disconnect + reconnect with new role"@,
        ),
{
    err(
        LK_ERR_UNSUPPORTED,
        "Dynamic role switching not supported; use disconnect + reconnect with new role",
    )
}

/// Sets the verbosity of diagnostics.
pub fn lk_set_log_level(client: &mut ClientState, level: LkLogLevel) -> (res: LkResult)
    requires
        old(client).wf(),
    ensures
        final(client).wf(),
        res@ == success(),
        final(client)@ == (ClientView { log_level: level, ..old(client)@ }),
{
    client.log_level = level;
    ok()
}

/// Takes in how a connection attempt in role `Both` ended; see
/// `lk_connect_with_role`.
pub fn lk_connect(client: &mut ClientState, outcome: Result<(), String>) -> (res: (
    LkResult,
    DispatchAction,
))
    requires
        old(client).wf(),
    ensures
        final(client).wf(),
        match outcome {
            Ok(_) => {
                &&& final(client)@ == old(client)@.after_connected(LkRole::Both)
                &&& res.0@ == success()
                &&& res.1@ == old(client)@.notify(LkConnectionState::Connected, 0, None)
            },
            Err(reason) => {
                &&& final(client)@ == old(client)@
                &&& res.0@ == failure(LK_ERR_CONNECT, "connect failed: "@ + reason@)
                &&& res.1@ == DispatchActionView::Nothing
            },
        },
{
    lk_connect_with_role(client, LkRole::Both, outcome)
}

/// Takes in how a blocking connection attempt in `role` ended. (The attempt
/// subscribes to remote tracks on its own unless `role.auto_subscribe()` is
/// false.) On success the client is connected in that role and the connection
/// callback, if registered, is to be told `Connected`. On failure nothing
/// changes and the failure is returned.
pub fn lk_connect_with_role(client: &mut ClientState, role: LkRole, outcome: Result<(), String>) -> (res:
    (LkResult, DispatchAction))
    requires
        old(client).wf(),
    ensures
        final(client).wf(),
        match outcome {
            Ok(_) => {
                &&& final(client)@ == old(client)@.after_connected(role)
                &&& res.0@ == success()
                &&& res.1@ == old(client)@.notify(LkConnectionState::Connected, 0, None)
            },
            Err(reason) => {
                &&& final(client)@ == old(client)@
                &&& res.0@ == failure(LK_ERR_CONNECT, "connect failed: "@ + reason@)
                &&& res.1@ == DispatchActionView::Nothing
            },
        },
{
    match outcome {
        Ok(_) => {
            client.role = role;
            client.connected = true;
            let action = client.notify(LkConnectionState::Connected, 0, None);
            (ok(), action)
        },
        Err(reason) => {
            let text = "connect failed: ".to_owned().concat(reason.as_str());
            (err(LK_ERR_CONNECT, text.as_str()), DispatchAction::Nothing)
        },
    }
}

/// Begins a connection attempt in role `Both` that does not block the
/// caller; see `lk_connect_with_role_async`.
pub fn lk_connect_async(client: &ClientState) -> (res: (LkResult, DispatchAction))
    requires
        client.wf(),
    ensures
        client@.connected ==> res.0@ == failure(LK_ERR_ALREADY_CONNECTED, "already connected"@)
            && res.1@ == DispatchActionView::Nothing,
        !client@.connected ==> res.0@ == success() && res.1@ == client@.notify(
            LkConnectionState::Connecting,
            0,
            None,
        ),
{
    lk_connect_with_role_async(client)
}

/// Begins a connection attempt that does not block the caller. A client that
/// is connected already refuses. Otherwise the connection callback, if
/// registered, is to be told `Connecting`, the caller starts the attempt and
/// reports its end with `lk_connect_finished`.
pub fn lk_connect_with_role_async(client: &ClientState) -> (res: (LkResult, DispatchAction))
    requires
        client.wf(),
    ensures
        client@.connected ==> res.0@ == failure(LK_ERR_ALREADY_CONNECTED, "already connected"@)
            && res.1@ == DispatchActionView::Nothing,
        !client@.connected ==> res.0@ == success() && res.1@ == client@.notify(
            LkConnectionState::Connecting,
            0,
            None,
        ),
{
    if client.connected {
        return (err(LK_ERR_ALREADY_CONNECTED, "already connected"), DispatchAction::Nothing);
    }
    let action = client.notify(LkConnectionState::Connecting, 0, None);
    (ok(), action)
}

/// Takes in how a non-blocking connection attempt in `role` ended, and says
/// what the connection callback is to be told: `Connected` on success, when
/// the client becomes connected in that role; `Failed`, with reason code 1 and
/// the reason as message, on failure, which changes nothing.
pub fn lk_connect_finished(client: &mut ClientState, role: LkRole, outcome: Result<(), String>) -> (action:
    DispatchAction)
    requires
        old(client).wf(),
    ensures
        final(client).wf(),
        match outcome {
            Ok(_) => {
                &&& final(client)@ == old(client)@.after_connected(role)
                &&& action@ == old(client)@.notify(LkConnectionState::Connected, 0, None)
            },
            Err(reason) => {
                &&& final(client)@ == old(client)@
                &&& action@ == old(client)@.notify(
                    LkConnectionState::Failed,
                    1,
                    Some(callback_text(reason@)),
                )
            },
        },
{
    match outcome {
        Ok(_) => {
            client.role = role;
            client.connected = true;
            client.notify(LkConnectionState::Connected, 0, None)
        },
        Err(reason) => {
            let text = if has_nul(reason.as_str()) {
                String::new()
            } else {
                reason
            };
            client.notify(LkConnectionState::Failed, 1, Some(text))
        },
    }
}

/// Disconnects: afterwards there is no connection and no pipeline, the
/// default among them. The second result says whether there was a connection,
/// which the caller then closes.
pub fn lk_disconnect(client: &mut ClientState) -> (res: (LkResult, bool))
    requires
        old(client).wf(),
    ensures
        final(client).wf(),
        res.0@ == success(),
        res.1 == old(client)@.connected,
        final(client)@ == old(client)@.after_disconnect(),
{
    let was_connected = client.connected;
    client.connected = false;
    client.registry.clear();
    (ok(), was_connected)
}

/// 1 when the client is connected, 0 otherwise.
pub fn lk_client_is_ready(client: &ClientState) -> (ready: i32)
    ensures
        ready == if client@.connected {
            1i32
        } else {
            0i32
        },
{
    if client.connected {
        1
    } else {
        0
    }
}

/// Queues interleaved samples on the default pipeline. The format must be
/// positive and the client connected. A default pipeline of the same format
/// takes the samples; one of another format is an error; without one, the
/// caller is asked to publish its track first.
pub fn lk_publish_audio_pcm_i16(
    client: &mut ClientState,
    pcm: &[i16],
    channels: i32,
    sample_rate: i32,
) -> (res: AudioPush)
    requires
        old(client).wf(),
    ensures
        final(client).wf(),
        res@ == old(client)@.default_push_result(pcm@, channels, sample_rate),
        final(client)@ == old(client)@.after_default_push(pcm@, channels, sample_rate),
        res matches AudioPush::Publish(pending) ==> pending.plan.wf(),
{
    if channels <= 0 || sample_rate <= 0 {
        return AudioPush::Done(err(LK_ERR_PARAMS, "bad params"));
    }
    if !client.connected {
        return AudioPush::Done(err(LK_ERR_STATE, "not connected"));
    }
    match client.registry.ensure_default(true, sample_rate as u32, channels as u32) {
        Err(e) => AudioPush::Done(pipeline_error("audio pipeline init failed: ", &e)),
        Ok(DefaultTrack::Pending(pending)) => AudioPush::Publish(pending),
        Ok(DefaultTrack::Existing(id)) => {
            let pushed = client.registry.push(id, pcm);
            AudioPush::Done(push_error(pushed))
        },
    }
}

/// Second half of the first push on the default pipeline: takes in how
/// publishing the pending track went. On success the pipeline is entered as
/// the default and takes the samples.
pub fn lk_publish_audio_pcm_i16_published(
    client: &mut ClientState,
    pending: PendingTrack,
    published: Result<(), String>,
    pcm: &[i16],
) -> (res: LkResult)
    requires
        old(client).wf(),
        pending.plan.wf(),
    ensures
        final(client).wf(),
        res@ == old(client)@.default_published_result(pending, published, pcm@),
        final(client)@ == old(client)@.after_default_published(pending, published, pcm@),
{
    if !client.connected {
        return pipeline_error("audio pipeline init failed: ", &RegistryError::NotConnected);
    }
    match client.registry.finish_default(pending, published) {
        Err(e) => pipeline_error("audio pipeline init failed: ", &e),
        Ok(id) => {
            let pushed = client.registry.push(id, pcm);
            push_error(pushed)
        },
    }
}

/// First half of creating a track: checks the request and begins the
/// registration. A rate or channel count of zero or less is refused and
/// changes nothing; then the connection is looked at, then the size of the
/// ring. A missing name stands for the label of unnamed tracks and a depth of
/// zero or less for the default depth.
pub fn lk_audio_track_create(client: &mut ClientState, config: &LkAudioTrackConfig) -> (res:
    TrackCreate)
    requires
        old(client).wf(),
    ensures
        final(client).wf(),
        res@ == old(client)@.track_create_result(*config),
        final(client)@ == old(client)@.after_track_create(*config),
        res matches TrackCreate::Publish { pending, label } ==> pending.plan.wf(),
{
    if config.sample_rate <= 0 || config.channels <= 0 {
        return TrackCreate::Refused(err(LK_ERR_PARAMS, "invalid audio track parameters"));
    }
    let label = match &config.track_name {
        Some(text) => text.clone(),
        None => "ue-audio-track".to_owned(),
    };
    let buffer_ms: u32 = if config.buffer_ms <= 0 {
        DEFAULT_BUFFER_MS
    } else {
        config.buffer_ms as u32
    };
    match client.registry.begin_register(
        client.connected,
        config.sample_rate as u32,
        config.channels as u32,
        buffer_ms,
    ) {
        Ok(pending) => TrackCreate::Publish { pending, label },
        Err(e) => TrackCreate::Refused(pipeline_error("audio track create failed: ", &e)),
    }
}

/// Second half of creating a track: takes in how publishing went. On
/// success the pipeline is entered and its id returned; on failure nothing
/// is entered.
pub fn lk_audio_track_created(
    client: &mut ClientState,
    pending: PendingTrack,
    label: &str,
    published: Result<(), String>,
) -> (res: Result<u64, LkResult>)
    requires
        old(client).wf(),
        pending.plan.wf(),
    ensures
        final(client).wf(),
        final(client)@ == old(client)@.after_track_created(pending, label@, published),
        match res {
            Ok(id) => old(client)@.track_created_result(pending, published) == Ok::<
                u64,
                LkResultView,
            >(id),
            Err(e) => old(client)@.track_created_result(pending, published) == Err::<
                u64,
                LkResultView,
            >(e@),
        },
{
    if !client.connected {
        return Err(pipeline_error("audio track create failed: ", &RegistryError::NotConnected));
    }
    match client.registry.finish_register(pending, label, published) {
        Ok(id) => Ok(id),
        Err(e) => Err(pipeline_error("audio track create failed: ", &e)),
    }
}

/// Removes the track `track_id` and its pipeline; if it was the default
/// pipeline, there is no default afterwards. An unknown id changes nothing.
pub fn lk_audio_track_destroy(client: &mut ClientState, track_id: u64) -> (res: LkResult)
    requires
        old(client).wf(),
    ensures
        final(client).wf(),
        res@ == success(),
        final(client)@ == (ClientView {
            registry: old(client)@.registry.after_remove(track_id),
            ..old(client)@
        }),
{
    client.registry.remove(track_id);
    ok()
}

/// Queues interleaved samples on the track `track_id`. Without a connection
/// the call fails and nothing is queued.
pub fn lk_audio_track_publish_pcm_i16(client: &mut ClientState, track_id: u64, pcm: &[i16]) -> (res:
    LkResult)
    requires
        old(client).wf(),
    ensures
        final(client).wf(),
        res@ == old(client)@.track_push_result(track_id, pcm@),
        final(client)@ == old(client)@.after_track_push(track_id, pcm@),
{
    if !client.connected {
        return err(LK_ERR_STATE, "not connected");
    }
    if !client.registry.contains(track_id) {
        return err(LK_ERR_STATE, "audio track not found");
    }
    let pushed = client.registry.push(track_id, pcm);
    push_error(pushed)
}

/// One pacing tick of the track `track_id`: the frame to hand to its sink,
/// or `None` when there is no such track.
pub fn lk_audio_track_tick(client: &mut ClientState, track_id: u64) -> (frame: Option<AudioFrame>)
    requires
        old(client).wf(),
    ensures
        final(client).wf(),
        final(client)@ == (ClientView {
            registry: old(client)@.registry.after_tick(track_id),
            ..old(client)@
        }),
        match frame {
            Some(f) => old(client)@.registry.tick_frame(track_id) == Some(f@),
            None => old(client)@.registry.tick_frame(track_id) is None,
        },
{
    client.registry.next_frame(track_id)
}

/// First half of sending data on the tier's default topic; see
/// `lk_send_data_ex`.
pub fn lk_send_data(client: &ClientState, len: usize, reliability: LkReliability) -> (res: Result<
    SendPlan,
    LkResult,
>)
    requires
        client.wf(),
    ensures
        match res {
            Ok(plan) => client@.send_result(len, reliability, DataLabel::Default) == Ok::<
                SendPlanView,
                LkResultView,
            >(plan@),
            Err(e) => client@.send_result(len, reliability, DataLabel::Default) == Err::<
                SendPlanView,
                LkResultView,
            >(e@),
        },
{
    lk_send_data_ex(client, len, reliability, 1, DataLabel::Default)
}

/// First half of sending `len` bytes: the client must be connected and the
/// payload within the limit of its effective tier. On success the caller
/// transmits as `SendState` directs and reports the end with
/// `lk_send_data_finished`. `ordered` is accepted and not used.
pub fn lk_send_data_ex(
    client: &ClientState,
    len: usize,
    reliability: LkReliability,
    ordered: i32,
    label: DataLabel,
) -> (res: Result<SendPlan, LkResult>)
    requires
        client.wf(),
    ensures
        match res {
            Ok(plan) => client@.send_result(len, reliability, label) == Ok::<
                SendPlanView,
                LkResultView,
            >(plan@),
            Err(e) => client@.send_result(len, reliability, label) == Err::<
                SendPlanView,
                LkResultView,
            >(e@),
        },
{
    if !client.connected {
        return Err(err(LK_ERR_STATE, "not connected"));
    }
    match plan_send(len, reliability, label, &client.data_labels) {
        Ok(plan) => Ok(plan),
        Err(e) => Err(err(e.code(), e.message().as_str())),
    }
}

/// Second half of sending data: counts how the send ended and gives the
/// call's result. A delivered message adds its length to the sent bytes of
/// its effective tier. A dropped one adds one to that tier's drops and fails
/// with `reason`, the failure of the last attempt.
pub fn lk_send_data_finished(
    client: &mut ClientState,
    plan: &SendPlan,
    state: SendState,
    reason: &str,
) -> (res: LkResult)
    requires
        old(client).wf(),
        state.is_final(),
    ensures
        final(client).wf(),
        res@ == ClientView::send_finished_result(state, reason@),
        final(client)@ == old(client)@.after_send(plan@, state),
{
    client.data_stats.record(plan.tier, plan.len, state);
    match state {
        SendState::Delivered => ok(),
        _ => {
            let text = "byte_stream write failed: ".to_owned().concat(reason);
            err(LK_ERR_SEND, text.as_str())
        },
    }
}

/// The statistics of the default pipeline; all zero without one.
pub fn lk_get_audio_stats(client: &ClientState) -> (stats: LkAudioStats)
    requires
        client.wf(),
    ensures
        stats == client@.registry.default_stats(),
{
    client.registry.default_stats()
}

/// The data counters.
pub fn lk_get_data_stats(client: &ClientState) -> (stats: LkDataStats)
    ensures
        stats == client@.data_stats,
{
    client.data_stats.snapshot()
}

} // verus!
