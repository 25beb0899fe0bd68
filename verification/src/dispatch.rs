//! Routing of inbound room events to the client's callbacks: what is
//! reported, to which callback, and with which arguments.

use crate::config::AudioOutputFormat;
use crate::pipeline::{capped, AudioFrame, AudioFrameView};
use crate::text::has_nul;
use crate::types::{LkConnectionState, LkReliability};
use vstd::prelude::*;

verus! {

/// Which callbacks the caller has registered.
#[derive(Copy, Clone, Debug, PartialEq, Eq, Structural)]
pub struct CallbackTable {
    pub data: bool,
    pub data_ex: bool,
    pub audio: bool,
    pub audio_format_change: bool,
    pub connection: bool,
}

impl CallbackTable {
    /// No callback is registered.
    pub open spec fn none() -> CallbackTable {
        CallbackTable {
            data: false,
            data_ex: false,
            audio: false,
            audio_format_change: false,
            connection: false,
        }
    }
}

/// Connection state as the room reports it.
#[derive(Copy, Clone, Debug, PartialEq, Eq, Structural)]
pub enum LinkState {
    Disconnected,
    Connected,
    Reconnecting,
}

impl LinkState {
    /// The public connection state for a state of the room.
    pub open spec fn public_spec(self) -> LkConnectionState {
        match self {
            LinkState::Disconnected => LkConnectionState::Disconnected,
            LinkState::Connected => LkConnectionState::Connected,
            LinkState::Reconnecting => LkConnectionState::Reconnecting,
        }
    }

    #[verifier::when_used_as_spec(public_spec)]
    pub fn public(self) -> (state: LkConnectionState)
        ensures
            state == self.public_spec(),
    {
        match self {
            LinkState::Disconnected => LkConnectionState::Disconnected,
            LinkState::Connected => LkConnectionState::Connected,
            LinkState::Reconnecting => LkConnectionState::Reconnecting,
        }
    }
}

/// An inbound event of the room, reduced to what the routing reads.
#[derive(Clone, Debug, PartialEq, Eq)]
pub enum RoomSignal {
    /// The connection changed its state.
    ConnectionStateChanged(LinkState),
    /// The room was left, for the reason given as text.
    Disconnected { reason: String },
    /// A byte stream arrived on `topic`. `content` is all of its bytes, or
    /// `None` when the stream could not be read to its end.
    ByteStreamOpened { topic: String, content: Option<Vec<u8>> },
    /// A remote track was subscribed; `audio` says whether it carries audio.
    TrackSubscribed { audio: bool },
    /// Any other event.
    Other,
}

/// An inbound event as a value.
pub ghost enum RoomSignalView {
    ConnectionStateChanged(LinkState),
    Disconnected { reason: Seq<char> },
    ByteStreamOpened { topic: Seq<char>, content: Option<Seq<u8>> },
    TrackSubscribed { audio: bool },
    Other,
}

impl View for RoomSignal {
    type V = RoomSignalView;

    open spec fn view(&self) -> RoomSignalView {
        match self {
            RoomSignal::ConnectionStateChanged(state) => RoomSignalView::ConnectionStateChanged(
                *state,
            ),
            RoomSignal::Disconnected { reason } => RoomSignalView::Disconnected { reason: reason@ },
            RoomSignal::ByteStreamOpened { topic, content } => RoomSignalView::ByteStreamOpened {
                topic: topic@,
                content: match content {
                    Some(bytes) => Some(bytes@),
                    None => None,
                },
            },
            RoomSignal::TrackSubscribed { audio } => RoomSignalView::TrackSubscribed {
                audio: *audio,
            },
            RoomSignal::Other => RoomSignalView::Other,
        }
    }
}

/// What the dispatcher does about an event.
#[derive(Clone, Debug, PartialEq, Eq)]
pub enum DispatchAction {
    /// Nothing is called.
    Nothing,
    /// Call the connection callback with these arguments.
    NotifyConnection { state: LkConnectionState, reason_code: i32, message: Option<String> },
    /// Call the plain data callback (if `plain`) and the extended one (if
    /// `extended`) with `bytes`; the buffer lives for the call only.
    DeliverData {
        plain: bool,
        extended: bool,
        topic: String,
        reliability: LkReliability,
        bytes: Vec<u8>,
    },
    /// Start a task of its own that forwards the remote track's audio, decoded
    /// in this format, frame by frame.
    StartForwarding { sample_rate: i32, channels: i32 },
}

/// A dispatcher action as a value.
pub ghost enum DispatchActionView {
    Nothing,
    NotifyConnection { state: LkConnectionState, reason_code: i32, message: Option<Seq<char>> },
    DeliverData {
        plain: bool,
        extended: bool,
        topic: Seq<char>,
        reliability: LkReliability,
        bytes: Seq<u8>,
    },
    StartForwarding { sample_rate: i32, channels: i32 },
}

impl View for DispatchAction {
    type V = DispatchActionView;

    open spec fn view(&self) -> DispatchActionView {
        match self {
            DispatchAction::Nothing => DispatchActionView::Nothing,
            DispatchAction::NotifyConnection { state, reason_code, message } =>
                DispatchActionView::NotifyConnection {
                    state: *state,
                    reason_code: *reason_code,
                    message: match message {
                        Some(text) => Some(text@),
                        None => None,
                    },
                },
            DispatchAction::DeliverData { plain, extended, topic, reliability, bytes } =>
                DispatchActionView::DeliverData {
                    plain: *plain,
                    extended: *extended,
                    topic: topic@,
                    reliability: *reliability,
                    bytes: bytes@,
                },
            DispatchAction::StartForwarding { sample_rate, channels } =>
                DispatchActionView::StartForwarding {
                    sample_rate: *sample_rate,
                    channels: *channels,
                },
        }
    }
}

/// What the dispatcher reads of the client while it handles one event.
#[derive(Copy, Clone, Debug, PartialEq, Eq, Structural)]
pub struct DispatchContext {
    pub callbacks: CallbackTable,
    pub output: AudioOutputFormat,
}

/// The text handed to a callback for `text`: text with a NUL character
/// cannot cross the foreign interface and is replaced by the empty text.
pub open spec fn callback_text(text: Seq<char>) -> Seq<char> {
    if text.contains('\0') {
        Seq::empty()
    } else {
        text
    }
}

/// The format that remote audio is forwarded in when the client's settings
/// cannot be read.
pub open spec fn fallback_output() -> AudioOutputFormat {
    AudioOutputFormat { sample_rate: 48_000, channels: 1 }
}

/// What is done about `signal`. `context` is `None` when the client's state
/// could not be read; then no callback is called for this event, and audio is
/// forwarded in the fallback format.
pub open spec fn dispatch_spec(context: Option<DispatchContext>, signal: RoomSignalView)
    -> DispatchActionView {
    match signal {
        RoomSignalView::ConnectionStateChanged(state) => match context {
            Some(ctx) => if ctx.callbacks.connection {
                DispatchActionView::NotifyConnection {
                    state: state.public(),
                    reason_code: 0,
                    message: None,
                }
            } else {
                DispatchActionView::Nothing
            },
            None => DispatchActionView::Nothing,
        },
        RoomSignalView::Disconnected { reason } => match context {
            Some(ctx) => if ctx.callbacks.connection {
                DispatchActionView::NotifyConnection {
                    state: LkConnectionState::Disconnected,
                    reason_code: 0,
                    message: Some(callback_text(reason)),
                }
            } else {
                DispatchActionView::Nothing
            },
            None => DispatchActionView::Nothing,
        },
        RoomSignalView::ByteStreamOpened { topic, content } => match (context, content) {
            (Some(ctx), Some(bytes)) => if ctx.callbacks.data || ctx.callbacks.data_ex {
                DispatchActionView::DeliverData {
                    plain: ctx.callbacks.data,
                    extended: ctx.callbacks.data_ex,
                    topic,
                    reliability: LkReliability::Reliable,
                    bytes,
                }
            } else {
                DispatchActionView::Nothing
            },
            _ => DispatchActionView::Nothing,
        },
        RoomSignalView::TrackSubscribed { audio } => if audio {
            let output = match context {
                Some(ctx) => ctx.output,
                None => fallback_output(),
            };
            DispatchActionView::StartForwarding {
                sample_rate: output.sample_rate,
                channels: output.channels,
            }
        } else {
            DispatchActionView::Nothing
        },
        RoomSignalView::Other => DispatchActionView::Nothing,
    }
}

/// Decides what is done about one inbound event. Events are handed in one
/// at a time, in the order of their arrival.
pub fn dispatch(context: Option<DispatchContext>, signal: RoomSignal) -> (action: DispatchAction)
    ensures
        action@ == dispatch_spec(context, signal@),
{
    match signal {
        RoomSignal::ConnectionStateChanged(state) => match context {
            Some(ctx) => if ctx.callbacks.connection {
                DispatchAction::NotifyConnection {
                    state: state.public(),
                    reason_code: 0,
                    message: None,
                }
            } else {
                DispatchAction::Nothing
            },
            None => DispatchAction::Nothing,
        },
        RoomSignal::Disconnected { reason } => match context {
            Some(ctx) => if ctx.callbacks.connection {
                let text = if has_nul(reason.as_str()) {
                    String::new()
                } else {
                    reason
                };
                DispatchAction::NotifyConnection {
                    state: LkConnectionState::Disconnected,
                    reason_code: 0,
                    message: Some(text),
                }
            } else {
                DispatchAction::Nothing
            },
            None => DispatchAction::Nothing,
        },
        RoomSignal::ByteStreamOpened { topic, content } => match context {
            Some(ctx) => match content {
                Some(bytes) => if ctx.callbacks.data || ctx.callbacks.data_ex {
                    DispatchAction::DeliverData {
                        plain: ctx.callbacks.data,
                        extended: ctx.callbacks.data_ex,
                        topic,
                        reliability: LkReliability::Reliable,
                        bytes,
                    }
                } else {
                    DispatchAction::Nothing
                },
                None => DispatchAction::Nothing,
            },
            None => DispatchAction::Nothing,
        },
        RoomSignal::TrackSubscribed { audio } => if audio {
            let output = match context {
                Some(ctx) => ctx.output,
                None => AudioOutputFormat { sample_rate: 48_000, channels: 1 },
            };
            DispatchAction::StartForwarding {
                sample_rate: output.sample_rate,
                channels: output.channels,
            }
        } else {
            DispatchAction::Nothing
        },
        RoomSignal::Other => DispatchAction::Nothing,
    }
}

/// The arguments of one call of the audio callback, beside the samples.
#[derive(Copy, Clone, Debug, PartialEq, Eq, Structural)]
pub struct AudioDelivery {
    pub frames_per_channel: usize,
    pub channels: i32,
    pub sample_rate: i32,
}

/// The call of the audio callback for one inbound frame, if there is one.
pub open spec fn audio_delivery_spec(context: Option<DispatchContext>, frame: AudioFrameView)
    -> Option<AudioDelivery> {
    match context {
        Some(ctx) => if ctx.callbacks.audio {
            Some(
                AudioDelivery {
                    frames_per_channel: frame.samples_per_channel as usize,
                    channels: capped(frame.num_channels as nat),
                    sample_rate: capped(frame.sample_rate as nat),
                },
            )
        } else {
            None
        },
        None => None,
    }
}

/// Decides whether the audio callback is called for one inbound frame of a
/// remote track, and with which arguments: once per frame when the callback
/// is registered and the client's state could be read.
pub fn audio_delivery(context: Option<DispatchContext>, frame: &AudioFrame) -> (call: Option<
    AudioDelivery,
>)
    ensures
        call == audio_delivery_spec(context, frame@),
{
    match context {
        Some(ctx) => if ctx.callbacks.audio {
            let channels: i32 = if frame.num_channels <= i32::MAX as u32 {
                frame.num_channels as i32
            } else {
                i32::MAX
            };
            let sample_rate: i32 = if frame.sample_rate <= i32::MAX as u32 {
                frame.sample_rate as i32
            } else {
                i32::MAX
            };
            Some(
                AudioDelivery {
                    frames_per_channel: frame.samples_per_channel as usize,
                    channels,
                    sample_rate,
                },
            )
        } else {
            None
        },
        None => None,
    }
}

} // verus!
