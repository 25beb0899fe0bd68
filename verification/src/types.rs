//! Plain values of the client's public surface: reliability tiers, roles,
//! connection states, log levels, call results and statistics records.

use crate::text::has_nul;
use vstd::prelude::*;

verus! {

/// Delivery guarantee of an outbound data message.
#[derive(Copy, Clone, Debug, PartialEq, Eq, Structural)]
pub enum LkReliability {
    Reliable,
    Lossy,
}

/// What a client does in a room.
#[derive(Copy, Clone, Debug, PartialEq, Eq, Structural)]
pub enum LkRole {
    Auto,
    Publisher,
    Subscriber,
    Both,
}

/// Connection state as reported to the connection callback.
#[derive(Copy, Clone, Debug, PartialEq, Eq, Structural)]
pub enum LkConnectionState {
    Connecting,
    Connected,
    Reconnecting,
    Disconnected,
    Failed,
}

/// Verbosity of diagnostics, from quietest to noisiest.
#[derive(Copy, Clone, Debug, PartialEq, Eq, Structural)]
pub enum LkLogLevel {
    Error,
    Warn,
    Info,
    Debug,
    Trace,
}

impl LkReliability {
    /// The tier's number on the foreign interface.
    pub open spec fn code_spec(self) -> i32 {
        match self {
            LkReliability::Reliable => 0,
            LkReliability::Lossy => 1,
        }
    }

    #[verifier::when_used_as_spec(code_spec)]
    pub fn code(self) -> (c: i32)
        ensures
            c == self.code_spec(),
    {
        match self {
            LkReliability::Reliable => 0,
            LkReliability::Lossy => 1,
        }
    }

    /// The tier with the given number, if there is one.
    pub fn from_code(code: i32) -> (tier: Option<LkReliability>)
        ensures
            tier matches Some(t) ==> t.code() == code,
            tier is None <==> !(0 <= code <= 1),
    {
        if code == 0 {
            Some(LkReliability::Reliable)
        } else if code == 1 {
            Some(LkReliability::Lossy)
        } else {
            None
        }
    }
}

impl LkRole {
    /// The role's number on the foreign interface.
    pub open spec fn code_spec(self) -> i32 {
        match self {
            LkRole::Auto => 0,
            LkRole::Publisher => 1,
            LkRole::Subscriber => 2,
            LkRole::Both => 3,
        }
    }

    #[verifier::when_used_as_spec(code_spec)]
    pub fn code(self) -> (c: i32)
        ensures
            c == self.code_spec(),
    {
        match self {
            LkRole::Auto => 0,
            LkRole::Publisher => 1,
            LkRole::Subscriber => 2,
            LkRole::Both => 3,
        }
    }

    /// The role with the given number, if there is one.
    pub fn from_code(code: i32) -> (role: Option<LkRole>)
        ensures
            role matches Some(r) ==> r.code() == code,
            role is None <==> !(0 <= code <= 3),
    {
        if code == 0 {
            Some(LkRole::Auto)
        } else if code == 1 {
            Some(LkRole::Publisher)
        } else if code == 2 {
            Some(LkRole::Subscriber)
        } else if code == 3 {
            Some(LkRole::Both)
        } else {
            None
        }
    }

    /// Whether a client in this role subscribes to remote tracks on its own.
    /// Only a pure publisher does not, to save bandwidth.
    pub open spec fn auto_subscribe_spec(self) -> bool {
        self != LkRole::Publisher
    }

    #[verifier::when_used_as_spec(auto_subscribe_spec)]
    pub fn auto_subscribe(self) -> (b: bool)
        ensures
            b == self.auto_subscribe_spec(),
    {
        match self {
            LkRole::Publisher => false,
            _ => true,
        }
    }
}

impl LkConnectionState {
    /// The state's number on the foreign interface.
    pub open spec fn code_spec(self) -> i32 {
        match self {
            LkConnectionState::Connecting => 0,
            LkConnectionState::Connected => 1,
            LkConnectionState::Reconnecting => 2,
            LkConnectionState::Disconnected => 3,
            LkConnectionState::Failed => 4,
        }
    }

    #[verifier::when_used_as_spec(code_spec)]
    pub fn code(self) -> (c: i32)
        ensures
            c == self.code_spec(),
    {
        match self {
            LkConnectionState::Connecting => 0,
            LkConnectionState::Connected => 1,
            LkConnectionState::Reconnecting => 2,
            LkConnectionState::Disconnected => 3,
            LkConnectionState::Failed => 4,
        }
    }
}

impl LkLogLevel {
    /// The level's number on the foreign interface; noisier levels are larger.
    pub open spec fn code_spec(self) -> i32 {
        match self {
            LkLogLevel::Error => 0,
            LkLogLevel::Warn => 1,
            LkLogLevel::Info => 2,
            LkLogLevel::Debug => 3,
            LkLogLevel::Trace => 4,
        }
    }

    #[verifier::when_used_as_spec(code_spec)]
    pub fn code(self) -> (c: i32)
        ensures
            c == self.code_spec(),
    {
        match self {
            LkLogLevel::Error => 0,
            LkLogLevel::Warn => 1,
            LkLogLevel::Info => 2,
            LkLogLevel::Debug => 3,
            LkLogLevel::Trace => 4,
        }
    }

    /// The level with the given number, if there is one.
    pub fn from_code(code: i32) -> (level: Option<LkLogLevel>)
        ensures
            level matches Some(l) ==> l.code() == code,
            level is None <==> !(0 <= code <= 4),
    {
        if code == 0 {
            Some(LkLogLevel::Error)
        } else if code == 1 {
            Some(LkLogLevel::Warn)
        } else if code == 2 {
            Some(LkLogLevel::Info)
        } else if code == 3 {
            Some(LkLogLevel::Debug)
        } else if code == 4 {
            Some(LkLogLevel::Trace)
        } else {
            None
        }
    }

    /// Whether a client set to this level emits a message of level
    /// `message`: it does when the message is no noisier than the setting.
    pub open spec fn emits_spec(self, message: LkLogLevel) -> bool {
        message.code() <= self.code()
    }

    #[verifier::when_used_as_spec(emits_spec)]
    pub fn emits(self, message: LkLogLevel) -> (b: bool)
        ensures
            b == self.emits_spec(message),
    {
        message.code() <= self.code()
    }
}

/// The call succeeded.
pub const LK_OK: i32 = 0;

/// The client or track handle is missing.
pub const LK_ERR_HANDLE: i32 = 1;

/// A text argument is missing or not valid text.
pub const LK_ERR_TEXT: i32 = 2;

/// The connection could not be established.
pub const LK_ERR_CONNECT: i32 = 3;

/// A data argument is missing.
pub const LK_ERR_DATA: i32 = 4;

/// A parameter is out of range.
pub const LK_ERR_PARAMS: i32 = 5;

/// The operation needs a connection, or a track, that does not exist.
pub const LK_ERR_STATE: i32 = 6;

/// An audio pipeline could not be set up.
pub const LK_ERR_PIPELINE: i32 = 7;

/// Samples could not be queued.
pub const LK_ERR_PUSH: i32 = 8;

/// A connection already exists.
pub const LK_ERR_ALREADY_CONNECTED: i32 = 104;

/// A lossy payload is over its limit.
pub const LK_ERR_LOSSY_SIZE: i32 = 201;

/// A reliable payload is over its limit.
pub const LK_ERR_RELIABLE_SIZE: i32 = 202;

/// A payload could not be sent.
pub const LK_ERR_SEND: i32 = 203;

/// The operation is not supported; reconnect instead.
pub const LK_ERR_UNSUPPORTED: i32 = 501;

/// Outcome of a call: code 0 and no message on success, otherwise a non-zero
/// code and a message.
#[derive(Clone, Debug, PartialEq, Eq)]
pub struct LkResult {
    pub code: i32,
    pub message: Option<String>,
}

/// A call result as a value.
pub ghost struct LkResultView {
    pub code: i32,
    pub message: Option<Seq<char>>,
}

impl View for LkResult {
    type V = LkResultView;

    open spec fn view(&self) -> LkResultView {
        LkResultView {
            code: self.code,
            message: match self.message {
                Some(text) => Some(text@),
                None => None,
            },
        }
    }
}

/// The text that a failure carries for the message `msg`: a message with a
/// NUL character cannot cross the foreign interface and is replaced.
pub open spec fn carried_text(msg: Seq<char>) -> Seq<char> {
    if msg.contains('\0') {
        "ffi error"@
    } else {
        msg
    }
}

/// The successful result.
pub open spec fn success() -> LkResultView {
    LkResultView { code: LK_OK, message: None }
}

/// The failure with the given code and message.
pub open spec fn failure(code: i32, msg: Seq<char>) -> LkResultView {
    LkResultView { code, message: Some(carried_text(msg)) }
}

/// The successful result.
pub fn ok() -> (res: LkResult)
    ensures
        res@ == success(),
{
    LkResult { code: 0, message: None }
}

/// The failure with the given code and message.
pub fn err(code: i32, msg: &str) -> (res: LkResult)
    ensures
        res@ == failure(code, msg@),
{
    if has_nul(msg) {
        LkResult { code, message: Some("ffi error".to_owned()) }
    } else {
        LkResult { code, message: Some(msg.to_owned()) }
    }
}

/// Snapshot of the default audio pipeline; all zero when there is none.
#[derive(Copy, Clone, Debug, PartialEq, Eq, Structural)]
pub struct LkAudioStats {
    pub sample_rate: i32,
    pub channels: i32,
    pub ring_capacity_frames: i32,
    pub ring_queued_frames: i32,
    pub underruns: i32,
    pub overruns: i32,
}

/// Snapshot of the data counters, per reliability tier.
#[derive(Copy, Clone, Debug, PartialEq, Eq, Structural)]
pub struct LkDataStats {
    pub reliable_sent_bytes: i64,
    pub reliable_dropped: i64,
    pub lossy_sent_bytes: i64,
    pub lossy_dropped: i64,
}

/// What a caller asks of a new audio track. A missing name and a buffer depth
/// of zero or less stand for the defaults.
#[derive(Clone, Debug, PartialEq, Eq)]
pub struct LkAudioTrackConfig {
    pub track_name: Option<String>,
    pub sample_rate: i32,
    pub channels: i32,
    pub buffer_ms: i32,
}

} // verus!
