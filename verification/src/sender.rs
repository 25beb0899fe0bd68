//! Sending data messages: the size limit of each reliability tier, the
//! topic a message goes out on, one retry after a failed attempt, and the
//! counters of bytes sent and messages dropped.

use crate::config::{DataLabels, DataLabelsView};
use crate::text::{decimal, decimal_digits};
use crate::types::{LkDataStats, LkReliability, LK_ERR_LOSSY_SIZE, LK_ERR_RELIABLE_SIZE};
use vstd::prelude::*;
use vstd::string::StringExecFns;

verus! {

/// Largest payload of a lossy message, in bytes.
pub const LOSSY_MAX: usize = 1300;

/// Largest payload of a reliable message, in bytes.
pub const RELIABLE_MAX: usize = 15360;

/// Pause before the one retry of a failed attempt, in milliseconds.
pub const RETRY_BACKOFF_MS: u64 = 100;

/// The topic used when the caller's label cannot be read as text.
pub open spec fn unreadable_label_topic() -> Seq<char> {
    "custom"@
}

/// The tier a message of `len` bytes really goes out on: a lossy message over
/// the lossy limit is sent reliably instead.
pub open spec fn effective_tier(tier: LkReliability, len: nat) -> LkReliability {
    if tier == LkReliability::Lossy && len > LOSSY_MAX {
        LkReliability::Reliable
    } else {
        tier
    }
}

/// The largest payload of a tier.
pub open spec fn size_limit(tier: LkReliability) -> nat {
    match tier {
        LkReliability::Lossy => LOSSY_MAX as nat,
        LkReliability::Reliable => RELIABLE_MAX as nat,
    }
}

/// The label argument of a send call.
#[derive(Clone, Debug, PartialEq, Eq)]
pub enum DataLabel {
    /// No label: the tier's default topic is used.
    Default,
    /// The topic named by the caller.
    Named(String),
    /// A label was given but is not valid text.
    Unreadable,
}

/// The topic of a message: the caller's label wins over the default of the
/// effective tier.
pub open spec fn topic_of(label: DataLabel, labels: DataLabelsView, tier: LkReliability) -> Seq<
    char,
> {
    match label {
        DataLabel::Default => labels.of(tier),
        DataLabel::Named(topic) => topic@,
        DataLabel::Unreadable => unreadable_label_topic(),
    }
}

/// Why a message cannot be sent at all.
#[derive(Copy, Clone, Debug, PartialEq, Eq, Structural)]
pub enum SendError {
    /// The payload is over the limit of its effective tier.
    TooLarge { tier: LkReliability, len: usize },
}

impl SendError {
    /// The error's number on the foreign interface.
    pub open spec fn code_spec(self) -> i32 {
        match self {
            SendError::TooLarge { tier, len } => match tier {
                LkReliability::Lossy => LK_ERR_LOSSY_SIZE,
                LkReliability::Reliable => LK_ERR_RELIABLE_SIZE,
            },
        }
    }

    #[verifier::when_used_as_spec(code_spec)]
    pub fn code(self) -> (c: i32)
        ensures
            c == self.code_spec(),
    {
        match self {
            SendError::TooLarge { tier, len } => match tier {
                LkReliability::Lossy => LK_ERR_LOSSY_SIZE,
                LkReliability::Reliable => LK_ERR_RELIABLE_SIZE,
            },
        }
    }

    /// The message of this error, as text.
    pub open spec fn message_spec(self) -> Seq<char> {
        match self {
            SendError::TooLarge { tier, len } => match tier {
                LkReliability::Lossy => "lossy data size "@ + decimal_digits(len as nat)
                    + " exceeds limit "@ + decimal_digits(LOSSY_MAX as nat),
                LkReliability::Reliable => "reliable data size "@ + decimal_digits(len as nat)
                    + " exceeds limit "@ + decimal_digits(RELIABLE_MAX as nat),
            },
        }
    }

    /// The message of this error.
    pub fn message(&self) -> (text: String)
        ensures
            text@ == self.message_spec(),
    {
        match self {
            SendError::TooLarge { tier, len } => {
                let (head, limit) = match tier {
                    LkReliability::Lossy => ("lossy data size ", LOSSY_MAX),
                    LkReliability::Reliable => ("reliable data size ", RELIABLE_MAX),
                };
                let text = head.to_owned();
                let text = text.concat(decimal(*len as u64).as_str());
                let text = text.concat(" exceeds limit ");
                text.concat(decimal(limit as u64).as_str())
            },
        }
    }
}

/// A message that passed the size check: the tier it goes out on, its topic
/// and its length.
#[derive(Clone, Debug, PartialEq, Eq)]
pub struct SendPlan {
    pub tier: LkReliability,
    pub topic: String,
    pub len: usize,
}

/// A send plan as a value.
pub ghost struct SendPlanView {
    pub tier: LkReliability,
    pub topic: Seq<char>,
    pub len: usize,
}

impl View for SendPlan {
    type V = SendPlanView;

    open spec fn view(&self) -> SendPlanView {
        SendPlanView { tier: self.tier, topic: self.topic@, len: self.len }
    }
}

/// What `plan_send` answers.
pub open spec fn plan_send_result(
    len: usize,
    tier: LkReliability,
    label: DataLabel,
    labels: DataLabelsView,
) -> Result<SendPlanView, SendError> {
    let effective = effective_tier(tier, len as nat);
    if len > size_limit(effective) {
        Err(SendError::TooLarge { tier: effective, len })
    } else {
        Ok(SendPlanView { tier: effective, topic: topic_of(label, labels, effective), len })
    }
}

/// Checks a payload of `len` bytes against its tier and settles tier and
/// topic. A lossy payload over the lossy limit is moved to the reliable tier
/// and then held to the reliable limit.
pub fn plan_send(len: usize, tier: LkReliability, label: DataLabel, labels: &DataLabels) -> (res:
    Result<SendPlan, SendError>)
    ensures
        match res {
            Ok(plan) => plan_send_result(len, tier, label, labels@) == Ok::<
                SendPlanView,
                SendError,
            >(plan@),
            Err(e) => plan_send_result(len, tier, label, labels@) == Err::<SendPlanView, SendError>(
                e,
            ),
        },
{
    let effective = match tier {
        LkReliability::Lossy => if len > LOSSY_MAX {
            LkReliability::Reliable
        } else {
            LkReliability::Lossy
        },
        LkReliability::Reliable => LkReliability::Reliable,
    };
    let limit = match effective {
        LkReliability::Lossy => LOSSY_MAX,
        LkReliability::Reliable => RELIABLE_MAX,
    };
    if len > limit {
        return Err(SendError::TooLarge { tier: effective, len });
    }
    let topic = match label {
        DataLabel::Named(topic) => topic,
        DataLabel::Unreadable => "custom".to_owned(),
        DataLabel::Default => match effective {
            LkReliability::Reliable => labels.reliable.clone(),
            LkReliability::Lossy => labels.lossy.clone(),
        },
    };
    Ok(SendPlan { tier: effective, topic, len })
}

/// Where a send stands.
#[derive(Copy, Clone, Debug, PartialEq, Eq, Structural)]
pub enum SendState {
    /// The first attempt is under way.
    First,
    /// The first attempt failed; the retry is under way.
    Second,
    /// An attempt succeeded.
    Delivered,
    /// Both attempts failed.
    Dropped,
}

/// What the caller does next.
#[derive(Copy, Clone, Debug, PartialEq, Eq, Structural)]
pub enum SendAction {
    /// Wait for the given number of milliseconds, then make an attempt on a
    /// fresh stream: open it on the topic, write the whole payload, close it.
    Transmit { delay_ms: u64 },
    /// The send is over; report whether the message was delivered.
    Finish(bool),
}

impl SendState {
    /// The state after an attempt ended: a success delivers, the first
    /// failure leads to the retry, the second failure drops the message.
    pub open spec fn after(self, succeeded: bool) -> SendState {
        match self {
            SendState::First => if succeeded {
                SendState::Delivered
            } else {
                SendState::Second
            },
            SendState::Second => if succeeded {
                SendState::Delivered
            } else {
                SendState::Dropped
            },
            SendState::Delivered => SendState::Delivered,
            SendState::Dropped => SendState::Dropped,
        }
    }

    /// What the caller does on entering this state: the first attempt is
    /// made at once, the retry after the backoff.
    pub open spec fn action(self) -> SendAction {
        match self {
            SendState::First => SendAction::Transmit { delay_ms: 0 },
            SendState::Second => SendAction::Transmit { delay_ms: RETRY_BACKOFF_MS },
            SendState::Delivered => SendAction::Finish(true),
            SendState::Dropped => SendAction::Finish(false),
        }
    }

    /// The state of a send that is about to make its first attempt, and the
    /// order to make it.
    pub fn start() -> (first: (SendState, SendAction))
        ensures
            first.0 == SendState::First,
            first.1 == SendState::First.action(),
    {
        (SendState::First, SendAction::Transmit { delay_ms: 0 })
    }

    /// Whether the send is over.
    pub open spec fn is_final(self) -> bool {
        self == SendState::Delivered || self == SendState::Dropped
    }

    /// Takes in how the attempt under way ended and says what comes next.
    pub fn on_attempt(self, succeeded: bool) -> (next: (SendState, SendAction))
        ensures
            next.0 == self.after(succeeded),
            next.1 == self.after(succeeded).action(),
    {
        let state = match self {
            SendState::First => if succeeded {
                SendState::Delivered
            } else {
                SendState::Second
            },
            SendState::Second => if succeeded {
                SendState::Delivered
            } else {
                SendState::Dropped
            },
            SendState::Delivered => SendState::Delivered,
            SendState::Dropped => SendState::Dropped,
        };
        let action = match state {
            SendState::First => SendAction::Transmit { delay_ms: 0 },
            SendState::Second => SendAction::Transmit { delay_ms: RETRY_BACKOFF_MS },
            SendState::Delivered => SendAction::Finish(true),
            SendState::Dropped => SendAction::Finish(false),
        };
        (state, action)
    }
}

/// A byte or message counter after `amount` more; it stays at its largest
/// value once there.
pub open spec fn counted(counter: i64, amount: nat) -> i64 {
    if counter + amount <= i64::MAX {
        (counter + amount) as i64
    } else {
        i64::MAX
    }
}

fn count(counter: i64, amount: usize) -> (next: i64)
    ensures
        next == counted(counter, amount as nat),
{
    let sum: i128 = counter as i128 + amount as i128;
    if sum <= i64::MAX as i128 {
        sum as i64
    } else {
        i64::MAX
    }
}

/// The statistics after a send of `len` bytes on `tier` ended in `state`:
/// a delivered message adds its length to the tier's sent bytes, a dropped
/// one adds one to the tier's drops, and an unfinished send adds nothing.
pub open spec fn stats_after(stats: LkDataStats, tier: LkReliability, len: usize, state: SendState)
    -> LkDataStats {
    match state {
        SendState::Delivered => match tier {
            LkReliability::Reliable => LkDataStats {
                reliable_sent_bytes: counted(stats.reliable_sent_bytes, len as nat),
                ..stats
            },
            LkReliability::Lossy => LkDataStats {
                lossy_sent_bytes: counted(stats.lossy_sent_bytes, len as nat),
                ..stats
            },
        },
        SendState::Dropped => match tier {
            LkReliability::Reliable => LkDataStats {
                reliable_dropped: counted(stats.reliable_dropped, 1),
                ..stats
            },
            LkReliability::Lossy => LkDataStats {
                lossy_dropped: counted(stats.lossy_dropped, 1),
                ..stats
            },
        },
        _ => stats,
    }
}

/// The counters of data sent and dropped, per reliability tier.
#[derive(Copy, Clone, Debug, PartialEq, Eq, Structural)]
pub struct DataStatsCounters {
    pub reliable_sent_bytes: i64,
    pub reliable_dropped: i64,
    pub lossy_sent_bytes: i64,
    pub lossy_dropped: i64,
}

impl Default for DataStatsCounters {
    /// All counters at zero.
    fn default() -> (counters: DataStatsCounters)
        ensures
            counters@ == no_data_stats(),
    {
        DataStatsCounters {
            reliable_sent_bytes: 0,
            reliable_dropped: 0,
            lossy_sent_bytes: 0,
            lossy_dropped: 0,
        }
    }
}

/// The statistics of a client that has sent nothing.
pub open spec fn no_data_stats() -> LkDataStats {
    LkDataStats { reliable_sent_bytes: 0, reliable_dropped: 0, lossy_sent_bytes: 0, lossy_dropped: 0 }
}

impl View for DataStatsCounters {
    type V = LkDataStats;

    open spec fn view(&self) -> LkDataStats {
        LkDataStats {
            reliable_sent_bytes: self.reliable_sent_bytes,
            reliable_dropped: self.reliable_dropped,
            lossy_sent_bytes: self.lossy_sent_bytes,
            lossy_dropped: self.lossy_dropped,
        }
    }
}

impl DataStatsCounters {
    /// Counts the end of a send of `len` bytes on `tier`.
    pub fn record(&mut self, tier: LkReliability, len: usize, state: SendState)
        ensures
            final(self)@ == stats_after(old(self)@, tier, len, state),
    {
        match state {
            SendState::Delivered => match tier {
                LkReliability::Reliable => {
                    self.reliable_sent_bytes = count(self.reliable_sent_bytes, len);
                },
                LkReliability::Lossy => {
                    self.lossy_sent_bytes = count(self.lossy_sent_bytes, len);
                },
            },
            SendState::Dropped => match tier {
                LkReliability::Reliable => {
                    self.reliable_dropped = count(self.reliable_dropped, 1);
                },
                LkReliability::Lossy => {
                    self.lossy_dropped = count(self.lossy_dropped, 1);
                },
            },
            _ => {},
        }
    }

    /// The counters as a statistics record.
    pub fn snapshot(&self) -> (stats: LkDataStats)
        ensures
            stats == self@,
    {
        LkDataStats {
            reliable_sent_bytes: self.reliable_sent_bytes,
            reliable_dropped: self.reliable_dropped,
            lossy_sent_bytes: self.lossy_sent_bytes,
            lossy_dropped: self.lossy_dropped,
        }
    }
}

} // verus!
