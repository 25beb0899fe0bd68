//! Settings of a client: advisory publish options, the format in which
//! remote audio is delivered, and the default topic of each reliability tier.

use crate::types::LkReliability;
use vstd::prelude::*;

verus! {

/// Advisory options for published audio; they are handed to the sink.
#[derive(Copy, Clone, Debug, PartialEq, Eq, Structural)]
pub struct AudioPublishOptions {
    pub bitrate_bps: i32,
    pub enable_dtx: bool,
    pub stereo: bool,
}

impl Default for AudioPublishOptions {
    /// 32 kbit/s, no silence suppression, mono.
    fn default() -> (options: AudioPublishOptions)
        ensures
            options == (AudioPublishOptions { bitrate_bps: 32_000, enable_dtx: false, stereo: false }),
    {
        AudioPublishOptions { bitrate_bps: 32_000, enable_dtx: false, stereo: false }
    }
}

/// The format in which remote audio is decoded and delivered.
#[derive(Copy, Clone, Debug, PartialEq, Eq, Structural)]
pub struct AudioOutputFormat {
    pub sample_rate: i32,
    pub channels: i32,
}

impl Default for AudioOutputFormat {
    /// 48 kHz, mono.
    fn default() -> (format: AudioOutputFormat)
        ensures
            format == (AudioOutputFormat { sample_rate: 48_000, channels: 1 }),
    {
        AudioOutputFormat { sample_rate: 48_000, channels: 1 }
    }
}

impl AudioOutputFormat {
    /// Both the rate and the channel count are positive.
    pub open spec fn valid(self) -> bool {
        self.sample_rate > 0 && self.channels > 0
    }
}

/// The topic that data of each tier is sent on when the caller names none.
#[derive(Clone, Debug, PartialEq, Eq)]
pub struct DataLabels {
    pub reliable: String,
    pub lossy: String,
}

/// The default topics as values.
pub ghost struct DataLabelsView {
    pub reliable: Seq<char>,
    pub lossy: Seq<char>,
}

impl View for DataLabels {
    type V = DataLabelsView;

    open spec fn view(&self) -> DataLabelsView {
        DataLabelsView { reliable: self.reliable@, lossy: self.lossy@ }
    }
}

impl DataLabelsView {
    /// The topics of a new client.
    pub open spec fn initial() -> DataLabelsView {
        DataLabelsView { reliable: "mocap-bin-reliable"@, lossy: "mocap-bin-lossy"@ }
    }

    /// The default topic of a tier.
    pub open spec fn of(self, tier: LkReliability) -> Seq<char> {
        match tier {
            LkReliability::Reliable => self.reliable,
            LkReliability::Lossy => self.lossy,
        }
    }
}

impl Default for DataLabels {
    fn default() -> (labels: DataLabels)
        ensures
            labels@ == DataLabelsView::initial(),
    {
        DataLabels { reliable: "mocap-bin-reliable".to_owned(), lossy: "mocap-bin-lossy".to_owned() }
    }
}

} // verus!
