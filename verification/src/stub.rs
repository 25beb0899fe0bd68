//! A stand-in client for builds without a media stack: it keeps track of
//! whether it is connected, accepts every setting and every payload, and
//! reports empty statistics.

use crate::registry::no_audio_stats;
use crate::sender::no_data_stats;
use crate::types::{
    err, failure, ok, success, LkAudioStats, LkDataStats, LkLogLevel, LkReliability, LkResult,
    LkRole, LK_ERR_UNSUPPORTED,
};
use vstd::prelude::*;

verus! {

/// The state of a stand-in client.
#[derive(Copy, Clone, Debug, PartialEq, Eq, Structural)]
pub struct ClientState {
    pub connected: bool,
}

/// Creates a stand-in client, not connected.
pub fn lk_client_create() -> (client: ClientState)
    ensures
        !client.connected,
{
    ClientState { connected: false }
}

/// Accepts a plain data callback; it is never called.
pub fn lk_client_set_data_callback(client: &ClientState, registered: bool) -> (res: LkResult)
    ensures
        res@ == success(),
{
    ok()
}

/// Accepts an extended data callback; it is never called.
pub fn lk_client_set_data_callback_ex(client: &ClientState, registered: bool) -> (res: LkResult)
    ensures
        res@ == success(),
{
    ok()
}

/// Accepts an audio callback; it is never called.
pub fn lk_client_set_audio_callback(client: &ClientState, registered: bool) -> (res: LkResult)
    ensures
        res@ == success(),
{
    ok()
}

/// Accepts a format-change callback; it is never called.
pub fn lk_set_audio_format_change_callback(client: &ClientState, registered: bool) -> (res:
    LkResult)
    ensures
        res@ == success(),
{
    ok()
}

/// Accepts a connection callback; it is never called.
pub fn lk_set_connection_callback(client: &ClientState, registered: bool) -> (res: LkResult)
    ensures
        res@ == success(),
{
    ok()
}

/// Connects at once, without a network.
pub fn lk_connect(client: &mut ClientState) -> (res: LkResult)
    ensures
        res@ == success(),
        final(client).connected,
{
    client.connected = true;
    ok()
}

/// Connects at once, without a network, whatever the role.
pub fn lk_connect_with_role(client: &mut ClientState, role: LkRole) -> (res: LkResult)
    ensures
        res@ == success(),
        final(client).connected,
{
    client.connected = true;
    ok()
}

/// Disconnects.
pub fn lk_disconnect(client: &mut ClientState) -> (res: LkResult)
    ensures
        res@ == success(),
        !final(client).connected,
{
    client.connected = false;
    ok()
}

/// 1 when the client is connected, 0 otherwise.
pub fn lk_client_is_ready(client: &ClientState) -> (ready: i32)
    ensures
        ready == if client.connected {
            1i32
        } else {
            0i32
        },
{
    if client.connected {
        1
    } else {
        0
    }
}

/// Accepts publish options and forgets them.
pub fn lk_set_audio_publish_options(
    client: &ClientState,
    bitrate_bps: i32,
    enable_dtx: i32,
    stereo: i32,
) -> (res: LkResult)
    ensures
        res@ == success(),
{
    ok()
}

/// Accepts an output format and forgets it.
pub fn lk_set_audio_output_format(client: &ClientState, sample_rate: i32, channels: i32) -> (res:
    LkResult)
    ensures
        res@ == success(),
{
    ok()
}

/// Accepts samples in a positive format and discards them.
pub fn lk_publish_audio_pcm_i16(client: &ClientState, pcm: &[i16], channels: i32, sample_rate: i32)
    -> (res: LkResult)
    ensures
        res@ == if channels <= 0 || sample_rate <= 0 {
            failure(3, "bad params"@)
        } else {
            success()
        },
{
    if channels <= 0 || sample_rate <= 0 {
        return err(3, "bad params");
    }
    ok()
}

/// Accepts a payload and discards it.
pub fn lk_send_data(client: &ClientState, len: usize, reliability: LkReliability) -> (res: LkResult)
    ensures
        res@ == success(),
{
    ok()
}

/// Accepts a payload and discards it.
pub fn lk_send_data_ex(
    client: &ClientState,
    len: usize,
    reliability: LkReliability,
    ordered: i32,
    label: Option<&str>,
) -> (res: LkResult)
    ensures
        res@ == success(),
{
    ok()
}

/// Accepts default topics and forgets them.
pub fn lk_set_default_data_labels(
    client: &ClientState,
    reliable_label: Option<&str>,
    lossy_label: Option<&str>,
) -> (res: LkResult)
    ensures
        res@ == success(),
{
    ok()
}

/// Accepts reconnect backoff settings and forgets them.
pub fn lk_set_reconnect_backoff(client: &ClientState, initial_ms: i32, max_ms: i32) -> (res:
    LkResult)
    ensures
        res@ == success(),
{
    ok()
}

/// Refreshing credentials is not supported: always fails.
pub fn lk_refresh_token() -> (res: LkResult)
    ensures
        res@ == failure(LK_ERR_UNSUPPORTED, "Token refresh not supported in stub backend"@),
{
    err(LK_ERR_UNSUPPORTED, "Token refresh not supported in stub backend")
}

/// Changing the role is not supported: always fails.
pub fn lk_set_role(role: LkRole, auto_subscribe: i32) -> (res: LkResult)
    ensures
        res@ == failure(
            LK_ERR_UNSUPPORTED,
            "Dynamic role switching not supported in stub backend"@,
        ),
{
    err(LK_ERR_UNSUPPORTED, "Dynamic role switching not supported in stub backend")
}

/// Accepts a log level and forgets it.
pub fn lk_set_log_level(client: &ClientState, level: LkLogLevel) -> (res: LkResult)
    ensures
        res@ == success(),
{
    ok()
}

/// Audio statistics, all zero.
pub fn lk_get_audio_stats(client: &ClientState) -> (stats: LkAudioStats)
    ensures
        stats == no_audio_stats(),
{
    LkAudioStats {
        sample_rate: 0,
        channels: 0,
        ring_capacity_frames: 0,
        ring_queued_frames: 0,
        underruns: 0,
        overruns: 0,
    }
}

/// Data statistics, all zero.
pub fn lk_get_data_stats(client: &ClientState) -> (stats: LkDataStats)
    ensures
        stats == no_data_stats(),
{
    LkDataStats { reliable_sent_bytes: 0, reliable_dropped: 0, lossy_sent_bytes: 0, lossy_dropped: 0 }
}

} // verus!
