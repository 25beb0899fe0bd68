use livekit_bridge::client::{
    lk_audio_track_create, lk_audio_track_created, lk_audio_track_destroy,
    lk_audio_track_publish_pcm_i16, lk_audio_track_tick, lk_client_create, lk_client_is_ready,
    lk_client_set_audio_callback, lk_client_set_data_callback, lk_client_set_data_callback_ex,
    lk_connect, lk_connect_async, lk_connect_finished, lk_connect_with_role,
    lk_connect_with_role_async, lk_disconnect, lk_get_audio_stats, lk_get_data_stats,
    lk_publish_audio_pcm_i16, lk_publish_audio_pcm_i16_published, lk_refresh_token,
    lk_send_data, lk_send_data_ex, lk_send_data_finished, lk_set_audio_format_change_callback,
    lk_set_audio_output_format, lk_set_audio_publish_options, lk_set_connection_callback,
    lk_set_default_data_labels, lk_set_log_level, lk_set_reconnect_backoff, lk_set_role,
    AudioPush, ClientState, TrackCreate,
};
use livekit_bridge::config::{AudioOutputFormat, AudioPublishOptions};
use livekit_bridge::dispatch::{CallbackTable, DispatchAction, DispatchContext};
use livekit_bridge::sender::{DataLabel, SendState};
use livekit_bridge::types::{
    LkAudioStats, LkAudioTrackConfig, LkConnectionState, LkDataStats, LkLogLevel, LkReliability,
    LkResult, LkRole,
};

fn success() -> LkResult {
    LkResult { code: 0, message: None }
}

fn failure(code: i32, message: &str) -> LkResult {
    LkResult { code, message: Some(message.to_string()) }
}

fn connected_client() -> ClientState {
    let mut client = lk_client_create();
    let (res, _) = lk_connect(&mut client, Ok(()));
    assert_eq!(res, success());
    client
}

fn config(name: Option<&str>, rate: i32, channels: i32, buffer_ms: i32) -> LkAudioTrackConfig {
    LkAudioTrackConfig {
        track_name: name.map(|n| n.to_string()),
        sample_rate: rate,
        channels,
        buffer_ms,
    }
}

fn create_track(client: &mut ClientState, rate: i32, channels: i32) -> u64 {
    match lk_audio_track_create(client, &config(Some("t"), rate, channels, 100)) {
        TrackCreate::Publish { pending, label } => {
            lk_audio_track_created(client, pending, &label, Ok(())).unwrap()
        }
        TrackCreate::Refused(res) => panic!("refused: {:?}", res),
    }
}

fn push_default(client: &mut ClientState, pcm: &[i16], channels: i32, rate: i32) -> LkResult {
    match lk_publish_audio_pcm_i16(client, pcm, channels, rate) {
        AudioPush::Done(res) => res,
        AudioPush::Publish(pending) => {
            lk_publish_audio_pcm_i16_published(client, pending, Ok(()), pcm)
        }
    }
}

fn zero_audio_stats() -> LkAudioStats {
    LkAudioStats {
        sample_rate: 0,
        channels: 0,
        ring_capacity_frames: 0,
        ring_queued_frames: 0,
        underruns: 0,
        overruns: 0,
    }
}

#[test]
fn new_client_has_defaults() {
    let client = lk_client_create();
    assert_eq!(lk_client_is_ready(&client), 0);
    assert_eq!(client.role(), LkRole::Both);
    assert_eq!(
        client.audio_publish_options(),
        AudioPublishOptions { bitrate_bps: 32_000, enable_dtx: false, stereo: false }
    );
    assert_eq!(
        client.dispatch_context(),
        DispatchContext {
            callbacks: CallbackTable {
                data: false,
                data_ex: false,
                audio: false,
                audio_format_change: false,
                connection: false,
            },
            output: AudioOutputFormat { sample_rate: 48_000, channels: 1 },
        }
    );
    assert!(client.log_enabled(LkLogLevel::Error));
    assert!(!client.log_enabled(LkLogLevel::Warn));
    assert_eq!(client.track_count(), 0);
    assert_eq!(client.default_track(), None);
    assert_eq!(lk_get_audio_stats(&client), zero_audio_stats());
    assert_eq!(
        lk_get_data_stats(&client),
        LkDataStats {
            reliable_sent_bytes: 0,
            reliable_dropped: 0,
            lossy_sent_bytes: 0,
            lossy_dropped: 0,
        }
    );
}

#[test]
fn callbacks_are_recorded_one_by_one() {
    let mut client = lk_client_create();
    assert_eq!(lk_client_set_data_callback(&mut client, true), success());
    assert_eq!(lk_client_set_audio_callback(&mut client, true), success());
    assert_eq!(
        client.dispatch_context().callbacks,
        CallbackTable {
            data: true,
            data_ex: false,
            audio: true,
            audio_format_change: false,
            connection: false,
        }
    );
    assert_eq!(lk_client_set_data_callback_ex(&mut client, true), success());
    assert_eq!(lk_set_audio_format_change_callback(&mut client, true), success());
    assert_eq!(lk_set_connection_callback(&mut client, true), success());
    assert_eq!(lk_client_set_data_callback(&mut client, false), success());
    assert_eq!(
        client.dispatch_context().callbacks,
        CallbackTable {
            data: false,
            data_ex: true,
            audio: true,
            audio_format_change: true,
            connection: true,
        }
    );
}

#[test]
fn publish_options_are_set_from_flags() {
    let mut client = lk_client_create();
    assert_eq!(lk_set_audio_publish_options(&mut client, 64_000, 7, 0), success());
    assert_eq!(
        client.audio_publish_options(),
        AudioPublishOptions { bitrate_bps: 64_000, enable_dtx: true, stereo: false }
    );
}

#[test]
fn output_format_must_be_positive() {
    let mut client = lk_client_create();
    assert_eq!(lk_set_audio_output_format(&mut client, 16_000, 2), success());
    assert_eq!(
        lk_set_audio_output_format(&mut client, 0, 2),
        failure(5, "invalid audio output format")
    );
    assert_eq!(
        lk_set_audio_output_format(&mut client, 8_000, -1),
        failure(5, "invalid audio output format")
    );
    assert_eq!(
        client.dispatch_context().output,
        AudioOutputFormat { sample_rate: 16_000, channels: 2 }
    );
}

#[test]
fn log_level_gates_messages() {
    let mut client = lk_client_create();
    assert_eq!(lk_set_log_level(&mut client, LkLogLevel::Info), success());
    assert!(client.log_enabled(LkLogLevel::Error));
    assert!(client.log_enabled(LkLogLevel::Warn));
    assert!(client.log_enabled(LkLogLevel::Info));
    assert!(!client.log_enabled(LkLogLevel::Debug));
    assert!(!client.log_enabled(LkLogLevel::Trace));
}

#[test]
fn unsupported_operations_always_fail() {
    assert_eq!(
        lk_refresh_token(),
        failure(501, "Token refresh not supported; use disconnect + reconnect")
    );
    assert_eq!(
        lk_set_role(LkRole::Publisher, 1),
        failure(
            501,
            "Dynamic role switching not supported; use disconnect + reconnect with new role"
        )
    );
    let client = lk_client_create();
    assert_eq!(lk_set_reconnect_backoff(&client, 100, 1_000), success());
}

#[test]
fn connect_success_sets_role_and_reports_connected() {
    let mut client = lk_client_create();
    assert_eq!(lk_set_connection_callback(&mut client, true), success());
    let (res, action) = lk_connect_with_role(&mut client, LkRole::Publisher, Ok(()));
    assert_eq!(res, success());
    assert_eq!(
        action,
        DispatchAction::NotifyConnection {
            state: LkConnectionState::Connected,
            reason_code: 0,
            message: None,
        }
    );
    assert_eq!(lk_client_is_ready(&client), 1);
    assert_eq!(client.role(), LkRole::Publisher);
    assert!(!client.role().auto_subscribe());
}

#[test]
fn connect_defaults_to_role_both() {
    let mut client = lk_client_create();
    let (res, action) = lk_connect(&mut client, Ok(()));
    assert_eq!(res, success());
    assert_eq!(action, DispatchAction::Nothing);
    assert_eq!(client.role(), LkRole::Both);
    assert!(client.role().auto_subscribe());
}

#[test]
fn connect_failure_changes_nothing() {
    let mut client = lk_client_create();
    assert_eq!(lk_set_connection_callback(&mut client, true), success());
    let (res, action) =
        lk_connect_with_role(&mut client, LkRole::Subscriber, Err("timeout".to_string()));
    assert_eq!(res, failure(3, "connect failed: timeout"));
    assert_eq!(action, DispatchAction::Nothing);
    assert_eq!(lk_client_is_ready(&client), 0);
    assert_eq!(client.role(), LkRole::Both);
}

#[test]
fn async_connect_reports_connecting_then_outcome() {
    let mut client = lk_client_create();
    assert_eq!(lk_set_connection_callback(&mut client, true), success());
    let (res, action) = lk_connect_with_role_async(&client);
    assert_eq!(res, success());
    assert_eq!(
        action,
        DispatchAction::NotifyConnection {
            state: LkConnectionState::Connecting,
            reason_code: 0,
            message: None,
        }
    );
    let failed = lk_connect_finished(&mut client, LkRole::Auto, Err("bad token".to_string()));
    assert_eq!(
        failed,
        DispatchAction::NotifyConnection {
            state: LkConnectionState::Failed,
            reason_code: 1,
            message: Some("bad token".to_string()),
        }
    );
    assert_eq!(lk_client_is_ready(&client), 0);
    let connected = lk_connect_finished(&mut client, LkRole::Auto, Ok(()));
    assert_eq!(
        connected,
        DispatchAction::NotifyConnection {
            state: LkConnectionState::Connected,
            reason_code: 0,
            message: None,
        }
    );
    assert_eq!(lk_client_is_ready(&client), 1);
    assert_eq!(client.role(), LkRole::Auto);
}

#[test]
fn async_connect_refuses_when_connected() {
    let client = connected_client();
    let (res, action) = lk_connect_async(&client);
    assert_eq!(res, failure(104, "already connected"));
    assert_eq!(action, DispatchAction::Nothing);
}

#[test]
fn disconnect_tears_down_all_pipelines() {
    let mut client = connected_client();
    let track = create_track(&mut client, 200, 2);
    assert_eq!(push_default(&mut client, &[1, 2], 2, 200), success());
    assert_eq!(client.track_count(), 2);
    let (res, was_connected) = lk_disconnect(&mut client);
    assert_eq!(res, success());
    assert!(was_connected);
    assert_eq!(lk_client_is_ready(&client), 0);
    assert_eq!(client.track_count(), 0);
    assert_eq!(client.default_track(), None);
    assert_eq!(client.track_channels(track), None);
    assert_eq!(lk_get_audio_stats(&client), zero_audio_stats());
    let (res, was_connected) = lk_disconnect(&mut client);
    assert_eq!(res, success());
    assert!(!was_connected);
}

#[test]
fn push_after_disconnect_fails_not_connected_and_writes_nothing() {
    let mut client = connected_client();
    let track = create_track(&mut client, 200, 2);
    lk_disconnect(&mut client);
    assert_eq!(
        lk_audio_track_publish_pcm_i16(&mut client, track, &[1, 2, 3, 4]),
        failure(6, "not connected")
    );
    assert_eq!(
        lk_publish_audio_pcm_i16(&mut client, &[1, 2], 2, 200),
        AudioPush::Done(failure(6, "not connected"))
    );
    assert_eq!(client.track_count(), 0);
    assert_eq!(lk_audio_track_tick(&mut client, track), None);
}

#[test]
fn default_push_checks_parameters_first() {
    let mut client = lk_client_create();
    assert_eq!(
        lk_publish_audio_pcm_i16(&mut client, &[1, 2], 0, 200),
        AudioPush::Done(failure(5, "bad params"))
    );
    assert_eq!(
        lk_publish_audio_pcm_i16(&mut client, &[1, 2], 2, -1),
        AudioPush::Done(failure(5, "bad params"))
    );
}

#[test]
fn first_default_push_asks_for_publication() {
    let mut client = connected_client();
    let pending = match lk_publish_audio_pcm_i16(&mut client, &[1, 2, 3, 4], 2, 200) {
        AudioPush::Publish(pending) => pending,
        AudioPush::Done(res) => panic!("unexpected: {:?}", res),
    };
    assert_eq!(pending.id, 1);
    assert_eq!(pending.plan.buffer_ms, 1_000);
    assert_eq!(client.track_count(), 0);
    assert_eq!(
        lk_publish_audio_pcm_i16_published(&mut client, pending, Ok(()), &[1, 2, 3, 4]),
        success()
    );
    assert_eq!(client.default_track(), Some(1));
    assert_eq!(lk_get_audio_stats(&client).ring_queued_frames, 2);
    assert_eq!(push_default(&mut client, &[5, 6], 2, 200), success());
    assert_eq!(client.track_count(), 1);
    assert_eq!(lk_get_audio_stats(&client).ring_queued_frames, 3);
    let frame = lk_audio_track_tick(&mut client, 1).unwrap();
    assert_eq!(frame.data, vec![1, 2, 3, 4]);
}

#[test]
fn failed_default_publication_is_reported() {
    let mut client = connected_client();
    let pending = match lk_publish_audio_pcm_i16(&mut client, &[1, 2], 2, 200) {
        AudioPush::Publish(pending) => pending,
        AudioPush::Done(res) => panic!("unexpected: {:?}", res),
    };
    assert_eq!(
        lk_publish_audio_pcm_i16_published(
            &mut client,
            pending,
            Err("no permission".to_string()),
            &[1, 2]
        ),
        failure(7, "audio pipeline init failed: no permission")
    );
    assert_eq!(client.track_count(), 0);
    assert_eq!(client.default_track(), None);
}

#[test]
fn default_push_with_other_format_fails() {
    let mut client = connected_client();
    assert_eq!(push_default(&mut client, &[1, 2], 2, 200), success());
    assert_eq!(
        lk_publish_audio_pcm_i16(&mut client, &[1], 1, 400),
        AudioPush::Done(failure(
            7,
            "audio pipeline init failed: default audio track already configured for 200 Hz (2 ch), requested 400 Hz (1 ch)"
        ))
    );
    assert_eq!(lk_get_audio_stats(&client).sample_rate, 200);
    assert_eq!(lk_get_audio_stats(&client).ring_queued_frames, 1);
}

#[test]
fn misaligned_default_push_fails() {
    let mut client = connected_client();
    assert_eq!(push_default(&mut client, &[1, 2], 2, 200), success());
    assert_eq!(
        lk_publish_audio_pcm_i16(&mut client, &[1, 2, 3], 2, 200),
        AudioPush::Done(failure(
            8,
            "audio ring push failed: pcm payload len 3 is not divisible by channel count 2"
        ))
    );
}

#[test]
fn track_create_checks_and_defaults() {
    let mut client = connected_client();
    assert_eq!(
        lk_audio_track_create(&mut client, &config(None, 0, 2, 100)),
        TrackCreate::Refused(failure(5, "invalid audio track parameters"))
    );
    assert_eq!(
        lk_audio_track_create(&mut client, &config(None, 200, -2, 100)),
        TrackCreate::Refused(failure(5, "invalid audio track parameters"))
    );
    match lk_audio_track_create(&mut client, &config(None, 200, 2, 0)) {
        TrackCreate::Publish { pending, label } => {
            assert_eq!(label, "ue-audio-track");
            assert_eq!(pending.id, 1);
            assert_eq!(pending.plan.buffer_ms, 1_000);
            assert_eq!(pending.plan.capacity_samples, 400);
        }
        TrackCreate::Refused(res) => panic!("refused: {:?}", res),
    }
    match lk_audio_track_create(&mut client, &config(Some("mic"), 200, 2, 250)) {
        TrackCreate::Publish { pending, label } => {
            assert_eq!(label, "mic");
            assert_eq!(pending.id, 2);
            assert_eq!(pending.plan.buffer_ms, 250);
            assert_eq!(pending.plan.capacity_samples, 100);
        }
        TrackCreate::Refused(res) => panic!("refused: {:?}", res),
    }
}

#[test]
fn track_create_needs_connection() {
    let mut client = lk_client_create();
    assert_eq!(
        lk_audio_track_create(&mut client, &config(None, 200, 2, 100)),
        TrackCreate::Refused(failure(7, "audio track create failed: not connected"))
    );
    assert_eq!(client.track_count(), 0);
}

#[test]
fn track_create_without_connection_says_so_whatever_the_size() {
    let mut client = lk_client_create();
    assert_eq!(
        lk_audio_track_create(&mut client, &config(None, i32::MAX, i32::MAX, 5_000)),
        TrackCreate::Refused(failure(7, "audio track create failed: not connected"))
    );
    assert_eq!(client.track_count(), 0);
}

#[test]
fn track_create_refuses_ring_beyond_memory_when_connected() {
    let mut client = connected_client();
    assert_eq!(
        lk_audio_track_create(&mut client, &config(None, i32::MAX, i32::MAX, 5_000)),
        TrackCreate::Refused(failure(7, "audio track create failed: audio buffer too large"))
    );
    // The refusal used up no id.
    assert_eq!(create_track(&mut client, 200, 2), 1);
}

#[test]
fn refused_track_parameters_use_up_no_id() {
    let mut client = connected_client();
    assert_eq!(
        lk_audio_track_create(&mut client, &config(None, 0, 2, 100)),
        TrackCreate::Refused(failure(5, "invalid audio track parameters"))
    );
    assert_eq!(create_track(&mut client, 200, 2), 1);
}

#[test]
fn track_create_reports_failed_publication() {
    let mut client = connected_client();
    let (pending, label) = match lk_audio_track_create(&mut client, &config(None, 200, 2, 100)) {
        TrackCreate::Publish { pending, label } => (pending, label),
        TrackCreate::Refused(res) => panic!("refused: {:?}", res),
    };
    assert_eq!(
        lk_audio_track_created(&mut client, pending, &label, Err("denied".to_string())),
        Err(failure(7, "audio track create failed: denied"))
    );
    assert_eq!(client.track_count(), 0);
}

#[test]
fn track_publication_after_disconnect_enters_nothing() {
    let mut client = connected_client();
    let (pending, label) = match lk_audio_track_create(&mut client, &config(None, 200, 2, 100)) {
        TrackCreate::Publish { pending, label } => (pending, label),
        TrackCreate::Refused(res) => panic!("refused: {:?}", res),
    };
    lk_disconnect(&mut client);
    assert_eq!(
        lk_audio_track_created(&mut client, pending, &label, Ok(())),
        Err(failure(7, "audio track create failed: not connected"))
    );
    assert_eq!(client.track_count(), 0);
}

#[test]
fn track_push_and_tick() {
    let mut client = connected_client();
    let track = create_track(&mut client, 200, 2);
    assert_eq!(client.track_channels(track), Some(2));
    assert_eq!(lk_audio_track_publish_pcm_i16(&mut client, track, &[1, 2, 3, 4, 5, 6]), success());
    assert_eq!(lk_audio_track_tick(&mut client, track).unwrap().data, vec![1, 2, 3, 4]);
    assert_eq!(lk_audio_track_tick(&mut client, track).unwrap().data, vec![5, 6, 0, 0]);
    assert_eq!(
        lk_audio_track_publish_pcm_i16(&mut client, track + 1, &[1, 2]),
        failure(6, "audio track not found")
    );
    assert_eq!(
        lk_audio_track_publish_pcm_i16(&mut client, track, &[1]),
        failure(
            8,
            "audio ring push failed: pcm payload len 1 is not divisible by channel count 2"
        )
    );
    // A named track is not the default pipeline.
    assert_eq!(lk_get_audio_stats(&client), zero_audio_stats());
}

#[test]
fn destroying_one_track_leaves_the_other() {
    let mut client = connected_client();
    let a = create_track(&mut client, 200, 2);
    let b = create_track(&mut client, 200, 2);
    assert_eq!(lk_audio_track_publish_pcm_i16(&mut client, b, &[9, 8]), success());
    assert_eq!(lk_audio_track_destroy(&mut client, a), success());
    assert_eq!(lk_audio_track_destroy(&mut client, a), success());
    assert_eq!(client.track_count(), 1);
    assert_eq!(lk_audio_track_tick(&mut client, b).unwrap().data, vec![9, 8, 0, 0]);
}

#[test]
fn destroying_the_default_track_clears_the_default() {
    let mut client = connected_client();
    assert_eq!(push_default(&mut client, &[1, 2], 2, 200), success());
    let id = client.default_track().unwrap();
    assert_eq!(lk_audio_track_destroy(&mut client, id), success());
    assert_eq!(client.default_track(), None);
    assert_eq!(lk_get_audio_stats(&client), zero_audio_stats());
}

#[test]
fn default_stats_follow_the_default_pipeline() {
    let mut client = connected_client();
    assert_eq!(push_default(&mut client, &[1, 2, 3, 4], 2, 200), success());
    let id = client.default_track().unwrap();
    lk_audio_track_tick(&mut client, id);
    lk_audio_track_tick(&mut client, id);
    let more: Vec<i16> = (0..402).collect();
    assert_eq!(push_default(&mut client, &more, 2, 200), success());
    assert_eq!(
        lk_get_audio_stats(&client),
        LkAudioStats {
            sample_rate: 200,
            channels: 2,
            ring_capacity_frames: 200,
            ring_queued_frames: 200,
            underruns: 1,
            overruns: 1,
        }
    );
}

#[test]
fn send_needs_connection() {
    let client = lk_client_create();
    assert_eq!(
        lk_send_data(&client, 10, LkReliability::Reliable),
        Err(failure(6, "not connected"))
    );
}

#[test]
fn send_refuses_oversized_payload() {
    let client = connected_client();
    assert_eq!(
        lk_send_data_ex(&client, 15_361, LkReliability::Lossy, 1, DataLabel::Default),
        Err(failure(202, "reliable data size 15361 exceeds limit 15360"))
    );
}

#[test]
fn send_lossy_2000_counts_as_reliable() {
    let mut client = connected_client();
    let plan = lk_send_data(&client, 2_000, LkReliability::Lossy).unwrap();
    assert_eq!(plan.tier, LkReliability::Reliable);
    assert_eq!(plan.topic, "mocap-bin-reliable");
    let (state, _) = SendState::start();
    let (state, _) = state.on_attempt(true);
    assert_eq!(lk_send_data_finished(&mut client, &plan, state, ""), success());
    assert_eq!(
        lk_get_data_stats(&client),
        LkDataStats {
            reliable_sent_bytes: 2_000,
            reliable_dropped: 0,
            lossy_sent_bytes: 0,
            lossy_dropped: 0,
        }
    );
}

#[test]
fn send_retry_success_counts_bytes_once() {
    let mut client = connected_client();
    let plan = lk_send_data(&client, 500, LkReliability::Lossy).unwrap();
    let (state, _) = SendState::start();
    let (state, _) = state.on_attempt(false);
    let (state, _) = state.on_attempt(true);
    assert_eq!(lk_send_data_finished(&mut client, &plan, state, "first failed"), success());
    assert_eq!(
        lk_get_data_stats(&client),
        LkDataStats {
            reliable_sent_bytes: 0,
            reliable_dropped: 0,
            lossy_sent_bytes: 500,
            lossy_dropped: 0,
        }
    );
}

#[test]
fn send_double_failure_counts_one_drop() {
    let mut client = connected_client();
    let plan = lk_send_data(&client, 500, LkReliability::Reliable).unwrap();
    let (state, _) = SendState::start();
    let (state, _) = state.on_attempt(false);
    let (state, _) = state.on_attempt(false);
    assert_eq!(
        lk_send_data_finished(&mut client, &plan, state, "stream closed"),
        failure(203, "byte_stream write failed: stream closed")
    );
    assert_eq!(
        lk_get_data_stats(&client),
        LkDataStats {
            reliable_sent_bytes: 0,
            reliable_dropped: 1,
            lossy_sent_bytes: 0,
            lossy_dropped: 0,
        }
    );
}

#[test]
fn configured_labels_are_used_for_sending() {
    let mut client = connected_client();
    assert_eq!(lk_set_default_data_labels(&mut client, Some("rel"), None), success());
    assert_eq!(lk_send_data(&client, 1, LkReliability::Reliable).unwrap().topic, "rel");
    assert_eq!(lk_send_data(&client, 1, LkReliability::Lossy).unwrap().topic, "mocap-bin-lossy");
    assert_eq!(lk_set_default_data_labels(&mut client, None, Some("los")), success());
    assert_eq!(lk_send_data(&client, 1, LkReliability::Reliable).unwrap().topic, "rel");
    assert_eq!(lk_send_data(&client, 1, LkReliability::Lossy).unwrap().topic, "los");
    assert_eq!(
        lk_send_data_ex(&client, 1, LkReliability::Lossy, 0, DataLabel::Named("x".to_string()))
            .unwrap()
            .topic,
        "x"
    );
}
