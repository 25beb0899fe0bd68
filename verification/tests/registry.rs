use livekit_bridge::pipeline::PlanError;
use livekit_bridge::registry::{
    DefaultTrack, PendingTrack, PipelineRegistry, RegistryError, TrackPushError, NO_TRACK,
};
use livekit_bridge::pipeline::PushError;
use livekit_bridge::types::LkAudioStats;

fn zero_stats() -> LkAudioStats {
    LkAudioStats {
        sample_rate: 0,
        channels: 0,
        ring_capacity_frames: 0,
        ring_queued_frames: 0,
        underruns: 0,
        overruns: 0,
    }
}

fn register(registry: &mut PipelineRegistry, label: &str, rate: u32, channels: u32) -> u64 {
    let pending = registry.begin_register(true, rate, channels, 100).unwrap();
    registry.finish_register(pending, label, Ok(())).unwrap()
}

fn default_for(registry: &mut PipelineRegistry, rate: u32, channels: u32) -> u64 {
    match registry.ensure_default(true, rate, channels).unwrap() {
        DefaultTrack::Existing(id) => id,
        DefaultTrack::Pending(pending) => registry.finish_default(pending, Ok(())).unwrap(),
    }
}

#[test]
fn new_registry_is_empty() {
    let registry = PipelineRegistry::new();
    assert_eq!(registry.len(), 0);
    assert_eq!(registry.default_track(), None);
    assert!(!registry.contains(1));
    assert_eq!(registry.default_stats(), zero_stats());
}

#[test]
fn ids_count_up_from_one() {
    let mut registry = PipelineRegistry::new();
    assert_eq!(registry.next_audio_track_id(), 1);
    assert_eq!(registry.next_audio_track_id(), 2);
    assert_eq!(registry.next_audio_track_id(), 3);
    assert_eq!(NO_TRACK, 0);
}

#[test]
fn register_enters_pipeline_under_next_id() {
    let mut registry = PipelineRegistry::new();
    let pending = registry.begin_register(true, 200, 2, 100).unwrap();
    assert_eq!(pending.id, 1);
    assert_eq!(pending.plan.frame_samples, 4);
    assert_eq!(registry.len(), 0);
    assert_eq!(registry.finish_register(pending, "a", Ok(())), Ok(1));
    assert_eq!(registry.len(), 1);
    assert!(registry.contains(1));
    assert_eq!(registry.channels_of(1), Some(2));
    assert_eq!(registry.channels_of(2), None);
    assert_eq!(registry.default_track(), None);
}

#[test]
fn register_rejects_zero_parameters() {
    let mut registry = PipelineRegistry::new();
    assert_eq!(registry.begin_register(true, 0, 2, 100), Err(RegistryError::InvalidParameters));
    assert_eq!(registry.begin_register(true, 200, 0, 100), Err(RegistryError::InvalidParameters));
    assert_eq!(registry.len(), 0);
}

#[test]
fn register_rejects_ring_beyond_memory() {
    let mut registry = PipelineRegistry::new();
    assert_eq!(
        registry.begin_register(true, u32::MAX, u32::MAX, 5_000),
        Err(RegistryError::BufferTooLarge)
    );
}

#[test]
fn register_needs_connection() {
    let mut registry = PipelineRegistry::new();
    assert_eq!(registry.begin_register(false, 200, 2, 100), Err(RegistryError::NotConnected));
    assert_eq!(registry.len(), 0);
}

#[test]
fn format_is_checked_before_connection() {
    let mut registry = PipelineRegistry::new();
    assert_eq!(registry.begin_register(false, 0, 2, 100), Err(RegistryError::InvalidParameters));
}

#[test]
fn refused_format_uses_up_no_id() {
    let mut registry = PipelineRegistry::new();
    assert!(registry.begin_register(true, 0, 0, 0).is_err());
    assert!(registry.begin_register(false, 0, 2, 100).is_err());
    assert!(registry.begin_register(true, u32::MAX, u32::MAX, 5_000).is_err());
    assert_eq!(registry.begin_register(true, 200, 2, 100).unwrap().id, 1);
}

#[test]
fn failed_register_uses_up_an_id() {
    let mut registry = PipelineRegistry::new();
    assert!(registry.begin_register(true, 0, 0, 0).is_err());
    assert!(registry.begin_register(false, 200, 2, 100).is_err());
    assert_eq!(registry.begin_register(true, 200, 2, 100).unwrap().id, 2);
}

#[test]
fn missing_connection_is_answered_before_size() {
    let mut registry = PipelineRegistry::new();
    assert_eq!(
        registry.begin_register(false, u32::MAX, u32::MAX, 5_000),
        Err(RegistryError::NotConnected)
    );
    assert_eq!(
        registry.ensure_default(false, u32::MAX, u32::MAX),
        Err(RegistryError::NotConnected)
    );
    assert_eq!(registry.len(), 0);
}

#[test]
fn failed_publication_enters_nothing() {
    let mut registry = PipelineRegistry::new();
    let pending = registry.begin_register(true, 200, 2, 100).unwrap();
    assert_eq!(
        registry.finish_register(pending, "a", Err("engine closed".to_string())),
        Err(RegistryError::PublishFailed("engine closed".to_string()))
    );
    assert_eq!(registry.len(), 0);
    assert!(!registry.contains(pending.id));
}

#[test]
fn ensure_default_twice_returns_same_id_and_one_pipeline() {
    let mut registry = PipelineRegistry::new();
    let first = default_for(&mut registry, 200, 2);
    assert_eq!(registry.default_track(), Some(first));
    assert_eq!(registry.len(), 1);
    assert_eq!(registry.ensure_default(true, 200, 2), Ok(DefaultTrack::Existing(first)));
    assert_eq!(registry.ensure_default(true, 200, 2), Ok(DefaultTrack::Existing(first)));
    assert_eq!(registry.len(), 1);
    // No id was used up by the later calls.
    assert_eq!(registry.next_audio_track_id(), first + 1);
}

#[test]
fn ensure_default_with_other_format_is_an_error_and_changes_nothing() {
    let mut registry = PipelineRegistry::new();
    let first = default_for(&mut registry, 200, 2);
    assert_eq!(registry.push(first, &[1, 2]), Ok(()));
    let before = registry.default_stats();
    let refused = registry.ensure_default(true, 400, 1).unwrap_err();
    assert_eq!(
        refused,
        RegistryError::FormatMismatch {
            have_rate: 200,
            have_channels: 2,
            want_rate: 400,
            want_channels: 1,
        }
    );
    assert_eq!(
        refused.message(),
        "default audio track already configured for 200 Hz (2 ch), requested 400 Hz (1 ch)"
    );
    assert_eq!(registry.default_track(), Some(first));
    assert_eq!(registry.len(), 1);
    assert_eq!(registry.default_stats(), before);
    assert_eq!(registry.ensure_default(true, 200, 2), Ok(DefaultTrack::Existing(first)));
}

#[test]
fn ensure_default_without_default_begins_one_of_one_second() {
    let mut registry = PipelineRegistry::new();
    match registry.ensure_default(true, 48_000, 1).unwrap() {
        DefaultTrack::Pending(PendingTrack { id, plan }) => {
            assert_eq!(id, 1);
            assert_eq!(plan.buffer_ms, 1_000);
            assert_eq!(plan.capacity_samples, 48_000);
        }
        DefaultTrack::Existing(_) => panic!("no default was registered"),
    }
    assert_eq!(registry.default_track(), None);
    assert_eq!(registry.len(), 0);
}

#[test]
fn ensure_default_passes_on_registration_errors() {
    let mut registry = PipelineRegistry::new();
    assert_eq!(registry.ensure_default(true, 0, 1), Err(RegistryError::InvalidParameters));
    assert_eq!(registry.ensure_default(false, 200, 1), Err(RegistryError::NotConnected));
}

#[test]
fn failed_default_publication_leaves_no_default() {
    let mut registry = PipelineRegistry::new();
    let pending = match registry.ensure_default(true, 200, 2).unwrap() {
        DefaultTrack::Pending(pending) => pending,
        DefaultTrack::Existing(_) => panic!("no default was registered"),
    };
    assert_eq!(
        registry.finish_default(pending, Err("refused".to_string())),
        Err(RegistryError::PublishFailed("refused".to_string()))
    );
    assert_eq!(registry.default_track(), None);
    assert_eq!(registry.len(), 0);
}

#[test]
fn remove_is_idempotent() {
    let mut registry = PipelineRegistry::new();
    let id = register(&mut registry, "a", 200, 2);
    assert!(registry.remove(id));
    assert!(!registry.remove(id));
    assert!(!registry.remove(99));
    assert_eq!(registry.len(), 0);
}

#[test]
fn removing_the_default_clears_it() {
    let mut registry = PipelineRegistry::new();
    let other = register(&mut registry, "a", 200, 2);
    let default = default_for(&mut registry, 200, 2);
    assert!(registry.remove(other));
    assert_eq!(registry.default_track(), Some(default));
    assert!(registry.remove(default));
    assert_eq!(registry.default_track(), None);
    assert_eq!(registry.default_stats(), zero_stats());
    // A new default gets a new id.
    let again = default_for(&mut registry, 400, 1);
    assert_eq!(again, default + 1);
}

#[test]
fn pipelines_with_same_format_are_independent() {
    let mut registry = PipelineRegistry::new();
    let a = register(&mut registry, "left", 200, 2);
    let b = register(&mut registry, "right", 200, 2);
    assert_ne!(a, b);
    assert_eq!(registry.push(a, &[1, 2, 3, 4]), Ok(()));
    assert_eq!(registry.push(b, &[5, 6]), Ok(()));
    let whole: Vec<i16> = (0..40).collect();
    assert_eq!(registry.push(a, &whole), Ok(()));
    assert!(registry.remove(a));
    assert!(registry.contains(b));
    let frame = registry.next_frame(b).unwrap();
    assert_eq!(frame.data, vec![5, 6, 0, 0]);
    assert_eq!(registry.next_frame(a), None);
    assert_eq!(registry.push(a, &[1, 2]), Err(TrackPushError::NotFound));
}

#[test]
fn counters_of_one_pipeline_do_not_move_with_another() {
    let mut registry = PipelineRegistry::new();
    let default = default_for(&mut registry, 200, 2);
    let other = register(&mut registry, "other", 200, 2);
    let whole: Vec<i16> = (0..44).collect();
    assert_eq!(registry.push(other, &whole), Ok(()));
    assert!(registry.next_frame(other).is_some());
    assert!(registry.remove(other));
    assert_eq!(
        registry.default_stats(),
        LkAudioStats {
            sample_rate: 200,
            channels: 2,
            ring_capacity_frames: 200,
            ring_queued_frames: 0,
            underruns: 0,
            overruns: 0,
        }
    );
    let more: Vec<i16> = (0..404).collect();
    assert_eq!(registry.push(default, &more), Ok(()));
    assert_eq!(registry.default_stats().overruns, 1);
    assert_eq!(registry.default_stats().ring_queued_frames, 200);
}

#[test]
fn registry_push_passes_on_refusal() {
    let mut registry = PipelineRegistry::new();
    let id = register(&mut registry, "a", 200, 2);
    assert_eq!(
        registry.push(id, &[1]),
        Err(TrackPushError::Rejected(PushError::Misaligned { len: 1, channels: 2 }))
    );
    assert_eq!(registry.next_frame(id).unwrap().data, vec![0, 0, 0, 0]);
}

#[test]
fn clear_removes_everything_but_keeps_counting_ids() {
    let mut registry = PipelineRegistry::new();
    let a = register(&mut registry, "a", 200, 2);
    let d = default_for(&mut registry, 200, 2);
    registry.clear();
    assert_eq!(registry.len(), 0);
    assert_eq!(registry.default_track(), None);
    assert!(!registry.contains(a));
    assert!(!registry.contains(d));
    assert_eq!(registry.next_audio_track_id(), d + 1);
}

#[test]
fn registry_error_messages() {
    assert_eq!(RegistryError::InvalidParameters.message(), "invalid audio parameters");
    assert_eq!(RegistryError::BufferTooLarge.message(), "audio buffer too large");
    assert_eq!(RegistryError::NotConnected.message(), "not connected");
    assert_eq!(RegistryError::PublishFailed("x y".to_string()).message(), "x y");
    assert_eq!(PlanError::InvalidParameters, PlanError::InvalidParameters);
}
