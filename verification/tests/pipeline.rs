use livekit_bridge::pipeline::{
    plan_pipeline, AudioPipeline, PipelinePlan, PlanError, PushError, DEFAULT_BUFFER_MS,
    MAX_BUFFER_MS, MIN_BUFFER_MS, TICK_MS,
};
use livekit_bridge::types::LkAudioStats;

fn small_pipeline() -> AudioPipeline {
    // 200 Hz stereo: 2 samples per channel per tick, 4 per frame, 40 slots.
    let plan = plan_pipeline(200, 2, 100).unwrap();
    AudioPipeline::new("test", &plan)
}

#[test]
fn plan_for_48k_stereo_one_second() {
    let plan = plan_pipeline(48_000, 2, 1_000).unwrap();
    assert_eq!(
        plan,
        PipelinePlan {
            sample_rate: 48_000,
            channels: 2,
            buffer_ms: 1_000,
            samples_per_10ms: 480,
            frame_samples: 960,
            capacity_samples: 96_000,
            capacity_frames: 48_000,
            sink_queue_ms: 1_000,
        }
    );
}

#[test]
fn plan_clamps_buffer_depth() {
    assert_eq!(plan_pipeline(48_000, 1, 0).unwrap().buffer_ms, 100);
    assert_eq!(plan_pipeline(48_000, 1, 99).unwrap().buffer_ms, 100);
    assert_eq!(plan_pipeline(48_000, 1, 100).unwrap().buffer_ms, 100);
    assert_eq!(plan_pipeline(48_000, 1, 5_000).unwrap().buffer_ms, 5_000);
    assert_eq!(plan_pipeline(48_000, 1, 5_001).unwrap().buffer_ms, 5_000);
    assert_eq!(plan_pipeline(48_000, 1, u32::MAX).unwrap().capacity_samples, 240_000);
    assert_eq!(plan_pipeline(48_000, 1, 0).unwrap().capacity_samples, 4_800);
}

#[test]
fn plan_constants() {
    assert_eq!(MIN_BUFFER_MS, 100);
    assert_eq!(MAX_BUFFER_MS, 5_000);
    assert_eq!(DEFAULT_BUFFER_MS, 1_000);
    assert_eq!(TICK_MS, 10);
}

#[test]
fn plan_for_rate_below_100_has_one_sample_per_tick() {
    let plan = plan_pipeline(50, 2, 100).unwrap();
    assert_eq!(plan.samples_per_10ms, 1);
    assert_eq!(plan.frame_samples, 2);
    assert_eq!(plan.capacity_samples, 10);
    assert_eq!(plan.capacity_frames, 5);
}

#[test]
fn plan_ring_holds_at_least_one_frame() {
    let plan = plan_pipeline(8, 3, 0).unwrap();
    assert_eq!(plan.frame_samples, 3);
    assert_eq!(plan.capacity_samples, 3);
    assert_eq!(plan.capacity_frames, 1);
}

#[test]
fn sink_queue_is_the_depth_in_steps_of_ten() {
    assert_eq!(plan_pipeline(48_000, 2, 1_000).unwrap().sink_queue_ms, 1_000);
    assert_eq!(plan_pipeline(48_000, 2, 105).unwrap().sink_queue_ms, 100);
    assert_eq!(plan_pipeline(48_000, 2, 1_239).unwrap().sink_queue_ms, 1_230);
    assert_eq!(plan_pipeline(44_100, 1, 0).unwrap().sink_queue_ms, 100);
}

#[test]
fn sink_queue_is_cut_to_what_the_sink_can_count() {
    // 192 kHz with 8 channels: 2796 ms would still fit 32 bits, 5000 do not.
    assert_eq!(plan_pipeline(192_000, 8, 5_000).unwrap().sink_queue_ms, 2_790);
    assert_eq!(plan_pipeline(192_000, 8, 2_000).unwrap().sink_queue_ms, 2_000);
    // Over 429 million samples a second there is no room for ten milliseconds.
    assert_eq!(plan_pipeline(1_000_000, 1_000, 100).unwrap().sink_queue_ms, 0);
}

#[test]
fn plan_rejects_zero_rate_or_channels() {
    assert_eq!(plan_pipeline(0, 2, 1_000), Err(PlanError::InvalidParameters));
    assert_eq!(plan_pipeline(48_000, 0, 1_000), Err(PlanError::InvalidParameters));
    assert_eq!(plan_pipeline(0, 0, 0), Err(PlanError::InvalidParameters));
}

#[test]
fn plan_rejects_ring_beyond_memory() {
    assert_eq!(plan_pipeline(u32::MAX, u32::MAX, 5_000), Err(PlanError::BufferTooLarge));
}

#[test]
fn new_pipeline_reports_its_format() {
    let pipeline = small_pipeline();
    assert_eq!(pipeline.label(), "test");
    assert_eq!(pipeline.sample_rate(), 200);
    assert_eq!(pipeline.channels(), 2);
    assert_eq!(
        pipeline.stats(),
        LkAudioStats {
            sample_rate: 200,
            channels: 2,
            ring_capacity_frames: 20,
            ring_queued_frames: 0,
            underruns: 0,
            overruns: 0,
        }
    );
}

#[test]
fn pushed_samples_come_out_in_order() {
    let mut pipeline = small_pipeline();
    assert_eq!(pipeline.push(&[1, 2, 3, 4]), Ok(()));
    assert_eq!(pipeline.push(&[5, 6, 7, 8]), Ok(()));
    let first = pipeline.next_frame();
    assert_eq!(first.data, vec![1, 2, 3, 4]);
    assert_eq!(first.sample_rate, 200);
    assert_eq!(first.num_channels, 2);
    assert_eq!(first.samples_per_channel, 2);
    let second = pipeline.next_frame();
    assert_eq!(second.data, vec![5, 6, 7, 8]);
    assert_eq!(pipeline.stats().underruns, 0);
    assert_eq!(pipeline.stats().overruns, 0);
}

#[test]
fn short_frame_is_padded_with_silence_and_counts_one_underrun() {
    let mut pipeline = small_pipeline();
    assert_eq!(pipeline.push(&[7, -7]), Ok(()));
    let frame = pipeline.next_frame();
    assert_eq!(frame.data, vec![7, -7, 0, 0]);
    assert_eq!(pipeline.stats().underruns, 1);
    assert_eq!(pipeline.stats().ring_queued_frames, 0);
}

#[test]
fn empty_ring_delivers_silence() {
    let mut pipeline = small_pipeline();
    assert_eq!(pipeline.next_frame().data, vec![0, 0, 0, 0]);
    assert_eq!(pipeline.next_frame().data, vec![0, 0, 0, 0]);
    assert_eq!(pipeline.stats().underruns, 2);
}

#[test]
fn overflowing_push_drops_tail_and_counts_once() {
    let mut pipeline = small_pipeline();
    let batch: Vec<i16> = (0..36).collect();
    assert_eq!(pipeline.push(&batch), Ok(()));
    assert_eq!(pipeline.stats().overruns, 0);
    // Four free slots are left; six of these ten samples are dropped.
    assert_eq!(pipeline.push(&[100, 101, 102, 103, 104, 105, 106, 107, 108, 109]), Ok(()));
    assert_eq!(pipeline.stats().overruns, 1);
    assert_eq!(pipeline.stats().ring_queued_frames, 20);
    for _ in 0..9 {
        pipeline.next_frame();
    }
    assert_eq!(pipeline.next_frame().data, vec![100, 101, 102, 103]);
    assert_eq!(pipeline.next_frame().data, vec![0, 0, 0, 0]);
}

#[test]
fn each_overflowing_push_counts_one_overrun() {
    let mut pipeline = small_pipeline();
    let batch: Vec<i16> = (0..40).collect();
    assert_eq!(pipeline.push(&batch), Ok(()));
    assert_eq!(pipeline.push(&[1, 2]), Ok(()));
    assert_eq!(pipeline.push(&[3, 4, 5, 6]), Ok(()));
    assert_eq!(pipeline.stats().overruns, 2);
}

#[test]
fn misaligned_push_is_refused_and_queues_nothing() {
    let mut pipeline = small_pipeline();
    let refused = pipeline.push(&[1, 2, 3]);
    assert_eq!(refused, Err(PushError::Misaligned { len: 3, channels: 2 }));
    assert_eq!(
        refused.unwrap_err().message(),
        "pcm payload len 3 is not divisible by channel count 2"
    );
    assert_eq!(pipeline.stats().ring_queued_frames, 0);
    assert_eq!(pipeline.stats().overruns, 0);
}

#[test]
fn queued_frames_counts_whole_frames_of_the_rounded_capacity() {
    // 2205 slots for two channels count as 1102 frames, that is 2204 samples.
    let plan = plan_pipeline(11_025, 2, 100).unwrap();
    assert_eq!(plan.capacity_samples, 2_205);
    assert_eq!(plan.capacity_frames, 1_102);
    let mut pipeline = AudioPipeline::new("odd", &plan);
    assert_eq!(pipeline.stats().ring_queued_frames, 0);
    assert_eq!(pipeline.push(&[1, 2, 3, 4]), Ok(()));
    assert_eq!(pipeline.stats().ring_queued_frames, 1);
}

#[test]
fn ring_estimate_in_frames() {
    let mut pipeline = small_pipeline();
    assert_eq!(pipeline.ring().queued_frames(2), 0);
    assert_eq!(pipeline.push(&[1, 2, 3, 4, 5, 6]), Ok(()));
    assert_eq!(pipeline.ring().queued_frames(2), 3);
    assert_eq!(pipeline.ring().queued_frames(0), 0);
    // Counted in frames of four samples, 20 frames of capacity are 80
    // samples, of which 34 slots are free.
    assert_eq!(pipeline.ring().queued_frames(4), 11);
}
