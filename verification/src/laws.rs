//! Laws that relate the operations of the library to one another, stated
//! over the values that the operations' contracts speak of.

use crate::client::{pipeline_failure, AudioPushView, ClientView, TrackCreateView};
use crate::config::DataLabelsView;
use crate::pipeline::{
    clamp_buffer_ms, plan_result, queued_frames_of, ring_frames, silence, sink_queue_ms,
    PipelineView,
};
use crate::registry::{
    id_after, DefaultTrack, PendingTrack, RegistryErrorView, RegistryView, NO_TRACK,
};
use crate::ring::fitting;
use crate::sender::{
    counted, plan_send_result, stats_after, DataLabel, SendAction, SendError, SendPlanView,
    SendState, LOSSY_MAX, RELIABLE_MAX, RETRY_BACKOFF_MS,
};
use crate::types::{
    failure, success, LkAudioTrackConfig, LkDataStats, LkReliability, LK_ERR_PARAMS, LK_ERR_SEND,
    LK_ERR_STATE,
};
use vstd::prelude::*;

verus! {

/// The pipeline after the batches of `batches` were accepted one after the
/// other.
pub open spec fn after_pushes(p: PipelineView, batches: Seq<Seq<i16>>) -> PipelineView
    decreases batches.len(),
{
    if batches.len() == 0 {
        p
    } else {
        after_pushes(p.after_push(batches.first()), batches.drop_first())
    }
}

/// The samples of all batches, in the order of the batches.
pub open spec fn joined(batches: Seq<Seq<i16>>) -> Seq<i16>
    decreases batches.len(),
{
    if batches.len() == 0 {
        Seq::empty()
    } else {
        batches.first() + joined(batches.drop_first())
    }
}

/// The real samples (without the silence) that the next `ticks` pacing ticks
/// deliver, in the order of their delivery.
pub open spec fn delivered(p: PipelineView, ticks: nat) -> Seq<i16>
    decreases ticks,
{
    if ticks == 0 {
        Seq::empty()
    } else {
        p.queued.take(fitting(p.frame_samples, p.queued.len()) as int) + delivered(
            p.after_tick(),
            (ticks - 1) as nat,
        )
    }
}

/// Accepted pushes that together do not exceed the free space of the ring
/// lose nothing and reorder nothing: all samples are queued behind those
/// already waiting, in the order of the pushes, and no overrun is counted.
pub proof fn law_pushes_within_capacity(p: PipelineView, batches: Seq<Seq<i16>>)
    requires
        p.queued.len() <= p.capacity_samples,
        joined(batches).len() <= p.free(),
    ensures
        after_pushes(p, batches).queued == p.queued + joined(batches),
        after_pushes(p, batches).overruns == p.overruns,
        after_pushes(p, batches).underruns == p.underruns,
    decreases batches.len(),
{
    if batches.len() > 0 {
        law_pushes_within_capacity(p.after_push(batches.first()), batches.drop_first());
    }
}

/// The consumer sees the queued samples in the order in which they were
/// pushed: `ticks` pacing ticks deliver exactly the oldest `ticks` frames'
/// worth of the waiting samples, and all of them once `ticks` frames cover
/// the queue.
pub proof fn law_delivery_is_fifo(p: PipelineView, ticks: nat)
    requires
        p.frame_samples >= 1,
    ensures
        delivered(p, ticks) == p.queued.take(
            fitting(ticks * p.frame_samples, p.queued.len()) as int,
        ),
        ticks * p.frame_samples >= p.queued.len() ==> delivered(p, ticks) == p.queued,
    decreases ticks,
{
    let frame = p.frame_samples;
    if ticks == 0 {
        assert(ticks * frame == 0) by (nonlinear_arith)
            requires
                ticks == 0,
        ;
    } else {
        let rest = (ticks - 1) as nat;
        law_delivery_is_fifo(p.after_tick(), rest);
        assert(ticks * frame == frame + rest * frame) by (nonlinear_arith)
            requires
                ticks == rest + 1,
        ;
        assert(rest * frame >= 0) by (nonlinear_arith);
    }
}

/// A push of more samples than the ring has room for queues exactly the
/// samples that fit, in order, drops exactly the rest, and counts one overrun
/// for the whole push, however many samples were dropped.
pub proof fn law_overflow_drops_tail(p: PipelineView, data: Seq<i16>)
    requires
        p.queued.len() <= p.capacity_samples,
        data.len() > p.free(),
        p.overruns < i32::MAX,
    ensures
        p.after_push(data).queued == p.queued + data.take(p.free() as int),
        p.after_push(data).queued.len() == p.capacity_samples,
        p.after_push(data).overruns == p.overruns + 1,
        p.after_push(data).underruns == p.underruns,
{
}

/// A push that fits leaves the overrun counter alone.
pub proof fn law_no_overflow_no_overrun(p: PipelineView, data: Seq<i16>)
    requires
        data.len() <= p.free(),
    ensures
        p.after_push(data).queued == p.queued + data,
        p.after_push(data).overruns == p.overruns,
{
}

/// A pacing tick that finds less than one frame of samples delivers the
/// samples it found, in their order, followed by silence up to the length of
/// a frame, empties the ring, and counts one underrun.
pub proof fn law_underrun_pads_with_silence(p: PipelineView)
    requires
        p.queued.len() < p.frame_samples,
        p.underruns < i32::MAX,
    ensures
        p.tick_frame().data == p.queued + silence((p.frame_samples - p.queued.len()) as nat),
        p.tick_frame().data.len() == p.frame_samples,
        forall|i: int| p.queued.len() <= i < p.frame_samples ==> p.tick_frame().data[i] == 0,
        p.after_tick().queued == Seq::<i16>::empty(),
        p.after_tick().underruns == p.underruns + 1,
        p.after_tick().overruns == p.overruns,
{
}

/// A pacing tick that finds a whole frame delivers the oldest frame of
/// samples and counts no underrun.
pub proof fn law_full_frame_no_underrun(p: PipelineView)
    requires
        p.queued.len() >= p.frame_samples,
    ensures
        p.tick_frame().data == p.queued.take(p.frame_samples as int),
        p.after_tick().queued == p.queued.skip(p.frame_samples as int),
        p.after_tick().underruns == p.underruns,
{
}

/// The queue depth reported for a pipeline never exceeds the ring's size
/// in frames, and where the ring's slots are a whole number of frames it is
/// the number of queued samples over the channels.
pub proof fn law_reported_depth(p: PipelineView)
    requires
        p.channels > 0,
        p.queued.len() <= p.capacity_samples <= usize::MAX,
        p.capacity_frames == ring_frames(p.capacity_samples, p.channels),
    ensures
        queued_frames_of(p.capacity_frames, p.channels, p.free()) <= p.capacity_frames,
        p.capacity_samples >= p.channels && p.capacity_samples % (p.channels as nat) == 0
            ==> queued_frames_of(p.capacity_frames, p.channels, p.free()) == p.queued.len() / (
        p.channels as nat),
{
    let c = p.channels as nat;
    let frames = p.capacity_frames;
    let product = frames * c;
    let total = if product <= usize::MAX {
        product
    } else {
        usize::MAX as nat
    };
    let used = if total >= p.free() {
        (total - p.free()) as nat
    } else {
        0
    };
    assert(used / c <= frames) by (nonlinear_arith)
        requires
            used <= frames * c,
            c > 0,
    ;
    if p.capacity_samples >= c && p.capacity_samples % c == 0 {
        assert(p.capacity_samples / c >= 1) by (nonlinear_arith)
            requires
                p.capacity_samples >= c,
                c > 0,
        ;
        assert(product == p.capacity_samples) by (nonlinear_arith)
            requires
                product == (p.capacity_samples / c) * c,
                p.capacity_samples % c == 0,
                c > 0,
        ;
    }
}

/// The depth of the sink's own queue is a whole number of steps of ten
/// milliseconds, never deeper than the pipeline's ring, and small enough for
/// the sink to count: depth times rate times channels fits 32 bits.
pub proof fn law_sink_queue_fits(sample_rate: u32, channels: u32, buffer_ms: u32)
    requires
        sample_rate > 0,
        channels > 0,
    ensures
        sink_queue_ms(sample_rate, channels, buffer_ms) % 10 == 0,
        sink_queue_ms(sample_rate, channels, buffer_ms) <= clamp_buffer_ms(buffer_ms),
        sink_queue_ms(sample_rate, channels, buffer_ms) * sample_rate * channels <= u32::MAX,
        clamp_buffer_ms(buffer_ms) * sample_rate * channels <= u32::MAX ==> sink_queue_ms(
            sample_rate,
            channels,
            buffer_ms,
        ) == (clamp_buffer_ms(buffer_ms) / 10) * 10,
{
    let per = sample_rate as nat * channels as nat;
    let depth = clamp_buffer_ms(buffer_ms) as nat;
    let fits = (u32::MAX as nat) / per;
    let most = if fits < depth {
        fits
    } else {
        depth
    };
    let q = (most / 10) * 10;
    assert(per >= 1) by (nonlinear_arith)
        requires
            per == sample_rate as nat * channels as nat,
            sample_rate >= 1,
            channels >= 1,
    ;
    assert(q == sink_queue_ms(sample_rate, channels, buffer_ms));
    assert(q <= most && q % 10 == 0) by (nonlinear_arith)
        requires
            q == (most / 10) * 10,
    ;
    assert(fits * per <= u32::MAX) by (nonlinear_arith)
        requires
            fits == (u32::MAX as nat) / per,
            per >= 1,
    ;
    assert(q * per <= u32::MAX) by (nonlinear_arith)
        requires
            q <= most,
            most <= fits,
            fits * per <= u32::MAX,
    ;
    assert(q * sample_rate * channels == q * per) by (nonlinear_arith)
        requires
            per == sample_rate as nat * channels as nat,
    ;
    if depth * sample_rate * channels <= u32::MAX {
        assert(depth * sample_rate * channels == depth * per) by (nonlinear_arith)
            requires
                per == sample_rate as nat * channels as nat,
        ;
        assert(depth <= fits) by (nonlinear_arith)
            requires
                depth * per <= u32::MAX,
                fits == (u32::MAX as nat) / per,
                per >= 1,
        ;
    }
}

/// A registration for a format that is refused changes nothing: neither a
/// zero rate or channel count nor, on a connected client, a ring too large
/// for memory uses up an id.
pub proof fn law_refused_format_changes_nothing(
    r: RegistryView,
    connected: bool,
    sample_rate: u32,
    channels: u32,
    buffer_ms: u32,
)
    requires
        sample_rate == 0 || channels == 0 || (connected && plan_result(
            sample_rate,
            channels,
            buffer_ms,
        ) is Err),
    ensures
        r.begin_result(connected, sample_rate, channels, buffer_ms) is Err,
        sample_rate == 0 || channels == 0 ==> r.begin_result(
            connected,
            sample_rate,
            channels,
            buffer_ms,
        ) == Err::<PendingTrack, RegistryErrorView>(RegistryErrorView::InvalidParameters),
        r.after_begin(connected, sample_rate, channels, buffer_ms) == r,
{
}

/// Without a connection, a registration for a format with a positive rate
/// and channel count is answered "not connected", whatever the size of its
/// ring; it enters no pipeline and uses up one id.
pub proof fn law_missing_connection_is_answered_first(
    r: RegistryView,
    sample_rate: u32,
    channels: u32,
    buffer_ms: u32,
)
    requires
        sample_rate > 0,
        channels > 0,
    ensures
        r.begin_result(false, sample_rate, channels, buffer_ms) == Err::<
            PendingTrack,
            RegistryErrorView,
        >(RegistryErrorView::NotConnected),
        r.after_begin(false, sample_rate, channels, buffer_ms) == r.after_alloc(),
        r.after_begin(false, sample_rate, channels, buffer_ms).tracks == r.tracks,
        r.after_begin(false, sample_rate, channels, buffer_ms).default_track == r.default_track,
{
}

/// A request for a track on a client without a connection is answered
/// "not connected" whenever its rate and channel count are positive, whatever
/// the size of the ring it asks for, and enters no pipeline; a request with a
/// rate or channel count of zero or less is refused for its parameters and
/// changes nothing at all.
pub proof fn law_track_create_without_connection(c: ClientView, config: LkAudioTrackConfig)
    requires
        !c.connected,
    ensures
        config.sample_rate > 0 && config.channels > 0 ==> c.track_create_result(config)
            == TrackCreateView::Refused(
            pipeline_failure("audio track create failed: "@, RegistryErrorView::NotConnected),
        ),
        c.after_track_create(config).registry.tracks == c.registry.tracks,
        c.after_track_create(config).registry.default_track == c.registry.default_track,
        config.sample_rate <= 0 || config.channels <= 0 ==> c.track_create_result(config)
            == TrackCreateView::Refused(
            failure(LK_ERR_PARAMS, "invalid audio track parameters"@),
        ) && c.after_track_create(config) == c,
{
}

/// Track ids count upwards and never reach `NO_TRACK`: after the largest
/// number comes 1.
pub proof fn law_ids_pass_over_no_track(id: u64)
    ensures
        id_after(id) != NO_TRACK,
        id < u64::MAX ==> id_after(id) == id + 1,
        id_after(u64::MAX) == 1,
{
}

/// Once a default pipeline exists, asking for it again with its format
/// returns the same id and changes nothing, so that no second pipeline is
/// made.
pub proof fn law_ensure_default_is_idempotent(
    r: RegistryView,
    connected: bool,
    sample_rate: u32,
    channels: u32,
)
    requires
        r.default_track matches Some(id) && r.tracks.contains_key(id) && r.tracks[id].sample_rate
            == sample_rate && r.tracks[id].channels == channels,
    ensures
        r.ensure_default_result(connected, sample_rate, channels) == Ok::<
            DefaultTrack,
            RegistryErrorView,
        >(DefaultTrack::Existing(r.default_track->0)),
        r.after_ensure_default(connected, sample_rate, channels) == r,
{
}

/// Asking for the default pipeline with another format than it has is an
/// error and changes nothing.
pub proof fn law_ensure_default_refuses_other_format(
    r: RegistryView,
    connected: bool,
    sample_rate: u32,
    channels: u32,
)
    requires
        r.default_track matches Some(id) && r.tracks.contains_key(id) && !(
        r.tracks[id].sample_rate == sample_rate && r.tracks[id].channels == channels),
    ensures
        r.ensure_default_result(connected, sample_rate, channels) is Err,
        r.ensure_default_result(connected, sample_rate, channels)->Err_0
            is FormatMismatch,
        r.after_ensure_default(connected, sample_rate, channels) == r,
{
}

/// Asking for the default pipeline twice with one format makes exactly one
/// pipeline: the first call, on a connected client without a default, begins
/// one; once it is published, the second call returns its id, and the
/// registry holds the pipelines it held before and this one.
pub proof fn law_default_created_once(r: RegistryView, sample_rate: u32, channels: u32)
    requires
        r.default_track is None,
        r.ensure_default_result(true, sample_rate, channels) is Ok,
    ensures
        ({
            let first = r.ensure_default_result(true, sample_rate, channels)->Ok_0;
            &&& first is Pending
            &&& first->Pending_0.id == r.next_id
            &&& {
                let entered = r.after_ensure_default(
                    true,
                    sample_rate,
                    channels,
                ).after_default_insert(first->Pending_0);
                &&& entered.tracks.dom() == r.tracks.dom().insert(r.next_id)
                &&& entered.ensure_default_result(true, sample_rate, channels) == Ok::<
                    DefaultTrack,
                    RegistryErrorView,
                >(DefaultTrack::Existing(r.next_id))
                &&& entered.next_id == id_after(r.next_id)
                &&& entered.after_ensure_default(true, sample_rate, channels) == entered
            }
        }),
{
}

/// A lossy message over the lossy limit but within the reliable limit is
/// sent on the reliable tier, and once delivered it counts towards the
/// reliable bytes only.
pub proof fn law_oversized_lossy_goes_reliable(
    stats: LkDataStats,
    len: usize,
    label: DataLabel,
    labels: DataLabelsView,
)
    requires
        LOSSY_MAX < len <= RELIABLE_MAX,
    ensures
        plan_send_result(len, LkReliability::Lossy, label, labels) is Ok,
        plan_send_result(len, LkReliability::Lossy, label, labels)->Ok_0.tier
            == LkReliability::Reliable,
        stats_after(stats, LkReliability::Reliable, len, SendState::Delivered)
            == (LkDataStats {
            reliable_sent_bytes: counted(stats.reliable_sent_bytes, len as nat),
            ..stats
        }),
        stats.reliable_sent_bytes + len <= i64::MAX ==> stats_after(
            stats,
            LkReliability::Reliable,
            len,
            SendState::Delivered,
        ).reliable_sent_bytes == stats.reliable_sent_bytes + len,
{
}

/// A message over the limit of its effective tier is refused, whatever its
/// tier was.
pub proof fn law_oversized_is_refused(
    len: usize,
    tier: LkReliability,
    label: DataLabel,
    labels: DataLabelsView,
)
    requires
        len > RELIABLE_MAX,
    ensures
        plan_send_result(len, tier, label, labels) is Err,
{
}

/// A refusal for size always speaks of the reliable limit: a lossy message
/// over the lossy limit is never refused as lossy, it is moved to the
/// reliable tier first.
pub proof fn law_refusal_is_for_reliable_limit(
    len: usize,
    tier: LkReliability,
    label: DataLabel,
    labels: DataLabelsView,
)
    ensures
        plan_send_result(len, tier, label, labels) is Err <==> len > RELIABLE_MAX,
        plan_send_result(len, tier, label, labels) is Err ==> plan_send_result(
            len,
            tier,
            label,
            labels,
        )->Err_0 == (SendError::TooLarge { tier: LkReliability::Reliable, len }),
{
}

/// A send whose first attempt fails and whose retry succeeds is a success:
/// the retry is made after the backoff, the call succeeds, and the length is
/// added to the sent bytes of the tier once, with no drop counted.
pub proof fn law_retry_success_counts_once(
    c: ClientView,
    plan: SendPlanView,
    reason: Seq<char>,
)
    ensures
        ({
            let state = SendState::First.after(false).after(true);
            &&& SendState::First.after(false).action() == (SendAction::Transmit {
                delay_ms: RETRY_BACKOFF_MS,
            })
            &&& state == SendState::Delivered
            &&& state.action() == SendAction::Finish(true)
            &&& ClientView::send_finished_result(state, reason) == success()
            &&& c.after_send(plan, state).data_stats == match plan.tier {
                LkReliability::Reliable => LkDataStats {
                    reliable_sent_bytes: counted(c.data_stats.reliable_sent_bytes, plan.len as nat),
                    ..c.data_stats
                },
                LkReliability::Lossy => LkDataStats {
                    lossy_sent_bytes: counted(c.data_stats.lossy_sent_bytes, plan.len as nat),
                    ..c.data_stats
                },
            }
        }),
{
}

/// A send whose two attempts both fail is an error: no third attempt is
/// made, the call fails, and exactly one drop is counted for the tier, with
/// no bytes counted as sent.
pub proof fn law_double_failure_counts_one_drop(
    c: ClientView,
    plan: SendPlanView,
    reason: Seq<char>,
)
    requires
        c.data_stats.reliable_dropped < i64::MAX,
        c.data_stats.lossy_dropped < i64::MAX,
    ensures
        ({
            let state = SendState::First.after(false).after(false);
            &&& state == SendState::Dropped
            &&& state.action() == SendAction::Finish(false)
            &&& ClientView::send_finished_result(state, reason) == failure(
                LK_ERR_SEND,
                "byte_stream write failed: "@ + reason,
            )
            &&& c.after_send(plan, state).data_stats == match plan.tier {
                LkReliability::Reliable => LkDataStats {
                    reliable_dropped: (c.data_stats.reliable_dropped + 1) as i64,
                    ..c.data_stats
                },
                LkReliability::Lossy => LkDataStats {
                    lossy_dropped: (c.data_stats.lossy_dropped + 1) as i64,
                    ..c.data_stats
                },
            }
        }),
{
}

/// A send makes two attempts at most: whatever the outcomes, it is over
/// after the second.
pub proof fn law_at_most_two_attempts(first: bool, second: bool)
    ensures
        SendState::First.after(first).after(second).is_final(),
        first ==> SendState::First.after(first).is_final(),
        !first ==> !SendState::First.after(first).is_final(),
{
}

/// No data counter ever decreases, however a send ends.
pub proof fn law_data_counters_never_decrease(
    stats: LkDataStats,
    tier: LkReliability,
    len: usize,
    state: SendState,
)
    ensures
        stats_after(stats, tier, len, state).reliable_sent_bytes >= stats.reliable_sent_bytes,
        stats_after(stats, tier, len, state).reliable_dropped >= stats.reliable_dropped,
        stats_after(stats, tier, len, state).lossy_sent_bytes >= stats.lossy_sent_bytes,
        stats_after(stats, tier, len, state).lossy_dropped >= stats.lossy_dropped,
{
}

/// Pushing and pacing change neither the format of a pipeline nor the size
/// of its ring, and its counters never decrease.
pub proof fn law_pipeline_format_is_fixed(p: PipelineView, data: Seq<i16>)
    ensures
        p.after_push(data).sample_rate == p.sample_rate,
        p.after_push(data).channels == p.channels,
        p.after_push(data).frame_samples == p.frame_samples,
        p.after_push(data).capacity_samples == p.capacity_samples,
        p.after_push(data).overruns >= p.overruns,
        p.after_push(data).underruns == p.underruns,
        p.after_tick().sample_rate == p.sample_rate,
        p.after_tick().channels == p.channels,
        p.after_tick().frame_samples == p.frame_samples,
        p.after_tick().capacity_samples == p.capacity_samples,
        p.after_tick().underruns >= p.underruns,
        p.after_tick().overruns == p.overruns,
{
}

/// A push never queues more than the ring holds, and every frame that a
/// tick delivers has the length of one frame.
pub proof fn law_ring_and_frame_sizes(p: PipelineView, data: Seq<i16>)
    requires
        p.queued.len() <= p.capacity_samples,
    ensures
        p.after_push(data).queued.len() <= p.capacity_samples,
        p.after_tick().queued.len() <= p.capacity_samples,
        p.tick_frame().data.len() == p.frame_samples,
{
}

/// A send whose first attempt succeeds makes no second attempt.
pub proof fn law_first_success_ends_send()
    ensures
        SendState::First.after(true) == SendState::Delivered,
        SendState::First.after(true).action() == SendAction::Finish(true),
{
}

/// Right after a disconnect, a push on any track fails for want of a
/// connection and queues nothing: the client stays as the disconnect left
/// it, without any pipeline.
pub proof fn law_push_after_disconnect(c: ClientView, id: u64, data: Seq<i16>)
    ensures
        ({
            let d = c.after_disconnect();
            &&& d.track_push_result(id, data) == failure(LK_ERR_STATE, "not connected"@)
            &&& d.after_track_push(id, data) == d
            &&& d.registry.tracks == Map::<u64, PipelineView>::empty()
        }),
{
}

/// Right after a disconnect, a push on the default pipeline in a valid
/// format fails for want of a connection and changes nothing.
pub proof fn law_default_push_after_disconnect(
    c: ClientView,
    data: Seq<i16>,
    channels: i32,
    sample_rate: i32,
)
    requires
        channels > 0,
        sample_rate > 0,
    ensures
        ({
            let d = c.after_disconnect();
            &&& d.default_push_result(data, channels, sample_rate) == AudioPushView::Done(
                failure(LK_ERR_STATE, "not connected"@),
            )
            &&& d.after_default_push(data, channels, sample_rate) == d
        }),
{
}

/// Pipelines are independent: removing one, pushing on one or pacing one
/// leaves every other pipeline as it was, with its waiting samples, its
/// counters and the frame that its next tick delivers.
pub proof fn law_pipelines_are_independent(r: RegistryView, a: u64, b: u64, data: Seq<i16>)
    requires
        a != b,
        r.tracks.contains_key(a),
        r.tracks.contains_key(b),
    ensures
        r.after_remove(a).tracks.contains_key(b),
        r.after_remove(a).tracks[b] == r.tracks[b],
        !r.after_remove(a).tracks.contains_key(a),
        r.after_remove(a).tick_frame(b) == r.tick_frame(b),
        r.after_remove(a).push_result(b, data) == r.push_result(b, data),
        r.after_push(a, data).tracks.contains_key(b),
        r.after_push(a, data).tracks[b] == r.tracks[b],
        r.after_tick(a).tracks.contains_key(b),
        r.after_tick(a).tracks[b] == r.tracks[b],
{
}

/// Removing the default pipeline leaves no default behind; removing another
/// pipeline leaves the default as it was; removing an unknown id changes
/// nothing.
pub proof fn law_remove_keeps_default_live(r: RegistryView, id: u64)
    requires
        r.default_track matches Some(d) ==> r.tracks.contains_key(d),
    ensures
        r.after_remove(id).default_track matches Some(d) ==> r.after_remove(
            id,
        ).tracks.contains_key(d),
        r.default_track == Some(id) ==> r.after_remove(id).default_track is None,
        r.default_track != Some(id) ==> r.after_remove(id).default_track == r.default_track,
        !r.tracks.contains_key(id) && r.default_track != Some(id) ==> r.after_remove(id) == r,
{
    if !r.tracks.contains_key(id) {
        assert(r.tracks.remove(id) =~= r.tracks);
    }
}

} // verus!
