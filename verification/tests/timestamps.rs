use ferron::frame::{PassKind, FRAMES_IN_FLIGHT};
use ferron::renderer::reserve_tokens;
use ferron::timestamps::{
    probe, valid_mask, GpuTimestamps, PassToken, Resets, SlotState, MAX_PASSES, QUERIES, SLOTS,
    WHOLE_FRAME_PASS,
};

/// Too few slots resets a pool the GPU is still writing; exactly as many leaves
/// the readback no frame to happen on.
#[test]
fn a_spare_timestamp_slot_beyond_the_frames_in_flight() {
    assert!(
        SLOTS > FRAMES_IN_FLIGHT,
        "{SLOTS} query slots for {FRAMES_IN_FLIGHT} frames in flight leaves no slot to read \
         back from",
    );
    assert!(
        SLOTS >= 3,
        "a slot is only eligible to drain a frame after the one it was written in, and never \
         while the cursor sits on it"
    );
}

#[test]
fn masks_cover_the_valid_bits() {
    assert_eq!(valid_mask(0), 0);
    assert_eq!(valid_mask(1), 1);
    assert_eq!(valid_mask(36), 0xf_ffff_ffff);
    assert_eq!(valid_mask(63), u64::MAX >> 1);
    assert_eq!(valid_mask(64), u64::MAX);
    assert_eq!(valid_mask(80), u64::MAX);
}

#[test]
fn a_queue_without_timestamps_is_not_probed() {
    assert_eq!(probe(None, false), None);
    assert_eq!(probe(Some(36), true), None);
    assert_eq!(probe(Some(36), false), Some(0xf_ffff_ffff));
}

fn frame(timestamps: &mut GpuTimestamps, number: u64, passes: &[&str]) {
    timestamps.begin_frame(number, number * 1000);
    let resets = timestamps.record_resets(true);
    assert_eq!(resets, Resets { queries: QUERIES, open: Some(PassToken { base: 0 }) });
    for (index, name) in passes.iter().enumerate() {
        let token = timestamps.reserve(name, true, true);
        assert_eq!(token, Some(PassToken { base: 2 + 2 * index as u32 }));
    }
    assert_eq!(timestamps.end_frame(), Some(1));
}

/// A frame's slot is first readable while the frame after it records, and its
/// spans are filed against the frame that wrote it.
#[test]
fn a_frame_is_read_back_in_its_window() {
    let mut timestamps = GpuTimestamps::new(u64::MAX);
    frame(&mut timestamps, 7, &["prepass", "forward"]);
    assert_eq!(timestamps.write, 1);
    // Not while its own frame is open.
    assert_eq!(timestamps.readable(0, 7), None);
    assert_eq!(timestamps.readable(0, 8), Some(6));
    // Never the slot under the cursor.
    assert_eq!(timestamps.readable(1, 8), None);

    let spans = timestamps.drain(0, &[100, 400, 110, 150, 150, 390]);
    let read: Vec<_> = spans
        .iter()
        .map(|span| (span.name.as_str(), span.start, span.end, span.ticks, span.whole_frame))
        .collect();
    assert_eq!(
        read,
        vec![
            (WHOLE_FRAME_PASS, 0, 300, 300, true),
            ("prepass", 10, 50, 40, false),
            ("forward", 50, 290, 240, false),
        ]
    );
    assert_eq!(timestamps.slots[0].state, SlotState::Idle);
    assert_eq!(timestamps.readable(0, 9), None);
}

/// A pair that was never written, or is out of order, files nothing; and only the
/// valid bits of a stamp count.
#[test]
fn a_wrong_pair_files_nothing() {
    let mut timestamps = GpuTimestamps::new(0xff);
    frame(&mut timestamps, 1, &["zero", "backwards", "early", "good"]);
    let spans = timestamps.drain(0, &[0x150, 0x190, 0x200, 0x2ff, 0x80, 0x70, 0x10, 0x60, 0x55, 0x58]);
    let read: Vec<_> = spans
        .iter()
        .map(|span| (span.name.as_str(), span.start, span.end, span.ticks))
        .collect();
    assert_eq!(
        read,
        vec![("frame", 0, 0x40, 0x40), ("early", 0, 0x10, 0x50), ("good", 5, 8, 3)]
    );
}

/// The whole-frame pair survives turning per-pass timing off.
#[test]
fn switches_gate_the_pairs() {
    let mut timestamps = GpuTimestamps::new(u64::MAX);
    timestamps.begin_frame(1, 0);
    assert_eq!(timestamps.record_resets(false).open, None);
    assert_eq!(timestamps.reserve("forward", false, true), None);
    assert_eq!(timestamps.end_frame(), None);

    timestamps.begin_frame(2, 0);
    assert_eq!(timestamps.record_resets(true).open, Some(PassToken { base: 0 }));
    assert_eq!(timestamps.reserve("forward", true, false), None);
    assert_eq!(timestamps.end_frame(), Some(1));
}

/// Passes beyond the pool are dropped rather than mis-attributed.
#[test]
fn the_pool_runs_out() {
    let mut timestamps = GpuTimestamps::new(u64::MAX);
    timestamps.begin_frame(1, 0);
    timestamps.record_resets(true);
    let mut last = None;
    for _ in 1..MAX_PASSES {
        last = timestamps.reserve("pass", true, true);
        assert!(last.is_some());
    }
    assert_eq!(last, Some(PassToken { base: QUERIES - 2 }));
    assert_eq!(GpuTimestamps::open(last), Some(QUERIES - 2));
    assert_eq!(GpuTimestamps::close(last), Some(QUERIES - 1));
    assert_eq!(timestamps.reserve("pass", true, true), None);
    assert_eq!(GpuTimestamps::open(None), None);
    assert_eq!(GpuTimestamps::close(None), None);
}

#[test]
fn slots_rotate() {
    let mut timestamps = GpuTimestamps::new(u64::MAX);
    for number in 0..7u64 {
        assert_eq!(timestamps.write, number as usize % SLOTS);
        frame(&mut timestamps, number, &[]);
    }
}

/// Raw passes draw nothing from the pool.
#[test]
fn tokens_follow_the_schedule() {
    let mut timestamps = GpuTimestamps::new(u64::MAX);
    timestamps.begin_frame(1, 0);
    timestamps.record_resets(true);
    let kinds = [PassKind::Graphics, PassKind::Raw, PassKind::Compute];
    let names: Vec<String> = ["a", "b", "c"].iter().map(|name| name.to_string()).collect();
    let order = [2, 1, 0];
    let tokens = reserve_tokens(&mut timestamps, &order, &kinds, &names, true, true);
    assert_eq!(tokens, vec![Some(PassToken { base: 2 }), None, Some(PassToken { base: 4 })]);
    let recorded: Vec<_> = timestamps.slots[0]
        .passes
        .iter()
        .map(|pass| (pass.name.as_str(), pass.base))
        .collect();
    assert_eq!(recorded, vec![("frame", 0), ("c", 2), ("a", 4)]);
}
