//! Per-pass GPU timing: which queries a frame stamps, and which of them can be
//! read back when.
//!
//! One timestamp pair per pass, plus a reserved pair spanning the whole frame.
//! Timestamps are readable only once the GPU has passed them, so every slot
//! carries the profiler frame it recorded and its spans are filed against that.
//! Ticks become nanoseconds outside: the scale is a floating-point number.

use crate::frame::FRAMES_IN_FLIGHT;
use vstd::arithmetic::power2::{lemma_pow2_pos, pow2};
use vstd::prelude::*;

verus! {

/// Passes timed per frame, including the reserved whole-frame pair. Passes
/// beyond it are dropped rather than mis-attributed.
pub const MAX_PASSES: usize = 64;

/// Queries in one slot's pool: a pair for each pass.
pub const QUERIES: u32 = 128;

/// Frame slots in rotation: one more than the frames the CPU may be ahead by.
///
/// A slot is reset before the frame that writes it records, so it must belong to
/// a frame the GPU has finished; and it must be read before it is reused, which
/// takes one more, since a slot is not read in the frame that wrote it.
pub const SLOTS: usize = FRAMES_IN_FLIGHT + 1;

/// Name of the reserved pair covering the whole frame.
pub const WHOLE_FRAME_PASS: &'static str = "frame";

/// A query pair reserved for one pass.
#[derive(Clone, Copy, Debug, PartialEq, Eq, Structural)]
pub struct PassToken {
    pub base: u32,
}

/// A pass that reserved a pair this frame.
#[derive(Debug)]
pub struct RecordedPass {
    pub name: String,
    pub base: u32,
}

#[derive(Clone, Copy, Debug, PartialEq, Eq, Structural)]
pub enum SlotState {
    /// Never written, or already drained; safe to reset and record into.
    Idle,
    /// Written and submitted; awaiting a non-blocking readback.
    Pending,
}

/// One frame's queries.
#[derive(Debug)]
pub struct FrameSlot {
    /// The profiler frame these queries belong to.
    pub frame_index: u64,
    /// CPU clock at the moment this frame opened.
    pub anchor_ns: u64,
    pub passes: Vec<RecordedPass>,
    pub state: SlotState,
    pub next_query: u32,
}

/// A slot, as values.
#[verifier::ext_equal]
pub struct SlotView {
    pub frame_index: u64,
    pub anchor_ns: u64,
    pub names: Seq<Seq<char>>,
    pub state: SlotState,
}

impl FrameSlot {
    /// Pairs are handed out in order from query zero, so the slot is what its
    /// names say it is.
    pub open spec fn wf(&self) -> bool {
        &&& self.passes@.len() <= MAX_PASSES
        &&& self.next_query == 2 * self.passes@.len()
        &&& forall|i: int| 0 <= i < self.passes@.len() ==> (#[trigger] self.passes@[i]).base == 2 * i
    }

    pub open spec fn view(&self) -> SlotView {
        SlotView {
            frame_index: self.frame_index,
            anchor_ns: self.anchor_ns,
            names: Seq::new(self.passes@.len(), |i: int| self.passes@[i].name@),
            state: self.state,
        }
    }
}

/// The slots in rotation and the one being written.
#[derive(Debug)]
pub struct GpuTimestamps {
    pub slots: Vec<FrameSlot>,
    pub write: usize,
    /// Valid low bits of a timestamp for this queue family.
    pub valid_mask: u64,
}

/// What has to be recorded before the first pass of a frame.
#[derive(Clone, Copy, Debug, PartialEq, Eq, Structural)]
pub struct Resets {
    /// How many queries to reset, from query zero: all of them, since which
    /// passes will run is not known yet.
    pub queries: u32,
    /// The whole-frame pair to open, where profiling is on.
    pub open: Option<PassToken>,
}

/// One pass's readback in ticks from the frame's first stamp.
#[derive(Debug)]
pub struct TickSpan {
    pub name: String,
    pub start: u64,
    pub end: u64,
    /// Ticks the pass took, which is not `end - start` where a stamp lies before
    /// the frame's origin.
    pub ticks: u64,
    pub whole_frame: bool,
}

/// One pass's readback, as values.
#[verifier::ext_equal]
pub struct TickSpanView {
    pub name: Seq<char>,
    pub start: u64,
    pub end: u64,
    pub ticks: u64,
    pub whole_frame: bool,
}

impl TickSpan {
    pub open spec fn view(&self) -> TickSpanView {
        TickSpanView {
            name: self.name@,
            start: self.start,
            end: self.end,
            ticks: self.ticks,
            whole_frame: self.whole_frame,
        }
    }
}

/// `a - b`, or zero where that is negative.
pub open spec fn minus(a: u64, b: u64) -> u64 {
    if a >= b {
        (a - b) as u64
    } else {
        0
    }
}

/// What pass `i` of a slot measured, or `None` where its pair is zero or out of
/// order: filing a wrong span is worse than filing none.
pub open spec fn span_of(names: Seq<Seq<char>>, results: Seq<u64>, mask: u64, i: int) -> Option<
    TickSpanView,
> {
    let origin = results[0] & mask;
    let start = results[2 * i] & mask;
    let end = results[2 * i + 1] & mask;
    if start == 0 || end <= start {
        None
    } else {
        Some(
            TickSpanView {
                name: names[i],
                start: minus(start, origin),
                end: minus(end, origin),
                ticks: (end - start) as u64,
                whole_frame: names[i] == WHOLE_FRAME_PASS@,
            },
        )
    }
}

/// The spans of the first `count` passes, in order, without the ones that
/// measured nothing.
pub open spec fn spans_of(names: Seq<Seq<char>>, results: Seq<u64>, mask: u64, count: int) -> Seq<
    TickSpanView,
>
    decreases count,
{
    if count <= 0 {
        Seq::empty()
    } else {
        let rest = spans_of(names, results, mask, count - 1);
        match span_of(names, results, mask, count - 1) {
            Some(span) => rest.push(span),
            None => rest,
        }
    }
}

/// The mask over a timestamp's valid low bits.
pub fn valid_mask(valid_bits: u32) -> (mask: u64)
    ensures
        valid_bits < 64 ==> mask == pow2(valid_bits as nat) - 1,
        valid_bits >= 64 ==> mask == u64::MAX,
{
    if valid_bits >= 64 {
        u64::MAX
    } else {
        proof {
            vstd::bits::lemma_u64_pow2_no_overflow(valid_bits as nat);
            vstd::bits::lemma_u64_shl_is_mul(1, valid_bits as u64);
            lemma_pow2_pos(valid_bits as nat);
        }
        (1u64 << valid_bits) - 1
    }
}

/// The valid-bit mask, or `None` if this queue cannot write timestamps: it has
/// no valid bits, or its ticks have no length.
pub fn probe(valid_bits: Option<u32>, period_is_zero: bool) -> (mask: Option<u64>)
    ensures
        mask is Some <==> valid_bits is Some && !period_is_zero,
        mask is Some && valid_bits->0 < 64 ==> mask->0 == pow2(valid_bits->0 as nat) - 1,
        mask is Some && valid_bits->0 >= 64 ==> mask->0 == u64::MAX,
{
    match valid_bits {
        None => None,
        Some(bits) => if period_is_zero {
            None
        } else {
            Some(valid_mask(bits))
        },
    }
}

impl GpuTimestamps {
    /// There are as many slots as the rotation needs, and each is in order.
    pub open spec fn wf(&self) -> bool {
        &&& self.slots@.len() == SLOTS
        &&& self.write < SLOTS
        &&& forall|i: int| 0 <= i < SLOTS ==> (#[trigger] self.slots@[i]).wf()
    }

    pub open spec fn slot(&self, i: int) -> SlotView {
        self.slots@[i]@
    }

    /// The slot being written.
    pub open spec fn current(&self) -> SlotView {
        self.slot(self.write as int)
    }

    /// Every slot but `i` is as it was.
    pub open spec fn others_kept(&self, before: &GpuTimestamps, i: int) -> bool {
        &&& self.valid_mask == before.valid_mask
        &&& forall|j: int| 0 <= j < SLOTS && j != i ==> #[trigger] self.slot(j) == before.slot(j)
    }

    pub fn new(valid_mask: u64) -> (timestamps: Self)
        ensures
            timestamps.wf(),
            timestamps.write == 0,
            timestamps.valid_mask == valid_mask,
            forall|i: int|
                0 <= i < SLOTS ==> #[trigger] timestamps.slot(i) == (SlotView {
                    frame_index: 0,
                    anchor_ns: 0,
                    names: Seq::empty(),
                    state: SlotState::Idle,
                }),
    {
        let mut slots: Vec<FrameSlot> = Vec::with_capacity(SLOTS);
        while slots.len() < SLOTS
            invariant
                slots@.len() <= SLOTS,
                forall|i: int|
                    0 <= i < slots@.len() ==> (#[trigger] slots@[i]).wf()
                        && slots@[i].passes@.len() == 0 && slots@[i].frame_index == 0
                        && slots@[i].anchor_ns == 0 && slots@[i].state is Idle,
            decreases SLOTS - slots@.len(),
        {
            slots.push(
                FrameSlot {
                    frame_index: 0,
                    anchor_ns: 0,
                    passes: Vec::new(),
                    state: SlotState::Idle,
                    next_query: 0,
                },
            );
        }
        let timestamps = GpuTimestamps { slots, write: 0, valid_mask };
        assert forall|i: int| 0 <= i < SLOTS implies #[trigger] timestamps.slot(i) == (SlotView {
            frame_index: 0,
            anchor_ns: 0,
            names: Seq::empty(),
            state: SlotState::Idle,
        }) by {
            assert(timestamps.slots@[i]@.names =~= Seq::empty());
        }
        timestamps
    }

    /// Bind the slot about to be recorded to the profiler frame in progress.
    ///
    /// A slot still pending here was never read back: its results are gone, and
    /// clearing is the whole remedy.
    pub fn begin_frame(&mut self, profiler_frame: u64, now_ns: u64)
        requires
            old(self).wf(),
        ensures
            final(self).wf(),
            final(self).write == old(self).write,
            final(self).others_kept(old(self), old(self).write as int),
            final(self).current() == (SlotView {
                frame_index: profiler_frame,
                anchor_ns: now_ns,
                names: Seq::empty(),
                state: SlotState::Idle,
            }),
    {
        let write: usize = self.write;
        let slot = FrameSlot {
            frame_index: profiler_frame,
            anchor_ns: now_ns,
            passes: Vec::new(),
            state: SlotState::Idle,
            next_query: 0,
        };
        assert(slot@.names =~= Seq::empty());
        self.slots.set(write, slot);
    }

    /// Reset this frame's queries and open the reserved whole-frame pair.
    ///
    /// Reserved first, so that it is always query zero and query zero is always
    /// written: it is the frame's tick origin. It does not answer to the
    /// per-pass switch, since the whole-frame number has to survive turning
    /// per-pass timing off.
    pub fn record_resets(&mut self, enabled: bool) -> (resets: Resets)
        requires
            old(self).wf(),
        ensures
            final(self).wf(),
            final(self).write == old(self).write,
            final(self).others_kept(old(self), old(self).write as int),
            resets.queries == QUERIES,
            enabled && old(self).current().names.len() < MAX_PASSES ==> {
                &&& resets.open == Some(
                    PassToken { base: (2 * old(self).current().names.len()) as u32 },
                )
                &&& final(self).current() == (SlotView {
                    names: old(self).current().names.push(WHOLE_FRAME_PASS@),
                    ..old(self).current()
                })
            },
            !enabled || old(self).current().names.len() >= MAX_PASSES ==> {
                &&& resets.open is None
                &&& final(self).current() == old(self).current()
            },
    {
        let open = if enabled {
            self.take_pair(WHOLE_FRAME_PASS)
        } else {
            None
        };
        Resets { queries: QUERIES, open }
    }

    /// Reserve a query pair for `name`, for the pass to stamp when it records.
    ///
    /// `None` when profiling is off, when per-pass timing is off, or when the
    /// pool is exhausted.
    pub fn reserve(&mut self, name: &str, enabled: bool, gpu_passes: bool) -> (token: Option<
        PassToken,
    >)
        requires
            old(self).wf(),
        ensures
            final(self).wf(),
            final(self).write == old(self).write,
            final(self).others_kept(old(self), old(self).write as int),
            token is Some <==> enabled && gpu_passes && old(self).current().names.len()
                < MAX_PASSES,
            token is Some ==> token->0.base == 2 * old(self).current().names.len()
                && final(self).current() == (SlotView {
                names: old(self).current().names.push(name@),
                ..old(self).current()
            }),
            token is None ==> final(self).current() == old(self).current(),
    {
        if !enabled || !gpu_passes {
            return None;
        }
        self.take_pair(name)
    }

    /// The half of [`reserve`](Self::reserve) past the switches.
    pub fn take_pair(&mut self, name: &str) -> (token: Option<PassToken>)
        requires
            old(self).wf(),
        ensures
            final(self).wf(),
            final(self).write == old(self).write,
            final(self).others_kept(old(self), old(self).write as int),
            token is Some <==> old(self).current().names.len() < MAX_PASSES,
            token is Some ==> token->0.base == 2 * old(self).current().names.len()
                && final(self).current() == (SlotView {
                names: old(self).current().names.push(name@),
                ..old(self).current()
            }),
            token is None ==> final(self).current() == old(self).current(),
    {
        let write: usize = self.write;
        let ghost before = self.slots@[write as int]@;
        let slot = &mut self.slots[write];
        if slot.passes.len() >= MAX_PASSES {
            return None;
        }
        let base: u32 = slot.next_query;
        slot.next_query = base + 2;
        slot.passes.push(RecordedPass { name: name.to_owned(), base });
        proof {
            assert(self.slots@[write as int]@.names =~= before.names.push(name@));
        }
        Some(PassToken { base })
    }

    /// The query that stamps the opening half of a reserved pair.
    pub fn open(token: Option<PassToken>) -> (query: Option<u32>)
        ensures
            query == (match token {
                Some(token) => Some(token.base),
                None => None,
            }),
    {
        match token {
            Some(token) => Some(token.base),
            None => None,
        }
    }

    /// The query that stamps the closing half of a reserved pair.
    pub fn close(token: Option<PassToken>) -> (query: Option<u32>)
        requires
            token is Some ==> token->0.base < u32::MAX,
        ensures
            query == (match token {
                Some(token) => Some((token.base + 1) as u32),
                None => None,
            }),
    {
        match token {
            Some(token) => Some(token.base + 1),
            None => None,
        }
    }

    /// Close the reserved whole-frame pair, mark the slot for readback, rotate.
    ///
    /// Hands back the query to stamp: none where profiling was off when the
    /// frame opened, so that there is no pair to close.
    pub fn end_frame(&mut self) -> (query: Option<u32>)
        requires
            old(self).wf(),
        ensures
            final(self).wf(),
            query == (if old(self).current().names.len() > 0 {
                Some(1u32)
            } else {
                None::<u32>
            }),
            final(self).write == (old(self).write + 1) % (SLOTS as int),
            final(self).others_kept(old(self), old(self).write as int),
            final(self).slot(old(self).write as int) == (SlotView {
                state: SlotState::Pending,
                ..old(self).current()
            }),
    {
        let write: usize = self.write;
        let ghost before = self.slots@[write as int]@;
        let query = if self.slots[write].passes.len() > 0 {
            Self::close(Some(PassToken { base: 0 }))
        } else {
            None
        };
        let slot = &mut self.slots[write];
        slot.state = SlotState::Pending;
        proof {
            assert(self.slots@[write as int]@.names =~= before.names);
        }
        self.write = (write + 1) % SLOTS;
        query
    }

    /// How many queries to read back from a slot, or `None` where there is
    /// nothing to read yet: the slot is being written, was drained, timed
    /// nothing, or belongs to a frame the profiler has not closed.
    pub fn readable(&self, index: usize, profiler_frame: u64) -> (count: Option<u32>)
        requires
            self.wf(),
            index < SLOTS,
        ensures
            count is Some <==> index != self.write && self.slot(index as int).state is Pending
                && self.slot(index as int).names.len() > 0 && self.slot(index as int).frame_index
                < profiler_frame,
            count is Some ==> count->0 == 2 * self.slot(index as int).names.len(),
    {
        let slot = &self.slots[index];
        if index == self.write || slot.state != SlotState::Pending || slot.passes.len() == 0
            || slot.frame_index >= profiler_frame {
            None
        } else {
            Some(slot.next_query)
        }
    }

    /// Take the results of a slot that [`readable`](Self::readable) allowed and
    /// the device had ready. The slot is idle afterwards.
    pub fn drain(&mut self, index: usize, results: &[u64]) -> (spans: Vec<TickSpan>)
        requires
            old(self).wf(),
            index < SLOTS,
            old(self).slot(index as int).names.len() > 0,
            results@.len() >= 2 * old(self).slot(index as int).names.len(),
        ensures
            final(self).wf(),
            final(self).write == old(self).write,
            final(self).others_kept(old(self), index as int),
            final(self).slot(index as int) == (SlotView {
                state: SlotState::Idle,
                ..old(self).slot(index as int)
            }),
            spans@.map_values(|span: TickSpan| span@) == spans_of(
                old(self).slot(index as int).names,
                results@,
                old(self).valid_mask,
                old(self).slot(index as int).names.len() as int,
            ),
    {
        let mask: u64 = self.valid_mask;
        let mut spans: Vec<TickSpan> = Vec::new();
        let ghost names = self.slots@[index as int]@.names;
        let ghost of = |span: TickSpan| span@;
        let origin: u64 = results[0] & mask;
        let mut i: usize = 0;
        assert(spans@.map_values(of) =~= Seq::empty());
        while i < self.slots[index].passes.len()
            invariant
                self.wf(),
                *self == *old(self),
                index < SLOTS,
                mask == self.valid_mask,
                names == self.slots@[index as int]@.names,
                i <= names.len(),
                names.len() == self.slots@[index as int].passes@.len(),
                results@.len() >= 2 * names.len(),
                origin == results@[0] & mask,
                of == (|span: TickSpan| span@),
                spans@.map_values(of) == spans_of(names, results@, mask, i as int),
            decreases names.len() - i,
        {
            let pass = &self.slots[index].passes[i];
            let ghost done = spans@;
            assert(self.slots@[index as int].wf());
            assert(names[i as int] == pass.name@);
            let start: u64 = results[pass.base as usize] & mask;
            let end: u64 = results[pass.base as usize + 1] & mask;
            if start != 0 && end > start {
                let whole: String = WHOLE_FRAME_PASS.to_owned();
                let span = TickSpan {
                    name: pass.name.clone(),
                    start: start.saturating_sub(origin),
                    end: end.saturating_sub(origin),
                    ticks: end - start,
                    whole_frame: pass.name == whole,
                };
                assert(Some(span@) == span_of(names, results@, mask, i as int));
                spans.push(span);
                assert(spans@.map_values(of) =~= done.map_values(of).push(span@));
            }
            i = i + 1;
        }
        let ghost before = self.slots@[index as int]@;
        let slot = &mut self.slots[index];
        slot.state = SlotState::Idle;
        proof {
            assert(self.slots@[index as int]@.names =~= before.names);
        }
        spans
    }
}

/// The slot that the frame `frame` writes, the first being frame zero.
pub open spec fn slot_of_frame(frame: nat) -> nat {
    frame % (SLOTS as nat)
}

/// **The rotation follows the frames.** The slot after a frame's is the next
/// frame's, which is what `end_frame` moves the cursor to.
pub proof fn rotation_follows_frames(frame: nat)
    ensures
        slot_of_frame(frame + 1) == (slot_of_frame(frame) + 1) % (SLOTS as nat),
        slot_of_frame(0) == 0,
{
}

/// **A slot waits out the frames in flight.** No frame that the CPU may be ahead
/// by writes the slot again, so a reset never reaches a pool in use.
pub proof fn slot_outlives_the_frames_in_flight(frame: nat, ahead: nat)
    requires
        0 < ahead <= FRAMES_IN_FLIGHT,
    ensures
        slot_of_frame(frame + ahead) != slot_of_frame(frame),
{
    readback_has_a_window(frame);
    if ahead == 1 {
        assert(frame + ahead == frame + 1);
    } else {
        assert(frame + ahead == frame + 2);
    }
}

/// **Every slot has a frame to be read in.** While the frame after next records,
/// a frame's slot is neither being written nor that of a frame still open: the
/// spare slot is the window its readback happens in.
pub proof fn readback_has_a_window(frame: nat)
    ensures
        slot_of_frame(frame) != slot_of_frame(frame + 1),
        slot_of_frame(frame) != slot_of_frame(frame + 2),
        slot_of_frame(frame) == slot_of_frame(frame + 3),
{
    assert(SLOTS == 3);
    let turn = frame % 3;
    assert(frame == 3 * (frame / 3) + turn);
    assert((frame + 1) % 3 == (turn + 1) % 3);
    assert((frame + 2) % 3 == (turn + 2) % 3);
}

/// **Pairs never overlap and fit the pool.** Two passes of one slot stamp four
/// different queries, all of them among those that were reset.
pub proof fn pairs_are_disjoint(slot: &FrameSlot, i: int, j: int)
    requires
        slot.wf(),
        0 <= i < j < slot.passes@.len(),
    ensures
        slot.passes@[i].base + 1 < slot.passes@[j].base,
        slot.passes@[j].base + 1 < QUERIES,
{
}

/// **A span is what the pass's own pair measured.** It is filed where the pair was
/// stamped, in order, under the pass's name: from its first stamp to its second, both
/// counted from the frame's first, and never before it. Only the valid bits count.
pub proof fn spans_are_their_pairs(names: Seq<Seq<char>>, results: Seq<u64>, mask: u64, i: int)
    ensures
        ({
            let start = results[2 * i] & mask;
            let end = results[2 * i + 1] & mask;
            let origin = results[0] & mask;
            &&& span_of(names, results, mask, i) is Some <==> 0 < start < end
            &&& span_of(names, results, mask, i) matches Some(span) ==> {
                &&& span.name == names[i]
                &&& span.ticks == end - start
                &&& origin <= start ==> span.start == start - origin && span.end == end - origin
                    && span.ticks == span.end - span.start
                &&& start < origin ==> span.start == 0
                &&& end < origin ==> span.end == 0
                &&& span.start <= span.end
                &&& span.whole_frame <==> names[i] == "frame"@
            }
        }),
{
}

/// **The first pass of a frame starts it.** Its span, where it has one, starts at zero.
pub proof fn frames_start_at_zero(names: Seq<Seq<char>>, results: Seq<u64>, mask: u64)
    ensures
        span_of(names, results, mask, 0) matches Some(span) ==> span.start == 0 && span.end
            == span.ticks,
{
}

/// **Every measured pass is filed once, in order.** Its span stands behind those of the
/// measured passes before it, and a pass that measured nothing has none.
pub proof fn spans_are_filed_in_order(
    names: Seq<Seq<char>>,
    results: Seq<u64>,
    mask: u64,
    pass: int,
    count: int,
)
    requires
        0 <= pass < count,
    ensures
        ({
            let before = spans_of(names, results, mask, pass).len() as int;
            let span = span_of(names, results, mask, pass);
            &&& span is Some ==> before < spans_of(names, results, mask, count).len() && spans_of(
                names,
                results,
                mask,
                count,
            )[before] == span->0
            &&& spans_of(names, results, mask, pass + 1).len() == before + (if span is Some {
                1int
            } else {
                0
            })
        }),
        spans_of(names, results, mask, 0).len() == 0,
    decreases count,
{
    if pass < count - 1 {
        spans_are_filed_in_order(names, results, mask, pass, count - 1);
    }
}

} // verus!
