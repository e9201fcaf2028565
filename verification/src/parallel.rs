//! Splitting one frame's recording across the worker pool.

use std::ops::Range;
use vstd::prelude::*;

verus! {

/// What a slot costs at the least, whatever its pass draws: a group of passes
/// that record nothing still costs a command buffer to begin and end, so a
/// frame of them spreads across the pool rather than collapsing onto one
/// worker.
pub const FLOOR: u32 = 1;

/// What one slot weighs: its cost, or [`FLOOR`] where that is more.
pub open spec fn weight(cost: u32) -> nat {
    if cost < FLOOR {
        FLOOR as nat
    } else {
        cost as nat
    }
}

/// What the slots from `start` up to `end` weigh together.
pub open spec fn load(costs: Seq<u32>, start: int, end: int) -> nat
    decreases end - start,
{
    if end <= start {
        0
    } else {
        load(costs, start, end - 1) + weight(costs[end - 1])
    }
}

/// The runs stand end to end, none of them empty, from `start` to `len`.
pub open spec fn tiles(runs: Seq<Range<usize>>, start: int, len: int) -> bool {
    &&& runs.len() == 0 ==> start == len
    &&& runs.len() > 0 ==> runs[0].start == start && runs.last().end == len
    &&& forall|i: int| 0 <= i < runs.len() ==> (#[trigger] runs[i]).start < runs[i].end
    &&& forall|i: int, j: int|
        0 <= i && j == i + 1 && j < runs.len() ==> (#[trigger] runs[i]).end == (#[trigger] runs[j]).start
}

/// What the heaviest of the runs weighs; nothing where there are none.
pub open spec fn heaviest(costs: Seq<u32>, runs: Seq<Range<usize>>) -> nat
    decreases runs.len(),
{
    if runs.len() == 0 {
        0
    } else {
        let rest = heaviest(costs, runs.drop_last());
        let last = load(costs, runs.last().start as int, runs.last().end as int);
        if rest < last {
            last
        } else {
            rest
        }
    }
}

/// A run that a ceiling allows: light enough, or a slot on its own.
pub open spec fn allowed(costs: Seq<u32>, run: Range<usize>, ceiling: int) -> bool {
    load(costs, run.start as int, run.end as int) <= ceiling || run.end == run.start + 1
}

/// Where a run that began at `start` and already holds everything up to `end`
/// closes: at the first slot that would take it past `ceiling`.
pub open spec fn reach(costs: Seq<u32>, start: int, end: int, ceiling: int) -> int
    decreases costs.len() - end,
{
    if end >= costs.len() {
        costs.len() as int
    } else if end > start && load(costs, start, end) + weight(costs[end]) > ceiling {
        end
    } else {
        reach(costs, start, end + 1, ceiling)
    }
}

/// Runs filled from `start` on, each closed only where [`reach`] closes it.
pub open spec fn first_fit(costs: Seq<u32>, start: int, ceiling: int) -> Seq<Range<usize>>
    decreases costs.len() - start,
    via first_fit_decreases
{
    if start >= costs.len() {
        Seq::empty()
    } else {
        let end = reach(costs, start, start, ceiling);
        seq![Range { start: start as usize, end: end as usize }] + first_fit(costs, end, ceiling)
    }
}

#[via_fn]
proof fn first_fit_decreases(costs: Seq<u32>, start: int, ceiling: int) {
    if start < costs.len() {
        reach_bounds(costs, start, start, ceiling);
    }
}

proof fn reach_bounds(costs: Seq<u32>, start: int, end: int, ceiling: int)
    requires
        start <= end <= costs.len(),
    ensures
        end <= reach(costs, start, end, ceiling) <= costs.len(),
        start < costs.len() ==> start < reach(costs, start, end, ceiling),
    decreases costs.len() - end,
{
    if end < costs.len() && !(end > start && load(costs, start, end) + weight(costs[end])
        > ceiling) {
        reach_bounds(costs, start, end + 1, ceiling);
    }
}

/// Dropping slots from the front of a run never makes it heavier.
proof fn load_shrinks(costs: Seq<u32>, outer: int, inner: int, end: int)
    requires
        outer <= inner,
    ensures
        load(costs, inner, end) <= load(costs, outer, end),
    decreases end - outer,
{
    if inner < end {
        load_shrinks(costs, outer, inner, end - 1);
    }
}

/// Adding slots at the back of a run never makes it lighter.
proof fn load_grows(costs: Seq<u32>, start: int, middle: int, end: int)
    requires
        middle <= end,
    ensures
        load(costs, start, middle) <= load(costs, start, end),
    decreases end - middle,
{
    if middle < end {
        load_grows(costs, start, middle, end - 1);
    }
}

/// A greedy run passes every end that the ceiling still allows.
proof fn reach_passes(costs: Seq<u32>, start: int, end: int, goal: int, ceiling: int)
    requires
        0 <= start <= end <= goal <= costs.len(),
        load(costs, start, goal) <= ceiling,
    ensures
        reach(costs, start, end, ceiling) >= goal,
    decreases goal - end,
{
    if end < goal {
        load_grows(costs, start, end + 1, goal);
        reach_passes(costs, start, end + 1, goal, ceiling);
    } else {
        reach_bounds(costs, start, end, ceiling);
    }
}

/// A greedy run is one that its ceiling allows.
proof fn reach_is_allowed(costs: Seq<u32>, start: int, end: int, ceiling: int)
    requires
        0 <= start <= end <= costs.len(),
        start < costs.len(),
        end > start + 1 ==> load(costs, start, end) <= ceiling,
    ensures
        load(costs, start, reach(costs, start, end, ceiling)) <= ceiling || reach(
            costs,
            start,
            end,
            ceiling,
        ) == start + 1,
    decreases costs.len() - end,
{
    if end < costs.len() && !(end > start && load(costs, start, end) + weight(costs[end])
        > ceiling) {
        assert(load(costs, start, end + 1) == load(costs, start, end) + weight(costs[end]));
        reach_is_allowed(costs, start, end + 1, ceiling);
    }
}

/// Greedy runs tile the frame, and their ceiling allows each of them.
proof fn first_fit_tiles(costs: Seq<u32>, start: int, ceiling: int)
    requires
        0 <= start <= costs.len() <= usize::MAX,
    ensures
        tiles(first_fit(costs, start, ceiling), start, costs.len() as int),
        forall|i: int|
            0 <= i < first_fit(costs, start, ceiling).len() ==> allowed(
                costs,
                #[trigger] first_fit(costs, start, ceiling)[i],
                ceiling,
            ),
    decreases costs.len() - start,
{
    if start < costs.len() {
        reach_bounds(costs, start, start, ceiling);
        reach_is_allowed(costs, start, start, ceiling);
        let end = reach(costs, start, start, ceiling);
        let rest = first_fit(costs, end, ceiling);
        first_fit_tiles(costs, end, ceiling);
        let whole = first_fit(costs, start, ceiling);
        assert(whole == seq![Range { start: start as usize, end: end as usize }] + rest);
        assert forall|i: int| 0 <= i < whole.len() implies allowed(costs, #[trigger] whole[i], ceiling)
            && whole[i].start < whole[i].end by {
            if i > 0 {
                assert(whole[i] == rest[i - 1]);
            }
        }
        assert forall|i: int, j: int|
            0 <= i && j == i + 1 && j < whole.len() implies (#[trigger] whole[i]).end == (
        #[trigger] whole[j]).start by {
            assert(whole[j] == rest[j - 1]);
            if i > 0 {
                assert(whole[i] == rest[i - 1]);
            }
        }
        if rest.len() > 0 {
            assert(whole.last() == rest.last());
        }
    }
}

/// Greedy runs stay ahead: from a slot at or past the one where some allowed
/// split begins, they close no more runs than that split has.
proof fn first_fit_stays_ahead(
    costs: Seq<u32>,
    start: int,
    ceiling: int,
    other: Seq<Range<usize>>,
    other_start: int,
)
    requires
        0 <= other_start <= start <= costs.len() <= usize::MAX,
        tiles(other, other_start, costs.len() as int),
        forall|i: int| 0 <= i < other.len() ==> allowed(costs, #[trigger] other[i], ceiling),
    ensures
        first_fit(costs, start, ceiling).len() <= other.len(),
    decreases other.len(),
{
    if start < costs.len() {
        assert(other.len() > 0);
        let first = other[0];
        let rest = other.drop_first();
        reach_bounds(costs, start, start, ceiling);
        let end = reach(costs, start, start, ceiling);
        assert(first.end <= costs.len()) by {
            tiles_within(other, other_start, costs.len() as int, 0);
        }
        if first.end > start && first.end != first.start + 1 {
            load_shrinks(costs, first.start as int, start, first.end as int);
            reach_passes(costs, start, start, first.end as int, ceiling);
        }
        assert(first.end <= end);
        tiles_rest(other, other_start, costs.len() as int);
        assert forall|i: int| 0 <= i < rest.len() implies allowed(costs, #[trigger] rest[i], ceiling) by {
            assert(rest[i] == other[i + 1]);
        }
        first_fit_stays_ahead(costs, end, ceiling, rest, first.end as int);
    }
}

proof fn tiles_rest(runs: Seq<Range<usize>>, start: int, len: int)
    requires
        tiles(runs, start, len),
        runs.len() > 0,
    ensures
        tiles(runs.drop_first(), runs[0].end as int, len),
{
    let rest = runs.drop_first();
    assert forall|i: int| 0 <= i < rest.len() implies (#[trigger] rest[i]).start < rest[i].end by {
        assert(rest[i] == runs[i + 1]);
    }
    assert forall|i: int, j: int|
        0 <= i && j == i + 1 && j < rest.len() implies (#[trigger] rest[i]).end == (
    #[trigger] rest[j]).start by {
        assert(rest[i] == runs[i + 1]);
        assert(rest[j] == runs[j + 1]);
    }
    if rest.len() > 0 {
        assert(rest[0] == runs[1]);
        assert(rest.last() == runs.last());
    }
}

/// Every run of a tiling lies inside what it tiles.
proof fn tiles_within(runs: Seq<Range<usize>>, start: int, len: int, i: int)
    requires
        tiles(runs, start, len),
        0 <= i < runs.len(),
    ensures
        start <= runs[i].start < runs[i].end <= len,
    decreases runs.len(),
{
    tiles_rest(runs, start, len);
    let rest = runs.drop_first();
    if i > 0 {
        tiles_within(rest, runs[0].end as int, len, i - 1);
        assert(rest[i - 1] == runs[i]);
    } else if rest.len() > 0 {
        tiles_within(rest, runs[0].end as int, len, 0);
        assert(rest[0] == runs[1]);
    }
}

/// Every slot of a tiling lies in one of its runs.
proof fn tiles_cover(runs: Seq<Range<usize>>, start: int, len: int, slot: int) -> (i: int)
    requires
        tiles(runs, start, len),
        start <= slot < len,
    ensures
        0 <= i < runs.len(),
        runs[i].start <= slot < runs[i].end,
    decreases runs.len(),
{
    if slot < runs[0].end {
        0
    } else {
        tiles_rest(runs, start, len);
        let i = tiles_cover(runs.drop_first(), runs[0].end as int, len, slot);
        assert(runs.drop_first()[i] == runs[i + 1]);
        i + 1
    }
}

/// No run outweighs the heaviest one.
proof fn heaviest_bounds(costs: Seq<u32>, runs: Seq<Range<usize>>, i: int)
    requires
        0 <= i < runs.len(),
    ensures
        load(costs, runs[i].start as int, runs[i].end as int) <= heaviest(costs, runs),
    decreases runs.len(),
{
    if i < runs.len() - 1 {
        heaviest_bounds(costs, runs.drop_last(), i);
        assert(runs.drop_last()[i] == runs[i]);
    }
}

/// The heaviest run is no heavier than a bound on all of them.
proof fn heaviest_bounded(costs: Seq<u32>, runs: Seq<Range<usize>>, ceiling: int)
    requires
        0 <= ceiling,
        forall|i: int|
            0 <= i < runs.len() ==> load(
                costs,
                (#[trigger] runs[i]).start as int,
                runs[i].end as int,
            ) <= ceiling,
    ensures
        heaviest(costs, runs) <= ceiling,
    decreases runs.len(),
{
    if runs.len() > 0 {
        let rest = runs.drop_last();
        assert forall|i: int| 0 <= i < rest.len() implies load(
            costs,
            (#[trigger] rest[i]).start as int,
            rest[i].end as int,
        ) <= ceiling by {
            assert(rest[i] == runs[i]);
        }
        heaviest_bounded(costs, rest, ceiling);
    }
}

/// The heaviest run of a tiling weighs at least as much as any slot.
proof fn heaviest_holds_slot(costs: Seq<u32>, runs: Seq<Range<usize>>, slot: int)
    requires
        tiles(runs, 0, costs.len() as int),
        0 <= slot < costs.len(),
    ensures
        weight(costs[slot]) <= heaviest(costs, runs),
{
    let i = tiles_cover(runs, 0, costs.len() as int, slot);
    heaviest_bounds(costs, runs, i);
    let run = runs[i];
    load_shrinks(costs, run.start as int, slot, slot + 1);
    load_grows(costs, run.start as int, slot + 1, run.end as int);
    assert(load(costs, slot, slot + 1) == load(costs, slot, slot) + weight(costs[slot]));
}

/// **Optimality at a ceiling.** Filling runs from the front closes no more of
/// them than any other split whose runs the ceiling allows.
pub proof fn first_fit_is_optimal(costs: Seq<u32>, ceiling: int, other: Seq<Range<usize>>)
    requires
        costs.len() <= usize::MAX,
        tiles(other, 0, costs.len() as int),
        forall|i: int| 0 <= i < other.len() ==> allowed(costs, #[trigger] other[i], ceiling),
    ensures
        first_fit(costs, 0, ceiling).len() <= other.len(),
{
    first_fit_stays_ahead(costs, 0, ceiling, other, 0);
}

/// **Monotonicity.** A higher ceiling never needs more runs, which is what lets
/// [`partition`] search for the lowest one by halving.
pub proof fn first_fit_is_monotonic(costs: Seq<u32>, low: int, high: int)
    requires
        costs.len() <= usize::MAX,
        low <= high,
    ensures
        first_fit(costs, 0, high).len() <= first_fit(costs, 0, low).len(),
{
    first_fit_tiles(costs, 0, low);
    let other = first_fit(costs, 0, low);
    assert forall|i: int| 0 <= i < other.len() implies allowed(costs, #[trigger] other[i], high) by {
        assert(allowed(costs, other[i], low));
    }
    first_fit_is_optimal(costs, high, other);
}

/// **Coverage.** A tiling records every slot in exactly one run.
pub proof fn tiling_records_each_slot_once(runs: Seq<Range<usize>>, len: int, slot: int)
    requires
        tiles(runs, 0, len),
        0 <= slot < len,
    ensures
        exists|i: int| 0 <= i < runs.len() && (#[trigger] runs[i]).start <= slot < runs[i].end,
        forall|i: int, j: int|
            0 <= i < runs.len() && 0 <= j < runs.len() && (#[trigger] runs[i]).start <= slot
                < runs[i].end && (#[trigger] runs[j]).start <= slot < runs[j].end ==> i == j,
{
    let found = tiles_cover(runs, 0, len, slot);
    assert forall|i: int, j: int|
        0 <= i < runs.len() && 0 <= j < runs.len() && (#[trigger] runs[i]).start <= slot
            < runs[i].end && (#[trigger] runs[j]).start <= slot < runs[j].end implies i == j by {
        if i < j {
            tiles_ordered(runs, 0, len, i, j);
        } else if j < i {
            tiles_ordered(runs, 0, len, j, i);
        }
    }
}

proof fn tiles_ordered(runs: Seq<Range<usize>>, start: int, len: int, i: int, j: int)
    requires
        tiles(runs, start, len),
        0 <= i < j < runs.len(),
    ensures
        runs[i].end <= runs[j].start,
    decreases j - i,
{
    if j > i + 1 {
        tiles_ordered(runs, start, len, i, j - 1);
        assert(runs[j - 1].end == runs[j].start);
        assert(runs[j - 1].start < runs[j - 1].end);
    } else {
        assert(runs[i].end == runs[j].start);
    }
}

/// Divide `costs` into at most `groups` contiguous runs, minimising what the
/// heaviest run costs.
///
/// Contiguous because the runs are recorded into secondary command buffers the
/// primary executes in order, and the frame's order is the one the graph
/// compiled.
///
/// Minimising the heaviest run rather than equalising them: the wall clock is
/// the slowest worker, and a frame where one pass costs more than all the
/// others put together has no equal split to find.
pub fn partition(costs: &[u32], groups: usize) -> (split: Vec<Range<usize>>)
    requires
        groups > 1 ==> load(costs@, 0, costs@.len() as int) <= u32::MAX,
    ensures
        tiles(split@, 0, costs@.len() as int),
        split@.len() <= (if groups <= 1 { 1 } else { groups as int }),
        forall|other: Seq<Range<usize>>|
            #![trigger heaviest(costs@, other)]
            tiles(other, 0, costs@.len() as int) && other.len() <= (if groups <= 1 {
                1
            } else {
                groups as int
            }) ==> heaviest(costs@, split@) <= heaviest(costs@, other),
        split@ == first_fit(costs@, 0, heaviest(costs@, split@) as int),
{
    let ghost len = costs@.len() as int;
    if costs.len() == 0 {
        return Vec::new();
    }
    if groups <= 1 {
        let mut whole: Vec<Range<usize>> = Vec::new();
        whole.push(0..costs.len());
        proof {
            let total = load(costs@, 0, len);
            assert(whole@.drop_last() =~= Seq::<Range<usize>>::empty());
            assert(heaviest(costs@, whole@.drop_last()) == 0);
            assert(heaviest(costs@, whole@) == total);
            reach_passes(costs@, 0, 0, len, total as int);
            reach_bounds(costs@, 0, 0, total as int);
            assert(first_fit(costs@, len, total as int) =~= Seq::<Range<usize>>::empty());
            assert(first_fit(costs@, 0, total as int) =~= whole@);
            assert forall|other: Seq<Range<usize>>|
                #![trigger heaviest(costs@, other)]
                tiles(other, 0, len) && other.len() <= 1 implies heaviest(costs@, whole@)
                <= heaviest(costs@, other) by {
                heaviest_bounds(costs@, other, 0);
            }
        }
        return whole;
    }
    // Binary search the answer rather than solving the split directly: `runs`
    // is monotonic in the ceiling, so the smallest ceiling that still fits in
    // `groups` runs is the one the optimal split has.
    let mut low: u32 = FLOOR;
    let mut high: u32 = 0;
    let mut slot: usize = 0;
    while slot < costs.len()
        invariant
            slot <= costs@.len(),
            high == load(costs@, 0, slot as int),
            load(costs@, 0, costs@.len() as int) <= u32::MAX,
            low >= FLOOR,
            slot > 0 ==> low <= high,
            forall|i: int| 0 <= i < slot ==> weight(#[trigger] costs@[i]) <= low,
            low > FLOOR ==> exists|i: int| 0 <= i < slot && weight(#[trigger] costs@[i]) == low,
        decreases costs@.len() - slot,
    {
        let cost: u32 = if costs[slot] < FLOOR { FLOOR } else { costs[slot] };
        proof {
            load_grows(costs@, 0, slot as int + 1, costs@.len() as int);
        }
        assert(weight(costs@[slot as int]) == cost);
        if cost > low {
            low = cost;
        }
        high = high + cost;
        slot = slot + 1;
    }
    let ghost widest = low;
    proof {
        let whole: Seq<Range<usize>> = seq![Range { start: 0usize, end: costs@.len() as usize }];
        assert(tiles(whole, 0, len));
        first_fit_is_optimal(costs@, high as int, whole);
    }
    while low < high
        invariant
            0 < widest <= low <= high,
            groups > 1,
            costs@.len() <= usize::MAX,
            first_fit(costs@, 0, high as int).len() <= groups,
            forall|c: int|
                widest <= c < low ==> #[trigger] first_fit(costs@, 0, c).len() > groups,
            costs@.len() > 0,
        decreases high - low,
    {
        let ceiling: u32 = low + (high - low) / 2;
        let count: usize = runs(costs, ceiling).len();
        if count <= groups {
            high = ceiling;
        } else {
            proof {
                assert forall|c: int| widest <= c < ceiling + 1 implies #[trigger] first_fit(
                    costs@,
                    0,
                    c,
                ).len() > groups by {
                    first_fit_is_monotonic(costs@, c, ceiling as int);
                }
            }
            low = ceiling + 1;
        }
    }
    let split = runs(costs, low);
    proof {
        first_fit_tiles(costs@, 0, low as int);
        let best = low as int;
        assert forall|i: int| 0 <= i < split@.len() implies load(
            costs@,
            (#[trigger] split@[i]).start as int,
            split@[i].end as int,
        ) <= best by {
            assert(allowed(costs@, split@[i], best));
            let run = split@[i];
            tiles_within(split@, 0, len, i);
            if run.end == run.start + 1 {
                assert(load(costs@, run.start as int, run.start as int) == 0);
                assert(load(costs@, run.start as int, run.end as int) == weight(
                    costs@[run.start as int],
                ));
            }
        }
        heaviest_bounded(costs@, split@, best);
        assert forall|other: Seq<Range<usize>>|
            #![trigger heaviest(costs@, other)]
            tiles(other, 0, len) && other.len() <= groups implies best <= heaviest(costs@, other) by {
            let peak = heaviest(costs@, other) as int;
            assert(peak >= widest) by {
                if widest > FLOOR {
                    let i = choose|i: int|
                        0 <= i < costs@.len() && weight(#[trigger] costs@[i]) == widest;
                    heaviest_holds_slot(costs@, other, i);
                } else {
                    heaviest_holds_slot(costs@, other, 0);
                }
            }
            assert forall|i: int| 0 <= i < other.len() implies allowed(
                costs@,
                #[trigger] other[i],
                peak,
            ) by {
                heaviest_bounds(costs@, other, i);
            }
            first_fit_is_optimal(costs@, peak, other);
        }
        assert(heaviest(costs@, split@) == best);
    }
    split
}

/// Fill runs from the front, closing one whenever the next slot would take it
/// past `ceiling`. Optimal for a given ceiling: a run that stopped earlier only
/// moves its own work into the next one.
pub fn runs(costs: &[u32], ceiling: u32) -> (runs: Vec<Range<usize>>)
    ensures
        costs@.len() > 0 ==> runs@ == first_fit(costs@, 0, ceiling as int),
        costs@.len() == 0 ==> runs@ == seq![Range { start: 0usize, end: 0usize }],
{
    let mut runs: Vec<Range<usize>> = Vec::new();
    let mut start: usize = 0;
    let mut total: u32 = 0;
    let len: usize = costs.len();
    let mut slot: usize = 0;
    while slot < len
        invariant
            len == costs@.len(),
            start <= slot <= len,
            costs@.len() > 0 ==> start < costs@.len(),
            slot == start ==> slot == 0,
            total == load(costs@, start as int, slot as int),
            reach(costs@, start as int, start as int, ceiling as int) == reach(
                costs@,
                start as int,
                slot as int,
                ceiling as int,
            ),
            costs@.len() > 0 ==> runs@ + first_fit(costs@, start as int, ceiling as int)
                == first_fit(costs@, 0, ceiling as int),
            costs@.len() == 0 ==> runs@.len() == 0,
        decreases costs@.len() - slot,
    {
        let cost: u32 = if costs[slot] < FLOOR { FLOOR } else { costs[slot] };
        assert(weight(costs@[slot as int]) == cost);
        if slot > start && (total > ceiling || cost > ceiling - total) {
            proof {
                let tail = first_fit(costs@, slot as int, ceiling as int);
                assert(first_fit(costs@, start as int, ceiling as int) == seq![
                    Range { start, end: slot },
                ] + tail);
                assert(runs@.push(Range { start, end: slot }) + tail =~= runs@ + (seq![
                    Range { start, end: slot },
                ] + tail));
            }
            runs.push(start..slot);
            start = slot;
            total = 0;
            assert(load(costs@, start as int, slot as int) == 0);
        }
        total = total + cost;
        slot = slot + 1;
        assert(reach(costs@, start as int, slot - 1, ceiling as int) == reach(
            costs@,
            start as int,
            slot as int,
            ceiling as int,
        ));
    }
    proof {
        if costs@.len() > 0 {
            let last = Range { start, end: costs@.len() as usize };
            assert(first_fit(costs@, costs@.len() as int, ceiling as int) =~= Seq::<
                Range<usize>,
            >::empty());
            assert(first_fit(costs@, start as int, ceiling as int) =~= seq![last]);
        }
    }
    runs.push(start..len);
    runs
}

/// **A run weighs what its slots cost.** A slot on its own weighs its cost, or one where
/// it costs nothing; two runs that meet weigh what they weigh together.
pub proof fn loads_add_up(costs: Seq<u32>, start: int, middle: int, end: int)
    requires
        0 <= start <= middle <= end <= costs.len(),
    ensures
        load(costs, start, middle) + load(costs, middle, end) == load(costs, start, end),
        load(costs, start, start) == 0,
        start < costs.len() ==> load(costs, start, start + 1) == (if costs[start] == 0 {
            1
        } else {
            costs[start] as int
        }),
        load(costs, start, end) >= end - start,
    decreases end - middle,
{
    load_is_spread(costs, start, end);
    if start < costs.len() {
        assert(load(costs, start, start + 1) == load(costs, start, start) + weight(costs[start]));
    }
    if middle < end {
        loads_add_up(costs, start, middle, end - 1);
    }
}

proof fn load_is_spread(costs: Seq<u32>, start: int, end: int)
    ensures
        load(costs, start, end) >= end - start,
    decreases end - start,
{
    if start < end {
        load_is_spread(costs, start, end - 1);
    }
}

/// **The heaviest run is one of them, and none outweighs it.**
pub proof fn the_heaviest_is_one_of_them(costs: Seq<u32>, runs: Seq<Range<usize>>, i: int) -> (most:
    int)
    requires
        0 <= i < runs.len(),
    ensures
        load(costs, runs[i].start as int, runs[i].end as int) <= heaviest(costs, runs),
        0 <= most < runs.len(),
        load(costs, runs[most].start as int, runs[most].end as int) == heaviest(costs, runs),
    decreases runs.len(),
{
    heaviest_bounds(costs, runs, i);
    let end = runs.len() - 1;
    let rest = runs.drop_last();
    if end > 0 && heaviest(costs, rest) >= load(
        costs,
        runs[end].start as int,
        runs[end].end as int,
    ) {
        let most = the_heaviest_is_one_of_them(costs, rest, 0);
        assert(rest[most] == runs[most]);
        most
    } else {
        end
    }
}

/// **A run is closed only when the next slot would take it past the ceiling.** The runs
/// stand end to end over the whole frame; each is light enough or a slot on its own;
/// and one that another follows could not have taken another slot.
pub proof fn runs_close_when_they_are_full(costs: Seq<u32>, ceiling: int, i: int)
    requires
        costs.len() <= usize::MAX,
        0 <= i < first_fit(costs, 0, ceiling).len(),
    ensures
        ({
            let runs = first_fit(costs, 0, ceiling);
            let run = runs[i];
            &&& tiles(runs, 0, costs.len() as int)
            &&& load(costs, run.start as int, run.end as int) <= ceiling || run.end == run.start + 1
            &&& i + 1 < runs.len() ==> load(costs, run.start as int, run.end + 1) > ceiling
        }),
{
    first_fit_tiles(costs, 0, ceiling);
    assert(allowed(costs, first_fit(costs, 0, ceiling)[i], ceiling));
    if i + 1 < first_fit(costs, 0, ceiling).len() {
        closed_when_full(costs, 0, ceiling, i);
    }
}

proof fn closed_when_full(costs: Seq<u32>, start: int, ceiling: int, i: int)
    requires
        0 <= start <= costs.len() <= usize::MAX,
        0 <= i,
        i + 1 < first_fit(costs, start, ceiling).len(),
    ensures
        ({
            let run = first_fit(costs, start, ceiling)[i];
            load(costs, run.start as int, run.end + 1) > ceiling
        }),
    decreases costs.len() - start,
{
    reach_bounds(costs, start, start, ceiling);
    let end = reach(costs, start, start, ceiling);
    let rest = first_fit(costs, end, ceiling);
    let whole = first_fit(costs, start, ceiling);
    assert(whole == seq![Range { start: start as usize, end: end as usize }] + rest);
    if i > 0 {
        closed_when_full(costs, end, ceiling, i - 1);
        assert(whole[i] == rest[i - 1]);
    } else {
        assert(end < costs.len());
        reach_is_full(costs, start, start, ceiling);
        assert(load(costs, start, end + 1) == load(costs, start, end) + weight(costs[end]));
    }
}

proof fn reach_is_full(costs: Seq<u32>, start: int, end: int, ceiling: int)
    requires
        0 <= start <= end <= costs.len(),
        reach(costs, start, end, ceiling) < costs.len(),
    ensures
        ({
            let reached = reach(costs, start, end, ceiling);
            load(costs, start, reached) + weight(costs[reached]) > ceiling
        }),
    decreases costs.len() - end,
{
    if end < costs.len() && !(end > start && load(costs, start, end) + weight(costs[end])
        > ceiling) {
        reach_is_full(costs, start, end + 1, ceiling);
    }
}

} // verus!
