use ferron::parallel::{partition, runs};
use std::ops::Range;

/// Every slot recorded exactly once, in order. A partition that drops or
/// reorders one drops or reorders a pass.
#[test]
fn partition_covers_every_slot_in_order() {
    for len in 0..12usize {
        for groups in 1..6usize {
            let costs: Vec<u32> = (0..len).map(|slot| (slot as u32 * 7) % 5).collect();
            let runs = partition(&costs, groups);
            assert!(runs.len() <= groups, "len {len}, groups {groups}");
            assert!(runs.iter().all(|run| run.start < run.end));
            let mut next = 0;
            for run in &runs {
                assert_eq!(run.start, next, "len {len}, groups {groups}");
                next = run.end;
            }
            assert_eq!(next, len, "len {len}, groups {groups}");
        }
    }
}

/// One pass costs more than all the others put together, so the best split
/// isolates it and the critical path is that pass alone.
#[test]
fn partition_isolates_the_expensive_pass() {
    let costs = [1, 1, 1, 40, 1, 1, 1, 1];
    let runs = partition(&costs, 3);
    assert_eq!(heaviest(&costs, &runs), 40);
    assert!(runs.contains(&(3..4)), "{runs:?}");
}

/// The property the search claims, checked against every contiguous split of a
/// small frame.
#[test]
fn partition_minimises_the_heaviest_run() {
    let cases: [&[u32]; 4] = [
        &[3, 1, 4, 1, 5, 9, 2, 6],
        &[10, 1, 1, 1],
        &[1, 1, 1, 10],
        &[7, 7, 7, 7, 7],
    ];
    for costs in cases {
        for groups in 1..5usize {
            let runs = partition(costs, groups);
            assert_eq!(
                heaviest(costs, &runs),
                brute_force(costs, groups),
                "costs {costs:?}, groups {groups}",
            );
        }
    }
}

/// One worker records the frame as it always did: one run over everything.
#[test]
fn partition_of_one_group_is_the_whole_frame() {
    assert_eq!(partition(&[4, 2, 9], 1), vec![0..3]);
    assert_eq!(partition(&[], 4), Vec::<Range<usize>>::new());
}

/// A pass that records nothing still occupies a slot, so a frame of them spreads
/// rather than collapsing onto one worker.
#[test]
fn partition_spreads_passes_that_cost_nothing() {
    assert_eq!(partition(&[0, 0, 0, 0], 2).len(), 2);
}

#[test]
fn no_groups_is_one_group() {
    assert_eq!(partition(&[4, 2, 9], 0), vec![0..3]);
}

#[test]
fn a_split_is_exact() {
    assert_eq!(partition(&[3, 1, 4, 1, 5, 9, 2, 6], 3), vec![0..5, 5..7, 7..8]);
    assert_eq!(partition(&[10, 1, 1, 1], 2), vec![0..1, 1..4]);
}

#[test]
fn runs_close_under_the_ceiling() {
    assert_eq!(runs(&[2, 2, 2, 2, 2], 4), vec![0..2, 2..4, 4..5]);
    // A pass above the ceiling gets a run of its own.
    assert_eq!(runs(&[1, 9, 1], 4), vec![0..1, 1..2, 2..3]);
    assert_eq!(runs(&[], 4), vec![0..0]);
}

fn heaviest(costs: &[u32], runs: &[Range<usize>]) -> u32 {
    runs.iter()
        .map(|run| costs[run.clone()].iter().map(|cost| (*cost).max(1)).sum())
        .max()
        .unwrap_or(0)
}

/// The smallest heaviest run any contiguous split into at most `groups` parts can
/// achieve, by trying all of them.
fn brute_force(costs: &[u32], groups: usize) -> u32 {
    fn search(costs: &[u32], start: usize, groups: usize) -> u32 {
        if start == costs.len() {
            return 0;
        }
        if groups == 1 {
            return costs[start..].iter().map(|cost| (*cost).max(1)).sum();
        }
        (start + 1..=costs.len())
            .map(|end| {
                let head: u32 = costs[start..end].iter().map(|cost| (*cost).max(1)).sum();
                head.max(search(costs, end, groups - 1))
            })
            .min()
            .unwrap_or(0)
    }
    search(costs, 0, groups)
}
