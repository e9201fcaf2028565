//! Submitting a frame: which semaphores each command buffer waits on and
//! signals, and who presents the result.
//!
//! Semaphores are binary: a signal may be waited exactly once. They are named
//! here by number, each number used for one semaphore only.

use vstd::prelude::*;

verus! {

/// A queue the schedule plans against.
#[derive(Clone, Copy, Debug, PartialEq, Eq, Structural)]
pub enum Queue {
    Graphics,
    AsyncCompute,
}

/// Where in the pipeline a wait holds work back.
#[derive(Clone, Copy, Debug, PartialEq, Eq, Structural)]
pub enum Stage {
    /// Only the writes of colour attachments: everything before them runs.
    ColorAttachmentOutput,
    AllCommands,
}

#[derive(Clone, Copy, Debug, PartialEq, Eq, Structural)]
pub struct Wait {
    pub semaphore: u64,
    pub stage: Stage,
}

/// One command buffer handed to a queue.
#[derive(Debug)]
pub struct Submission {
    pub queue: Queue,
    pub waits: Vec<Wait>,
    pub signals: Vec<u64>,
}

/// A submission, as values.
#[verifier::ext_equal]
pub struct SubmissionView {
    pub queue: Queue,
    pub waits: Seq<Wait>,
    pub signals: Seq<u64>,
}

impl Submission {
    pub open spec fn view(&self) -> SubmissionView {
        SubmissionView { queue: self.queue, waits: self.waits@, signals: self.signals@ }
    }
}

/// What happens to a finished image.
#[derive(Clone, Copy, Debug, PartialEq, Eq, Structural)]
pub enum Finish {
    /// The overlay waits for it, draws over it and presents it.
    Overlay { ready: u64 },
    /// It is presented once the wait is over.
    Present { wait: u64 },
    /// Nobody presents it: the target is offscreen.
    Keep,
}

/// A frame's trailing graphics segment, held back a frame on purpose: submitted
/// in its own frame it would put a wait for the compute tail in front of the
/// next frame's head, which is the work the split exists to run early.
#[derive(Clone, Copy, Debug, PartialEq, Eq, Structural)]
pub struct PendingTail {
    /// Signalled by the compute segment this waits on.
    pub compute_done: u64,
    /// The acquire of the image the tonemap writes.
    pub acquire: Option<u64>,
    pub image_index: u32,
    /// Whether a raw pass draws over the result before it is presented.
    pub overlay: bool,
}

/// What a frame on one queue submits.
#[derive(Debug)]
pub struct UnsplitPlan {
    pub submission: Submission,
    pub image_index: u32,
    pub finish: Finish,
}

/// The previous frame's trailing segment, submitted at last.
#[derive(Debug)]
pub struct TailPlan {
    pub submission: Submission,
    pub image_index: u32,
    pub finish: Finish,
}

/// What a frame split over two queues submits, in this order: its head, the
/// previous frame's trailing segment, and its compute tail.
#[derive(Debug)]
pub struct SplitPlan {
    pub head: Submission,
    pub tail: Option<TailPlan>,
    pub compute: Submission,
}

/// The semaphores that have been signalled, or will be, and that nothing waits
/// for yet.
#[derive(Debug)]
pub struct Chain {
    /// Whether there is a presentation engine.
    pub windowed: bool,
    /// Signalled when the last unsplit frame finishes, and waited by the next.
    pub frame_chain: Option<u64>,
    /// Signalled by the trailing segment submitted last, waited by the head
    /// submitted next: that segment's frame last wrote the images that the next
    /// one will.
    pub head_gate: Option<u64>,
    pub pending: Option<PendingTail>,
    pub next_semaphore: u64,
}

/// The set of what an option holds.
pub open spec fn of(id: Option<u64>) -> Set<u64> {
    match id {
        Some(id) => set![id],
        None => Set::empty(),
    }
}

/// The waits of a submission, by semaphore.
pub open spec fn waited(submission: SubmissionView) -> Seq<u64> {
    submission.waits.map_values(|wait: Wait| wait.semaphore)
}

/// A submission respects the semaphores: it waits once each for ones that are
/// signalled, and signals ones that are not.
pub open spec fn legal(live: Set<u64>, submission: SubmissionView) -> bool {
    &&& waited(submission).no_duplicates()
    &&& submission.signals.no_duplicates()
    &&& forall|i: int|
        0 <= i < submission.waits.len() ==> live.contains((#[trigger] submission.waits[i]).semaphore)
    &&& forall|i: int|
        0 <= i < submission.signals.len() ==> !live.contains(#[trigger] submission.signals[i])
}

/// What is signalled and unwaited after a submission.
pub open spec fn after(live: Set<u64>, submission: SubmissionView) -> Set<u64> {
    live.difference(waited(submission).to_set()).union(submission.signals.to_set())
}

/// What a finished image waits for.
pub open spec fn finish_waits(finish: Finish) -> Option<u64> {
    match finish {
        Finish::Overlay { ready } => Some(ready),
        Finish::Present { wait } => Some(wait),
        Finish::Keep => None,
    }
}

/// How many semaphores hand a finished image on: one, unless nobody takes it.
pub open spec fn handover(windowed: bool, overlay: bool) -> int {
    if windowed || overlay {
        1
    } else {
        0
    }
}

pub open spec fn finish_spec(windowed: bool, overlay: bool, id: u64) -> Finish {
    if overlay {
        Finish::Overlay { ready: id }
    } else if windowed {
        Finish::Present { wait: id }
    } else {
        Finish::Keep
    }
}

pub open spec fn wait_at(id: Option<u64>, stage: Stage) -> Seq<Wait> {
    match id {
        Some(semaphore) => seq![Wait { semaphore, stage }],
        None => Seq::empty(),
    }
}

/// The semaphore that hands a finished image on, where there is one.
pub open spec fn handover_signal(windowed: bool, overlay: bool, id: u64) -> Seq<u64> {
    if handover(windowed, overlay) == 1 {
        seq![id]
    } else {
        Seq::empty()
    }
}

/// The waits of a trailing segment: its compute work, and its image.
pub open spec fn tail_waits(pending: PendingTail) -> Seq<Wait> {
    seq![Wait { semaphore: pending.compute_done, stage: Stage::AllCommands }] + wait_at(
        pending.acquire,
        Stage::ColorAttachmentOutput,
    )
}

/// What [`Chain::submit_unsplit`] does: the frame waits for its image and for the
/// frame before it, and signals whoever takes the image and the frame after it.
pub open spec fn unsplit_step(
    before: Chain,
    after: Chain,
    plan: UnsplitPlan,
    acquire: Option<u64>,
    image_index: u32,
    overlay: bool,
) -> bool {
    let first = before.next_semaphore;
    let chain = (first + handover(before.windowed, overlay)) as u64;
    &&& plan.image_index == image_index
    &&& plan.finish == finish_spec(before.windowed, overlay, first)
    &&& plan.submission@ == (SubmissionView {
        queue: Queue::Graphics,
        waits: wait_at(acquire, Stage::ColorAttachmentOutput) + wait_at(
            before.frame_chain,
            Stage::AllCommands,
        ),
        signals: handover_signal(before.windowed, overlay, first).push(chain),
    })
    &&& after == (Chain {
        frame_chain: Some(chain),
        next_semaphore: (chain + 1) as u64,
        ..before
    })
}

/// What [`Chain::submit_split`] does: the head waits for the images it writes;
/// the previous frame's trailing segment, where there is one, waits for its
/// compute work and its image; and the compute tail waits for both.
pub open spec fn split_step(
    before: Chain,
    after: Chain,
    plan: SplitPlan,
    acquire: Option<u64>,
    image_index: u32,
    overlay: bool,
) -> bool {
    let head_done = before.next_semaphore;
    &&& plan.head@ == (SubmissionView {
        queue: Queue::Graphics,
        waits: wait_at(before.head_gate, Stage::AllCommands),
        signals: seq![head_done],
    })
    &&& match before.pending {
        Some(pending) => {
            let first = (head_done + 1) as u64;
            let done = (first + handover(before.windowed, pending.overlay)) as u64;
            let gate = (done + 1) as u64;
            let compute_done = (gate + 1) as u64;
            &&& plan.tail is Some
            &&& plan.tail->0.submission@ == (SubmissionView {
                queue: Queue::Graphics,
                waits: tail_waits(pending),
                signals: handover_signal(before.windowed, pending.overlay, first) + seq![
                    done,
                    gate,
                ],
            })
            &&& plan.tail->0.image_index == pending.image_index
            &&& plan.tail->0.finish == finish_spec(before.windowed, pending.overlay, first)
            &&& plan.compute@ == (SubmissionView {
                queue: Queue::AsyncCompute,
                waits: seq![
                    Wait { semaphore: head_done, stage: Stage::AllCommands },
                    Wait { semaphore: done, stage: Stage::AllCommands },
                ],
                signals: seq![compute_done],
            })
            &&& after == (Chain {
                head_gate: Some(gate),
                pending: Some(PendingTail { compute_done, acquire, image_index, overlay }),
                next_semaphore: (compute_done + 1) as u64,
                ..before
            })
        },
        None => {
            let compute_done = (head_done + 1) as u64;
            &&& plan.tail is None
            &&& plan.compute@ == (SubmissionView {
                queue: Queue::AsyncCompute,
                waits: seq![Wait { semaphore: head_done, stage: Stage::AllCommands }],
                signals: seq![compute_done],
            })
            &&& after == (Chain {
                head_gate: None,
                pending: Some(PendingTail { compute_done, acquire, image_index, overlay }),
                next_semaphore: (compute_done + 1) as u64,
                ..before
            })
        },
    }
}

/// What [`Chain::flush_pending_tail`] does: the held-back segment, where there is
/// one, waits for its compute work and its image and signals nothing.
pub open spec fn flush_step(before: Chain, after: Chain, submission: Option<Submission>) -> bool {
    &&& after == (Chain { pending: None, ..before })
    &&& submission is Some ==> submission->0@ == (SubmissionView {
        queue: Queue::Graphics,
        waits: tail_waits(before.pending->0),
        signals: Seq::empty(),
    })
}

impl Chain {
    /// Everything signalled that nothing waits for yet.
    pub open spec fn live(&self) -> Set<u64> {
        of(self.frame_chain).union(of(self.head_gate)).union(
            match self.pending {
                Some(pending) => set![pending.compute_done].union(of(pending.acquire)),
                None => Set::empty(),
            },
        )
    }

    /// The remembered semaphores are different ones, and none is newer than the
    /// counter.
    pub open spec fn wf(&self) -> bool {
        &&& forall|id: u64| #[trigger] self.live().contains(id) ==> id < self.next_semaphore
        &&& of(self.frame_chain).disjoint(of(self.head_gate))
        &&& self.pending matches Some(pending) ==> {
            &&& !of(self.frame_chain).contains(pending.compute_done)
            &&& !of(self.head_gate).contains(pending.compute_done)
            &&& of(pending.acquire).disjoint(of(self.frame_chain))
            &&& of(pending.acquire).disjoint(of(self.head_gate))
            &&& !of(pending.acquire).contains(pending.compute_done)
        }
    }

    /// An acquire that can be handed in: a semaphore made by
    /// [`fresh`](Self::fresh) and not yet used.
    pub open spec fn unused(&self, acquire: Option<u64>) -> bool {
        acquire is Some ==> acquire->0 < self.next_semaphore && !self.live().contains(acquire->0)
    }

    pub fn new(windowed: bool) -> (chain: Self)
        ensures
            chain.wf(),
            chain.live() == Set::<u64>::empty(),
            chain.windowed == windowed,
            chain.frame_chain is None,
            chain.head_gate is None,
            chain.pending is None,
            chain.next_semaphore == 0,
    {
        let chain = Chain {
            windowed,
            frame_chain: None,
            head_gate: None,
            pending: None,
            next_semaphore: 0,
        };
        assert(chain.live() =~= Set::<u64>::empty());
        chain
    }

    /// A semaphore that was never used.
    pub fn fresh(&mut self) -> (semaphore: u64)
        requires
            old(self).wf(),
            old(self).next_semaphore < u64::MAX,
        ensures
            final(self).wf(),
            semaphore == old(self).next_semaphore,
            final(self).next_semaphore == old(self).next_semaphore + 1,
            final(self).windowed == old(self).windowed,
            final(self).frame_chain == old(self).frame_chain,
            final(self).head_gate == old(self).head_gate,
            final(self).pending == old(self).pending,
            final(self).live() == old(self).live(),
            final(self).unused(Some(semaphore)),
    {
        let semaphore: u64 = self.next_semaphore;
        assert(!self.live().contains(semaphore));
        self.next_semaphore = semaphore + 1;
        semaphore
    }

    /// Submit a frame on one queue, presented before the call returns.
    ///
    /// One signal per waiter: the present and the next frame cannot share one.
    /// With an overlay the present is the overlay's to make, so the frame
    /// signals a semaphore for it to wait on instead. The acquired image is
    /// waited for at its colour writes only, so that everything before the
    /// tonemap runs while the presentation engine still owns it.
    pub fn submit_unsplit(&mut self, acquire: Option<u64>, image_index: u32, overlay: bool) -> (plan:
        UnsplitPlan)
        requires
            old(self).wf(),
            old(self).unused(acquire),
            old(self).next_semaphore <= u64::MAX - 2,
        ensures
            final(self).wf(),
            unsplit_step(*old(self), *final(self), plan, acquire, image_index, overlay),
    {
        let ghost before = *self;
        let mut signals: Vec<u64> = Vec::new();
        let mut waits: Vec<Wait> = Vec::new();
        let finish = if overlay {
            let ready: u64 = self.fresh();
            signals.push(ready);
            Finish::Overlay { ready }
        } else if self.windowed {
            let wait: u64 = self.fresh();
            signals.push(wait);
            Finish::Present { wait }
        } else {
            Finish::Keep
        };
        let chain: u64 = self.fresh();
        signals.push(chain);
        if let Some(semaphore) = acquire {
            waits.push(Wait { semaphore, stage: Stage::ColorAttachmentOutput });
        }
        if let Some(semaphore) = self.frame_chain {
            waits.push(Wait { semaphore, stage: Stage::AllCommands });
        }
        self.frame_chain = Some(chain);
        proof {
            assert(waits@ =~= wait_at(acquire, Stage::ColorAttachmentOutput) + wait_at(
                before.frame_chain,
                Stage::AllCommands,
            ));
            assert(signals@ =~= handover_signal(
                before.windowed,
                overlay,
                before.next_semaphore,
            ).push(chain));
            assert forall|id: u64| #[trigger] self.live().contains(id) implies id
                < self.next_semaphore by {
                if id != chain {
                    assert(before.live().contains(id));
                }
            }
            assert(!before.live().contains(chain));
            if let Some(gate) = before.head_gate {
                assert(before.live().contains(gate));
            }
            if let Some(pending) = before.pending {
                assert(before.live().contains(pending.compute_done));
                if let Some(acquire) = pending.acquire {
                    assert(before.live().contains(acquire));
                }
            }
        }
        UnsplitPlan {
            submission: Submission { queue: Queue::Graphics, waits, signals },
            image_index,
            finish,
        }
    }

    /// Submit a frame split over two queues.
    ///
    /// The head first, so that it is ahead of the previous frame's trailing
    /// segment on the graphics queue and does not inherit its wait; that segment
    /// second; and this frame's compute tail last, free to run beside whatever
    /// the graphics queue does next. This frame's own trailing segment is held
    /// back for the next call.
    pub fn submit_split(&mut self, acquire: Option<u64>, image_index: u32, overlay: bool) -> (plan:
        SplitPlan)
        requires
            old(self).wf(),
            old(self).unused(acquire),
            old(self).next_semaphore <= u64::MAX - 5,
        ensures
            final(self).wf(),
            split_step(*old(self), *final(self), plan, acquire, image_index, overlay),
    {
        let ghost before = *self;
        let head_done: u64 = self.fresh();
        let mut head_waits: Vec<Wait> = Vec::new();
        if let Some(semaphore) = self.head_gate {
            head_waits.push(Wait { semaphore, stage: Stage::AllCommands });
        }
        let mut head_signals: Vec<u64> = Vec::new();
        head_signals.push(head_done);
        let mut compute_waits: Vec<Wait> = Vec::new();
        compute_waits.push(Wait { semaphore: head_done, stage: Stage::AllCommands });
        let mut gate: Option<u64> = None;
        let tail = match self.pending {
            Some(pending) => {
                let mut signals: Vec<u64> = Vec::new();
                let finish = if pending.overlay {
                    let ready: u64 = self.fresh();
                    signals.push(ready);
                    Finish::Overlay { ready }
                } else if self.windowed {
                    let wait: u64 = self.fresh();
                    signals.push(wait);
                    Finish::Present { wait }
                } else {
                    Finish::Keep
                };
                // Two, not one: this segment has two waiters, this frame's
                // compute tail and the head of the frame after it.
                let done: u64 = self.fresh();
                let next_gate: u64 = self.fresh();
                signals.push(done);
                signals.push(next_gate);
                gate = Some(next_gate);
                compute_waits.push(Wait { semaphore: done, stage: Stage::AllCommands });
                let waits = Self::waits_of(pending);
                assert(signals@ =~= handover_signal(
                    before.windowed,
                    pending.overlay,
                    (head_done + 1) as u64,
                ) + seq![done, next_gate]);
                Some(
                    TailPlan {
                        submission: Submission { queue: Queue::Graphics, waits, signals },
                        image_index: pending.image_index,
                        finish,
                    },
                )
            },
            None => None,
        };
        let compute_done: u64 = self.fresh();
        let mut compute_signals: Vec<u64> = Vec::new();
        compute_signals.push(compute_done);
        self.head_gate = gate;
        self.pending = Some(PendingTail { compute_done, acquire, image_index, overlay });
        proof {
            assert(head_waits@ =~= wait_at(before.head_gate, Stage::AllCommands));
            assert(head_signals@ =~= seq![head_done]);
            assert(compute_signals@ =~= seq![compute_done]);
            match before.pending {
                Some(_) => {
                    assert(compute_waits@ =~= seq![
                        Wait { semaphore: head_done, stage: Stage::AllCommands },
                        Wait { semaphore: (gate->0 - 1) as u64, stage: Stage::AllCommands },
                    ]);
                },
                None => {
                    assert(compute_waits@ =~= seq![
                        Wait { semaphore: head_done, stage: Stage::AllCommands },
                    ]);
                },
            }
            if let Some(chain) = before.frame_chain {
                assert(before.live().contains(chain));
            }
            assert forall|id: u64| #[trigger] self.live().contains(id) implies id
                < self.next_semaphore by {}
        }
        SplitPlan {
            head: Submission { queue: Queue::Graphics, waits: head_waits, signals: head_signals },
            tail,
            compute: Submission {
                queue: Queue::AsyncCompute,
                waits: compute_waits,
                signals: compute_signals,
            },
        }
    }

    fn waits_of(pending: PendingTail) -> (waits: Vec<Wait>)
        ensures
            waits@ == tail_waits(pending),
    {
        let mut waits: Vec<Wait> = Vec::new();
        waits.push(Wait { semaphore: pending.compute_done, stage: Stage::AllCommands });
        if let Some(semaphore) = pending.acquire {
            waits.push(Wait { semaphore, stage: Stage::ColorAttachmentOutput });
        }
        assert(waits@ =~= tail_waits(pending));
        waits
    }

    /// Submit the trailing segment held back from the last frame, so that the
    /// GPU has the whole of it. Presents nothing: a caller that wanted the image
    /// on screen would have rendered another frame.
    pub fn flush_pending_tail(&mut self) -> (submission: Option<Submission>)
        requires
            old(self).wf(),
        ensures
            final(self).wf(),
            submission is Some <==> old(self).pending is Some,
            flush_step(*old(self), *final(self), submission),
    {
        let ghost before = *self;
        match self.pending {
            Some(pending) => {
                self.pending = None;
                proof {
                    assert forall|id: u64| #[trigger] self.live().contains(id) implies id
                        < self.next_semaphore by {
                        assert(before.live().contains(id));
                    }
                }
                let signals: Vec<u64> = Vec::new();
                assert(signals@ =~= Seq::<u64>::empty());
                Some(
                    Submission { queue: Queue::Graphics, waits: Self::waits_of(pending), signals },
                )
            },
            None => None,
        }
    }
}

/// How many sets of the graph's transient images the compiled frame needs: one,
/// unless it was split, when this frame's compute tail is still running as the
/// next frame's head records into the same declarations.
pub fn image_slots(segments: usize) -> (slots: usize)
    ensures
        slots == (if segments > 1 {
            crate::frame::FRAMES_IN_FLIGHT
        } else {
            1
        }),
{
    if segments > 1 {
        crate::frame::FRAMES_IN_FLIGHT
    } else {
        1
    }
}

/// The waits of two optional semaphores are different ones where the semaphores
/// are.
proof fn two_waits(first: Option<u64>, a: Stage, second: Option<u64>, b: Stage)
    requires
        of(first).disjoint(of(second)),
    ensures
        (wait_at(first, a) + wait_at(second, b)).map_values(|wait: Wait| wait.semaphore)
            .no_duplicates(),
        (wait_at(first, a) + wait_at(second, b)).map_values(|wait: Wait| wait.semaphore).to_set()
            == of(first).union(of(second)),
{
    let all = (wait_at(first, a) + wait_at(second, b)).map_values(|wait: Wait| wait.semaphore);
    if let Some(x) = first {
        assert(of(first).contains(x));
        assert(all[0] == x);
        if let Some(y) = second {
            assert(of(second).contains(y));
            assert(all[1] == y);
        }
    } else if let Some(y) = second {
        assert(all[0] == y);
    }
    assert forall|id: u64| of(first).union(of(second)).contains(id) implies #[trigger] all.contains(
        id,
    ) by {
        if first == Some(id) {
            assert(all[0] == id);
        } else {
            assert(all[all.len() - 1] == id);
        }
    }
    assert(all.to_set() =~= of(first).union(of(second)));
}

/// **Each signal has exactly one waiter, on one queue.** An unsplit frame waits
/// for semaphores that are signalled and signals ones that are not; and once its
/// image is handed on, what is left signalled is what the chain remembers.
pub proof fn unsplit_frame_balances(
    before: Chain,
    after_frame: Chain,
    plan: UnsplitPlan,
    acquire: Option<u64>,
    image_index: u32,
    overlay: bool,
)
    requires
        before.wf(),
        before.unused(acquire),
        before.next_semaphore <= u64::MAX - 2,
        unsplit_step(before, after_frame, plan, acquire, image_index, overlay),
    ensures
        ({
            let live = before.live().union(of(acquire));
            let submitted = after(live, plan.submission@);
            &&& legal(live, plan.submission@)
            &&& finish_waits(plan.finish) is Some ==> submitted.contains(
                finish_waits(plan.finish)->0,
            )
            &&& submitted.difference(of(finish_waits(plan.finish))) == after_frame.live()
        }),
{
    let live = before.live().union(of(acquire));
    let submission = plan.submission@;
    let first = before.next_semaphore;
    let chain = (first + handover(before.windowed, overlay)) as u64;
    assert(of(acquire).disjoint(of(before.frame_chain))) by {
        if let Some(id) = before.frame_chain {
            assert(before.live().contains(id));
        }
    }
    two_waits(acquire, Stage::ColorAttachmentOutput, before.frame_chain, Stage::AllCommands);
    assert(!live.contains(first) && !live.contains(chain)) by {
        assert(!before.live().contains(first));
        assert(!before.live().contains(chain));
    }
    assert forall|i: int| 0 <= i < submission.waits.len() implies live.contains(
        (#[trigger] submission.waits[i]).semaphore,
    ) by {
        assert(waited(submission)[i] == submission.waits[i].semaphore);
        assert(waited(submission).to_set().contains(submission.waits[i].semaphore));
    }
    let signals = submission.signals;
    assert(signals.to_set() =~= of(finish_waits(plan.finish)).insert(chain)) by {
        assert(signals[signals.len() - 1] == chain);
        if handover(before.windowed, overlay) == 1 {
            assert(signals[0] == first);
        }
        assert forall|id: u64| of(finish_waits(plan.finish)).insert(chain).contains(
            id,
        ) implies signals.contains(id) by {
            if id == chain {
                assert(signals[signals.len() - 1] == id);
            } else {
                assert(signals[0] == id);
            }
        }
    }
    let submitted = after(live, submission);
    assert(submitted.difference(of(finish_waits(plan.finish))) =~= after_frame.live()) by {
        assert forall|id: u64| #[trigger] after_frame.live().contains(id) implies submitted.contains(
            id,
        ) && !of(finish_waits(plan.finish)).contains(id) by {
            if id != chain {
                assert(before.live().contains(id));
            }
        }
    }
}

/// What is signalled and unwaited after a finished image was handed on.
pub open spec fn after_finish(live: Set<u64>, finish: Finish) -> Set<u64> {
    live.difference(of(finish_waits(finish)))
}

/// **Each signal has exactly one waiter, across two queues.** Submitted in the
/// plan's order, the head, the previous frame's trailing segment and the compute
/// tail wait only for semaphores that are signalled and signal only ones that are
/// not; and what is left signalled is what the chain remembers.
pub proof fn split_frame_balances(
    before: Chain,
    after_frame: Chain,
    plan: SplitPlan,
    acquire: Option<u64>,
    image_index: u32,
    overlay: bool,
)
    requires
        before.wf(),
        before.unused(acquire),
        before.next_semaphore <= u64::MAX - 5,
        split_step(before, after_frame, plan, acquire, image_index, overlay),
    ensures
        ({
            let live = before.live().union(of(acquire));
            let headed = after(live, plan.head@);
            let tailed = match plan.tail {
                Some(tail) => after_finish(after(headed, tail.submission@), tail.finish),
                None => headed,
            };
            &&& legal(live, plan.head@)
            &&& plan.tail matches Some(tail) ==> {
                &&& legal(headed, tail.submission@)
                &&& finish_waits(tail.finish) is Some ==> after(
                    headed,
                    tail.submission@,
                ).contains(finish_waits(tail.finish)->0)
            }
            &&& legal(tailed, plan.compute@)
            &&& after(tailed, plan.compute@) == after_frame.live()
        }),
{
    let live = before.live().union(of(acquire));
    let head_done = before.next_semaphore;
    assert(!before.live().contains(head_done));
    // The head.
    two_waits(before.head_gate, Stage::AllCommands, None, Stage::AllCommands);
    assert(wait_at(before.head_gate, Stage::AllCommands) + wait_at(None, Stage::AllCommands)
        =~= plan.head@.waits);
    assert(of(before.head_gate).union(of(None)) =~= of(before.head_gate));
    assert forall|i: int| 0 <= i < plan.head@.waits.len() implies live.contains(
        (#[trigger] plan.head@.waits[i]).semaphore,
    ) by {
        assert(of(before.head_gate).contains(plan.head@.waits[i].semaphore));
    }
    one_signal(head_done);
    let headed = after(live, plan.head@);
    assert(headed =~= live.difference(of(before.head_gate)).insert(head_done));
    match before.pending {
        Some(pending) => {
            let first = (head_done + 1) as u64;
            let done = (first + handover(before.windowed, pending.overlay)) as u64;
            let gate = (done + 1) as u64;
            let compute_done = (gate + 1) as u64;
            let tail = plan.tail->0;
            let submission = tail.submission@;
            assert(before.live().contains(pending.compute_done));
            if let Some(id) = pending.acquire {
                assert(before.live().contains(id));
            }
            assert forall|id: u64| head_done <= id implies !(#[trigger] before.live().contains(id)) by {}
            // The trailing segment.
            let compute_wait = Some(pending.compute_done);
            two_waits(
                compute_wait,
                Stage::AllCommands,
                pending.acquire,
                Stage::ColorAttachmentOutput,
            );
            assert(wait_at(compute_wait, Stage::AllCommands) + wait_at(
                pending.acquire,
                Stage::ColorAttachmentOutput,
            ) =~= submission.waits);
            assert forall|i: int| 0 <= i < submission.waits.len() implies headed.contains(
                (#[trigger] submission.waits[i]).semaphore,
            ) by {
                assert(waited(submission)[i] == submission.waits[i].semaphore);
                assert(waited(submission).to_set().contains(submission.waits[i].semaphore));
            }
            let signals = submission.signals;
            assert(signals.no_duplicates());
            assert(signals.to_set() =~= of(finish_waits(tail.finish)).insert(done).insert(gate)) by {
                assert(signals[signals.len() - 2] == done);
                assert(signals[signals.len() - 1] == gate);
                if handover(before.windowed, pending.overlay) == 1 {
                    assert(signals[0] == first);
                }
                assert forall|id: u64| of(finish_waits(tail.finish)).insert(done).insert(
                    gate,
                ).contains(id) implies signals.contains(id) by {
                    if id == gate {
                        assert(signals[signals.len() - 1] == id);
                    } else if id == done {
                        assert(signals[signals.len() - 2] == id);
                    } else {
                        assert(signals[0] == id);
                    }
                }
            }
            let tailed = after_finish(after(headed, submission), tail.finish);
            // The compute tail.
            two_waits(Some(head_done), Stage::AllCommands, Some(done), Stage::AllCommands);
            assert(wait_at(Some(head_done), Stage::AllCommands) + wait_at(
                Some(done),
                Stage::AllCommands,
            ) =~= plan.compute@.waits);
            one_signal(compute_done);
            assert forall|i: int| 0 <= i < plan.compute@.waits.len() implies tailed.contains(
                (#[trigger] plan.compute@.waits[i]).semaphore,
            ) by {}
            assert(after(tailed, plan.compute@) =~= after_frame.live()) by {
                assert forall|id: u64| #[trigger] after_frame.live().contains(
                    id,
                ) implies after(tailed, plan.compute@).contains(id) by {
                    if before.frame_chain == Some(id) {
                        assert(before.live().contains(id));
                    }
                }
                assert forall|id: u64| #[trigger] after(tailed, plan.compute@).contains(
                    id,
                ) implies after_frame.live().contains(id) by {}
            }
        },
        None => {
            let compute_done = (head_done + 1) as u64;
            assert(!before.live().contains(compute_done));
            two_waits(Some(head_done), Stage::AllCommands, None, Stage::AllCommands);
            assert(wait_at(Some(head_done), Stage::AllCommands) + wait_at(None, Stage::AllCommands)
                =~= plan.compute@.waits);
            one_signal(compute_done);
            assert(after(headed, plan.compute@) =~= after_frame.live()) by {
                assert forall|id: u64| #[trigger] after_frame.live().contains(
                    id,
                ) implies after(headed, plan.compute@).contains(id) by {
                    if before.frame_chain == Some(id) {
                        assert(before.live().contains(id));
                    }
                }
            }
        },
    }
}

proof fn one_signal(id: u64)
    ensures
        seq![id].to_set() == set![id],
        seq![id].no_duplicates(),
{
    assert(seq![id][0] == id);
    assert(seq![id].to_set() =~= set![id]);
}

/// **Flushing leaves nothing behind.** The held-back segment waits only for what
/// is signalled, and what is left signalled is what the chain remembers.
pub proof fn flush_balances(before: Chain, after_flush: Chain, submission: Submission)
    requires
        before.wf(),
        before.pending is Some,
        flush_step(before, after_flush, Some(submission)),
    ensures
        legal(before.live(), submission@),
        after(before.live(), submission@) == after_flush.live(),
{
    let pending = before.pending->0;
    let compute_wait = Some(pending.compute_done);
    two_waits(compute_wait, Stage::AllCommands, pending.acquire, Stage::ColorAttachmentOutput);
    assert(wait_at(compute_wait, Stage::AllCommands) + wait_at(
        pending.acquire,
        Stage::ColorAttachmentOutput,
    ) =~= submission@.waits);
    assert forall|i: int| 0 <= i < submission@.waits.len() implies before.live().contains(
        (#[trigger] submission@.waits[i]).semaphore,
    ) by {
        assert(waited(submission@)[i] == submission@.waits[i].semaphore);
        assert(waited(submission@).to_set().contains(submission@.waits[i].semaphore));
    }
    assert(after(before.live(), submission@) =~= after_flush.live());
}

/// The waits of a submission hold back what they must: the image it draws into only
/// from the colour writes that land in it, and everything else that it waits for
/// from all of its work.
pub open spec fn holds_back(submission: SubmissionView, image: Option<u64>) -> bool {
    forall|i: int|
        #![trigger submission.waits[i]]
        0 <= i < submission.waits.len() ==> (submission.waits[i].stage is ColorAttachmentOutput
            <==> image == Some(submission.waits[i].semaphore))
}

/// A submission waits for a semaphore.
pub open spec fn waits_for(submission: SubmissionView, semaphore: u64) -> bool {
    exists|i: int|
        0 <= i < submission.waits.len() && (#[trigger] submission.waits[i]).semaphore == semaphore
}

/// A submission waits for a semaphore before any of its work.
pub open spec fn starts_after(submission: SubmissionView, semaphore: u64) -> bool {
    exists|i: int|
        0 <= i < submission.waits.len() && #[trigger] submission.waits[i] == (Wait {
            semaphore,
            stage: Stage::AllCommands,
        })
}

/// One submission's work comes after all of another's: it waits, before any of its
/// own, for something that the other signals.
pub open spec fn comes_after(later: SubmissionView, earlier: SubmissionView) -> bool {
    exists|i: int|
        0 <= i < earlier.signals.len() && starts_after(later, #[trigger] earlier.signals[i])
}

/// Who takes a finished image: the overlay where one is drawn over it, then the
/// presentation engine where there is one, and otherwise nobody.
pub open spec fn goes_to(finish: Finish, windowed: bool, overlay: bool) -> bool {
    &&& finish is Overlay <==> overlay
    &&& finish is Present <==> windowed && !overlay
    &&& finish is Keep <==> !windowed && !overlay
}

/// **An image is waited for at its colour writes, and everything else from the
/// start.** No part of an unsplit frame but the writes into its image runs while the
/// presentation engine owns it; and nothing of it runs before the frame before it is
/// finished.
pub proof fn unsplit_waits_hold_back(
    before: Chain,
    after_frame: Chain,
    plan: UnsplitPlan,
    acquire: Option<u64>,
    image_index: u32,
    overlay: bool,
)
    requires
        before.wf(),
        before.unused(acquire),
        before.next_semaphore <= u64::MAX - 2,
        unsplit_step(before, after_frame, plan, acquire, image_index, overlay),
    ensures
        plan.submission@.queue is Graphics,
        holds_back(plan.submission@, acquire),
        acquire matches Some(image) ==> waits_for(plan.submission@, image),
        before.frame_chain matches Some(earlier) ==> starts_after(plan.submission@, earlier),
{
    let waits = plan.submission@.waits;
    if let Some(earlier) = before.frame_chain {
        assert(before.live().contains(earlier));
        assert(waits[waits.len() - 1].semaphore == earlier);
    }
    if let Some(image) = acquire {
        assert(waits[0].semaphore == image);
    }
}

/// **An image is waited for at its colour writes, and everything else from the
/// start, on both queues.** Of a split frame's three submissions only the trailing
/// segment draws into an acquired image; and a compute tail, which writes no colour
/// attachment, is never held back by one.
pub proof fn split_waits_hold_back(
    before: Chain,
    after_frame: Chain,
    plan: SplitPlan,
    acquire: Option<u64>,
    image_index: u32,
    overlay: bool,
)
    requires
        before.wf(),
        before.unused(acquire),
        before.next_semaphore <= u64::MAX - 5,
        split_step(before, after_frame, plan, acquire, image_index, overlay),
    ensures
        plan.head@.queue is Graphics,
        plan.compute@.queue is AsyncCompute,
        holds_back(plan.head@, None),
        holds_back(plan.compute@, None),
        plan.tail matches Some(tail) ==> {
            &&& tail.submission@.queue is Graphics
            &&& holds_back(tail.submission@, before.pending->0.acquire)
        },
{
    if let Some(pending) = before.pending {
        assert(before.live().contains(pending.compute_done));
        if let Some(image) = pending.acquire {
            assert(before.live().contains(image));
        }
    }
}

/// **A split frame runs in order.** Its compute tail comes after its head and after
/// the trailing segment of the frame before, which comes after that frame's compute
/// tail and writes that frame's image; its head comes after whatever last wrote its
/// images; and the semaphores that the next frame is to wait for are signalled by
/// the submissions that it has to follow.
pub proof fn split_frames_run_in_order(
    before: Chain,
    after_frame: Chain,
    plan: SplitPlan,
    acquire: Option<u64>,
    image_index: u32,
    overlay: bool,
)
    requires
        before.wf(),
        before.unused(acquire),
        before.next_semaphore <= u64::MAX - 5,
        split_step(before, after_frame, plan, acquire, image_index, overlay),
    ensures
        comes_after(plan.compute@, plan.head@),
        before.head_gate matches Some(gate) ==> starts_after(plan.head@, gate),
        plan.tail is Some <==> before.pending is Some,
        plan.tail matches Some(tail) ==> {
            let pending = before.pending->0;
            &&& comes_after(plan.compute@, tail.submission@)
            &&& starts_after(tail.submission@, pending.compute_done)
            &&& pending.acquire matches Some(image) ==> waits_for(tail.submission@, image)
            &&& tail.image_index == pending.image_index
            &&& goes_to(tail.finish, before.windowed, pending.overlay)
            &&& finish_waits(tail.finish) matches Some(done) ==> tail.submission@.signals.contains(
                done,
            )
            &&& after_frame.head_gate matches Some(gate) && tail.submission@.signals.contains(gate)
        },
        plan.tail is None ==> after_frame.head_gate is None,
        after_frame.pending matches Some(pending) && {
            &&& plan.compute@.signals.contains(pending.compute_done)
            &&& pending.acquire == acquire
            &&& pending.image_index == image_index
            &&& pending.overlay == overlay
        },
        after_frame.frame_chain == before.frame_chain,
        after_frame.windowed == before.windowed,
{
    let head_done = before.next_semaphore;
    assert(plan.head@.signals[0] == head_done);
    assert(plan.compute@.waits[0].semaphore == head_done);
    assert(starts_after(plan.compute@, plan.head@.signals[0]));
    assert(plan.compute@.signals[0] == after_frame.pending->0.compute_done);
    if before.head_gate is Some {
        assert(plan.head@.waits[0].semaphore == before.head_gate->0);
    }
    if let Some(pending) = before.pending {
        let tail = plan.tail->0.submission@;
        let last = tail.signals.len() - 1;
        assert(plan.compute@.waits[1].semaphore == tail.signals[last - 1]);
        assert(starts_after(plan.compute@, tail.signals[last - 1]));
        assert(tail.signals[last] == after_frame.head_gate->0);
        assert(tail.waits[0].semaphore == pending.compute_done);
        if pending.acquire is Some {
            assert(tail.waits[1].semaphore == pending.acquire->0);
        }
        if finish_waits(plan.tail->0.finish) is Some {
            assert(tail.signals[0] == finish_waits(plan.tail->0.finish)->0);
        }
    }
}

/// **A frame on one queue follows the one before it.** What the next one is to wait
/// for, this one signals; so does it what whoever takes its image waits for, which is
/// another; and it leaves alone what a split frame left behind.
pub proof fn unsplit_frames_run_in_order(
    before: Chain,
    after_frame: Chain,
    plan: UnsplitPlan,
    acquire: Option<u64>,
    image_index: u32,
    overlay: bool,
)
    requires
        before.wf(),
        before.unused(acquire),
        before.next_semaphore <= u64::MAX - 2,
        unsplit_step(before, after_frame, plan, acquire, image_index, overlay),
    ensures
        plan.image_index == image_index,
        goes_to(plan.finish, before.windowed, overlay),
        after_frame.frame_chain matches Some(chain) && plan.submission@.signals.contains(chain),
        finish_waits(plan.finish) matches Some(done) ==> plan.submission@.signals.contains(done)
            && after_frame.frame_chain != Some(done),
        after_frame.head_gate == before.head_gate,
        after_frame.pending == before.pending,
        after_frame.windowed == before.windowed,
{
    let signals = plan.submission@.signals;
    assert(signals[signals.len() - 1] == after_frame.frame_chain->0);
    if finish_waits(plan.finish) is Some {
        assert(signals[0] == finish_waits(plan.finish)->0);
    }
}

/// **Two frames on one queue run one after the other.**
pub proof fn unsplit_frames_follow_each_other(
    chains: (Chain, Chain, Chain),
    plans: (UnsplitPlan, UnsplitPlan),
    acquires: (Option<u64>, Option<u64>),
    images: (u32, u32),
    overlays: (bool, bool),
)
    requires
        chains.0.wf(),
        chains.0.unused(acquires.0),
        chains.1.wf(),
        chains.1.unused(acquires.1),
        chains.0.next_semaphore <= u64::MAX - 4,
        chains.1.next_semaphore <= u64::MAX - 2,
        unsplit_step(chains.0, chains.1, plans.0, acquires.0, images.0, overlays.0),
        unsplit_step(chains.1, chains.2, plans.1, acquires.1, images.1, overlays.1),
    ensures
        comes_after(plans.1.submission@, plans.0.submission@),
{
    unsplit_frames_run_in_order(chains.0, chains.1, plans.0, acquires.0, images.0, overlays.0);
    unsplit_waits_hold_back(chains.1, chains.2, plans.1, acquires.1, images.1, overlays.1);
    let chain = chains.1.frame_chain->0;
    let signals = plans.0.submission@.signals;
    let i = choose|i: int| 0 <= i < signals.len() && signals[i] == chain;
    assert(starts_after(plans.1.submission@, signals[i]));
}

/// **Two split frames overlap and no further.** The second one's trailing segment is
/// the first one's: it comes after the first one's compute tail, draws into the first
/// one's image and hands it to whoever the first one named; and the head after next
/// comes after it.
pub proof fn split_frames_follow_each_other(
    chains: (Chain, Chain, Chain, Chain),
    plans: (SplitPlan, SplitPlan, SplitPlan),
    acquires: (Option<u64>, Option<u64>, Option<u64>),
    images: (u32, u32, u32),
    overlays: (bool, bool, bool),
)
    requires
        chains.0.wf(),
        chains.0.unused(acquires.0),
        chains.1.wf(),
        chains.1.unused(acquires.1),
        chains.2.wf(),
        chains.2.unused(acquires.2),
        chains.0.next_semaphore <= u64::MAX - 5,
        chains.1.next_semaphore <= u64::MAX - 5,
        chains.2.next_semaphore <= u64::MAX - 5,
        split_step(chains.0, chains.1, plans.0, acquires.0, images.0, overlays.0),
        split_step(chains.1, chains.2, plans.1, acquires.1, images.1, overlays.1),
        split_step(chains.2, chains.3, plans.2, acquires.2, images.2, overlays.2),
    ensures
        plans.1.tail matches Some(tail) && {
            &&& comes_after(tail.submission@, plans.0.compute@)
            &&& acquires.0 matches Some(image) ==> waits_for(tail.submission@, image)
            &&& tail.image_index == images.0
            &&& goes_to(tail.finish, chains.0.windowed, overlays.0)
            &&& comes_after(plans.2.head@, tail.submission@)
        },
{
    split_frames_run_in_order(chains.0, chains.1, plans.0, acquires.0, images.0, overlays.0);
    split_frames_run_in_order(chains.1, chains.2, plans.1, acquires.1, images.1, overlays.1);
    split_frames_run_in_order(chains.2, chains.3, plans.2, acquires.2, images.2, overlays.2);
    let tail = plans.1.tail->0.submission@;
    let done = chains.1.pending->0.compute_done;
    let i = choose|i: int|
        0 <= i < plans.0.compute@.signals.len() && plans.0.compute@.signals[i] == done;
    assert(starts_after(tail, plans.0.compute@.signals[i]));
    let gate = chains.2.head_gate->0;
    let j = choose|j: int| 0 <= j < tail.signals.len() && tail.signals[j] == gate;
    assert(starts_after(plans.2.head@, tail.signals[j]));
}

/// **A flushed segment comes after its compute work**, draws into the image that it
/// was held back with, and tells nobody.
pub proof fn flushed_work_runs_in_order(
    before: Chain,
    after_flush: Chain,
    submission: Submission,
)
    requires
        before.wf(),
        before.pending is Some,
        flush_step(before, after_flush, Some(submission)),
    ensures
        submission@.queue is Graphics,
        submission@.signals.len() == 0,
        holds_back(submission@, before.pending->0.acquire),
        starts_after(submission@, before.pending->0.compute_done),
        before.pending->0.acquire matches Some(image) ==> waits_for(submission@, image),
        after_flush.pending is None,
        after_flush.frame_chain == before.frame_chain,
        after_flush.head_gate == before.head_gate,
        after_flush.windowed == before.windowed,
{
    let pending = before.pending->0;
    assert(before.live().contains(pending.compute_done));
    assert(submission@.waits[0].semaphore == pending.compute_done);
    if pending.acquire is Some {
        assert(before.live().contains(pending.acquire->0));
        assert(submission@.waits[1].semaphore == pending.acquire->0);
    }
}

} // verus!
