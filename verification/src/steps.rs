//! The order of a frame: what is done after what, and what each answer leads to.
//!
//! A frame is a run of steps. Whoever owns the device asks
//! [`begin`](Renderer::begin) for the first one, carries it out, and hands what
//! came of it to [`advance`](Renderer::advance), which gives the next, until the
//! frame is [`Done`](FrameStep::Done).

use crate::frame::PassBody;
use crate::renderer::{
    can_finish, change_of, finish_frame, finish_of, has_overlay, Acquired, FinishPlan, FrameConfig,
    FrameStart, GraphChange, Presented, Renderer, SubmitPlan,
};
use crate::submission::{
    comes_after, finish_spec, flush_step, split_frames_run_in_order, split_step,
    split_waits_hold_back, starts_after, unsplit_step, unsplit_waits_hold_back, waits_for, Chain,
    Finish, SplitPlan, Submission, TailPlan, UnsplitPlan,
};
use crate::swapchain::PresentSettings;
use vstd::prelude::*;

verus! {

/// A rendered image, and what becomes of it.
#[derive(Clone, Copy, Debug, PartialEq, Eq, Structural)]
pub struct Shown {
    pub image_index: u32,
    pub finish: FinishPlan,
}

/// One step of a frame.
#[derive(Debug)]
pub enum FrameStep {
    /// Submit the segment held back against the old target, where there is one,
    /// and wait until nothing is in flight, neither a frame nor an overlay.
    Drain { flush: Option<Submission> },
    /// Rebuild the target.
    Rebuild { extent: [u32; 2], present: PresentSettings },
    /// Derive the frame's structure from its settings.
    Structure,
    /// Compile and allocate what the structure asks for.
    Allocate { change: GraphChange },
    /// Release what the device has finished with, and wait where the CPU is as far
    /// ahead of it as it may be.
    MakeRoom,
    /// Acquire an image, to be signalled by the semaphore.
    Acquire { semaphore: Option<u64> },
    /// Record the frame into the image.
    Record { image: u32, frame: u64, acquire: Option<u64> },
    /// Hand these to their queues, in order.
    Submit { submissions: Vec<Submission>, finished: Option<Shown>, compute: Option<Submission> },
    /// Draw the overlay over a rendered image and present it.
    Finish { shown: Shown, compute: Option<Submission> },
    /// Hand the compute tail to its queue, behind everything it waits for.
    Compute { submission: Submission },
    Done,
}

/// What came of a step.
#[derive(Debug)]
pub enum StepAnswer {
    /// It was carried out.
    Carried,
    /// Whether the target could be rebuilt.
    Rebuilt(bool),
    /// The frame's structure, and whether the images were allocated at another
    /// extent.
    Structure { config: FrameConfig, stale: bool },
    Acquired(Acquired),
    /// How many command buffers there are, the passes that own their submission,
    /// and whether an overlay was supplied.
    Recorded { segments: usize, raw: Vec<PassBody>, supplied: bool },
    Presented(Presented),
}

/// An answer is one to the step.
pub open spec fn answers(chain: Chain, step: FrameStep, answer: StepAnswer) -> bool {
    match step {
        FrameStep::Drain { .. }
        | FrameStep::Allocate { .. }
        | FrameStep::MakeRoom
        | FrameStep::Submit { .. }
        | FrameStep::Compute { .. } => answer is Carried,
        FrameStep::Rebuild { .. } => answer is Rebuilt,
        FrameStep::Structure => answer is Structure,
        FrameStep::Acquire { .. } => answer matches StepAnswer::Acquired(acquired) && (
        acquired is Offscreen <==> !chain.windowed),
        FrameStep::Record { .. } => answer matches StepAnswer::Recorded { segments, raw, supplied }
            && (segments == 1 || segments == 3) && (taken_by(chain, segments, raw@) matches Some(
            finish,
        ) ==> can_finish(finish, raw@, supplied)),
        FrameStep::Finish { shown, .. } => if shown.finish.present {
            answer is Presented
        } else {
            answer is Carried
        },
        FrameStep::Done => false,
    }
}

/// Who takes the image that a submission finishes, where it finishes one: a frame on
/// one queue finishes its own, and a split frame the one of the segment held back
/// before it.
pub open spec fn taken_by(chain: Chain, segments: usize, raw: Seq<PassBody>) -> Option<Finish> {
    if segments == 1 {
        Some(finish_spec(chain.windowed, raw.contains(PassBody::Overlay), chain.next_semaphore))
    } else {
        match chain.pending {
            Some(pending) => Some(
                finish_spec(chain.windowed, pending.overlay, (chain.next_semaphore + 1) as u64),
            ),
            None => None,
        }
    }
}

/// What holds of the renderer while a step is carried out.
pub open spec fn stands(renderer: Renderer, step: FrameStep) -> bool {
    &&& renderer.wf()
    &&& match step {
        FrameStep::Drain { .. } => renderer.recreate_swapchain && renderer.chain.pending is None,
        FrameStep::Rebuild { extent, present } => {
            &&& renderer.recreate_swapchain
            &&& renderer.chain.pending is None
            &&& extent == renderer.pending_extent
            &&& present == renderer.present
        },
        FrameStep::Structure | FrameStep::Allocate { .. } | FrameStep::MakeRoom =>
            !renderer.recreate_swapchain,
        FrameStep::Acquire { semaphore } => {
            &&& !renderer.recreate_swapchain
            &&& renderer.chain.unused(semaphore)
            &&& semaphore is Some <==> renderer.chain.windowed
        },
        FrameStep::Record { acquire, .. } => {
            &&& renderer.chain.unused(acquire)
            &&& acquire is Some <==> renderer.chain.windowed
        },
        _ => true,
    }
}

/// The first step of a frame: there is none over a target of no area; a target that
/// has to be rebuilt is drained of what is held back against it; and otherwise the
/// frame goes straight to its structure.
pub open spec fn begins(before: Renderer, after: Renderer, first: FrameStep) -> bool {
    match before.start_spec() {
        FrameStart::Skip => after == before && first == FrameStep::Done,
        FrameStart::Recreate => first matches FrameStep::Drain { flush } && {
            &&& flush is Some <==> before.chain.pending is Some
            &&& flush_step(before.chain, after.chain, flush)
            &&& after == (Renderer { chain: after.chain, ..before })
        },
        FrameStart::Proceed => after == before && first == FrameStep::Structure,
    }
}

/// What follows once an image is on its way: the compute tail, where there is one.
pub open spec fn compute_or_done(compute: Option<Submission>) -> FrameStep {
    match compute {
        Some(submission) => FrameStep::Compute { submission },
        None => FrameStep::Done,
    }
}

/// What a recorded frame submits: on one queue its only command buffer, which
/// finishes its own image; and over two its head, the trailing segment held back
/// before it, which finishes that frame's image, and its compute tail afterwards.
pub open spec fn submits(
    before: Chain,
    after: Chain,
    image: u32,
    acquire: Option<u64>,
    segments: usize,
    raw: Seq<PassBody>,
    next: FrameStep,
) -> bool {
    let overlay = raw.contains(PassBody::Overlay);
    next matches FrameStep::Submit { submissions, finished, compute } && {
        &&& finished == (match taken_by(before, segments, raw) {
            Some(finish) => Some(
                Shown {
                    image_index: if segments == 1 {
                        image
                    } else {
                        before.pending->0.image_index
                    },
                    finish: finish_of(finish, raw, before.windowed),
                },
            ),
            None => None,
        })
        &&& if segments == 1 {
            &&& submissions@.len() == 1
            &&& compute is None
            &&& unsplit_step(
                before,
                after,
                UnsplitPlan {
                    submission: submissions@[0],
                    image_index: image,
                    finish: taken_by(before, segments, raw)->0,
                },
                acquire,
                image,
                overlay,
            )
        } else {
            &&& submissions@.len() == (if before.pending is Some {
                2int
            } else {
                1
            })
            &&& compute is Some
            &&& split_step(
                before,
                after,
                SplitPlan {
                    head: submissions@[0],
                    tail: match before.pending {
                        Some(pending) => Some(
                            TailPlan {
                                submission: submissions@[1],
                                image_index: pending.image_index,
                                finish: taken_by(before, segments, raw)->0,
                            },
                        ),
                        None => None,
                    },
                    compute: compute->0,
                },
                acquire,
                image,
                overlay,
            )
        }
    }
}

/// What an answer leads to: the next step, and what the renderer remembers.
pub open spec fn leads_to(
    before: Renderer,
    after: Renderer,
    step: FrameStep,
    answer: StepAnswer,
    next: FrameStep,
) -> bool {
    match (step, answer) {
        (FrameStep::Drain { .. }, StepAnswer::Carried) => after == before && next
            == (FrameStep::Rebuild { extent: before.pending_extent, present: before.present }),
        (FrameStep::Rebuild { .. }, StepAnswer::Rebuilt(rebuilt)) => {
            &&& after == (Renderer {
                recreate_swapchain: before.recreate_swapchain && !rebuilt,
                ..before
            })
            &&& next == (if rebuilt {
                FrameStep::Structure
            } else {
                FrameStep::Done
            })
        },
        (FrameStep::Structure, StepAnswer::Structure { config, stale }) => {
            &&& after == (Renderer { config, ..before })
            &&& next == (FrameStep::Allocate { change: change_of(before.config, config, stale) })
        },
        (FrameStep::Allocate { .. }, StepAnswer::Carried) => after == before && next
            == FrameStep::MakeRoom,
        (FrameStep::MakeRoom, StepAnswer::Carried) => if before.chain.windowed {
            let semaphore = before.chain.next_semaphore;
            &&& after == (Renderer {
                chain: Chain { next_semaphore: (semaphore + 1) as u64, ..before.chain },
                ..before
            })
            &&& next == (FrameStep::Acquire { semaphore: Some(semaphore) })
        } else {
            after == before && next == (FrameStep::Acquire { semaphore: None })
        },
        (FrameStep::Acquire { semaphore }, StepAnswer::Acquired(answer)) => match answer {
            Acquired::OutOfDate => after == before.acquiring(answer) && next == FrameStep::Done,
            Acquired::Offscreen => after == before.acquiring(answer).counted() && next == (
            FrameStep::Record { image: 0, frame: before.frame_index, acquire: semaphore }),
            Acquired::Image { index, .. } => after == before.acquiring(answer).counted() && next
                == (FrameStep::Record {
                image: index,
                frame: before.frame_index,
                acquire: semaphore,
            }),
        },
        (
            FrameStep::Record { image, acquire, .. },
            StepAnswer::Recorded { segments, raw, .. },
        ) => after == (Renderer { chain: after.chain, ..before }) && submits(
            before.chain,
            after.chain,
            image,
            acquire,
            segments,
            raw@,
            next,
        ),
        (FrameStep::Submit { finished, compute, .. }, StepAnswer::Carried) => after == before
            && next == (match finished {
            Some(shown) => FrameStep::Finish { shown, compute },
            None => compute_or_done(compute),
        }),
        (FrameStep::Finish { compute, .. }, StepAnswer::Presented(answer)) => after
            == before.showing(answer) && next == compute_or_done(compute),
        (FrameStep::Finish { compute, .. }, StepAnswer::Carried) => after == before && next
            == compute_or_done(compute),
        (FrameStep::Compute { .. }, StepAnswer::Carried) => after == before && next
            == FrameStep::Done,
        _ => false,
    }
}

impl Renderer {
    /// The first step of the next frame.
    pub fn begin(&mut self) -> (first: FrameStep)
        requires
            old(self).wf(),
        ensures
            begins(*old(self), *final(self), first),
            stands(*final(self), first),
    {
        match self.start() {
            FrameStart::Skip => FrameStep::Done,
            FrameStart::Recreate => FrameStep::Drain { flush: self.before_recreation() },
            FrameStart::Proceed => FrameStep::Structure,
        }
    }

    /// The step after this one, once it was answered. A target is rebuilt only
    /// when nothing is held back against the old one.
    pub fn advance(&mut self, step: FrameStep, answer: StepAnswer) -> (next: FrameStep)
        requires
            stands(*old(self), step),
            answers(old(self).chain, step, answer),
            step is MakeRoom && old(self).chain.windowed ==> old(self).chain.next_semaphore
                < u64::MAX,
            step is Record ==> old(self).chain.next_semaphore <= u64::MAX - 5,
        ensures
            leads_to(*old(self), *final(self), step, answer, next),
            stands(*final(self), next),
            next is Rebuild ==> final(self).chain.pending is None,
    {
        match (step, answer) {
            (FrameStep::Drain { .. }, _) => FrameStep::Rebuild {
                extent: self.pending_extent,
                present: self.present,
            },
            (FrameStep::Rebuild { .. }, StepAnswer::Rebuilt(rebuilt)) => {
                if self.recreated(rebuilt) {
                    FrameStep::Structure
                } else {
                    FrameStep::Done
                }
            },
            (FrameStep::Structure, StepAnswer::Structure { config, stale }) => FrameStep::Allocate {
                change: self.ensure_graph(config, stale),
            },
            (FrameStep::Allocate { .. }, _) => FrameStep::MakeRoom,
            (FrameStep::MakeRoom, _) => FrameStep::Acquire { semaphore: self.acquire_semaphore() },
            (FrameStep::Acquire { semaphore }, StepAnswer::Acquired(answer)) => {
                match self.acquired(answer) {
                    Some(image) => FrameStep::Record {
                        image,
                        frame: self.next_frame(),
                        acquire: semaphore,
                    },
                    None => FrameStep::Done,
                }
            },
            (
                FrameStep::Record { image, acquire, .. },
                StepAnswer::Recorded { segments, raw, supplied },
            ) => self.submission(image, acquire, segments, raw.as_slice(), supplied),
            (FrameStep::Submit { finished, compute, .. }, _) => match finished {
                Some(shown) => FrameStep::Finish { shown, compute },
                None => after_image(compute),
            },
            (FrameStep::Finish { compute, .. }, StepAnswer::Presented(answer)) => {
                self.presented(answer);
                after_image(compute)
            },
            (FrameStep::Finish { compute, .. }, _) => after_image(compute),
            _ => FrameStep::Done,
        }
    }

    /// Submit what was recorded, and say who takes the image that it finishes.
    fn submission(
        &mut self,
        image: u32,
        acquire: Option<u64>,
        segments: usize,
        raw: &[PassBody],
        supplied: bool,
    ) -> (next: FrameStep)
        requires
            old(self).wf(),
            old(self).chain.unused(acquire),
            old(self).chain.next_semaphore <= u64::MAX - 5,
            segments == 1 || segments == 3,
            taken_by(old(self).chain, segments, raw@) matches Some(finish) ==> can_finish(
                finish,
                raw@,
                supplied,
            ),
        ensures
            final(self).wf(),
            *final(self) == (Renderer { chain: final(self).chain, ..*old(self) }),
            submits(old(self).chain, final(self).chain, image, acquire, segments, raw@, next),
    {
        let windowed = self.chain.windowed;
        let mut submissions: Vec<Submission> = Vec::new();
        match self.submit(segments, acquire, image, has_overlay(raw)) {
            SubmitPlan::Unsplit(plan) => {
                let finish = finish_frame(plan.finish, raw, supplied, windowed);
                submissions.push(plan.submission);
                FrameStep::Submit {
                    submissions,
                    finished: Some(Shown { image_index: plan.image_index, finish }),
                    compute: None,
                }
            },
            SubmitPlan::Split(plan) => {
                submissions.push(plan.head);
                let finished = match plan.tail {
                    Some(tail) => {
                        let finish = finish_frame(tail.finish, raw, supplied, windowed);
                        submissions.push(tail.submission);
                        Some(Shown { image_index: tail.image_index, finish })
                    },
                    None => None,
                };
                FrameStep::Submit { submissions, finished, compute: Some(plan.compute) }
            },
        }
    }
}

fn after_image(compute: Option<Submission>) -> (next: FrameStep)
    ensures
        next == compute_or_done(compute),
{
    match compute {
        Some(submission) => FrameStep::Compute { submission },
        None => FrameStep::Done,
    }
}

/// Where a step stands in the order of a frame.
pub open spec fn place(step: FrameStep) -> int {
    match step {
        FrameStep::Drain { .. } => 0,
        FrameStep::Rebuild { .. } => 1,
        FrameStep::Structure => 2,
        FrameStep::Allocate { .. } => 3,
        FrameStep::MakeRoom => 4,
        FrameStep::Acquire { .. } => 5,
        FrameStep::Record { .. } => 6,
        FrameStep::Submit { .. } => 7,
        FrameStep::Finish { .. } => 8,
        FrameStep::Compute { .. } => 9,
        FrameStep::Done => 10,
    }
}

/// A frame as far as it has come: its steps, the answers to all but the last, and
/// the renderer before the frame and then at each step.
pub open spec fn is_frame(
    renderers: Seq<Renderer>,
    steps: Seq<FrameStep>,
    given: Seq<StepAnswer>,
) -> bool {
    &&& steps.len() == given.len() + 1
    &&& renderers.len() == steps.len() + 1
    &&& begins(renderers[0], renderers[1], steps[0])
    &&& forall|i: int|
        0 <= i < given.len() ==> leads_to(
            renderers[i + 1],
            renderers[i + 2],
            steps[i],
            #[trigger] given[i],
            steps[i + 1],
        )
}

/// **A frame goes forward.** No answer leads back to an earlier step or to the same
/// one, so that every frame comes to an end, and no step is taken twice.
pub proof fn frames_go_forward(
    before: Renderer,
    after: Renderer,
    step: FrameStep,
    answer: StepAnswer,
    next: FrameStep,
)
    requires
        leads_to(before, after, step, answer, next),
    ensures
        place(step) < place(next),
{
}

/// **A frame has no more steps than there are places.**
pub proof fn frames_come_to_an_end(
    renderers: Seq<Renderer>,
    steps: Seq<FrameStep>,
    given: Seq<StepAnswer>,
)
    requires
        is_frame(renderers, steps, given),
    ensures
        steps.len() <= place(steps.last()) + 1 <= 11,
    decreases steps.len(),
{
    if given.len() > 0 {
        let last = given.len() - 1;
        let earlier = renderers.drop_last();
        assert forall|i: int| 0 <= i < given.drop_last().len() implies leads_to(
            earlier[i + 1],
            earlier[i + 2],
            steps.drop_last()[i],
            #[trigger] given.drop_last()[i],
            steps.drop_last()[i + 1],
        ) by {
            assert(given.drop_last()[i] == given[i]);
        }
        frames_come_to_an_end(earlier, steps.drop_last(), given.drop_last());
        assert(leads_to(
            renderers[last + 1],
            renderers[last + 2],
            steps[last],
            given[last],
            steps[last + 1],
        ));
    }
}

/// **A target is rebuilt when nothing names it any more.** In every frame a rebuild
/// comes right behind the drain, which submits the segment held back against the
/// old target where there was one; and nothing is held back then.
pub proof fn rebuilds_find_nothing_held_back(
    renderers: Seq<Renderer>,
    steps: Seq<FrameStep>,
    given: Seq<StepAnswer>,
    i: int,
)
    requires
        is_frame(renderers, steps, given),
        0 <= i < steps.len(),
        steps[i] is Rebuild,
    ensures
        i == 1,
        steps[0] matches FrameStep::Drain { flush } && (flush is Some
            <==> renderers[0].chain.pending is Some) && flush_step(
            renderers[0].chain,
            renderers[1].chain,
            flush,
        ),
        renderers[i + 1].chain.pending is None,
{
    if i > 0 {
        assert(leads_to(renderers[i], renderers[i + 1], steps[i - 1], given[i - 1], steps[i]));
        if i > 1 {
            assert(leads_to(
                renderers[i - 1],
                renderers[i],
                steps[i - 2],
                given[i - 2],
                steps[i - 1],
            ));
        }
    }
}

/// **Every step has its cause.** A frame is recorded right behind the acquire that
/// gave it its image, and submitted right behind its recording; an image is shown
/// right behind the submission that finishes it; and the compute tail follows that
/// submission too, behind the image it finished where it did.
pub proof fn steps_follow_their_causes(
    renderers: Seq<Renderer>,
    steps: Seq<FrameStep>,
    given: Seq<StepAnswer>,
    i: int,
)
    requires
        is_frame(renderers, steps, given),
        0 <= i < steps.len(),
    ensures
        steps[i] matches FrameStep::Record { acquire, .. } ==> {
            &&& i > 0
            &&& steps[i - 1] == (FrameStep::Acquire { semaphore: acquire })
            &&& given[i - 1] matches StepAnswer::Acquired(answer) && !(answer is OutOfDate)
        },
        steps[i] is Submit ==> i > 0 && steps[i - 1] is Record,
        steps[i] matches FrameStep::Finish { shown, .. } ==> {
            &&& i > 0
            &&& steps[i - 1] matches FrameStep::Submit { finished, .. } && finished == Some(shown)
        },
        steps[i] matches FrameStep::Compute { submission } ==> {
            &&& i > 0
            &&& match steps[i - 1] {
                FrameStep::Submit { finished, compute, .. } => finished is None && compute == Some(
                    submission,
                ),
                FrameStep::Finish { compute, .. } => compute == Some(submission),
                _ => false,
            }
        },
{
    if i > 0 {
        assert(leads_to(renderers[i], renderers[i + 1], steps[i - 1], given[i - 1], steps[i]));
    }
}

/// **An answer decides what it is about.** A target that could not be rebuilt, or had
/// no image, ends the frame, and any other answer carries it on; the structure is
/// remembered and compared with the one before; the image that was acquired is the one
/// recorded into, under the number of the frame, with the semaphore that it is signalled
/// by; and an image is shown exactly where the submission finished one.
pub proof fn answers_decide_what_they_are_about(
    before: Renderer,
    after: Renderer,
    step: FrameStep,
    answer: StepAnswer,
    next: FrameStep,
)
    requires
        stands(before, step),
        leads_to(before, after, step, answer, next),
    ensures
        step is Drain ==> (next matches FrameStep::Rebuild { extent, present } && extent
            == before.pending_extent && present == before.present),
        answer matches StepAnswer::Rebuilt(rebuilt) ==> {
            &&& rebuilt ==> next is Structure && !after.recreate_swapchain
            &&& !rebuilt ==> next is Done && after.recreate_swapchain
        },
        answer matches StepAnswer::Structure { config, stale } ==> {
            &&& after.config == config
            &&& next matches FrameStep::Allocate { change } && {
                &&& change is Recompile <==> before.config != config
                &&& change is Reallocate <==> before.config == config && stale
            }
        },
        step is Allocate ==> next is MakeRoom,
        step is MakeRoom ==> (next matches FrameStep::Acquire { semaphore } && (semaphore is Some
            <==> before.chain.windowed) && (semaphore matches Some(id) ==> id
            >= before.chain.next_semaphore)),
        answer matches StepAnswer::Acquired(acquired) ==> {
            &&& acquired is OutOfDate ==> next is Done && after.recreate_swapchain
                && after.frame_index == before.frame_index
            &&& acquired matches Acquired::Image { index, suboptimal } ==> {
                &&& next matches FrameStep::Record { image, frame, acquire } && {
                    &&& image == index
                    &&& frame == before.frame_index
                    &&& step == (FrameStep::Acquire { semaphore: acquire })
                }
                &&& after.recreate_swapchain == suboptimal
                &&& before.frame_index < u64::MAX ==> after.frame_index == before.frame_index + 1
            }
            &&& acquired is Offscreen ==> {
                &&& next matches FrameStep::Record { image, frame, .. } && image == 0 && frame
                    == before.frame_index
                &&& !after.recreate_swapchain
            }
        },
        step is Record ==> next is Submit,
        step matches FrameStep::Submit { finished, compute, .. } ==> {
            &&& next is Finish <==> finished is Some
            &&& next is Compute <==> finished is None && compute is Some
            &&& next is Done <==> finished is None && compute is None
        },
        step matches FrameStep::Finish { compute, .. } ==> {
            &&& next is Compute <==> compute is Some
            &&& next is Done <==> compute is None
        },
        step is Compute ==> next is Done,
        !(answer is Structure) ==> after.config == before.config,
        after.pending_extent == before.pending_extent,
        after.present == before.present,
        after.chain.windowed == before.chain.windowed,
        !(step is Record || step is MakeRoom) ==> after.chain == before.chain,
{
}

/// **What a recorded frame submits is what its command buffers are.** A frame of one
/// hands that one over and finishes its own image; a split one hands its head over, the
/// segment held back before it second, whose image it finishes, and its compute tail
/// once that image is on its way, on the other queue.
pub proof fn recorded_frames_are_submitted(
    before: Renderer,
    after: Renderer,
    image: u32,
    frame: u64,
    acquire: Option<u64>,
    segments: usize,
    raw: Vec<PassBody>,
    supplied: bool,
    next: FrameStep,
)
    requires
        before.wf(),
        before.chain.unused(acquire),
        before.chain.next_semaphore <= u64::MAX - 5,
        leads_to(
            before,
            after,
            FrameStep::Record { image, frame, acquire },
            StepAnswer::Recorded { segments, raw, supplied },
            next,
        ),
    ensures
        next matches FrameStep::Submit { submissions, finished, compute } && {
            &&& forall|i: int|
                0 <= i < submissions@.len() ==> (#[trigger] submissions@[i])@.queue is Graphics
            &&& segments == 1 ==> {
                &&& submissions@.len() == 1
                &&& compute is None
                &&& finished matches Some(shown) && shown.image_index == image
                &&& acquire matches Some(id) ==> waits_for(submissions@[0]@, id)
                &&& after.chain.pending == before.chain.pending
            }
            &&& segments != 1 ==> {
                &&& compute matches Some(tail) && tail@.queue is AsyncCompute && comes_after(
                    tail@,
                    submissions@[0]@,
                )
                &&& submissions@.len() == (if before.chain.pending is Some {
                    2int
                } else {
                    1
                })
                &&& finished is Some <==> before.chain.pending is Some
                &&& before.chain.pending matches Some(pending) ==> {
                    &&& finished->0.image_index == pending.image_index
                    &&& starts_after(submissions@[1]@, pending.compute_done)
                    &&& comes_after(compute->0@, submissions@[1]@)
                }
                &&& after.chain.pending matches Some(pending) && {
                    &&& pending.image_index == image
                    &&& pending.acquire == acquire
                    &&& pending.overlay == raw@.contains(PassBody::Overlay)
                }
            }
            &&& finished matches Some(shown) ==> shown.finish.present == before.chain.windowed
        },
{
    let overlay = raw@.contains(PassBody::Overlay);
    if let FrameStep::Submit { submissions, finished, compute } = next {
        if segments == 1 {
            let plan = UnsplitPlan {
                submission: submissions@[0],
                image_index: image,
                finish: taken_by(before.chain, segments, raw@)->0,
            };
            unsplit_waits_hold_back(before.chain, after.chain, plan, acquire, image, overlay);
        } else {
            let plan = SplitPlan {
                head: submissions@[0],
                tail: match before.chain.pending {
                    Some(pending) => Some(
                        TailPlan {
                            submission: submissions@[1],
                            image_index: pending.image_index,
                            finish: taken_by(before.chain, segments, raw@)->0,
                        },
                    ),
                    None => None,
                },
                compute: compute->0,
            };
            split_waits_hold_back(before.chain, after.chain, plan, acquire, image, overlay);
            split_frames_run_in_order(before.chain, after.chain, plan, acquire, image, overlay);
        }
    }
}

} // verus!
