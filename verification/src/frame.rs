//! The frame cycle as a state machine over the ring of frame slots.

use crate::device::{HalaDeviceCall, HalaQueue};
use crate::error::{HalaGfxError, HalaGfxErrorView};
use crate::pipeline::HalaPipelineStageFlags;
use vstd::prelude::*;

verus! {

/// Where the frame cycle stands. Each phase but the first and `Recording`
/// waits for the driver to answer the call that led into it.
#[derive(Clone, Copy, PartialEq, Eq, Structural, Debug)]
pub enum HalaFramePhase {
    /// Between two frames.
    Idle,
    /// The wait for the graphics queue has been issued.
    WaitingIdle,
    /// The next image has been asked for.
    Acquiring,
    /// The wait for the fence of the acquired slot has been issued.
    WaitingFence,
    /// The reset of the fence of the acquired slot has been issued.
    ResettingFence,
    /// The frame is prepared: the command buffer of the acquired slot may
    /// be recorded and then submitted.
    Recording,
    /// The submission of the frame has been issued.
    Submitting,
    /// The presentation of the frame has been issued.
    Presenting,
    /// The swapchain is being torn down and made anew.
    Resizing,
}

/// What is reported to the frame cycle: the wish to go on from a resting
/// phase, or the answer of the driver to the call made last.
#[derive(Clone, Copy, PartialEq, Eq, Structural, Debug)]
pub enum HalaFrameReply {
    /// Nothing is owed; the cycle is asked to take its next step.
    Start,
    /// The call made last has succeeded.
    Done,
    /// The call made last has succeeded and named an image.
    ImageIndex(u32),
    /// The call made last has failed with a raw result code.
    Failed(i32),
}

/// What the frame cycle asks for or announces in answer to a reply.
#[derive(Debug)]
pub enum HalaFrameStep {
    /// The driver is to make this call and to report how it ended.
    Call(HalaDeviceCall),
    /// The frame is prepared on the slot with this index.
    Prepared(usize),
    /// The frame has been presented.
    Presented,
    /// The step has failed.
    Failed(HalaGfxError),
}

/// The mathematical value of a [`HalaFrameStep`].
pub enum HalaFrameStepView {
    Call(HalaDeviceCall),
    Prepared(usize),
    Presented,
    Failed(HalaGfxErrorView),
}

impl View for HalaFrameStep {
    type V = HalaFrameStepView;

    open spec fn view(&self) -> HalaFrameStepView {
        match self {
            HalaFrameStep::Call(call) => HalaFrameStepView::Call(*call),
            HalaFrameStep::Prepared(index) => HalaFrameStepView::Prepared(*index),
            HalaFrameStep::Presented => HalaFrameStepView::Presented,
            HalaFrameStep::Failed(e) => HalaFrameStepView::Failed(e@),
        }
    }
}

/// The frame cycle as a mathematical value: its phase, the slot that was
/// acquired, which slots hold a submission that has not been waited for,
/// the slot whose semaphores are in use, and the handles of the ring.
pub struct HalaFrameModel {
    pub phase: HalaFramePhase,
    pub image_index: int,
    pub in_flight: Seq<bool>,
    pub current: int,
    pub swapchain: u64,
    pub image_availables: Seq<u64>,
    pub render_finisheds: Seq<u64>,
    pub draw_fences: Seq<u64>,
    pub graphics_queue_family_index: u32,
}

/// One thing that happens to the frame cycle.
pub enum HalaFrameInput {
    /// A reply given to the preparation of a frame.
    Prepare(HalaFrameReply),
    /// A reply given to the submission and presentation of the frame on the
    /// slot `index`, whose command buffer is `command_buffer` if the set of
    /// command buffers has one at that index.
    SubmitAndPresent { index: int, command_buffer: Option<u64>, reply: HalaFrameReply },
}

/// The error of a reply that does not fit the phase of the cycle.
pub open spec fn spec_out_of_step() -> HalaFrameStepView {
    HalaFrameStepView::Failed(HalaGfxError::spec_plain("The frame cycle is out of step."@))
}

impl HalaFrameModel {
    /// The number of slots of the ring.
    pub open spec fn spec_count(self) -> int {
        self.in_flight.len() as int
    }

    /// The first graphics queue.
    pub open spec fn spec_queue(self) -> HalaQueue {
        HalaQueue { family_index: self.graphics_queue_family_index, queue_index: 0 }
    }

    /// The ring has a slot, each slot has its semaphores and its fence, and
    /// the slot in use is one of the ring.
    pub open spec fn wf(self) -> bool {
        &&& 0 < self.spec_count() <= usize::MAX
        &&& self.image_availables.len() == self.spec_count()
        &&& self.render_finisheds.len() == self.spec_count()
        &&& self.draw_fences.len() == self.spec_count()
        &&& 0 <= self.current < self.spec_count()
    }

    /// What holds of the cycle at all times. From the wait for the fence
    /// on, the acquired slot is one of the ring. From the moment when the
    /// fence has been waited for until the submission is known to have been
    /// made, the acquired slot holds no submission.
    pub open spec fn inv(self) -> bool {
        &&& self.wf()
        &&& match self.phase {
            HalaFramePhase::WaitingFence | HalaFramePhase::Presenting => 0 <= self.image_index
                < self.spec_count(),
            HalaFramePhase::ResettingFence
            | HalaFramePhase::Recording
            | HalaFramePhase::Submitting => 0 <= self.image_index < self.spec_count()
                && !self.in_flight[self.image_index],
            _ => true,
        }
    }

    /// The cycle with another phase.
    pub open spec fn spec_at(self, phase: HalaFramePhase) -> HalaFrameModel {
        HalaFrameModel { phase, ..self }
    }

    /// The failure of a driver call: the cycle goes back to rest, and the
    /// error carries the message of the step and the result code.
    pub open spec fn spec_fail(self, msg: Seq<char>, code: i32) -> (HalaFrameModel, HalaFrameStepView) {
        (
            self.spec_at(HalaFramePhase::Idle),
            HalaFrameStepView::Failed(HalaGfxError::spec_vulkan(msg, code)),
        )
    }

    /// One step of the preparation of a frame: wait until the graphics
    /// queue is idle; acquire the next image, signalling the
    /// image-available semaphore of the slot in use; wait for the fence of
    /// the acquired slot, after which the slot holds no submission; reset
    /// that fence. Then the frame is prepared.
    pub open spec fn spec_prepare_frame(self, reply: HalaFrameReply) -> (
        HalaFrameModel,
        HalaFrameStepView,
    ) {
        match (self.phase, reply) {
            (HalaFramePhase::Idle, HalaFrameReply::Start) => (
                self.spec_at(HalaFramePhase::WaitingIdle),
                HalaFrameStepView::Call(HalaDeviceCall::QueueWaitIdle { queue: self.spec_queue() }),
            ),
            (HalaFramePhase::WaitingIdle, HalaFrameReply::Done) => (
                self.spec_at(HalaFramePhase::Acquiring),
                HalaFrameStepView::Call(
                    HalaDeviceCall::AcquireNextImage {
                        swapchain: self.swapchain,
                        timeout: u64::MAX,
                        semaphore: self.image_availables[self.current],
                        fence: 0,
                    },
                ),
            ),
            (HalaFramePhase::WaitingIdle, HalaFrameReply::Failed(code)) => self.spec_fail(
                "Failed to wait for queue idle."@,
                code,
            ),
            (HalaFramePhase::Acquiring, HalaFrameReply::ImageIndex(index)) => if index
                < self.spec_count() {
                (
                    HalaFrameModel {
                        phase: HalaFramePhase::WaitingFence,
                        image_index: index as int,
                        ..self
                    },
                    HalaFrameStepView::Call(
                        HalaDeviceCall::WaitForFence {
                            fence: self.draw_fences[index as int],
                            timeout: u64::MAX,
                        },
                    ),
                )
            } else {
                (
                    self.spec_at(HalaFramePhase::Idle),
                    HalaFrameStepView::Failed(
                        HalaGfxError::spec_plain(
                            "The acquired image is not one of the swapchain."@,
                        ),
                    ),
                )
            },
            (HalaFramePhase::Acquiring, HalaFrameReply::Failed(code)) => self.spec_fail(
                "Failed to acquire next image."@,
                code,
            ),
            (HalaFramePhase::WaitingFence, HalaFrameReply::Done) => (
                HalaFrameModel {
                    phase: HalaFramePhase::ResettingFence,
                    in_flight: self.in_flight.update(self.image_index, false),
                    ..self
                },
                HalaFrameStepView::Call(
                    HalaDeviceCall::ResetFence { fence: self.draw_fences[self.image_index] },
                ),
            ),
            (HalaFramePhase::WaitingFence, HalaFrameReply::Failed(code)) => self.spec_fail(
                "Failed to wait for fence."@,
                code,
            ),
            (HalaFramePhase::ResettingFence, HalaFrameReply::Done) => (
                self.spec_at(HalaFramePhase::Recording),
                HalaFrameStepView::Prepared(self.image_index as usize),
            ),
            (HalaFramePhase::ResettingFence, HalaFrameReply::Failed(code)) => self.spec_fail(
                "Failed to reset fence."@,
                code,
            ),
            _ => (self, spec_out_of_step()),
        }
    }

    /// One step of the submission and presentation of the prepared frame:
    /// submit the command buffer of the prepared slot, waiting at the colour
    /// attachment output stage for the image-available semaphore of the
    /// slot in use and signalling its render-finished semaphore and the
    /// fence of the prepared slot, which from then on holds a submission;
    /// present the image, waiting for the render-finished semaphore. Then
    /// the next slot of the ring comes into use.
    pub open spec fn spec_submit_and_present_frame(
        self,
        index: int,
        command_buffer: Option<u64>,
        reply: HalaFrameReply,
    ) -> (HalaFrameModel, HalaFrameStepView) {
        match (self.phase, reply) {
            (HalaFramePhase::Recording, HalaFrameReply::Start) => match command_buffer {
                Some(handle) => if index == self.image_index && index <= u32::MAX {
                    (
                        self.spec_at(HalaFramePhase::Submitting),
                        HalaFrameStepView::Call(
                            HalaDeviceCall::QueueSubmit {
                                queue: self.spec_queue(),
                                command_buffer: handle,
                                wait_semaphore: self.image_availables[self.current],
                                wait_stage_mask: HalaPipelineStageFlags(
                                    HalaPipelineStageFlags::COLOR_ATTACHMENT_OUTPUT,
                                ),
                                signal_semaphore: self.render_finisheds[self.current],
                                fence: self.draw_fences[index],
                            },
                        ),
                    )
                } else {
                    (self, spec_out_of_step())
                },
                None => (self, spec_out_of_step()),
            },
            (HalaFramePhase::Submitting, HalaFrameReply::Done) => (
                HalaFrameModel {
                    phase: HalaFramePhase::Presenting,
                    in_flight: self.in_flight.update(self.image_index, true),
                    ..self
                },
                HalaFrameStepView::Call(
                    HalaDeviceCall::QueuePresent {
                        queue: self.spec_queue(),
                        swapchain: self.swapchain,
                        image_index: self.image_index as u32,
                        wait_semaphore: self.render_finisheds[self.current],
                    },
                ),
            ),
            (HalaFramePhase::Submitting, HalaFrameReply::Failed(code)) => self.spec_fail(
                "Failed to submit queue."@,
                code,
            ),
            (HalaFramePhase::Presenting, HalaFrameReply::Done) => (
                HalaFrameModel {
                    phase: HalaFramePhase::Idle,
                    current: (self.current + 1) % self.spec_count(),
                    ..self
                },
                HalaFrameStepView::Presented,
            ),
            (HalaFramePhase::Presenting, HalaFrameReply::Failed(code)) => self.spec_fail(
                "Failed to present queue."@,
                code,
            ),
            _ => (self, spec_out_of_step()),
        }
    }

    /// The cycle and its answer after one input.
    pub open spec fn spec_step(self, input: HalaFrameInput) -> (HalaFrameModel, HalaFrameStepView) {
        match input {
            HalaFrameInput::Prepare(reply) => self.spec_prepare_frame(reply),
            HalaFrameInput::SubmitAndPresent {
                index,
                command_buffer,
                reply,
            } => self.spec_submit_and_present_frame(index, command_buffer, reply),
        }
    }

    /// The cycle after a list of inputs.
    pub open spec fn spec_run(self, inputs: Seq<HalaFrameInput>) -> HalaFrameModel
        decreases inputs.len(),
    {
        if inputs.len() == 0 {
            self
        } else {
            self.spec_run(inputs.drop_last()).spec_step(inputs.last()).0
        }
    }
}

/// Whether a step asks for the submission of a frame.
pub open spec fn spec_is_submission(step: HalaFrameStepView) -> bool {
    step matches HalaFrameStepView::Call(HalaDeviceCall::QueueSubmit { .. })
}

/// Every step of the cycle keeps what holds of it at all times.
pub proof fn lemma_step_keeps_invariant(frame: HalaFrameModel, input: HalaFrameInput)
    requires
        frame.inv(),
    ensures
        frame.spec_step(input).0.inv(),
        frame.spec_step(input).0.spec_count() == frame.spec_count(),
        frame.spec_step(input).0.draw_fences == frame.draw_fences,
        frame.spec_step(input).0.image_availables == frame.image_availables,
        frame.spec_step(input).0.render_finisheds == frame.render_finisheds,
        frame.spec_step(input).0.swapchain == frame.swapchain,
{
    let next = frame.spec_step(input).0;
    if next.current != frame.current {
        vstd::arithmetic::div_mod::lemma_mod_bound(frame.current + 1, frame.spec_count());
    }
}

/// A frame is submitted only on a slot that holds no submission, and with
/// the fence of that slot: when the submission is asked for, the fence of
/// the slot has been waited for since the slot was last submitted on.
pub proof fn lemma_submission_needs_free_slot(frame: HalaFrameModel, input: HalaFrameInput)
    requires
        frame.inv(),
        spec_is_submission(frame.spec_step(input).1),
    ensures
        0 <= frame.image_index < frame.spec_count(),
        !frame.in_flight[frame.image_index],
        frame.spec_step(input).1 matches HalaFrameStepView::Call(
            HalaDeviceCall::QueueSubmit { fence, .. },
        ) && fence == frame.draw_fences[frame.image_index],
{
}

/// A frame is announced as prepared only on a slot that holds no
/// submission: its command buffer is free to be recorded again.
pub proof fn lemma_prepared_slot_is_free(frame: HalaFrameModel, input: HalaFrameInput)
    requires
        frame.inv(),
        frame.spec_step(input).1 matches HalaFrameStepView::Prepared(_),
    ensures
        frame.spec_step(input).1 matches HalaFrameStepView::Prepared(index) && index
            == frame.image_index && 0 <= index < frame.spec_count()
            && !frame.spec_step(input).0.in_flight[index as int],
{
}

/// A slot comes to hold a submission only by the success of a submission
/// on it, and stops holding one only by the success of the wait for its
/// fence.
pub proof fn lemma_in_flight_changes(frame: HalaFrameModel, input: HalaFrameInput, slot: int)
    requires
        frame.inv(),
        0 <= slot < frame.spec_count(),
    ensures
        !frame.in_flight[slot] && frame.spec_step(input).0.in_flight[slot] ==> frame.phase
            == HalaFramePhase::Submitting && slot == frame.image_index,
        frame.in_flight[slot] && !frame.spec_step(input).0.in_flight[slot] ==> frame.phase
            == HalaFramePhase::WaitingFence && slot == frame.image_index,
{
}

/// Whatever happens to the cycle, for however many frames, what holds of it
/// at all times still holds.
pub proof fn lemma_run_keeps_invariant(frame: HalaFrameModel, inputs: Seq<HalaFrameInput>)
    requires
        frame.inv(),
    ensures
        frame.spec_run(inputs).inv(),
        frame.spec_run(inputs).spec_count() == frame.spec_count(),
        frame.spec_run(inputs).draw_fences == frame.draw_fences,
    decreases inputs.len(),
{
    if inputs.len() > 0 {
        lemma_run_keeps_invariant(frame, inputs.drop_last());
        lemma_step_keeps_invariant(frame.spec_run(inputs.drop_last()), inputs.last());
    }
}

/// Through any number of successive frames, whenever a frame is submitted,
/// its slot holds no submission and the fence that the submission signals
/// is the fence of its slot: no two submissions in flight ever share a
/// slot.
pub proof fn lemma_no_two_submissions_share_a_slot(
    frame: HalaFrameModel,
    inputs: Seq<HalaFrameInput>,
    k: int,
)
    requires
        frame.inv(),
        0 <= k < inputs.len(),
        spec_is_submission(frame.spec_run(inputs.subrange(0, k)).spec_step(inputs[k]).1),
    ensures
        ({
            let before = frame.spec_run(inputs.subrange(0, k));
            &&& 0 <= before.image_index < frame.spec_count()
            &&& !before.in_flight[before.image_index]
            &&& before.spec_step(inputs[k]).1 matches HalaFrameStepView::Call(
                HalaDeviceCall::QueueSubmit { fence, .. },
            ) && fence == frame.draw_fences[before.image_index]
        }),
{
    let before = frame.spec_run(inputs.subrange(0, k));
    lemma_run_keeps_invariant(frame, inputs.subrange(0, k));
    lemma_submission_needs_free_slot(before, inputs[k]);
}

} // verus!
