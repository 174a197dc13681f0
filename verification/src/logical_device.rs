//! The logical device: its queue families, its limits for ray tracing, and
//! the blocking submission.

use crate::command_buffer::{HalaCommandBufferSet, HalaCommandBufferType, HalaCommandBufferUsageFlags};
use crate::device::{HalaCallSequence, HalaDeviceCall, HalaQueue};
use crate::error::{HalaGfxError, HalaGfxErrorView};
use crate::model::{
    lemma_execute_concat, lemma_run_concat, lemma_run_push, lemma_run_recording,
    spec_complete_all, spec_execute_commands, spec_initial_command_buffer, spec_is_recording_for,
    HalaDeviceModel,
};
use crate::physical_device::HalaQueueFamily;
use crate::pipeline::HalaPipelineStageFlags;
use vstd::prelude::*;

verus! {

/// Where the memory of a resource lives and who can reach it.
#[derive(Clone, Copy, PartialEq, Eq, Structural, Debug, Hash)]
pub enum HalaMemoryLocation {
    Unknown,
    /// Memory of the device that the host cannot map.
    GpuOnly,
    /// Host-visible memory for data that goes to the device.
    CpuToGpu,
    /// Host-visible memory for data that comes back from the device.
    GpuToCpu,
}

/// The choice of one queue family: its index, if one was found, and its
/// number of queues.
pub struct HalaQueueFamilyChoice {
    pub index: Option<u32>,
    pub count: u32,
}

/// Whether a family can serve as the graphics family: it has a queue, draws
/// and presents to the surface.
pub open spec fn spec_graphics_candidate(family: HalaQueueFamily) -> bool {
    family.queue_count > 0 && family.queue_flags & HalaQueueFamily::GRAPHICS
        == HalaQueueFamily::GRAPHICS && family.supports_present
}

/// Whether a family has a queue with the capability `capability`.
pub open spec fn spec_capable(family: HalaQueueFamily, capability: u32) -> bool {
    family.queue_count > 0 && family.queue_flags & capability == capability
}

/// Whether a family is set apart from drawing, optical flow and video work.
pub open spec fn spec_dedicated(family: HalaQueueFamily) -> bool {
    family.queue_flags & HalaQueueFamily::GRAPHICS != HalaQueueFamily::GRAPHICS && family.queue_flags
        & HalaQueueFamily::OPTICAL_FLOW != HalaQueueFamily::OPTICAL_FLOW && family.queue_flags
        & HalaQueueFamily::VIDEO_DECODE != HalaQueueFamily::VIDEO_DECODE && family.queue_flags
        & HalaQueueFamily::VIDEO_ENCODE != HalaQueueFamily::VIDEO_ENCODE
}

/// The graphics family among the first `n` families: the first candidate
/// with the most queues.
pub open spec fn spec_choose_graphics(families: Seq<HalaQueueFamily>, n: nat) -> HalaQueueFamilyChoice
    decreases n,
{
    if n == 0 {
        HalaQueueFamilyChoice { index: None, count: 0 }
    } else {
        let before = spec_choose_graphics(families, (n - 1) as nat);
        let family = families[n - 1];
        if spec_graphics_candidate(family) && (before.index is None || family.queue_count
            > before.count) {
            HalaQueueFamilyChoice { index: Some((n - 1) as u32), count: family.queue_count }
        } else {
            before
        }
    }
}

/// The family for transfer or compute work among the first `n` families.
/// The first capable family is taken; a later capable family replaces the
/// choice if it is dedicated and either the choice is family zero or the
/// later family has more queues.
pub open spec fn spec_choose_dedicated(
    families: Seq<HalaQueueFamily>,
    capability: u32,
    n: nat,
) -> HalaQueueFamilyChoice
    decreases n,
{
    if n == 0 {
        HalaQueueFamilyChoice { index: None, count: 0 }
    } else {
        let before = spec_choose_dedicated(families, capability, (n - 1) as nat);
        let family = families[n - 1];
        if spec_capable(family, capability) && (before.index is None || ((before.index == Some(0u32)
            || family.queue_count > before.count) && spec_dedicated(family))) {
            HalaQueueFamilyChoice { index: Some((n - 1) as u32), count: family.queue_count }
        } else {
            before
        }
    }
}

/// The three chosen families as pairs of index and queue count, or the
/// error that names the first kind of queue that no family offers.
pub open spec fn spec_find_queue_family_indices(families: Seq<HalaQueueFamily>) -> Result<
    ((u32, u32), (u32, u32), (u32, u32)),
    HalaGfxErrorView,
> {
    let graphics = spec_choose_graphics(families, families.len());
    let transfer = spec_choose_dedicated(families, HalaQueueFamily::TRANSFER, families.len());
    let compute = spec_choose_dedicated(families, HalaQueueFamily::COMPUTE, families.len());
    if graphics.index is None {
        Err(HalaGfxError::spec_plain("Failed to find a graphics queue."@))
    } else if transfer.index is None {
        Err(HalaGfxError::spec_plain("Failed to find a transfer queue."@))
    } else if compute.index is None {
        Err(HalaGfxError::spec_plain("Failed to find a compute queue."@))
    } else {
        Ok(
            (
                (graphics.index->0, graphics.count),
                (transfer.index->0, transfer.count),
                (compute.index->0, compute.count),
            ),
        )
    }
}

/// The graphics family is a candidate, no candidate has more queues, and
/// every candidate before it has fewer.
pub proof fn lemma_graphics_choice_is_first_largest(families: Seq<HalaQueueFamily>, n: nat)
    requires
        n <= families.len(),
        n <= u32::MAX,
    ensures
        ({
            let choice = spec_choose_graphics(families, n);
            match choice.index {
                Some(chosen) => {
                    &&& chosen < n
                    &&& spec_graphics_candidate(families[chosen as int])
                    &&& choice.count == families[chosen as int].queue_count
                    &&& forall|i: int|
                        0 <= i < n && spec_graphics_candidate(#[trigger] families[i])
                            ==> families[i].queue_count <= choice.count
                    &&& forall|i: int|
                        0 <= i < chosen && spec_graphics_candidate(#[trigger] families[i])
                            ==> families[i].queue_count < choice.count
                },
                None => forall|i: int| 0 <= i < n ==> !spec_graphics_candidate(#[trigger] families[i]),
            }
        }),
    decreases n,
{
    if n > 0 {
        lemma_graphics_choice_is_first_largest(families, (n - 1) as nat);
    }
}

/// The logical device as far as this layer decides by it: the queue
/// families it was created with and the limits that ray tracing depends on.
#[derive(Clone, Copy, Debug)]
pub struct HalaLogicalDevice {
    pub graphics_queue_family_index: u32,
    pub transfer_queue_family_index: u32,
    pub compute_queue_family_index: u32,
    pub min_acceleration_structure_scratch_offset_alignment: u32,
    pub max_ray_recursion_depth: u32,
    pub shader_group_handle_size: u32,
    pub shader_group_handle_alignment: u32,
    pub shader_group_base_alignment: u32,
}

impl HalaLogicalDevice {
    /// The calls of one blocking submission: begin the command buffer for a
    /// single use, record, end, submit without semaphore or fence, wait
    /// until the queue is idle, reset the command buffer.
    pub open spec fn spec_execute_and_submit(
        command_buffer: u64,
        recording: Seq<HalaDeviceCall>,
        queue: HalaQueue,
    ) -> Seq<HalaDeviceCall> {
        seq![
            HalaDeviceCall::BeginCommandBuffer {
                command_buffer,
                usage_flags: HalaCommandBufferUsageFlags(HalaCommandBufferUsageFlags::ONE_TIME_SUBMIT),
            },
        ] + recording + seq![
            HalaDeviceCall::EndCommandBuffer { command_buffer },
            HalaDeviceCall::QueueSubmit {
                queue,
                command_buffer,
                wait_semaphore: 0,
                wait_stage_mask: HalaPipelineStageFlags(0),
                signal_semaphore: 0,
                fence: 0,
            },
            HalaDeviceCall::QueueWaitIdle { queue },
            HalaDeviceCall::ResetCommandBuffer { command_buffer, release_resources: false },
        ]
    }

    /// The queue that serves command buffers of the given type, if the type
    /// is one of the three that exist.
    pub open spec fn spec_queue_for(self, buffer_type: HalaCommandBufferType, queue_index: u32) -> Option<
        HalaQueue,
    > {
        if buffer_type.0 == HalaCommandBufferType::GRAPHICS {
            Some(HalaQueue { family_index: self.graphics_queue_family_index, queue_index })
        } else if buffer_type.0 == HalaCommandBufferType::TRANSFER {
            Some(HalaQueue { family_index: self.transfer_queue_family_index, queue_index })
        } else if buffer_type.0 == HalaCommandBufferType::COMPUTE {
            Some(HalaQueue { family_index: self.compute_queue_family_index, queue_index })
        } else {
            None
        }
    }

    /// Chooses the graphics, transfer and compute queue families among the
    /// families of a physical device, each given with its position as its
    /// index.
    pub fn find_queue_family_indices(families: &[HalaQueueFamily]) -> (result: Result<
        ((u32, u32), (u32, u32), (u32, u32)),
        HalaGfxError,
    >)
        requires
            families@.len() <= u32::MAX,
        ensures
            match result {
                Ok(pairs) => spec_find_queue_family_indices(families@) == Ok::<_, HalaGfxErrorView>(
                    pairs,
                ),
                Err(e) => spec_find_queue_family_indices(families@) == Err::<
                    ((u32, u32), (u32, u32), (u32, u32)),
                    _,
                >(e@),
            },
    {
        let mut graphics: Option<u32> = None;
        let mut graphics_count: u32 = 0;
        let mut transfer: Option<u32> = None;
        let mut transfer_count: u32 = 0;
        let mut compute: Option<u32> = None;
        let mut compute_count: u32 = 0;
        let mut i: usize = 0;
        while i < families.len()
            invariant
                i <= families@.len() <= u32::MAX,
                spec_choose_graphics(families@, i as nat) == (HalaQueueFamilyChoice {
                    index: graphics,
                    count: graphics_count,
                }),
                spec_choose_dedicated(families@, HalaQueueFamily::TRANSFER, i as nat) == (
                HalaQueueFamilyChoice { index: transfer, count: transfer_count }),
                spec_choose_dedicated(families@, HalaQueueFamily::COMPUTE, i as nat) == (
                HalaQueueFamilyChoice { index: compute, count: compute_count }),
            decreases families@.len() - i,
        {
            let family = families[i];
            let has_queue = family.queue_count > 0;
            let draws = family.queue_flags & HalaQueueFamily::GRAPHICS == HalaQueueFamily::GRAPHICS;
            let dedicated = !draws && family.queue_flags & HalaQueueFamily::OPTICAL_FLOW
                != HalaQueueFamily::OPTICAL_FLOW && family.queue_flags
                & HalaQueueFamily::VIDEO_DECODE != HalaQueueFamily::VIDEO_DECODE
                && family.queue_flags & HalaQueueFamily::VIDEO_ENCODE
                != HalaQueueFamily::VIDEO_ENCODE;
            if has_queue && draws && family.supports_present && (graphics.is_none()
                || family.queue_count > graphics_count) {
                graphics = Some(i as u32);
                graphics_count = family.queue_count;
            }
            if has_queue && family.queue_flags & HalaQueueFamily::TRANSFER
                == HalaQueueFamily::TRANSFER && (match transfer {
                None => true,
                Some(found) => (found == 0 || family.queue_count > transfer_count) && dedicated,
            }) {
                transfer = Some(i as u32);
                transfer_count = family.queue_count;
            }
            if has_queue && family.queue_flags & HalaQueueFamily::COMPUTE == HalaQueueFamily::COMPUTE
                && (match compute {
                None => true,
                Some(found) => (found == 0 || family.queue_count > compute_count) && dedicated,
            }) {
                compute = Some(i as u32);
                compute_count = family.queue_count;
            }
            i = i + 1;
        }
        match (graphics, transfer, compute) {
            (None, _, _) => Err(HalaGfxError::new("Failed to find a graphics queue.", None)),
            (Some(_), None, _) => Err(HalaGfxError::new("Failed to find a transfer queue.", None)),
            (Some(_), Some(_), None) => Err(
                HalaGfxError::new("Failed to find a compute queue.", None),
            ),
            (Some(g), Some(t), Some(c)) => Ok(
                ((g, graphics_count), (t, transfer_count), (c, compute_count)),
            ),
        }
    }

    /// The queue families that the device is created with queues of: the
    /// graphics family, then the transfer family and the compute family as
    /// far as they differ from the families before them.
    pub open spec fn spec_queue_create_families(graphics: u32, transfer: u32, compute: u32) -> Seq<
        u32,
    > {
        seq![graphics] + (if transfer != graphics {
            seq![transfer]
        } else {
            Seq::<u32>::empty()
        }) + (if compute != graphics && compute != transfer {
            seq![compute]
        } else {
            Seq::<u32>::empty()
        })
    }

    /// The queue families that the device is created with queues of, each
    /// family once.
    pub fn queue_create_families(graphics: u32, transfer: u32, compute: u32) -> (families: Vec<u32>)
        ensures
            families@ == Self::spec_queue_create_families(graphics, transfer, compute),
    {
        let mut families: Vec<u32> = Vec::new();
        families.push(graphics);
        if transfer != graphics {
            families.push(transfer);
        }
        if compute != graphics && compute != transfer {
            families.push(compute);
        }
        families
    }

    /// The queue `queue_index` of the family `queue_family_index`.
    pub fn get_queue(&self, queue_family_index: u32, queue_index: u32) -> (queue: HalaQueue)
        ensures
            queue == (HalaQueue { family_index: queue_family_index, queue_index }),
    {
        HalaQueue { family_index: queue_family_index, queue_index }
    }

    /// The queue `queue_index` of the graphics family.
    pub fn get_graphics_queue(&self, queue_index: u32) -> (queue: HalaQueue)
        ensures
            queue == (HalaQueue { family_index: self.graphics_queue_family_index, queue_index }),
    {
        self.get_queue(self.graphics_queue_family_index, queue_index)
    }

    /// The queue `queue_index` of the transfer family.
    pub fn get_transfer_queue(&self, queue_index: u32) -> (queue: HalaQueue)
        ensures
            queue == (HalaQueue { family_index: self.transfer_queue_family_index, queue_index }),
    {
        self.get_queue(self.transfer_queue_family_index, queue_index)
    }

    /// The queue `queue_index` of the compute family.
    pub fn get_compute_queue(&self, queue_index: u32) -> (queue: HalaQueue)
        ensures
            queue == (HalaQueue { family_index: self.compute_queue_family_index, queue_index }),
    {
        self.get_queue(self.compute_queue_family_index, queue_index)
    }

    /// The queue that serves command buffers of the given type, if the type
    /// is one of the three that exist.
    pub fn queue_for(&self, buffer_type: HalaCommandBufferType, queue_index: u32) -> (queue: Option<
        HalaQueue,
    >)
        ensures
            queue == self.spec_queue_for(buffer_type, queue_index),
    {
        let raw: i32 = buffer_type.as_raw();
        if raw == HalaCommandBufferType::GRAPHICS {
            Some(self.get_graphics_queue(queue_index))
        } else if raw == HalaCommandBufferType::TRANSFER {
            Some(self.get_transfer_queue(queue_index))
        } else if raw == HalaCommandBufferType::COMPUTE {
            Some(self.get_compute_queue(queue_index))
        } else {
            None
        }
    }

    /// Lays out one blocking submission of the command buffer at `index`:
    /// begin it for a single use, make the calls of `recording`, end it,
    /// submit it to `queue` with no semaphore, wait until the queue is idle,
    /// then reset it. The calls are made through the returned sequence, which
    /// stops at the first that fails: a command buffer whose submission
    /// failed is left as it is, not reset.
    pub fn execute_and_submit(
        &self,
        command_buffers: &HalaCommandBufferSet,
        index: usize,
        recording: Vec<HalaDeviceCall>,
        queue: HalaQueue,
    ) -> (sequence: HalaCallSequence)
        requires
            index < command_buffers.raw@.len(),
        ensures
            sequence.spec_position() == 0,
            !sequence.spec_failed(),
            sequence.spec_calls() == Self::spec_execute_and_submit(
                command_buffers.raw@[index as int],
                recording@,
                queue,
            ),
    {
        let command_buffer: u64 = command_buffers.raw[index];
        let mut calls: Vec<HalaDeviceCall> = Vec::new();
        calls.push(command_buffers.begin(index, HalaCommandBufferUsageFlags::from_raw(
            HalaCommandBufferUsageFlags::ONE_TIME_SUBMIT,
        )));
        let mut recording = recording;
        calls.append(&mut recording);
        calls.push(command_buffers.end(index));
        calls.push(self.submit(command_buffers, index, queue));
        calls.push(self.wait(queue));
        calls.push(command_buffers.reset(index, false));
        HalaCallSequence::new(calls)
    }

    /// One blocking submission to the transfer queue `queue_index`.
    pub fn transfer_execute_and_submit(
        &self,
        command_buffers: &HalaCommandBufferSet,
        buffer_index: usize,
        recording: Vec<HalaDeviceCall>,
        queue_index: u32,
    ) -> (sequence: HalaCallSequence)
        requires
            buffer_index < command_buffers.raw@.len(),
        ensures
            sequence.spec_position() == 0,
            !sequence.spec_failed(),
            sequence.spec_calls() == Self::spec_execute_and_submit(
                command_buffers.raw@[buffer_index as int],
                recording@,
                HalaQueue { family_index: self.transfer_queue_family_index, queue_index },
            ),
    {
        self.execute_and_submit(
            command_buffers,
            buffer_index,
            recording,
            self.get_transfer_queue(queue_index),
        )
    }

    /// One blocking submission to the graphics queue `queue_index`.
    pub fn graphics_execute_and_submit(
        &self,
        command_buffers: &HalaCommandBufferSet,
        buffer_index: usize,
        recording: Vec<HalaDeviceCall>,
        queue_index: u32,
    ) -> (sequence: HalaCallSequence)
        requires
            buffer_index < command_buffers.raw@.len(),
        ensures
            sequence.spec_position() == 0,
            !sequence.spec_failed(),
            sequence.spec_calls() == Self::spec_execute_and_submit(
                command_buffers.raw@[buffer_index as int],
                recording@,
                HalaQueue { family_index: self.graphics_queue_family_index, queue_index },
            ),
    {
        self.execute_and_submit(
            command_buffers,
            buffer_index,
            recording,
            self.get_graphics_queue(queue_index),
        )
    }

    /// One blocking submission to the compute queue `queue_index`.
    pub fn compute_execute_and_submit(
        &self,
        command_buffers: &HalaCommandBufferSet,
        buffer_index: usize,
        recording: Vec<HalaDeviceCall>,
        queue_index: u32,
    ) -> (sequence: HalaCallSequence)
        requires
            buffer_index < command_buffers.raw@.len(),
        ensures
            sequence.spec_position() == 0,
            !sequence.spec_failed(),
            sequence.spec_calls() == Self::spec_execute_and_submit(
                command_buffers.raw@[buffer_index as int],
                recording@,
                HalaQueue { family_index: self.compute_queue_family_index, queue_index },
            ),
    {
        self.execute_and_submit(
            command_buffers,
            buffer_index,
            recording,
            self.get_compute_queue(queue_index),
        )
    }

    /// The submission of the command buffer at `index` to `queue`, with no
    /// semaphore to wait for or to signal and no fence.
    pub fn submit(&self, command_buffers: &HalaCommandBufferSet, index: usize, queue: HalaQueue) -> (call:
        HalaDeviceCall)
        requires
            index < command_buffers.raw@.len(),
        ensures
            call == (HalaDeviceCall::QueueSubmit {
                queue,
                command_buffer: command_buffers.raw@[index as int],
                wait_semaphore: 0,
                wait_stage_mask: HalaPipelineStageFlags(0),
                signal_semaphore: 0,
                fence: 0,
            }),
    {
        HalaDeviceCall::QueueSubmit {
            queue,
            command_buffer: command_buffers.raw[index],
            wait_semaphore: 0,
            wait_stage_mask: HalaPipelineStageFlags::empty(),
            signal_semaphore: 0,
            fence: 0,
        }
    }

    /// The submission of the command buffer at `index` to the graphics queue
    /// `queue_index`.
    pub fn graphics_submit(&self, command_buffers: &HalaCommandBufferSet, index: usize, queue_index: u32) -> (call:
        HalaDeviceCall)
        requires
            index < command_buffers.raw@.len(),
        ensures
            call == (HalaDeviceCall::QueueSubmit {
                queue: HalaQueue { family_index: self.graphics_queue_family_index, queue_index },
                command_buffer: command_buffers.raw@[index as int],
                wait_semaphore: 0,
                wait_stage_mask: HalaPipelineStageFlags(0),
                signal_semaphore: 0,
                fence: 0,
            }),
    {
        self.submit(command_buffers, index, self.get_graphics_queue(queue_index))
    }

    /// The submission of the command buffer at `index` to the transfer queue
    /// `queue_index`.
    pub fn transfer_submit(&self, command_buffers: &HalaCommandBufferSet, index: usize, queue_index: u32) -> (call:
        HalaDeviceCall)
        requires
            index < command_buffers.raw@.len(),
        ensures
            call == (HalaDeviceCall::QueueSubmit {
                queue: HalaQueue { family_index: self.transfer_queue_family_index, queue_index },
                command_buffer: command_buffers.raw@[index as int],
                wait_semaphore: 0,
                wait_stage_mask: HalaPipelineStageFlags(0),
                signal_semaphore: 0,
                fence: 0,
            }),
    {
        self.submit(command_buffers, index, self.get_transfer_queue(queue_index))
    }

    /// The submission of the command buffer at `index` to the compute queue
    /// `queue_index`.
    pub fn compute_submit(&self, command_buffers: &HalaCommandBufferSet, index: usize, queue_index: u32) -> (call:
        HalaDeviceCall)
        requires
            index < command_buffers.raw@.len(),
        ensures
            call == (HalaDeviceCall::QueueSubmit {
                queue: HalaQueue { family_index: self.compute_queue_family_index, queue_index },
                command_buffer: command_buffers.raw@[index as int],
                wait_semaphore: 0,
                wait_stage_mask: HalaPipelineStageFlags(0),
                signal_semaphore: 0,
                fence: 0,
            }),
    {
        self.submit(command_buffers, index, self.get_compute_queue(queue_index))
    }

    /// The wait that blocks until `queue` is idle.
    pub fn wait(&self, queue: HalaQueue) -> (call: HalaDeviceCall)
        ensures
            call == (HalaDeviceCall::QueueWaitIdle { queue }),
    {
        HalaDeviceCall::QueueWaitIdle { queue }
    }

    /// The wait that blocks until the graphics queue `queue_index` is idle.
    pub fn graphics_wait(&self, queue_index: u32) -> (call: HalaDeviceCall)
        ensures
            call == (HalaDeviceCall::QueueWaitIdle {
                queue: HalaQueue { family_index: self.graphics_queue_family_index, queue_index },
            }),
    {
        self.wait(self.get_graphics_queue(queue_index))
    }

    /// The wait that blocks until the transfer queue `queue_index` is idle.
    pub fn transfer_wait(&self, queue_index: u32) -> (call: HalaDeviceCall)
        ensures
            call == (HalaDeviceCall::QueueWaitIdle {
                queue: HalaQueue { family_index: self.transfer_queue_family_index, queue_index },
            }),
    {
        self.wait(self.get_transfer_queue(queue_index))
    }

    /// The wait that blocks until the compute queue `queue_index` is idle.
    pub fn compute_wait(&self, queue_index: u32) -> (call: HalaDeviceCall)
        ensures
            call == (HalaDeviceCall::QueueWaitIdle {
                queue: HalaQueue { family_index: self.compute_queue_family_index, queue_index },
            }),
    {
        self.wait(self.get_compute_queue(queue_index))
    }

    /// The wait that blocks until the whole device is idle.
    pub fn wait_idle(&self) -> (call: HalaDeviceCall)
        ensures
            call == HalaDeviceCall::DeviceWaitIdle,
    {
        HalaDeviceCall::DeviceWaitIdle
    }
}

/// The device after one blocking submission whose calls all succeed: the
/// recorded commands have been executed, every submission that was pending
/// has completed, and the command buffer is back in its initial state.
pub open spec fn spec_after_execute_and_submit(
    device: HalaDeviceModel,
    command_buffer: u64,
    recording: Seq<HalaDeviceCall>,
) -> HalaDeviceModel {
    HalaDeviceModel {
        command_buffers: spec_complete_all(device.command_buffers).insert(
            command_buffer,
            spec_initial_command_buffer(),
        ),
        buffers: spec_execute_commands(device.buffers, recording),
    }
}

/// A blocking submission on a command buffer that is neither recording nor
/// in flight makes only calls that the rules of the driver allow, and leaves
/// the device as `spec_after_execute_and_submit` says.
pub proof fn lemma_execute_and_submit_runs(
    device: HalaDeviceModel,
    command_buffer: u64,
    recording: Seq<HalaDeviceCall>,
    queue: HalaQueue,
)
    requires
        device.spec_not_in_flight(command_buffer),
        !(device.command_buffers[command_buffer].state is Recording),
        spec_is_recording_for(recording, command_buffer),
    ensures
        device.spec_allows_all(
            HalaLogicalDevice::spec_execute_and_submit(command_buffer, recording, queue),
        ),
        device.spec_run(HalaLogicalDevice::spec_execute_and_submit(command_buffer, recording, queue))
            == spec_after_execute_and_submit(device, command_buffer, recording),
{
    let begin = HalaDeviceCall::BeginCommandBuffer {
        command_buffer,
        usage_flags: HalaCommandBufferUsageFlags(HalaCommandBufferUsageFlags::ONE_TIME_SUBMIT),
    };
    let end = HalaDeviceCall::EndCommandBuffer { command_buffer };
    let submit = HalaDeviceCall::QueueSubmit {
        queue,
        command_buffer,
        wait_semaphore: 0,
        wait_stage_mask: HalaPipelineStageFlags(0),
        signal_semaphore: 0,
        fence: 0,
    };
    let wait = HalaDeviceCall::QueueWaitIdle { queue };
    let reset = HalaDeviceCall::ResetCommandBuffer { command_buffer, release_resources: false };
    let calls = HalaLogicalDevice::spec_execute_and_submit(command_buffer, recording, queue);
    let none = Seq::<HalaDeviceCall>::empty();
    let c1 = none.push(begin);
    let c2 = c1 + recording;
    let c3 = c2.push(end);
    let c4 = c3.push(submit);
    let c5 = c4.push(wait);
    let c6 = c5.push(reset);
    assert(calls =~= c6);

    lemma_run_push(device, none, begin);
    let d1 = device.spec_run(c1);
    lemma_run_concat(device, c1, recording);
    lemma_run_recording(d1, command_buffer, recording);
    lemma_allows_concat(device, c1, recording);
    let d2 = device.spec_run(c2);
    lemma_run_push(device, c2, end);
    lemma_run_push(device, c3, submit);
    lemma_run_push(device, c4, wait);
    lemma_run_push(device, c5, reset);
    let d6 = device.spec_run(c6);
    assert(d6.command_buffers =~= spec_after_execute_and_submit(
        device,
        command_buffer,
        recording,
    ).command_buffers);
}

/// The rules allow a concatenation if they allow its first part and then,
/// from where that leaves the device, its second part.
pub proof fn lemma_allows_concat(
    device: HalaDeviceModel,
    first: Seq<HalaDeviceCall>,
    second: Seq<HalaDeviceCall>,
)
    requires
        device.spec_allows_all(first),
        device.spec_run(first).spec_allows_all(second),
    ensures
        device.spec_allows_all(first + second),
    decreases second.len(),
{
    if second.len() == 0 {
    } else {
        assert((first + second).drop_last() =~= first + second.drop_last());
        lemma_allows_concat(device, first, second.drop_last());
        lemma_run_concat(device, first, second.drop_last());
    }
}

/// Two blocking submissions on one command buffer, one after the other,
/// leave the device as a single submission does that holds both recordings
/// in one buffer.
pub proof fn lemma_two_submissions_equal_one_combined(
    device: HalaDeviceModel,
    command_buffer: u64,
    first: Seq<HalaDeviceCall>,
    second: Seq<HalaDeviceCall>,
    queue: HalaQueue,
)
    requires
        device.spec_not_in_flight(command_buffer),
        !(device.command_buffers[command_buffer].state is Recording),
        spec_is_recording_for(first, command_buffer),
        spec_is_recording_for(second, command_buffer),
    ensures
        device.spec_run(HalaLogicalDevice::spec_execute_and_submit(command_buffer, first, queue))
            .spec_run(HalaLogicalDevice::spec_execute_and_submit(command_buffer, second, queue))
            == device.spec_run(
            HalaLogicalDevice::spec_execute_and_submit(command_buffer, first + second, queue),
        ),
{
    lemma_execute_and_submit_runs(device, command_buffer, first, queue);
    let middle = spec_after_execute_and_submit(device, command_buffer, first);
    lemma_execute_and_submit_runs(middle, command_buffer, second, queue);
    assert(spec_is_recording_for(first + second, command_buffer));
    lemma_execute_and_submit_runs(device, command_buffer, first + second, queue);
    lemma_execute_concat(device.buffers, first, second);
    let twice = spec_after_execute_and_submit(middle, command_buffer, second);
    let once = spec_after_execute_and_submit(device, command_buffer, first + second);
    assert(twice.command_buffers =~= once.command_buffers);
}

} // verus!
