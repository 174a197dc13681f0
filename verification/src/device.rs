//! The calls into the native driver as plain values, and sequences of calls
//! that stop at the first failure.

use crate::barrier::{
    HalaBufferBarrierInfo, HalaImageBarrierInfo, HalaImageLayout, HalaMemoryBarrierInfo,
};
use crate::acceleration_structure::HalaIndexType;
use crate::command_buffer::{HalaCommandBufferUsageFlags, HalaSubpassContents};
use crate::error::HalaGfxError;
use crate::pipeline::{
    HalaCompareOp, HalaPipelineStageFlags, HalaPipelineStageFlags2, HalaStencilFaceFlags,
    HalaStencilOp,
};
use crate::renderpass::{HalaAttachmentLoadOp, HalaAttachmentStoreOp, HalaPipelineBindPoint};
use crate::shader::HalaShaderStageFlags;
use crate::shader_binding_table::HalaStridedDeviceAddressRegion;
use vstd::prelude::*;

verus! {

/// A queue of the device, named by its family and its index in the family.
/// The driver resolves the pair to a queue handle.
#[derive(Clone, Copy, PartialEq, Eq, Structural, Debug)]
pub struct HalaQueue {
    pub family_index: u32,
    pub queue_index: u32,
}

/// The kinds of native objects that this layer destroys.
#[derive(Clone, Copy, PartialEq, Eq, Structural, Debug, Hash)]
pub enum HalaObjectKind {
    Fence,
    Semaphore,
    ImageView,
    Image,
    DeviceMemory,
    Swapchain,
    Buffer,
    Allocation,
    AccelerationStructure,
    QueryPool,
    CommandPool,
    Surface,
    Device,
    Instance,
    RenderPass,
    Framebuffer,
}

/// The value that an attachment is cleared to. Floating-point components are
/// held by their IEEE-754 bit patterns.
#[derive(Clone, Copy, PartialEq, Eq, Structural, Debug)]
pub enum HalaClearValue {
    Color { red: u32, green: u32, blue: u32, alpha: u32 },
    DepthStencil { depth: u32, stencil: u32 },
}

/// One attachment of a dynamic rendering pass.
#[derive(Clone, Copy, PartialEq, Eq, Structural, Debug)]
pub struct HalaRenderingAttachmentInfo {
    pub image_view: u64,
    pub image_layout: HalaImageLayout,
    pub load_op: HalaAttachmentLoadOp,
    pub store_op: HalaAttachmentStoreOp,
    pub clear_value: HalaClearValue,
}

/// One command that is recorded into a command buffer. Handles are raw
/// 64-bit values, zero being the null handle.
#[derive(Clone, Debug, PartialEq, Eq)]
pub enum HalaCommand {
    PipelineBarrier {
        image_barriers: Vec<HalaImageBarrierInfo>,
        buffer_barriers: Vec<HalaBufferBarrierInfo>,
        memory_barriers: Vec<HalaMemoryBarrierInfo>,
    },
    CopyBuffer { src_buffer: u64, dst_buffer: u64, src_offset: u64, dst_offset: u64, size: u64 },
    /// Copies a tightly packed buffer into the first mip level and layer of
    /// the colour aspect of an image.
    CopyBufferToImage {
        src_buffer: u64,
        dst_image: u64,
        dst_image_layout: HalaImageLayout,
        width: u32,
        height: u32,
        depth: u32,
    },
    /// Copies the first mip level and layer of the colour aspect of an image
    /// into a buffer, tightly packed.
    CopyImageToBuffer {
        src_image: u64,
        src_image_layout: HalaImageLayout,
        dst_buffer: u64,
        width: u32,
        height: u32,
        depth: u32,
    },
    /// Copies the first mip level and layer of the colour aspect of one
    /// image to another.
    CopyImage {
        src_image: u64,
        src_image_layout: HalaImageLayout,
        dst_image: u64,
        dst_image_layout: HalaImageLayout,
        width: u32,
        height: u32,
    },
    /// Scales one mip level of an image into another level of the same
    /// image; the source is read in the transfer-source layout and the
    /// destination written in the transfer-destination layout.
    BlitImage {
        image: u64,
        src_mip_level: u32,
        src_width: u32,
        src_height: u32,
        dst_mip_level: u32,
        dst_width: u32,
        dst_height: u32,
    },
    ResetQueryPool { query_pool: u64, first_query: u32, query_count: u32 },
    WriteTimestamp { stage_flags: HalaPipelineStageFlags2, query_pool: u64, query: u32 },
    BeginRendering {
        x: i32,
        y: i32,
        width: u32,
        height: u32,
        layer_count: u32,
        color_attachments: Vec<HalaRenderingAttachmentInfo>,
        depth_attachment: Option<HalaRenderingAttachmentInfo>,
        stencil_attachment: Option<HalaRenderingAttachmentInfo>,
    },
    EndRendering,
    /// Begins a render pass on one of its framebuffers. The clear values
    /// stand in the order of the attachments.
    BeginRenderPass {
        render_pass: u64,
        framebuffer: u64,
        x: i32,
        y: i32,
        width: u32,
        height: u32,
        clear_values: Vec<HalaClearValue>,
        contents: HalaSubpassContents,
    },
    EndRenderPass,
    /// Builds an acceleration structure from the geometry that its owner
    /// declared, with scratch memory at the given device address.
    BuildAccelerationStructure { acceleration_structure: u64, scratch_address: u64 },
    SetScissor { first_scissor: u32, scissors: Vec<(i32, i32, u32, u32)> },
    SetDepthTestEnable { enable: bool },
    SetDepthWriteEnable { enable: bool },
    SetDepthCompareOp { op: HalaCompareOp },
    SetStencilTestEnable { enable: bool },
    SetStencilOp {
        face_mask: HalaStencilFaceFlags,
        fail_op: HalaStencilOp,
        pass_op: HalaStencilOp,
        depth_fail_op: HalaStencilOp,
        compare_op: HalaCompareOp,
    },
    SetStencilCompareMask { face_mask: HalaStencilFaceFlags, compare_mask: u32 },
    SetStencilWriteMask { face_mask: HalaStencilFaceFlags, write_mask: u32 },
    SetStencilReference { face_mask: HalaStencilFaceFlags, reference: u32 },
    PushConstants {
        pipeline_layout: u64,
        stage_flags: HalaShaderStageFlags,
        offset: u32,
        data: Vec<u8>,
    },
    Draw { vertex_count: u32, instance_count: u32, first_vertex: u32, first_instance: u32 },
    DrawIndexed {
        index_count: u32,
        instance_count: u32,
        first_index: u32,
        vertex_offset: i32,
        first_instance: u32,
    },
    DrawIndirect { buffer: u64, offset: u64, draw_count: u32, stride: u32 },
    DrawIndexedIndirect { buffer: u64, offset: u64, draw_count: u32, stride: u32 },
    DrawIndirectCount {
        buffer: u64,
        offset: u64,
        count_buffer: u64,
        count_buffer_offset: u64,
        max_draw_count: u32,
        stride: u32,
    },
    DrawIndexedIndirectCount {
        buffer: u64,
        offset: u64,
        count_buffer: u64,
        count_buffer_offset: u64,
        max_draw_count: u32,
        stride: u32,
    },
    DrawMeshTasks { group_count_x: u32, group_count_y: u32, group_count_z: u32 },
    DrawMeshTasksIndirect { buffer: u64, offset: u64, draw_count: u32, stride: u32 },
    DrawMeshTasksIndirectCount {
        buffer: u64,
        offset: u64,
        count_buffer: u64,
        count_buffer_offset: u64,
        max_draw_count: u32,
        stride: u32,
    },
    Dispatch { group_count_x: u32, group_count_y: u32, group_count_z: u32 },
    DispatchIndirect { buffer: u64, offset: u64 },
    BindPipeline { bind_point: HalaPipelineBindPoint, pipeline: u64 },
    BindDescriptorSets {
        bind_point: HalaPipelineBindPoint,
        pipeline_layout: u64,
        first_set: u32,
        descriptor_sets: Vec<u64>,
        dynamic_offsets: Vec<u32>,
    },
    BindVertexBuffers { first_binding: u32, buffers: Vec<u64>, offsets: Vec<u64> },
    BindIndexBuffer { buffer: u64, offset: u64, index_type: HalaIndexType },
    TraceRays {
        raygen_region: HalaStridedDeviceAddressRegion,
        miss_region: HalaStridedDeviceAddressRegion,
        hit_region: HalaStridedDeviceAddressRegion,
        callable_region: HalaStridedDeviceAddressRegion,
        width: u32,
        height: u32,
        depth: u32,
    },
    TraceRaysIndirect {
        raygen_region: HalaStridedDeviceAddressRegion,
        miss_region: HalaStridedDeviceAddressRegion,
        hit_region: HalaStridedDeviceAddressRegion,
        callable_region: HalaStridedDeviceAddressRegion,
        indirect_device_address: u64,
    },
    SetRayTracingPipelineStackSize { pipeline_stack_size: u32 },
    EndDebugLabel,
}

/// One call into the native driver, as a plain value. The layer decides
/// which calls are made, in which order and with which arguments; whoever
/// owns the driver performs them. Handles are raw 64-bit values, zero being
/// the null handle.
#[derive(Clone, Debug, PartialEq, Eq)]
pub enum HalaDeviceCall {
    BeginCommandBuffer { command_buffer: u64, usage_flags: HalaCommandBufferUsageFlags },
    EndCommandBuffer { command_buffer: u64 },
    ResetCommandBuffer { command_buffer: u64, release_resources: bool },
    /// Records one command into a command buffer. Such a call returns
    /// nothing, so it cannot fail.
    Record { command_buffer: u64, command: HalaCommand },
    /// Submits one command buffer. A null semaphore or fence is left out of
    /// the submission.
    QueueSubmit {
        queue: HalaQueue,
        command_buffer: u64,
        wait_semaphore: u64,
        wait_stage_mask: HalaPipelineStageFlags,
        signal_semaphore: u64,
        fence: u64,
    },
    QueueWaitIdle { queue: HalaQueue },
    DeviceWaitIdle,
    AcquireNextImage { swapchain: u64, timeout: u64, semaphore: u64, fence: u64 },
    WaitForFence { fence: u64, timeout: u64 },
    ResetFence { fence: u64 },
    QueuePresent { queue: HalaQueue, swapchain: u64, image_index: u32, wait_semaphore: u64 },
    Destroy { kind: HalaObjectKind, handle: u64 },
    /// Returns every command buffer of a set to the pool that it was taken
    /// from, in one call.
    FreeCommandBuffers { command_pool: u64, command_buffers: Vec<u64> },
}

impl HalaDeviceCall {
    /// Whether the call records a command into a command buffer.
    pub open spec fn spec_is_command(self) -> bool {
        self is Record
    }

    /// The command buffer that a call records into, begins, ends, resets or
    /// submits; zero for a call that names none.
    pub open spec fn spec_command_buffer(self) -> u64 {
        match self {
            HalaDeviceCall::BeginCommandBuffer { command_buffer, .. }
            | HalaDeviceCall::EndCommandBuffer { command_buffer }
            | HalaDeviceCall::ResetCommandBuffer { command_buffer, .. }
            | HalaDeviceCall::Record { command_buffer, .. }
            | HalaDeviceCall::QueueSubmit { command_buffer, .. } => command_buffer,
            _ => 0,
        }
    }

    /// The message of the error that reports a failure of the call.
    pub open spec fn spec_failure_message(self) -> Seq<char> {
        match self {
            HalaDeviceCall::BeginCommandBuffer { .. } => "Failed to begin the command buffer."@,
            HalaDeviceCall::EndCommandBuffer { .. } => "Failed to end the command buffer."@,
            HalaDeviceCall::ResetCommandBuffer { .. } => "Failed to reset the command buffer."@,
            HalaDeviceCall::Record { .. } => "Failed to record the command."@,
            HalaDeviceCall::QueueSubmit { .. } => "Failed to submit queue."@,
            HalaDeviceCall::QueueWaitIdle { .. } => "Failed to wait queue idle."@,
            HalaDeviceCall::DeviceWaitIdle => "Failed to wait idle."@,
            HalaDeviceCall::AcquireNextImage { .. } => "Failed to acquire next image."@,
            HalaDeviceCall::WaitForFence { .. } => "Failed to wait for fence."@,
            HalaDeviceCall::ResetFence { .. } => "Failed to reset fence."@,
            HalaDeviceCall::QueuePresent { .. } => "Failed to present queue."@,
            HalaDeviceCall::Destroy { .. } => "Failed to destroy the object."@,
            HalaDeviceCall::FreeCommandBuffers { .. } => "Failed to free the command buffers."@,
        }
    }

    /// Whether the call records a command into a command buffer.
    pub fn is_command(&self) -> (b: bool)
        ensures
            b == self.spec_is_command(),
    {
        match self {
            HalaDeviceCall::Record { .. } => true,
            _ => false,
        }
    }

    /// The error that reports that the driver answered the call with the
    /// result code `code`: the message of the call, caused by the code.
    pub fn failure(&self, code: i32) -> (e: HalaGfxError)
        ensures
            e@ == HalaGfxError::spec_vulkan(self.spec_failure_message(), code),
    {
        let msg = match self {
            HalaDeviceCall::BeginCommandBuffer { .. } => "Failed to begin the command buffer.",
            HalaDeviceCall::EndCommandBuffer { .. } => "Failed to end the command buffer.",
            HalaDeviceCall::ResetCommandBuffer { .. } => "Failed to reset the command buffer.",
            HalaDeviceCall::Record { .. } => "Failed to record the command.",
            HalaDeviceCall::QueueSubmit { .. } => "Failed to submit queue.",
            HalaDeviceCall::QueueWaitIdle { .. } => "Failed to wait queue idle.",
            HalaDeviceCall::DeviceWaitIdle => "Failed to wait idle.",
            HalaDeviceCall::AcquireNextImage { .. } => "Failed to acquire next image.",
            HalaDeviceCall::WaitForFence { .. } => "Failed to wait for fence.",
            HalaDeviceCall::ResetFence { .. } => "Failed to reset fence.",
            HalaDeviceCall::QueuePresent { .. } => "Failed to present queue.",
            HalaDeviceCall::Destroy { .. } => "Failed to destroy the object.",
            HalaDeviceCall::FreeCommandBuffers { .. } => "Failed to free the command buffers.",
        };
        HalaGfxError::vulkan(msg, code)
    }
}

/// Whether `call` records, into `command_buffer`, one pipeline barrier made
/// of the given image barriers and of nothing else.
pub open spec fn spec_is_image_barriers(
    call: HalaDeviceCall,
    command_buffer: u64,
    barriers: Seq<HalaImageBarrierInfo>,
) -> bool {
    match call {
        HalaDeviceCall::Record {
            command_buffer: target,
            command: HalaCommand::PipelineBarrier {
                image_barriers,
                buffer_barriers,
                memory_barriers,
            },
        } => target == command_buffer && image_barriers@ == barriers && buffer_barriers@.len() == 0
            && memory_barriers@.len() == 0,
        _ => false,
    }
}

/// Whether `call` records, into `command_buffer`, one pipeline barrier made
/// of the given buffer barriers and of nothing else.
pub open spec fn spec_is_buffer_barriers(
    call: HalaDeviceCall,
    command_buffer: u64,
    barriers: Seq<HalaBufferBarrierInfo>,
) -> bool {
    match call {
        HalaDeviceCall::Record {
            command_buffer: target,
            command: HalaCommand::PipelineBarrier {
                image_barriers,
                buffer_barriers,
                memory_barriers,
            },
        } => target == command_buffer && buffer_barriers@ == barriers && image_barriers@.len() == 0
            && memory_barriers@.len() == 0,
        _ => false,
    }
}

/// Whether `call` records, into `command_buffer`, one pipeline barrier made
/// of the given memory barriers and of nothing else.
pub open spec fn spec_is_memory_barriers(
    call: HalaDeviceCall,
    command_buffer: u64,
    barriers: Seq<HalaMemoryBarrierInfo>,
) -> bool {
    match call {
        HalaDeviceCall::Record {
            command_buffer: target,
            command: HalaCommand::PipelineBarrier {
                image_barriers,
                buffer_barriers,
                memory_barriers,
            },
        } => target == command_buffer && memory_barriers@ == barriers && image_barriers@.len() == 0
            && buffer_barriers@.len() == 0,
        _ => false,
    }
}

/// A dynamic rendering pass as a plain value: its area, its colour
/// attachments and its depth and stencil attachments, where it has them.
pub struct HalaRenderingView {
    pub x: i32,
    pub y: i32,
    pub width: u32,
    pub height: u32,
    pub layer_count: u32,
    pub color_attachments: Seq<HalaRenderingAttachmentInfo>,
    pub depth_attachment: Option<HalaRenderingAttachmentInfo>,
    pub stencil_attachment: Option<HalaRenderingAttachmentInfo>,
}

/// Whether `call` begins, in `command_buffer`, the rendering pass
/// `rendering`.
pub open spec fn spec_is_begin_rendering(
    call: HalaDeviceCall,
    command_buffer: u64,
    rendering: HalaRenderingView,
) -> bool {
    match call {
        HalaDeviceCall::Record {
            command_buffer: target,
            command: HalaCommand::BeginRendering {
                x,
                y,
                width,
                height,
                layer_count,
                color_attachments,
                depth_attachment,
                stencil_attachment,
            },
        } => target == command_buffer && rendering == (HalaRenderingView {
            x,
            y,
            width,
            height,
            layer_count,
            color_attachments: color_attachments@,
            depth_attachment,
            stencil_attachment,
        }),
        _ => false,
    }
}

/// Whether `call` returns the command buffers `command_buffers` to the pool
/// `command_pool`.
pub open spec fn spec_is_free_command_buffers(
    call: HalaDeviceCall,
    command_pool: u64,
    command_buffers: Seq<u64>,
) -> bool {
    match call {
        HalaDeviceCall::FreeCommandBuffers { command_pool: pool, command_buffers: freed } => pool
            == command_pool && freed@ == command_buffers,
        _ => false,
    }
}

/// A fixed list of driver calls that are made in order until one fails.
/// The owner of the driver asks for the current call, performs it and
/// reports how it ended; after a failure no further call is handed out.
#[derive(Debug)]
pub struct HalaCallSequence {
    calls: Vec<HalaDeviceCall>,
    position: usize,
    failed: bool,
}

impl HalaCallSequence {
    /// The calls of the sequence, in the order in which they are made.
    pub closed spec fn spec_calls(&self) -> Seq<HalaDeviceCall> {
        self.calls@
    }

    /// How many calls have been performed with success.
    pub closed spec fn spec_position(&self) -> int {
        self.position as int
    }

    /// Whether a call of the sequence has failed.
    pub closed spec fn spec_failed(&self) -> bool {
        self.failed
    }

    /// The position never passes the end of the list.
    #[verifier::type_invariant]
    spec fn inv(&self) -> bool {
        self.position <= self.calls@.len()
    }

    /// Whether a call is waiting to be performed.
    pub open spec fn spec_has_current(&self) -> bool {
        !self.spec_failed() && self.spec_position() < self.spec_calls().len()
    }

    /// Whether every call has been performed with success.
    pub open spec fn spec_is_done(&self) -> bool {
        !self.spec_failed() && self.spec_position() == self.spec_calls().len()
    }

    /// A sequence that has made none of its calls yet.
    pub fn new(calls: Vec<HalaDeviceCall>) -> (sequence: Self)
        ensures
            sequence.spec_calls() == calls@,
            sequence.spec_position() == 0,
            !sequence.spec_failed(),
    {
        HalaCallSequence { calls, position: 0, failed: false }
    }

    /// The calls of the sequence.
    pub fn calls(&self) -> (calls: &Vec<HalaDeviceCall>)
        ensures
            calls@ == self.spec_calls(),
    {
        &self.calls
    }

    /// The call to perform next, if the sequence has neither ended nor
    /// failed.
    pub fn current(&self) -> (call: Option<&HalaDeviceCall>)
        ensures
            self.spec_position() <= self.spec_calls().len(),
            self.spec_has_current() ==> call == Some(&self.spec_calls()[self.spec_position()]),
            !self.spec_has_current() ==> call is None,
    {
        proof {
            use_type_invariant(self);
        }
        if !self.failed && self.position < self.calls.len() {
            Some(&self.calls[self.position])
        } else {
            None
        }
    }

    /// Whether every call has been performed with success.
    pub fn is_done(&self) -> (done: bool)
        ensures
            done == self.spec_is_done(),
    {
        !self.failed && self.position == self.calls.len()
    }

    /// Whether a call of the sequence has failed.
    pub fn has_failed(&self) -> (failed: bool)
        ensures
            failed == self.spec_failed(),
    {
        self.failed
    }

    /// Takes note of how the current call ended. After a success the next
    /// call becomes current. A failure ends the sequence where it stands and
    /// is returned as the error of the call that failed. Without a current
    /// call nothing changes.
    pub fn complete(&mut self, outcome: Result<(), i32>) -> (result: Result<(), HalaGfxError>)
        ensures
            final(self).spec_calls() == old(self).spec_calls(),
            !old(self).spec_has_current() ==> {
                &&& result is Ok
                &&& final(self).spec_position() == old(self).spec_position()
                &&& final(self).spec_failed() == old(self).spec_failed()
            },
            old(self).spec_has_current() ==> match outcome {
                Ok(_) => {
                    &&& result is Ok
                    &&& final(self).spec_position() == old(self).spec_position() + 1
                    &&& !final(self).spec_failed()
                },
                Err(code) => {
                    &&& result matches Err(e)
                    &&& e@ == HalaGfxError::spec_vulkan(
                        old(self).spec_calls()[old(self).spec_position()].spec_failure_message(),
                        code,
                    )
                    &&& final(self).spec_position() == old(self).spec_position()
                    &&& final(self).spec_failed()
                },
            },
    {
        proof {
            use_type_invariant(&*self);
        }
        if self.failed || self.position >= self.calls.len() {
            return Ok(());
        }
        match outcome {
            Ok(_) => {
                self.position = self.position + 1;
                Ok(())
            },
            Err(code) => {
                self.failed = true;
                Err(self.calls[self.position].failure(code))
            },
        }
    }
}

/// Once a call has failed the sequence hands out no call, whatever is
/// reported to it afterwards: what stood behind the failed call is never
/// performed.
pub proof fn lemma_failed_sequence_is_silent(sequence: HalaCallSequence)
    requires
        sequence.spec_failed(),
    ensures
        !sequence.spec_has_current(),
        !sequence.spec_is_done(),
{
}

} // verus!
