//! The context: the owner of the swapchain, the pools and the frame cycle,
//! and the order in which it gives everything up.

use crate::barrier::{
    HalaAccessFlags2, HalaImageAspectFlags, HalaImageBarrierInfo, HalaImageLayout,
};
use crate::command_buffer::{HalaCommandBufferSet, HalaCommandBufferUsageFlags};
use crate::device::{
    spec_is_begin_rendering, spec_is_image_barriers, HalaCommand, HalaDeviceCall, HalaObjectKind,
};
use crate::error::HalaGfxError;
use crate::format::HalaFormat;
use crate::frame::{HalaFrameModel, HalaFramePhase, HalaFrameReply, HalaFrameStep};
use crate::image::HalaImage;
use crate::logical_device::HalaLogicalDevice;
use crate::pipeline::HalaPipelineStageFlags2;
use crate::pools::HalaCommandPools;
use crate::query::HalaQueryPool;
use crate::renderpass::HalaSampleCountFlags;
use crate::swapchain::{spec_has_stencil, HalaSwapchain};
use crate::HalaGPURequirements;
use vstd::prelude::*;

verus! {

/// What a context is made of, once everything that it owns has been
/// created.
#[derive(Debug)]
pub struct HalaContextParts {
    pub name: String,
    pub gpu_req: HalaGPURequirements,
    /// The native handle of the instance.
    pub instance: u64,
    /// The native handle of the surface.
    pub surface: u64,
    /// The native handle of the logical device.
    pub device: u64,
    pub logical_device: HalaLogicalDevice,
    pub swapchain: HalaSwapchain,
    pub pools: HalaCommandPools,
    pub short_time_pools: HalaCommandPools,
    pub timestamp_query_pool: HalaQueryPool,
}

/// The context: the owner of the swapchain and of everything that a frame
/// needs, and the keeper of the frame cycle.
#[derive(Debug)]
pub struct HalaContext {
    name: String,
    gpu_req: HalaGPURequirements,
    instance: u64,
    surface: u64,
    device: u64,
    logical_device: HalaLogicalDevice,
    swapchain: HalaSwapchain,
    pools: HalaCommandPools,
    short_time_pools: HalaCommandPools,
    timestamp_query_pool: HalaQueryPool,
    multisample_count: HalaSampleCountFlags,
    /// The phase of the frame cycle apart from any resize: the phase that
    /// the cycle is in, or goes back to when a resize is given up.
    phase: HalaFramePhase,
    image_index: usize,
    in_flight: Vec<bool>,
    recording: HalaRecordingProgress,
    resize: HalaResizeProgress,
}

/// How far the command buffer of the prepared frame has been recorded. The
/// three segments of a recording follow each other in this order.
#[derive(Clone, Copy, PartialEq, Eq, Structural, Debug)]
pub enum HalaRecordingProgress {
    /// Nothing has been recorded since the frame was prepared.
    NotBegun,
    /// The command buffer has been begun and the first timestamp written:
    /// ray tracing commands may follow.
    Opened,
    /// Rendering has begun: graphics commands may follow.
    Rendering,
    /// Rendering has ended and the command buffer with it.
    Closed,
}

/// How far a resize has come.
#[derive(Clone, Copy, PartialEq, Eq, Structural, Debug)]
pub enum HalaResizeProgress {
    /// No resize is under way: the context has its swapchain.
    Settled,
    /// The device has been asked to go idle. The swapchain is still whole;
    /// the extent is the one asked for, which the requirements take once
    /// the swapchain is torn down.
    Waiting { width: u32, height: u32 },
    /// The swapchain has been torn down and none has taken its place.
    TornDown,
    /// The device has been asked to go idle while there is no swapchain.
    WaitingTornDown { width: u32, height: u32 },
}

/// An image barrier on one mip level and one layer that moves no ownership
/// between queue families, family zero being named on both sides.
pub open spec fn spec_frame_barrier(
    image: u64,
    src_stage_mask: u64,
    src_access_mask: u64,
    dst_stage_mask: u64,
    dst_access_mask: u64,
    old_layout: i32,
    new_layout: i32,
    aspect_mask: u32,
) -> HalaImageBarrierInfo {
    HalaImageBarrierInfo {
        src_stage_mask: HalaPipelineStageFlags2(src_stage_mask),
        src_access_mask: HalaAccessFlags2(src_access_mask),
        dst_stage_mask: HalaPipelineStageFlags2(dst_stage_mask),
        dst_access_mask: HalaAccessFlags2(dst_access_mask),
        old_layout: HalaImageLayout(old_layout),
        new_layout: HalaImageLayout(new_layout),
        src_queue_family_index: 0,
        dst_queue_family_index: 0,
        aspect_mask: HalaImageAspectFlags(aspect_mask),
        base_mip_level: 0,
        level_count: 1,
        base_array_layer: 0,
        layer_count: 1,
        image,
    }
}

/// An image barrier on one mip level and one layer.
fn frame_barrier(
    image: u64,
    src_stage_mask: u64,
    src_access_mask: u64,
    dst_stage_mask: u64,
    dst_access_mask: u64,
    old_layout: i32,
    new_layout: i32,
    aspect_mask: u32,
) -> (barrier: HalaImageBarrierInfo)
    ensures
        barrier == spec_frame_barrier(
            image,
            src_stage_mask,
            src_access_mask,
            dst_stage_mask,
            dst_access_mask,
            old_layout,
            new_layout,
            aspect_mask,
        ),
{
    HalaImageBarrierInfo {
        src_stage_mask: HalaPipelineStageFlags2::from_raw(src_stage_mask),
        src_access_mask: HalaAccessFlags2::from_raw(src_access_mask),
        dst_stage_mask: HalaPipelineStageFlags2::from_raw(dst_stage_mask),
        dst_access_mask: HalaAccessFlags2::from_raw(dst_access_mask),
        old_layout: HalaImageLayout::from_raw(old_layout),
        new_layout: HalaImageLayout::from_raw(new_layout),
        src_queue_family_index: 0,
        dst_queue_family_index: 0,
        aspect_mask: HalaImageAspectFlags::from_raw(aspect_mask),
        base_mip_level: 0,
        level_count: 1,
        base_array_layer: 0,
        layer_count: 1,
        image,
    }
}

/// The aspects of the depth and stencil image of a swapchain: depth, and
/// stencil where its format has stencil bits.
pub open spec fn spec_depth_stencil_aspects(has_stencil: bool) -> u32 {
    if has_stencil {
        HalaImageAspectFlags::DEPTH | HalaImageAspectFlags::STENCIL
    } else {
        HalaImageAspectFlags::DEPTH | 0u32
    }
}

/// The barrier that makes a swapchain image a colour attachment, whatever
/// it held.
pub open spec fn spec_to_color_attachment(image: u64) -> HalaImageBarrierInfo {
    spec_frame_barrier(
        image,
        HalaPipelineStageFlags2::TOP_OF_PIPE,
        HalaAccessFlags2::NONE,
        HalaPipelineStageFlags2::COLOR_ATTACHMENT_OUTPUT,
        HalaAccessFlags2::COLOR_ATTACHMENT_WRITE,
        HalaImageLayout::UNDEFINED,
        HalaImageLayout::COLOR_ATTACHMENT_OPTIMAL,
        HalaImageAspectFlags::COLOR,
    )
}

/// The barrier that makes the depth and stencil image an attachment,
/// whatever it held.
pub open spec fn spec_to_depth_stencil_attachment(image: u64, has_stencil: bool) -> HalaImageBarrierInfo {
    spec_frame_barrier(
        image,
        HalaPipelineStageFlags2::EARLY_FRAGMENT_TESTS | HalaPipelineStageFlags2::LATE_FRAGMENT_TESTS,
        HalaAccessFlags2::NONE,
        HalaPipelineStageFlags2::EARLY_FRAGMENT_TESTS | HalaPipelineStageFlags2::LATE_FRAGMENT_TESTS,
        HalaAccessFlags2::DEPTH_STENCIL_ATTACHMENT_WRITE,
        HalaImageLayout::UNDEFINED,
        HalaImageLayout::DEPTH_STENCIL_ATTACHMENT_OPTIMAL,
        spec_depth_stencil_aspects(has_stencil),
    )
}

/// The two barriers before the copy of a ray-traced image into a swapchain
/// image: the swapchain image becomes the destination of a transfer, the
/// ray-traced image its source.
pub open spec fn spec_before_copy(swapchain_image: u64, ray_tracing_image: u64) -> Seq<
    HalaImageBarrierInfo,
> {
    seq![
        spec_frame_barrier(
            swapchain_image,
            HalaPipelineStageFlags2::TOP_OF_PIPE,
            HalaAccessFlags2::NONE,
            HalaPipelineStageFlags2::TRANSFER,
            HalaAccessFlags2::TRANSFER_WRITE,
            HalaImageLayout::UNDEFINED,
            HalaImageLayout::TRANSFER_DST_OPTIMAL,
            HalaImageAspectFlags::COLOR,
        ),
        spec_frame_barrier(
            ray_tracing_image,
            HalaPipelineStageFlags2::RAY_TRACING_SHADER,
            HalaAccessFlags2::SHADER_WRITE,
            HalaPipelineStageFlags2::TRANSFER,
            HalaAccessFlags2::TRANSFER_READ,
            HalaImageLayout::GENERAL,
            HalaImageLayout::TRANSFER_SRC_OPTIMAL,
            HalaImageAspectFlags::COLOR,
        ),
    ]
}

/// The barriers after the copy: the swapchain image becomes a colour
/// attachment, the ray-traced image goes back to the general layout, and
/// the depth and stencil image, where there is one, becomes an attachment.
pub open spec fn spec_after_copy(
    swapchain_image: u64,
    ray_tracing_image: u64,
    depth_stencil: Option<(u64, bool)>,
) -> Seq<HalaImageBarrierInfo> {
    let both = seq![
        spec_frame_barrier(
            swapchain_image,
            HalaPipelineStageFlags2::TRANSFER,
            HalaAccessFlags2::TRANSFER_WRITE,
            HalaPipelineStageFlags2::COLOR_ATTACHMENT_OUTPUT,
            HalaAccessFlags2::COLOR_ATTACHMENT_WRITE,
            HalaImageLayout::TRANSFER_DST_OPTIMAL,
            HalaImageLayout::COLOR_ATTACHMENT_OPTIMAL,
            HalaImageAspectFlags::COLOR,
        ),
        spec_frame_barrier(
            ray_tracing_image,
            HalaPipelineStageFlags2::TRANSFER,
            HalaAccessFlags2::TRANSFER_READ,
            HalaPipelineStageFlags2::ALL_COMMANDS,
            HalaAccessFlags2::NONE,
            HalaImageLayout::TRANSFER_SRC_OPTIMAL,
            HalaImageLayout::GENERAL,
            HalaImageAspectFlags::COLOR,
        ),
    ];
    match depth_stencil {
        Some((image, has_stencil)) => both.push(spec_to_depth_stencil_attachment(image, has_stencil)),
        None => both,
    }
}

/// The barrier that hands a swapchain image from rendering to
/// presentation.
pub open spec fn spec_to_present(image: u64) -> HalaImageBarrierInfo {
    spec_frame_barrier(
        image,
        HalaPipelineStageFlags2::COLOR_ATTACHMENT_OUTPUT,
        HalaAccessFlags2::COLOR_ATTACHMENT_WRITE,
        HalaPipelineStageFlags2::BOTTOM_OF_PIPE,
        HalaAccessFlags2::NONE,
        HalaImageLayout::COLOR_ATTACHMENT_OPTIMAL,
        HalaImageLayout::PRESENT_SRC,
        HalaImageAspectFlags::COLOR,
    )
}

impl HalaContext {
    #[verifier::type_invariant]
    spec fn inv(&self) -> bool {
        &&& self.swapchain.spec_ring()
        &&& self.in_flight@.len() == self.swapchain.spec_num_of_images()
        &&& self.phase != HalaFramePhase::Resizing
        &&& self.spec_frame().spec_at(self.phase).inv()
    }

    /// The phase of the frame cycle: a resize, from its beginning until it
    /// is given up or a new swapchain has been handed over, and else the
    /// phase of the frame.
    pub closed spec fn spec_phase(&self) -> HalaFramePhase {
        if self.resize is Settled {
            self.phase
        } else {
            HalaFramePhase::Resizing
        }
    }

    /// The phase that the frame cycle goes back to when a resize is given
    /// up: the phase in which the resize began.
    pub closed spec fn spec_resumed_phase(&self) -> HalaFramePhase {
        self.phase
    }

    /// The slot that was acquired last.
    pub closed spec fn spec_image_index(&self) -> int {
        self.image_index as int
    }

    /// Which slots hold a submission whose fence has not been waited for.
    pub closed spec fn spec_in_flight(&self) -> Seq<bool> {
        self.in_flight@
    }

    /// The logical device of the context.
    pub closed spec fn spec_logical_device(&self) -> HalaLogicalDevice {
        self.logical_device
    }

    /// How far the command buffer of the prepared frame has been recorded.
    pub closed spec fn spec_recording(&self) -> HalaRecordingProgress {
        self.recording
    }

    /// How far a resize has come.
    pub closed spec fn spec_resize(&self) -> HalaResizeProgress {
        self.resize
    }

    /// The swapchain of the context. Once it has been torn down this is the
    /// record of what it was, of which nothing is alive and nothing is
    /// handed out.
    pub closed spec fn spec_swapchain(&self) -> &HalaSwapchain {
        &self.swapchain
    }

    /// Whether the context has a swapchain: from its making until the
    /// swapchain is torn down, and again from the moment when a new one is
    /// handed over.
    pub open spec fn spec_has_swapchain(&self) -> bool {
        self.spec_resize() is Settled || self.spec_resize() is Waiting
    }

    /// The frame cycle of the context as a mathematical value: its phase,
    /// the acquired slot and the submissions in flight, over the handles of
    /// the swapchain and the graphics queue family of the logical device.
    pub open spec fn spec_frame(&self) -> HalaFrameModel {
        HalaFrameModel {
            phase: self.spec_phase(),
            image_index: self.spec_image_index(),
            in_flight: self.spec_in_flight(),
            current: self.spec_swapchain().spec_current_image_index(),
            swapchain: self.spec_swapchain().spec_swapchain(),
            image_availables: self.spec_swapchain().spec_image_availables(),
            render_finisheds: self.spec_swapchain().spec_render_finisheds(),
            draw_fences: self.spec_swapchain().spec_draw_fences(),
            graphics_queue_family_index: self.spec_logical_device().graphics_queue_family_index,
        }
    }

    /// What holds of every context: the ring of its swapchain is whole, the
    /// frame cycle has one slot for each image, and the invariant of the
    /// frame cycle holds.
    pub open spec fn spec_inv(&self) -> bool {
        &&& self.spec_swapchain().spec_ring()
        &&& self.spec_frame().spec_count() == self.spec_swapchain().spec_num_of_images()
        &&& self.spec_frame().inv()
        &&& self.spec_frame().spec_at(self.spec_resumed_phase()).inv()
        &&& self.spec_resumed_phase() != HalaFramePhase::Resizing
        &&& self.spec_resize() is Settled ==> self.spec_frame().phase
            == self.spec_resumed_phase()
    }

    /// Whether the context owns the same objects as `before`, but for the
    /// swapchain: the same name, logical device, instance, surface, device,
    /// command pools, timestamp query pool and sample count.
    pub open spec fn spec_same_objects(&self, before: &HalaContext) -> bool {
        &&& self.spec_name() == before.spec_name()
        &&& self.spec_logical_device() == before.spec_logical_device()
        &&& self.spec_owned() == before.spec_owned()
        &&& self.spec_timestamp_query_pool() == before.spec_timestamp_query_pool()
        &&& self.spec_multisample_count() == before.spec_multisample_count()
    }

    /// The requirements that the context was made for; their extent is that
    /// of the last resize.
    pub closed spec fn spec_gpu_req(&self) -> HalaGPURequirements {
        self.gpu_req
    }

    /// The pool of the timestamp queries of the frames.
    pub closed spec fn spec_timestamp_query_pool(&self) -> HalaQueryPool {
        self.timestamp_query_pool
    }

    /// The name of the context.
    pub closed spec fn spec_name(&self) -> Seq<char> {
        self.name@
    }

    /// The sample count that the context renders with.
    pub closed spec fn spec_multisample_count(&self) -> HalaSampleCountFlags {
        self.multisample_count
    }

    /// The native handles of the instance, the surface and the device, and
    /// the two sets of command pools.
    pub closed spec fn spec_owned(&self) -> (u64, u64, u64, HalaCommandPools, HalaCommandPools) {
        (self.instance, self.surface, self.device, self.pools, self.short_time_pools)
    }

    /// Whether the requirements can be met at all: 10-bit output and an
    /// sRGB surface exclude each other.
    pub fn validate(gpu_req: &HalaGPURequirements) -> (result: Result<(), HalaGfxError>)
        ensures
            gpu_req.require_10bits_output && gpu_req.require_srgb_surface ==> (
            result matches Err(e) && e@ == HalaGfxError::spec_plain(
                "10bits output and sRGB surface can't be required at the same time."@,
            )),
            !(gpu_req.require_10bits_output && gpu_req.require_srgb_surface) ==> result is Ok,
    {
        if gpu_req.require_10bits_output && gpu_req.require_srgb_surface {
            Err(
                HalaGfxError::new(
                    "10bits output and sRGB surface can't be required at the same time.",
                    None,
                ),
            )
        } else {
            Ok(())
        }
    }

    /// The number of timestamp queries that the context needs: two for each
    /// image of the swapchain, cut off at 32 bits.
    pub fn timestamp_query_count(swapchain: &HalaSwapchain) -> (count: u32)
        ensures
            count == if swapchain.spec_num_of_images() * 2 <= u32::MAX {
                (swapchain.spec_num_of_images() * 2) as u32
            } else {
                u32::MAX
            },
    {
        let images: usize = swapchain.num_of_images();
        if images <= 0x7fff_ffff {
            (images * 2) as u32
        } else {
            u32::MAX
        }
    }

    /// The context made of the given parts, between two frames, with no
    /// submission in flight. Requirements that cannot be met are refused.
    pub fn new(parts: HalaContextParts) -> (result: Result<Self, HalaGfxError>)
        ensures
            parts.gpu_req.require_10bits_output && parts.gpu_req.require_srgb_surface ==> (
            result matches Err(e) && e@ == HalaGfxError::spec_plain(
                "10bits output and sRGB surface can't be required at the same time."@,
            )),
            !(parts.gpu_req.require_10bits_output && parts.gpu_req.require_srgb_surface) ==> (
            result matches Ok(context) && {
                &&& context.spec_frame().phase == HalaFramePhase::Idle
                &&& context.spec_frame().in_flight == Seq::new(
                    parts.swapchain.spec_num_of_images() as nat,
                    |i: int| false,
                )
                &&& context.spec_inv()
                &&& *context.spec_swapchain() == parts.swapchain
                &&& context.spec_resize() == HalaResizeProgress::Settled
                &&& context.spec_recording() == HalaRecordingProgress::NotBegun
                &&& context.spec_gpu_req() == parts.gpu_req
                &&& context.spec_logical_device() == parts.logical_device
                &&& context.spec_timestamp_query_pool() == parts.timestamp_query_pool
                &&& context.spec_name() == parts.name@
                &&& context.spec_multisample_count() == HalaSampleCountFlags(
                    HalaSampleCountFlags::TYPE_1,
                )
                &&& context.spec_owned() == (
                    parts.instance,
                    parts.surface,
                    parts.device,
                    parts.pools,
                    parts.short_time_pools,
                )
            }),
    {
        if parts.gpu_req.require_10bits_output && parts.gpu_req.require_srgb_surface {
            return Err(
                HalaGfxError::new(
                    "10bits output and sRGB surface can't be required at the same time.",
                    None,
                ),
            );
        }
        let count: usize = parts.swapchain.num_of_images();
        let _ = parts.swapchain.current_image_index();
        let in_flight = Self::none_in_flight(count);
        Ok(
            HalaContext {
                name: parts.name,
                gpu_req: parts.gpu_req,
                instance: parts.instance,
                surface: parts.surface,
                device: parts.device,
                logical_device: parts.logical_device,
                swapchain: parts.swapchain,
                pools: parts.pools,
                short_time_pools: parts.short_time_pools,
                timestamp_query_pool: parts.timestamp_query_pool,
                multisample_count: HalaSampleCountFlags::from_raw(HalaSampleCountFlags::TYPE_1),
                phase: HalaFramePhase::Idle,
                image_index: 0,
                in_flight,
                recording: HalaRecordingProgress::NotBegun,
                resize: HalaResizeProgress::Settled,
            },
        )
    }

    /// A ring of `count` slots of which none holds a submission.
    fn none_in_flight(count: usize) -> (in_flight: Vec<bool>)
        ensures
            in_flight@ == Seq::new(count as nat, |i: int| false),
    {
        let mut in_flight: Vec<bool> = Vec::new();
        let mut i: usize = 0;
        while i < count
            invariant
                i <= count,
                in_flight@ == Seq::new(i as nat, |i: int| false),
            decreases count - i,
        {
            in_flight.push(false);
            i = i + 1;
        }
        in_flight
    }

    /// The ring with the mark of one slot changed.
    fn with_slot(in_flight: &Vec<bool>, slot: usize, mark: bool) -> (changed: Vec<bool>)
        requires
            slot < in_flight@.len(),
        ensures
            changed@ == in_flight@.update(slot as int, mark),
    {
        let mut changed: Vec<bool> = Vec::new();
        let mut i: usize = 0;
        while i < in_flight.len()
            invariant
                i <= in_flight@.len(),
                slot < in_flight@.len(),
                changed@ == in_flight@.update(slot as int, mark).subrange(0, i as int),
            decreases in_flight@.len() - i,
        {
            changed.push(if i == slot {
                mark
            } else {
                in_flight[i]
            });
            i = i + 1;
        }
        changed
    }

    /// The name of the context.
    pub fn name(&self) -> (name: &str)
        ensures
            name@ == self.spec_name(),
    {
        self.name.as_str()
    }

    /// The requirements that the context was made for.
    pub fn gpu_req(&self) -> (gpu_req: &HalaGPURequirements)
        ensures
            *gpu_req == self.spec_gpu_req(),
    {
        &self.gpu_req
    }

    /// Whether no resize is under way.
    fn is_settled(&self) -> (settled: bool)
        ensures
            settled == (self.spec_resize() is Settled),
    {
        match self.resize {
            HalaResizeProgress::Settled => true,
            _ => false,
        }
    }

    /// Whether the context has a swapchain.
    pub fn has_swapchain(&self) -> (has: bool)
        ensures
            has == self.spec_has_swapchain(),
    {
        match self.resize {
            HalaResizeProgress::Settled => true,
            HalaResizeProgress::Waiting { .. } => true,
            _ => false,
        }
    }

    /// The swapchain of the context, as long as there is one: a swapchain
    /// that has been torn down is not handed out.
    pub fn swapchain(&self) -> (swapchain: Option<&HalaSwapchain>)
        ensures
            self.spec_inv(),
            match swapchain {
                Some(held) => self.spec_has_swapchain() && held == self.spec_swapchain(),
                None => !self.spec_has_swapchain(),
            },
    {
        proof {
            use_type_invariant(self);
        }
        if self.has_swapchain() {
            Some(&self.swapchain)
        } else {
            None
        }
    }

    /// The logical device of the context.
    pub fn logical_device(&self) -> (logical_device: &HalaLogicalDevice)
        ensures
            *logical_device == self.spec_logical_device(),
    {
        &self.logical_device
    }

    /// How far the command buffer of the prepared frame has been recorded.
    pub fn recording_progress(&self) -> (progress: HalaRecordingProgress)
        ensures
            progress == self.spec_recording(),
    {
        self.recording
    }

    /// How far a resize has come.
    pub fn resize_progress(&self) -> (progress: HalaResizeProgress)
        ensures
            progress == self.spec_resize(),
    {
        self.resize
    }

    /// The pool of the timestamp queries of the frames.
    pub fn timestamp_query_pool(&self) -> (pool: &HalaQueryPool)
        ensures
            *pool == self.spec_timestamp_query_pool(),
    {
        &self.timestamp_query_pool
    }

    /// The sample count that the context renders with.
    pub fn multisample_count(&self) -> (samples: HalaSampleCountFlags)
        ensures
            samples == self.spec_multisample_count(),
    {
        self.multisample_count
    }

    /// The phase of the frame cycle.
    pub fn frame_phase(&self) -> (phase: HalaFramePhase)
        ensures
            phase == self.spec_frame().phase,
            self.spec_inv(),
    {
        proof {
            use_type_invariant(self);
        }
        if self.is_settled() {
            self.phase
        } else {
            HalaFramePhase::Resizing
        }
    }

    /// Whether the slot `index` holds a submission whose fence has not been
    /// waited for; no slot outside the ring does.
    pub fn is_in_flight(&self, index: usize) -> (in_flight: bool)
        ensures
            in_flight == (index < self.spec_frame().in_flight.len()
                && self.spec_frame().in_flight[index as int]),
    {
        index < self.in_flight.len() && self.in_flight[index]
    }

    /// The first timestamp query of the frame on the slot `index`, and the
    /// number of queries of a frame.
    pub fn frame_time_queries(index: u32) -> (queries: (u32, u32))
        requires
            index <= 0x7fff_ffff,
        ensures
            queries == ((index * 2) as u32, 2u32),
    {
        (index * 2, 2)
    }

    /// Takes one step of the preparation of a frame. The preparation starts
    /// between two frames with `Start` and goes on with the answer of the
    /// driver to each call that it asks for: the wait for the graphics
    /// queue, the acquisition of the next image, the wait for the fence of
    /// the acquired slot and the reset of that fence. It ends by announcing
    /// the prepared slot. A call that fails ends the preparation with the
    /// error of its step; a reply that does not fit the phase is refused
    /// and changes nothing.
    pub fn prepare_frame(&mut self, reply: HalaFrameReply) -> (step: HalaFrameStep)
        ensures
            (final(self).spec_frame(), step@) == old(self).spec_frame().spec_prepare_frame(reply),
            old(self).spec_inv(),
            final(self).spec_inv(),
            final(self).spec_swapchain() == old(self).spec_swapchain(),
            final(self).spec_gpu_req() == old(self).spec_gpu_req(),
            final(self).spec_resize() == old(self).spec_resize(),
            final(self).spec_recording() == if step@ is Prepared {
                HalaRecordingProgress::NotBegun
            } else {
                old(self).spec_recording()
            },
            final(self).spec_same_objects(old(self)),
    {
        proof {
            use_type_invariant(&*self);
        }
        if !self.is_settled() {
            return HalaFrameStep::Failed(
                HalaGfxError::new("The frame cycle is out of step.", None),
            );
        }
        match (self.phase, reply) {
            (HalaFramePhase::Idle, HalaFrameReply::Start) => {
                self.phase = HalaFramePhase::WaitingIdle;
                HalaFrameStep::Call(self.logical_device.graphics_wait(0))
            },
            (HalaFramePhase::WaitingIdle, HalaFrameReply::Done) => {
                self.phase = HalaFramePhase::Acquiring;
                let calls = self.swapchain.acquire_next_image(&self.logical_device);
                HalaFrameStep::Call(calls.1)
            },
            (HalaFramePhase::WaitingIdle, HalaFrameReply::Failed(code)) => {
                self.phase = HalaFramePhase::Idle;
                HalaFrameStep::Failed(HalaGfxError::vulkan("Failed to wait for queue idle.", code))
            },
            (HalaFramePhase::Acquiring, HalaFrameReply::ImageIndex(index)) => {
                if (index as usize) < self.in_flight.len() {
                    self.image_index = index as usize;
                    self.phase = HalaFramePhase::WaitingFence;
                    HalaFrameStep::Call(self.swapchain.wait_for_fence(index as usize))
                } else {
                    self.phase = HalaFramePhase::Idle;
                    HalaFrameStep::Failed(
                        HalaGfxError::new("The acquired image is not one of the swapchain.", None),
                    )
                }
            },
            (HalaFramePhase::Acquiring, HalaFrameReply::Failed(code)) => {
                self.phase = HalaFramePhase::Idle;
                HalaFrameStep::Failed(HalaGfxError::vulkan("Failed to acquire next image.", code))
            },
            (HalaFramePhase::WaitingFence, HalaFrameReply::Done) => {
                self.in_flight = Self::with_slot(&self.in_flight, self.image_index, false);
                self.phase = HalaFramePhase::ResettingFence;
                HalaFrameStep::Call(self.swapchain.reset_fence(self.image_index))
            },
            (HalaFramePhase::WaitingFence, HalaFrameReply::Failed(code)) => {
                self.phase = HalaFramePhase::Idle;
                HalaFrameStep::Failed(HalaGfxError::vulkan("Failed to wait for fence.", code))
            },
            (HalaFramePhase::ResettingFence, HalaFrameReply::Done) => {
                self.phase = HalaFramePhase::Recording;
                self.recording = HalaRecordingProgress::NotBegun;
                HalaFrameStep::Prepared(self.image_index)
            },
            (HalaFramePhase::ResettingFence, HalaFrameReply::Failed(code)) => {
                self.phase = HalaFramePhase::Idle;
                HalaFrameStep::Failed(HalaGfxError::vulkan("Failed to reset fence.", code))
            },
            _ => HalaFrameStep::Failed(HalaGfxError::new("The frame cycle is out of step.", None)),
        }
    }

    /// Takes one step of the submission and presentation of the frame that
    /// was prepared on the slot `index`. It starts with `Start` and goes on
    /// with the answer of the driver to each call that it asks for: the
    /// submission of the command buffer at `index`, then the presentation of
    /// the image. When the image has been presented, the next slot of the
    /// ring comes into use. A call that fails ends the frame with the error
    /// of its step, and the slot in use stays. A reply that does not fit
    /// the phase, a slot other than the prepared one and a set without a
    /// command buffer at `index` are refused and change nothing. Of the
    /// swapchain nothing changes but the slot in use. The frame is
    /// submitted as its command buffer stands, whether it was recorded with
    /// the three segments of this context or by other means.
    pub fn submit_and_present_frame(
        &mut self,
        index: usize,
        command_buffers: &HalaCommandBufferSet,
        reply: HalaFrameReply,
    ) -> (step: HalaFrameStep)
        ensures
            (final(self).spec_frame(), step@) == old(self).spec_frame().spec_submit_and_present_frame(
                index as int,
                if index < command_buffers.raw@.len() {
                    Some(command_buffers.raw@[index as int])
                } else {
                    None
                },
                reply,
            ),
            old(self).spec_inv(),
            final(self).spec_inv(),
            final(self).spec_swapchain().spec_same_ring(old(self).spec_swapchain()),
            final(self).spec_gpu_req() == old(self).spec_gpu_req(),
            final(self).spec_resize() == old(self).spec_resize(),
            final(self).spec_recording() == old(self).spec_recording(),
            final(self).spec_same_objects(old(self)),
    {
        proof {
            use_type_invariant(&*self);
        }
        if !self.is_settled() {
            return HalaFrameStep::Failed(
                HalaGfxError::new("The frame cycle is out of step.", None),
            );
        }
        match (self.phase, reply) {
            (HalaFramePhase::Recording, HalaFrameReply::Start) => {
                if index < command_buffers.raw.len() && index == self.image_index && index
                    <= 0xffff_ffff {
                    self.phase = HalaFramePhase::Submitting;
                    HalaFrameStep::Call(
                        self.swapchain.submit(command_buffers, index, 0, &self.logical_device),
                    )
                } else {
                    HalaFrameStep::Failed(HalaGfxError::new("The frame cycle is out of step.", None))
                }
            },
            (HalaFramePhase::Submitting, HalaFrameReply::Done) => {
                self.phase = HalaFramePhase::Presenting;
                self.in_flight = Self::with_slot(&self.in_flight, self.image_index, true);
                #[verifier::truncate]
                let image_index: u32 = self.image_index as u32;
                HalaFrameStep::Call(self.swapchain.present(image_index, &self.logical_device))
            },
            (HalaFramePhase::Submitting, HalaFrameReply::Failed(code)) => {
                self.phase = HalaFramePhase::Idle;
                HalaFrameStep::Failed(HalaGfxError::vulkan("Failed to submit queue.", code))
            },
            (HalaFramePhase::Presenting, HalaFrameReply::Done) => {
                self.phase = HalaFramePhase::Idle;
                self.swapchain.advance();
                HalaFrameStep::Presented
            },
            (HalaFramePhase::Presenting, HalaFrameReply::Failed(code)) => {
                self.phase = HalaFramePhase::Idle;
                HalaFrameStep::Failed(HalaGfxError::vulkan("Failed to present queue.", code))
            },
            _ => HalaFrameStep::Failed(HalaGfxError::new("The frame cycle is out of step.", None)),
        }
    }

    /// Whether the command buffer at `index` may be recorded now: the frame
    /// is prepared on the slot `index`, the set has a command buffer there,
    /// and the timestamp queries of the slot have 32-bit numbers.
    pub open spec fn spec_may_record(&self, index: usize, command_buffers: &HalaCommandBufferSet) -> bool {
        &&& self.spec_frame().phase == HalaFramePhase::Recording
        &&& index == self.spec_frame().image_index
        &&& index < command_buffers.raw@.len()
        &&& index <= 0x7fff_fffe
    }

    /// Whether the segment that leads into rendering may be recorded now:
    /// the command buffer may be recorded and its recording has been
    /// opened.
    pub open spec fn spec_may_record_rendering(
        &self,
        index: usize,
        command_buffers: &HalaCommandBufferSet,
    ) -> bool {
        &&& self.spec_may_record(index, command_buffers)
        &&& self.spec_recording() == HalaRecordingProgress::Opened
    }

    /// Whether the segment that closes the recording may be recorded now:
    /// the command buffer may be recorded and rendering has begun.
    pub open spec fn spec_may_record_presentation(
        &self,
        index: usize,
        command_buffers: &HalaCommandBufferSet,
    ) -> bool {
        &&& self.spec_may_record(index, command_buffers)
        &&& self.spec_recording() == HalaRecordingProgress::Rendering
    }

    /// Whether this context is `before` in everything but the progress of
    /// the recording.
    pub open spec fn spec_same_but_recording(&self, before: &HalaContext) -> bool {
        &&& self.spec_frame() == before.spec_frame()
        &&& self.spec_swapchain() == before.spec_swapchain()
        &&& self.spec_gpu_req() == before.spec_gpu_req()
        &&& self.spec_resize() == before.spec_resize()
        &&& self.spec_same_objects(before)
    }

    /// Whether the command buffer at `index` may be recorded now.
    pub fn may_record(&self, index: usize, command_buffers: &HalaCommandBufferSet) -> (may: bool)
        ensures
            may == self.spec_may_record(index, command_buffers),
            may ==> self.spec_has_swapchain() && index < self.spec_swapchain().spec_num_of_images()
                && !self.spec_frame().in_flight[index as int],
    {
        proof {
            use_type_invariant(self);
        }
        if !self.is_settled() {
            return false;
        }
        match self.phase {
            HalaFramePhase::Recording => index == self.image_index && index
                < command_buffers.raw.len() && index <= 0x7fff_fffe,
            _ => false,
        }
    }

    /// The calls that open the recording of the frame on the slot `index`:
    /// reset the command buffer and begin it, reset the two timestamp
    /// queries of the slot and write the first of them before any stage
    /// runs. The command buffer is touched only while its slot is prepared,
    /// so never while a submission of it is in flight. This is the first of
    /// the three segments of a recording; it may be made again to begin the
    /// recording anew.
    pub fn record_graphics_command_buffer(
        &mut self,
        index: usize,
        command_buffers: &HalaCommandBufferSet,
    ) -> (result: Result<Vec<HalaDeviceCall>, HalaGfxError>)
        ensures
            final(self).spec_same_but_recording(old(self)),
            !old(self).spec_may_record(index, command_buffers) ==> (result matches Err(e) && e@
                == HalaGfxError::spec_plain("The frame cycle is out of step."@)
                && final(self).spec_recording() == old(self).spec_recording()),
            old(self).spec_may_record(index, command_buffers) ==> final(self).spec_recording()
                == HalaRecordingProgress::Opened,
            old(self).spec_may_record(index, command_buffers) ==> (result matches Ok(calls)
                && calls@ == seq![
                HalaDeviceCall::ResetCommandBuffer {
                    command_buffer: command_buffers.raw@[index as int],
                    release_resources: false,
                },
                HalaDeviceCall::BeginCommandBuffer {
                    command_buffer: command_buffers.raw@[index as int],
                    usage_flags: HalaCommandBufferUsageFlags(0),
                },
                HalaDeviceCall::Record {
                    command_buffer: command_buffers.raw@[index as int],
                    command: HalaCommand::ResetQueryPool {
                        query_pool: old(self).spec_timestamp_query_pool().raw,
                        first_query: (index * 2) as u32,
                        query_count: 2,
                    },
                },
                HalaDeviceCall::Record {
                    command_buffer: command_buffers.raw@[index as int],
                    command: HalaCommand::WriteTimestamp {
                        stage_flags: HalaPipelineStageFlags2(HalaPipelineStageFlags2::NONE),
                        query_pool: old(self).spec_timestamp_query_pool().raw,
                        query: (index * 2) as u32,
                    },
                },
            ]),
    {
        proof {
            use_type_invariant(&*self);
        }
        if !self.may_record(index, command_buffers) {
            return Err(HalaGfxError::new("The frame cycle is out of step.", None));
        }
        let first_query: u32 = (index * 2) as u32;
        let mut calls: Vec<HalaDeviceCall> = Vec::new();
        calls.push(command_buffers.reset(index, false));
        calls.push(command_buffers.begin(index, HalaCommandBufferUsageFlags::empty()));
        calls.push(
            command_buffers.reset_query_pool(index, &self.timestamp_query_pool, first_query, 2),
        );
        calls.push(
            command_buffers.write_timestamp(
                index,
                HalaPipelineStageFlags2::from_raw(HalaPipelineStageFlags2::NONE),
                &self.timestamp_query_pool,
                first_query,
            ),
        );
        self.recording = HalaRecordingProgress::Opened;
        Ok(calls)
    }

    /// Whether the calls lead the frame on the slot `index` into rendering.
    /// Where a ray-traced image is to be shown, they are the barriers
    /// before the copy, the copy of the image into the swapchain image and
    /// the barriers after it. Otherwise they are the one barrier that makes
    /// the swapchain images attachments. The beginning of rendering over the
    /// extent of the requirements comes last.
    pub open spec fn spec_is_rendering_recording(
        &self,
        calls: Seq<HalaDeviceCall>,
        index: int,
        command_buffer: u64,
        color_clear_value: Option<(u32, u32, u32, u32)>,
        depth_clear_value: Option<u32>,
        stencil_clear_value: Option<u32>,
        ray_tracing_image: Option<HalaImage>,
    ) -> bool {
        let swapchain = self.spec_swapchain();
        let color_image = swapchain.spec_images()[index];
        let depth_image = swapchain.spec_depth_stencil_handles().0;
        let has_depth = swapchain.spec_depth_stencil_format().0 != HalaFormat::UNDEFINED;
        let has_stencil = spec_has_stencil(swapchain.spec_depth_stencil_format());
        let rendering = HalaCommandBufferSet::spec_swapchain_rendering(
            swapchain,
            index,
            (0i32, 0i32, self.spec_gpu_req().width, self.spec_gpu_req().height),
            color_clear_value,
            depth_clear_value,
            stencil_clear_value,
        );
        match ray_tracing_image {
            Some(image) => {
                &&& calls.len() == 4
                &&& spec_is_image_barriers(
                    calls[0],
                    command_buffer,
                    spec_before_copy(color_image, image.raw),
                )
                &&& calls[1] == (HalaDeviceCall::Record {
                    command_buffer,
                    command: HalaCommand::CopyImage {
                        src_image: image.raw,
                        src_image_layout: HalaImageLayout(HalaImageLayout::TRANSFER_SRC_OPTIMAL),
                        dst_image: color_image,
                        dst_image_layout: HalaImageLayout(HalaImageLayout::TRANSFER_DST_OPTIMAL),
                        width: image.width,
                        height: image.height,
                    },
                })
                &&& spec_is_image_barriers(
                    calls[2],
                    command_buffer,
                    spec_after_copy(
                        color_image,
                        image.raw,
                        if has_depth {
                            Some((depth_image, has_stencil))
                        } else {
                            None
                        },
                    ),
                )
                &&& spec_is_begin_rendering(calls[3], command_buffer, rendering)
            },
            None => {
                &&& calls.len() == 2
                &&& spec_is_image_barriers(
                    calls[0],
                    command_buffer,
                    if has_depth {
                        seq![
                            spec_to_color_attachment(color_image),
                            spec_to_depth_stencil_attachment(depth_image, has_stencil),
                        ]
                    } else {
                        seq![spec_to_color_attachment(color_image)]
                    },
                )
                &&& spec_is_begin_rendering(calls[1], command_buffer, rendering)
            },
        }
    }

    /// The calls that lead the frame on the slot `index` into rendering,
    /// made after the ray tracing commands of the frame, if it has any, have
    /// been recorded. `ray_tracing_image` is the image that they wrote, if
    /// it is to be copied into the swapchain image. This is the second of
    /// the three segments of a recording: it is refused unless the first
    /// was the last segment recorded.
    pub fn record_rendering(
        &mut self,
        index: usize,
        command_buffers: &HalaCommandBufferSet,
        color_clear_value: Option<(u32, u32, u32, u32)>,
        depth_clear_value: Option<u32>,
        stencil_clear_value: Option<u32>,
        ray_tracing_image: Option<&HalaImage>,
    ) -> (result: Result<Vec<HalaDeviceCall>, HalaGfxError>)
        ensures
            final(self).spec_same_but_recording(old(self)),
            !old(self).spec_may_record_rendering(index, command_buffers) ==> (result matches Err(
                e,
            ) && e@ == HalaGfxError::spec_plain("The frame cycle is out of step."@)
                && final(self).spec_recording() == old(self).spec_recording()),
            old(self).spec_may_record_rendering(index, command_buffers)
                ==> final(self).spec_recording() == HalaRecordingProgress::Rendering,
            old(self).spec_may_record_rendering(index, command_buffers) ==> (result matches Ok(
                calls,
            ) && old(self).spec_is_rendering_recording(
                calls@,
                index as int,
                command_buffers.raw@[index as int],
                color_clear_value,
                depth_clear_value,
                stencil_clear_value,
                match ray_tracing_image {
                    Some(image) => Some(*image),
                    None => None,
                },
            )),
    {
        proof {
            use_type_invariant(&*self);
        }
        let opened = match self.recording {
            HalaRecordingProgress::Opened => true,
            _ => false,
        };
        if !opened || !self.may_record(index, command_buffers) {
            return Err(HalaGfxError::new("The frame cycle is out of step.", None));
        }
        let color_image: u64 = self.swapchain.images()[index];
        let depth_image: u64 = self.swapchain.depth_stencil_image();
        let has_depth = self.swapchain.depth_stencil_format().as_raw() != HalaFormat::UNDEFINED;
        let has_stencil = self.swapchain.has_stencil();
        let aspects: u32 = if has_stencil {
            HalaImageAspectFlags::DEPTH | HalaImageAspectFlags::STENCIL
        } else {
            HalaImageAspectFlags::DEPTH | 0u32
        };
        let fragment_tests: u64 = HalaPipelineStageFlags2::EARLY_FRAGMENT_TESTS
            | HalaPipelineStageFlags2::LATE_FRAGMENT_TESTS;
        let to_depth_stencil = frame_barrier(
            depth_image,
            fragment_tests,
            HalaAccessFlags2::NONE,
            fragment_tests,
            HalaAccessFlags2::DEPTH_STENCIL_ATTACHMENT_WRITE,
            HalaImageLayout::UNDEFINED,
            HalaImageLayout::DEPTH_STENCIL_ATTACHMENT_OPTIMAL,
            aspects,
        );
        let mut calls: Vec<HalaDeviceCall> = Vec::new();
        match ray_tracing_image {
            Some(image) => {
                let mut before: Vec<HalaImageBarrierInfo> = Vec::new();
                before.push(
                    frame_barrier(
                        color_image,
                        HalaPipelineStageFlags2::TOP_OF_PIPE,
                        HalaAccessFlags2::NONE,
                        HalaPipelineStageFlags2::TRANSFER,
                        HalaAccessFlags2::TRANSFER_WRITE,
                        HalaImageLayout::UNDEFINED,
                        HalaImageLayout::TRANSFER_DST_OPTIMAL,
                        HalaImageAspectFlags::COLOR,
                    ),
                );
                before.push(
                    frame_barrier(
                        image.raw,
                        HalaPipelineStageFlags2::RAY_TRACING_SHADER,
                        HalaAccessFlags2::SHADER_WRITE,
                        HalaPipelineStageFlags2::TRANSFER,
                        HalaAccessFlags2::TRANSFER_READ,
                        HalaImageLayout::GENERAL,
                        HalaImageLayout::TRANSFER_SRC_OPTIMAL,
                        HalaImageAspectFlags::COLOR,
                    ),
                );
                assert(before@ =~= spec_before_copy(color_image, image.raw));
                calls.push(command_buffers.set_image_barriers(index, before.as_slice()));
                calls.push(
                    command_buffers.copy_image_2_swapchain(
                        index,
                        image,
                        HalaImageLayout::from_raw(HalaImageLayout::TRANSFER_SRC_OPTIMAL),
                        &self.swapchain,
                        HalaImageLayout::from_raw(HalaImageLayout::TRANSFER_DST_OPTIMAL),
                        index,
                    ),
                );
                let mut after: Vec<HalaImageBarrierInfo> = Vec::new();
                after.push(
                    frame_barrier(
                        color_image,
                        HalaPipelineStageFlags2::TRANSFER,
                        HalaAccessFlags2::TRANSFER_WRITE,
                        HalaPipelineStageFlags2::COLOR_ATTACHMENT_OUTPUT,
                        HalaAccessFlags2::COLOR_ATTACHMENT_WRITE,
                        HalaImageLayout::TRANSFER_DST_OPTIMAL,
                        HalaImageLayout::COLOR_ATTACHMENT_OPTIMAL,
                        HalaImageAspectFlags::COLOR,
                    ),
                );
                after.push(
                    frame_barrier(
                        image.raw,
                        HalaPipelineStageFlags2::TRANSFER,
                        HalaAccessFlags2::TRANSFER_READ,
                        HalaPipelineStageFlags2::ALL_COMMANDS,
                        HalaAccessFlags2::NONE,
                        HalaImageLayout::TRANSFER_SRC_OPTIMAL,
                        HalaImageLayout::GENERAL,
                        HalaImageAspectFlags::COLOR,
                    ),
                );
                if has_depth {
                    after.push(to_depth_stencil);
                }
                assert(after@ =~= spec_after_copy(
                    color_image,
                    image.raw,
                    if has_depth {
                        Some((depth_image, has_stencil))
                    } else {
                        None
                    },
                ));
                calls.push(command_buffers.set_image_barriers(index, after.as_slice()));
            },
            None => {
                let to_color = frame_barrier(
                    0,
                    HalaPipelineStageFlags2::TOP_OF_PIPE,
                    HalaAccessFlags2::NONE,
                    HalaPipelineStageFlags2::COLOR_ATTACHMENT_OUTPUT,
                    HalaAccessFlags2::COLOR_ATTACHMENT_WRITE,
                    HalaImageLayout::UNDEFINED,
                    HalaImageLayout::COLOR_ATTACHMENT_OPTIMAL,
                    HalaImageAspectFlags::COLOR,
                );
                let call = command_buffers.set_swapchain_image_barrier(
                    index,
                    &self.swapchain,
                    &to_color,
                    &to_depth_stencil,
                );
                calls.push(call);
            },
        }
        calls.push(
            command_buffers.begin_rendering(
                index,
                &self.swapchain,
                (0, 0, self.gpu_req.width, self.gpu_req.height),
                color_clear_value,
                depth_clear_value,
                stencil_clear_value,
            ),
        );
        self.recording = HalaRecordingProgress::Rendering;
        Ok(calls)
    }

    /// Whether the calls close the recording of the frame on the slot
    /// `index`: end rendering, hand the swapchain image to presentation,
    /// write the second timestamp of the slot after all commands, and end
    /// the command buffer.
    pub open spec fn spec_is_closing_recording(
        &self,
        calls: Seq<HalaDeviceCall>,
        index: int,
        command_buffer: u64,
    ) -> bool {
        &&& calls.len() == 4
        &&& calls[0] == (HalaDeviceCall::Record {
            command_buffer,
            command: HalaCommand::EndRendering,
        })
        &&& spec_is_image_barriers(
            calls[1],
            command_buffer,
            seq![spec_to_present(self.spec_swapchain().spec_images()[index])],
        )
        &&& calls[2] == (HalaDeviceCall::Record {
            command_buffer,
            command: HalaCommand::WriteTimestamp {
                stage_flags: HalaPipelineStageFlags2(HalaPipelineStageFlags2::ALL_COMMANDS),
                query_pool: self.spec_timestamp_query_pool().raw,
                query: (index * 2 + 1) as u32,
            },
        })
        &&& calls[3] == (HalaDeviceCall::EndCommandBuffer { command_buffer })
    }

    /// The calls that close the recording of the frame on the slot `index`,
    /// made after the graphics commands of the frame have been recorded.
    /// This is the last of the three segments of a recording: it is refused
    /// unless the second was the last segment recorded.
    pub fn record_presentation(
        &mut self,
        index: usize,
        command_buffers: &HalaCommandBufferSet,
    ) -> (result: Result<Vec<HalaDeviceCall>, HalaGfxError>)
        ensures
            final(self).spec_same_but_recording(old(self)),
            !old(self).spec_may_record_presentation(index, command_buffers) ==> (
            result matches Err(e) && e@ == HalaGfxError::spec_plain(
                "The frame cycle is out of step."@,
            ) && final(self).spec_recording() == old(self).spec_recording()),
            old(self).spec_may_record_presentation(index, command_buffers)
                ==> final(self).spec_recording() == HalaRecordingProgress::Closed,
            old(self).spec_may_record_presentation(index, command_buffers) ==> (
            result matches Ok(calls) && old(self).spec_is_closing_recording(
                calls@,
                index as int,
                command_buffers.raw@[index as int],
            )),
    {
        proof {
            use_type_invariant(&*self);
        }
        let rendering = match self.recording {
            HalaRecordingProgress::Rendering => true,
            _ => false,
        };
        if !rendering || !self.may_record(index, command_buffers) {
            return Err(HalaGfxError::new("The frame cycle is out of step.", None));
        }
        let mut calls: Vec<HalaDeviceCall> = Vec::new();
        calls.push(command_buffers.end_rendering(index));
        let mut to_present: Vec<HalaImageBarrierInfo> = Vec::new();
        to_present.push(
            frame_barrier(
                self.swapchain.images()[index],
                HalaPipelineStageFlags2::COLOR_ATTACHMENT_OUTPUT,
                HalaAccessFlags2::COLOR_ATTACHMENT_WRITE,
                HalaPipelineStageFlags2::BOTTOM_OF_PIPE,
                HalaAccessFlags2::NONE,
                HalaImageLayout::COLOR_ATTACHMENT_OPTIMAL,
                HalaImageLayout::PRESENT_SRC,
                HalaImageAspectFlags::COLOR,
            ),
        );
        calls.push(command_buffers.set_image_barriers(index, to_present.as_slice()));
        calls.push(
            command_buffers.write_timestamp(
                index,
                HalaPipelineStageFlags2::from_raw(HalaPipelineStageFlags2::ALL_COMMANDS),
                &self.timestamp_query_pool,
                (index * 2 + 1) as u32,
            ),
        );
        calls.push(command_buffers.end(index));
        self.recording = HalaRecordingProgress::Closed;
        Ok(calls)
    }

    /// The requirements with another extent.
    pub open spec fn spec_with_extent(
        gpu_req: HalaGPURequirements,
        width: u32,
        height: u32,
    ) -> HalaGPURequirements {
        HalaGPURequirements { width, height, ..gpu_req }
    }

    /// Begins a resize to the extent `width` by `height`, or takes another
    /// extent for a resize that has begun: the frame cycle stops, and the
    /// device is to be asked to go idle. Nothing else changes yet: the
    /// swapchain is whole and the requirements keep their extent until the
    /// answer of the driver has been handed to `teardown_swapchain`.
    pub fn reset_swapchain(&mut self, width: u32, height: u32) -> (call: HalaDeviceCall)
        ensures
            call == HalaDeviceCall::DeviceWaitIdle,
            final(self).spec_resize() == (if old(self).spec_has_swapchain() {
                HalaResizeProgress::Waiting { width, height }
            } else {
                HalaResizeProgress::WaitingTornDown { width, height }
            }),
            final(self).spec_frame() == old(self).spec_frame().spec_at(HalaFramePhase::Resizing),
            final(self).spec_resumed_phase() == old(self).spec_resumed_phase(),
            final(self).spec_inv(),
            final(self).spec_gpu_req() == old(self).spec_gpu_req(),
            final(self).spec_swapchain() == old(self).spec_swapchain(),
            final(self).spec_recording() == old(self).spec_recording(),
            final(self).spec_same_objects(old(self)),
    {
        proof {
            use_type_invariant(&*self);
        }
        self.resize = if self.has_swapchain() {
            HalaResizeProgress::Waiting { width, height }
        } else {
            HalaResizeProgress::WaitingTornDown { width, height }
        };
        self.logical_device.wait_idle()
    }

    /// Takes the answer of the driver to the wait that `reset_swapchain`
    /// asked for.
    ///
    /// Where the wait has failed, the resize is given up with the error of
    /// the wait: the swapchain, the requirements and the phase of the frame
    /// cycle are what they were before the resize began, and nothing is to
    /// be destroyed.
    ///
    /// Where the wait has succeeded, the swapchain is torn down: the
    /// returned calls destroy everything that it owns, the depth and
    /// stencil image with it, each object once; the requirements take the
    /// new extent; and from then on the context has no swapchain, until a
    /// new one is handed over with `finish_reset_swapchain`. Where the
    /// swapchain had been torn down before, there is nothing to destroy.
    ///
    /// Without a wait asked for, the answer is refused and nothing changes.
    pub fn teardown_swapchain(&mut self, outcome: Result<(), i32>) -> (result: Result<
        Vec<HalaDeviceCall>,
        HalaGfxError,
    >)
        ensures
            final(self).spec_inv(),
            final(self).spec_swapchain() == old(self).spec_swapchain(),
            final(self).spec_recording() == old(self).spec_recording(),
            final(self).spec_resumed_phase() == old(self).spec_resumed_phase(),
            final(self).spec_same_objects(old(self)),
            match (old(self).spec_resize(), outcome) {
                (HalaResizeProgress::Waiting { width, height }, Ok(_)) => {
                    &&& result matches Ok(calls) && calls@ == old(self).spec_swapchain().spec_destroy()
                    &&& final(self).spec_resize() == HalaResizeProgress::TornDown
                    &&& final(self).spec_gpu_req() == Self::spec_with_extent(
                        old(self).spec_gpu_req(),
                        width,
                        height,
                    )
                    &&& final(self).spec_frame() == old(self).spec_frame()
                },
                (HalaResizeProgress::WaitingTornDown { width, height }, Ok(_)) => {
                    &&& result matches Ok(calls) && calls@.len() == 0
                    &&& final(self).spec_resize() == HalaResizeProgress::TornDown
                    &&& final(self).spec_gpu_req() == Self::spec_with_extent(
                        old(self).spec_gpu_req(),
                        width,
                        height,
                    )
                    &&& final(self).spec_frame() == old(self).spec_frame()
                },
                (HalaResizeProgress::Waiting { .. }, Err(code)) => {
                    &&& result matches Err(e) && e@ == HalaGfxError::spec_vulkan(
                        "Failed to wait idle."@,
                        code,
                    )
                    &&& final(self).spec_resize() == HalaResizeProgress::Settled
                    &&& final(self).spec_gpu_req() == old(self).spec_gpu_req()
                    &&& final(self).spec_frame() == old(self).spec_frame().spec_at(
                        old(self).spec_resumed_phase(),
                    )
                },
                (HalaResizeProgress::WaitingTornDown { .. }, Err(code)) => {
                    &&& result matches Err(e) && e@ == HalaGfxError::spec_vulkan(
                        "Failed to wait idle."@,
                        code,
                    )
                    &&& final(self).spec_resize() == HalaResizeProgress::TornDown
                    &&& final(self).spec_gpu_req() == old(self).spec_gpu_req()
                    &&& final(self).spec_frame() == old(self).spec_frame()
                },
                _ => {
                    &&& result matches Err(e) && e@ == HalaGfxError::spec_plain(
                        "No resize is under way."@,
                    )
                    &&& final(self).spec_resize() == old(self).spec_resize()
                    &&& final(self).spec_gpu_req() == old(self).spec_gpu_req()
                    &&& final(self).spec_frame() == old(self).spec_frame()
                },
            },
    {
        proof {
            use_type_invariant(&*self);
        }
        match (self.resize, outcome) {
            (HalaResizeProgress::Waiting { width, height }, Ok(_)) => {
                let calls = self.swapchain.destroy();
                self.gpu_req.width = width;
                self.gpu_req.height = height;
                self.resize = HalaResizeProgress::TornDown;
                Ok(calls)
            },
            (HalaResizeProgress::WaitingTornDown { width, height }, Ok(_)) => {
                self.gpu_req.width = width;
                self.gpu_req.height = height;
                self.resize = HalaResizeProgress::TornDown;
                Ok(Vec::new())
            },
            (HalaResizeProgress::Waiting { .. }, Err(code)) => {
                self.resize = HalaResizeProgress::Settled;
                Err(HalaDeviceCall::DeviceWaitIdle.failure(code))
            },
            (HalaResizeProgress::WaitingTornDown { .. }, Err(code)) => {
                self.resize = HalaResizeProgress::TornDown;
                Err(HalaDeviceCall::DeviceWaitIdle.failure(code))
            },
            _ => Err(HalaGfxError::new("No resize is under way.", None)),
        }
    }

    /// Ends a resize: once the swapchain has been torn down, the new
    /// swapchain takes its place, no slot holds a submission, and the frame
    /// cycle rests between two frames. While the context has a swapchain,
    /// or while the answer to a wait is owed, the new swapchain is refused
    /// and nothing changes.
    pub fn finish_reset_swapchain(&mut self, swapchain: HalaSwapchain) -> (result: Result<
        (),
        HalaGfxError,
    >)
        ensures
            final(self).spec_inv(),
            final(self).spec_gpu_req().spec_same(old(self).spec_gpu_req()),
            final(self).spec_same_objects(old(self)),
            old(self).spec_resize() is TornDown ==> {
                &&& result is Ok
                &&& *final(self).spec_swapchain() == swapchain
                &&& final(self).spec_resize() == HalaResizeProgress::Settled
                &&& final(self).spec_recording() == HalaRecordingProgress::NotBegun
                &&& final(self).spec_frame().phase == HalaFramePhase::Idle
                &&& final(self).spec_frame().in_flight == Seq::new(
                    swapchain.spec_num_of_images() as nat,
                    |i: int| false,
                )
            },
            !(old(self).spec_resize() is TornDown) ==> {
                &&& result matches Err(e)
                &&& e@ == HalaGfxError::spec_plain("The swapchain has not been torn down."@)
                &&& final(self).spec_swapchain() == old(self).spec_swapchain()
                &&& final(self).spec_resize() == old(self).spec_resize()
                &&& final(self).spec_recording() == old(self).spec_recording()
                &&& final(self).spec_frame() == old(self).spec_frame()
                &&& final(self).spec_gpu_req() == old(self).spec_gpu_req()
            },
    {
        proof {
            use_type_invariant(&*self);
        }
        let torn_down = match self.resize {
            HalaResizeProgress::TornDown => true,
            _ => false,
        };
        if !torn_down {
            return Err(HalaGfxError::new("The swapchain has not been torn down.", None));
        }
        let count: usize = swapchain.num_of_images();
        let _ = swapchain.current_image_index();
        let name = self.name.clone();
        let gpu_req = self.gpu_req.clone();
        *self = HalaContext {
            name,
            gpu_req,
            instance: self.instance,
            surface: self.surface,
            device: self.device,
            logical_device: self.logical_device,
            swapchain,
            pools: self.pools,
            short_time_pools: self.short_time_pools,
            timestamp_query_pool: self.timestamp_query_pool,
            multisample_count: self.multisample_count,
            phase: HalaFramePhase::Idle,
            image_index: 0,
            in_flight: Self::none_in_flight(count),
            recording: HalaRecordingProgress::NotBegun,
            resize: HalaResizeProgress::Settled,
        };
        Ok(())
    }

    /// The calls that give the context up, what depends on another object
    /// going before it: the timestamp query pool, the pools of short-lived
    /// commands, the main pools, the swapchain if the context has one, the
    /// surface, the memory allocator of the device, the device, the
    /// instance. Of a swapchain that has been torn down nothing is
    /// destroyed again.
    pub open spec fn spec_destroy(&self) -> Seq<HalaDeviceCall> {
        let (instance, surface, device, pools, short_time_pools) = self.spec_owned();
        seq![
            HalaDeviceCall::Destroy {
                kind: HalaObjectKind::QueryPool,
                handle: self.spec_timestamp_query_pool().raw,
            },
            HalaDeviceCall::Destroy {
                kind: HalaObjectKind::CommandPool,
                handle: short_time_pools.graphics,
            },
            HalaDeviceCall::Destroy {
                kind: HalaObjectKind::CommandPool,
                handle: short_time_pools.compute,
            },
            HalaDeviceCall::Destroy {
                kind: HalaObjectKind::CommandPool,
                handle: short_time_pools.transfer,
            },
            HalaDeviceCall::Destroy { kind: HalaObjectKind::CommandPool, handle: pools.graphics },
            HalaDeviceCall::Destroy { kind: HalaObjectKind::CommandPool, handle: pools.compute },
            HalaDeviceCall::Destroy { kind: HalaObjectKind::CommandPool, handle: pools.transfer },
        ] + (if self.spec_has_swapchain() {
            self.spec_swapchain().spec_destroy()
        } else {
            Seq::<HalaDeviceCall>::empty()
        }) + seq![
            HalaDeviceCall::Destroy { kind: HalaObjectKind::Surface, handle: surface },
            HalaDeviceCall::Destroy { kind: HalaObjectKind::Allocation, handle: device },
            HalaDeviceCall::Destroy { kind: HalaObjectKind::Device, handle: device },
            HalaDeviceCall::Destroy { kind: HalaObjectKind::Instance, handle: instance },
        ]
    }

    /// Gives the context up: the calls that destroy everything that it
    /// owns, each object once, no object before one that depends on it.
    pub fn destroy(&self) -> (calls: Vec<HalaDeviceCall>)
        ensures
            calls@ == self.spec_destroy(),
    {
        let mut calls: Vec<HalaDeviceCall> = Vec::new();
        calls.push(
            HalaDeviceCall::Destroy {
                kind: HalaObjectKind::QueryPool,
                handle: self.timestamp_query_pool.raw,
            },
        );
        let mut short_time = self.short_time_pools.destroy();
        calls.append(&mut short_time);
        let mut main = self.pools.destroy();
        calls.append(&mut main);
        if self.has_swapchain() {
            let mut swapchain = self.swapchain.destroy();
            calls.append(&mut swapchain);
        }
        calls.push(HalaDeviceCall::Destroy { kind: HalaObjectKind::Surface, handle: self.surface });
        calls.push(HalaDeviceCall::Destroy {
            kind: HalaObjectKind::Allocation,
            handle: self.device,
        });
        calls.push(HalaDeviceCall::Destroy { kind: HalaObjectKind::Device, handle: self.device });
        calls.push(HalaDeviceCall::Destroy {
            kind: HalaObjectKind::Instance,
            handle: self.instance,
        });
        calls
    }
}

} // verus!
