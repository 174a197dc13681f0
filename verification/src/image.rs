//! Images: barriers, uploads through a staging buffer and the generation of
//! mip chains.

use crate::barrier::{
    HalaAccessFlags2, HalaImageAspectFlags, HalaImageBarrierInfo, HalaImageLayout,
    QUEUE_FAMILY_IGNORED,
};
use crate::buffer::HalaBuffer;
use crate::command_buffer::HalaCommandBufferSet;
use crate::device::{
    spec_is_image_barriers, HalaCallSequence, HalaCommand, HalaDeviceCall, HalaObjectKind,
    HalaQueue,
};
use crate::error::HalaGfxError;
use crate::format::HalaFormat;
use crate::logical_device::{HalaLogicalDevice, HalaMemoryLocation};
use crate::pipeline::HalaPipelineStageFlags2;
use vstd::prelude::*;

verus! {

/// The image usage flags.
#[derive(Clone, Copy, PartialEq, Eq, Structural, PartialOrd, Ord, Hash, Debug)]
pub struct HalaImageUsageFlags(pub u32);

impl Default for HalaImageUsageFlags {
    fn default() -> (value: Self)
        ensures
            value.0 == 0,
    {
        Self(0)
    }
}

impl HalaImageUsageFlags {
    pub const TRANSFER_SRC: u32 = 1;
    pub const TRANSFER_DST: u32 = 2;
    pub const SAMPLED: u32 = 4;
    pub const STORAGE: u32 = 8;
    pub const COLOR_ATTACHMENT: u32 = 0x10;
    pub const DEPTH_STENCIL_ATTACHMENT: u32 = 0x20;
    pub const TRANSIENT_ATTACHMENT: u32 = 0x40;
    pub const INPUT_ATTACHMENT: u32 = 0x80;

    /// The value with no bit set.
    pub fn empty() -> (value: Self)
        ensures
            value.0 == 0,
    {
        Self(0)
    }

    /// The value with the given raw bits.
    pub fn from_raw(x: u32) -> (value: Self)
        ensures
            value.0 == x,
    {
        Self(x)
    }

    /// The raw bits of the value.
    pub fn as_raw(self) -> (x: u32)
        ensures
            x == self.0,
    {
        self.0
    }

    /// Whether no bit is set.
    pub fn is_empty(self) -> (b: bool)
        ensures
            b == (self.0 == 0),
    {
        self.0 == 0
    }

    /// Whether the two values share a bit.
    pub fn intersects(self, other: Self) -> (b: bool)
        ensures
            b == (self.0 & other.0 != 0),
    {
        self.0 & other.0 != 0
    }

    /// Whether every bit of `other` is set in `self`.
    pub fn contains(self, other: Self) -> (b: bool)
        ensures
            b == (self.0 & other.0 == other.0),
    {
        self.0 & other.0 == other.0
    }
}

impl core::ops::BitOr for HalaImageUsageFlags {
    type Output = Self;

    fn bitor(self, rhs: Self) -> (value: Self) {
        Self(self.0 | rhs.0)
    }
}

impl vstd::std_specs::ops::BitOrSpecImpl for HalaImageUsageFlags {
    open spec fn obeys_bitor_spec() -> bool {
        true
    }

    open spec fn bitor_req(self, rhs: Self) -> bool {
        true
    }

    open spec fn bitor_spec(self, rhs: Self) -> Self {
        Self(self.0 | rhs.0)
    }
}

impl core::ops::BitAnd for HalaImageUsageFlags {
    type Output = Self;

    fn bitand(self, rhs: Self) -> (value: Self) {
        Self(self.0 & rhs.0)
    }
}

impl vstd::std_specs::ops::BitAndSpecImpl for HalaImageUsageFlags {
    open spec fn obeys_bitand_spec() -> bool {
        true
    }

    open spec fn bitand_req(self, rhs: Self) -> bool {
        true
    }

    open spec fn bitand_spec(self, rhs: Self) -> Self {
        Self(self.0 & rhs.0)
    }
}

impl core::ops::BitXor for HalaImageUsageFlags {
    type Output = Self;

    fn bitxor(self, rhs: Self) -> (value: Self) {
        Self(self.0 ^ rhs.0)
    }
}

impl vstd::std_specs::ops::BitXorSpecImpl for HalaImageUsageFlags {
    open spec fn obeys_bitxor_spec() -> bool {
        true
    }

    open spec fn bitxor_req(self, rhs: Self) -> bool {
        true
    }

    open spec fn bitxor_spec(self, rhs: Self) -> Self {
        Self(self.0 ^ rhs.0)
    }
}

impl core::ops::Not for HalaImageUsageFlags {
    type Output = Self;

    fn not(self) -> (value: Self) {
        Self(!self.0)
    }
}

impl vstd::std_specs::ops::NotSpecImpl for HalaImageUsageFlags {
    open spec fn obeys_not_spec() -> bool {
        true
    }

    open spec fn not_req(self) -> bool {
        true
    }

    open spec fn not_spec(self) -> Self {
        Self(!self.0)
    }
}

/// The image: a device resource by its native handle, its views, its
/// extent and format, and the location of its memory.
#[derive(Clone, Debug)]
pub struct HalaImage {
    pub raw: u64,
    pub view: u64,
    pub width: u32,
    pub height: u32,
    pub depth: u32,
    pub format: HalaFormat,
    pub mip_levels: u32,
    pub mip_views: Vec<u64>,
    pub array_layers: u32,
    pub array_views: Vec<u64>,
    pub memory_location: HalaMemoryLocation,
    pub size: u64,
}

/// A barrier on one mip level of the first layer of the colour aspect of
/// an image, without a move between queue families.
pub open spec fn spec_color_barrier(
    image: u64,
    mip_level: u32,
    src_stage_mask: u64,
    src_access_mask: u64,
    dst_stage_mask: u64,
    dst_access_mask: u64,
    old_layout: i32,
    new_layout: i32,
) -> HalaImageBarrierInfo {
    HalaImageBarrierInfo {
        src_stage_mask: HalaPipelineStageFlags2(src_stage_mask),
        src_access_mask: HalaAccessFlags2(src_access_mask),
        dst_stage_mask: HalaPipelineStageFlags2(dst_stage_mask),
        dst_access_mask: HalaAccessFlags2(dst_access_mask),
        old_layout: HalaImageLayout(old_layout),
        new_layout: HalaImageLayout(new_layout),
        src_queue_family_index: QUEUE_FAMILY_IGNORED,
        dst_queue_family_index: QUEUE_FAMILY_IGNORED,
        aspect_mask: HalaImageAspectFlags(HalaImageAspectFlags::COLOR),
        base_mip_level: mip_level,
        level_count: 1,
        base_array_layer: 0,
        layer_count: 1,
        image,
    }
}

/// A barrier on one mip level of the first layer of the colour aspect of
/// an image, without a move between queue families.
pub fn color_barrier(
    image: u64,
    mip_level: u32,
    src_stage_mask: u64,
    src_access_mask: u64,
    dst_stage_mask: u64,
    dst_access_mask: u64,
    old_layout: i32,
    new_layout: i32,
) -> (barrier: HalaImageBarrierInfo)
    ensures
        barrier == spec_color_barrier(
            image,
            mip_level,
            src_stage_mask,
            src_access_mask,
            dst_stage_mask,
            dst_access_mask,
            old_layout,
            new_layout,
        ),
{
    HalaImageBarrierInfo {
        src_stage_mask: HalaPipelineStageFlags2::from_raw(src_stage_mask),
        src_access_mask: HalaAccessFlags2::from_raw(src_access_mask),
        dst_stage_mask: HalaPipelineStageFlags2::from_raw(dst_stage_mask),
        dst_access_mask: HalaAccessFlags2::from_raw(dst_access_mask),
        old_layout: HalaImageLayout::from_raw(old_layout),
        new_layout: HalaImageLayout::from_raw(new_layout),
        src_queue_family_index: QUEUE_FAMILY_IGNORED,
        dst_queue_family_index: QUEUE_FAMILY_IGNORED,
        aspect_mask: HalaImageAspectFlags::from_raw(HalaImageAspectFlags::COLOR),
        base_mip_level: mip_level,
        level_count: 1,
        base_array_layer: 0,
        layer_count: 1,
        image,
    }
}

/// The call that records one pipeline barrier made of image barriers.
pub fn image_barriers_call(command_buffer: u64, barriers: Vec<HalaImageBarrierInfo>) -> (call:
    HalaDeviceCall)
    ensures
        spec_is_image_barriers(call, command_buffer, barriers@),
{
    HalaDeviceCall::Record {
        command_buffer,
        command: HalaCommand::PipelineBarrier {
            image_barriers: barriers,
            buffer_barriers: Vec::new(),
            memory_barriers: Vec::new(),
        },
    }
}

/// The extent of a mip level along one axis: the extent of the image halved
/// once for each level, and never less than one.
pub open spec fn spec_mip_extent(extent: u32, mip_level: u32) -> u32 {
    if extent >> mip_level > 1 {
        extent >> mip_level
    } else {
        1
    }
}

/// The extent of the next smaller mip level along one axis.
pub open spec fn spec_next_mip_extent(extent: u32) -> u32 {
    if extent > 1 {
        extent / 2
    } else {
        1
    }
}

impl HalaImage {
    /// The barrier that makes the first mip level writable by a transfer.
    pub open spec fn spec_upload_input_barrier(self) -> HalaImageBarrierInfo {
        spec_color_barrier(
            self.raw,
            0,
            HalaPipelineStageFlags2::NONE,
            HalaAccessFlags2::NONE,
            HalaPipelineStageFlags2::TRANSFER,
            HalaAccessFlags2::TRANSFER_WRITE,
            HalaImageLayout::UNDEFINED,
            HalaImageLayout::TRANSFER_DST_OPTIMAL,
        )
    }

    /// The barrier that hands the first mip level from the transfer to the
    /// stages, accesses and layout that the caller reads it with.
    pub open spec fn spec_upload_output_barrier(
        self,
        dst_stage_mask: HalaPipelineStageFlags2,
        dst_access_mask: HalaAccessFlags2,
        dst_layout: HalaImageLayout,
    ) -> HalaImageBarrierInfo {
        spec_color_barrier(
            self.raw,
            0,
            HalaPipelineStageFlags2::TRANSFER,
            HalaAccessFlags2::TRANSFER_WRITE,
            dst_stage_mask.0,
            dst_access_mask.0,
            HalaImageLayout::TRANSFER_DST_OPTIMAL,
            dst_layout.0,
        )
    }

    /// Whether the three calls record an upload into the image: a barrier
    /// that makes the image writable by a transfer, the copy from the
    /// staging buffer, and a barrier that makes the image readable as the
    /// caller asks.
    pub open spec fn spec_is_upload_recording(
        self,
        recording: Seq<HalaDeviceCall>,
        command_buffer: u64,
        staging_buffer: HalaBuffer,
        dst_stage_mask: HalaPipelineStageFlags2,
        dst_access_mask: HalaAccessFlags2,
        dst_layout: HalaImageLayout,
    ) -> bool {
        &&& recording.len() == 3
        &&& spec_is_image_barriers(
            recording[0],
            command_buffer,
            seq![self.spec_upload_input_barrier()],
        )
        &&& recording[1] == (HalaDeviceCall::Record {
            command_buffer,
            command: HalaCommand::CopyBufferToImage {
                src_buffer: staging_buffer.raw,
                dst_image: self.raw,
                dst_image_layout: HalaImageLayout(HalaImageLayout::TRANSFER_DST_OPTIMAL),
                width: self.width,
                height: self.height,
                depth: self.depth,
            },
        })
        &&& spec_is_image_barriers(
            recording[2],
            command_buffer,
            seq![self.spec_upload_output_barrier(dst_stage_mask, dst_access_mask, dst_layout)],
        )
    }

    /// The queue that a transfer of the image is submitted to: the first
    /// queue of the family that serves the command buffers, the graphics
    /// family standing in for an unknown type.
    pub open spec fn spec_transfer_queue(
        command_buffers: HalaCommandBufferSet,
        logical_device: HalaLogicalDevice,
    ) -> HalaQueue {
        match logical_device.spec_queue_for(command_buffers.command_buffer_type, 0) {
            Some(queue) => queue,
            None => HalaQueue {
                family_index: logical_device.graphics_queue_family_index,
                queue_index: 0,
            },
        }
    }

    /// The two barriers before the blit into mip level `mip_level`: the
    /// level above it becomes the source of a transfer, the level itself
    /// the destination.
    pub open spec fn spec_mip_input_barriers(self, mip_level: u32) -> Seq<HalaImageBarrierInfo> {
        seq![
            spec_color_barrier(
                self.raw,
                (mip_level - 1) as u32,
                HalaPipelineStageFlags2::TRANSFER,
                HalaAccessFlags2::TRANSFER_WRITE,
                HalaPipelineStageFlags2::TRANSFER,
                HalaAccessFlags2::TRANSFER_READ,
                HalaImageLayout::UNDEFINED,
                HalaImageLayout::TRANSFER_SRC_OPTIMAL,
            ),
            spec_color_barrier(
                self.raw,
                mip_level,
                HalaPipelineStageFlags2::NONE,
                HalaAccessFlags2::NONE,
                HalaPipelineStageFlags2::TRANSFER,
                HalaAccessFlags2::TRANSFER_WRITE,
                HalaImageLayout::UNDEFINED,
                HalaImageLayout::TRANSFER_DST_OPTIMAL,
            ),
        ]
    }

    /// The barrier that makes mip level `mip_level` readable by shaders of
    /// the graphics stages.
    pub open spec fn spec_mip_output_barrier(self, mip_level: u32) -> HalaImageBarrierInfo {
        spec_color_barrier(
            self.raw,
            mip_level,
            HalaPipelineStageFlags2::TRANSFER,
            HalaAccessFlags2::TRANSFER_WRITE,
            HalaPipelineStageFlags2::ALL_GRAPHICS,
            HalaAccessFlags2::SHADER_READ,
            HalaImageLayout::UNDEFINED,
            HalaImageLayout::SHADER_READ_ONLY_OPTIMAL,
        )
    }

    /// The blit that fills mip level `mip_level` from the level above it.
    pub open spec fn spec_mip_blit(self, command_buffer: u64, mip_level: u32) -> HalaDeviceCall {
        HalaDeviceCall::Record {
            command_buffer,
            command: HalaCommand::BlitImage {
                image: self.raw,
                src_mip_level: (mip_level - 1) as u32,
                src_width: spec_mip_extent(self.width, (mip_level - 1) as u32),
                src_height: spec_mip_extent(self.height, (mip_level - 1) as u32),
                dst_mip_level: mip_level,
                dst_width: spec_next_mip_extent(spec_mip_extent(self.width, (mip_level - 1) as u32)),
                dst_height: spec_next_mip_extent(spec_mip_extent(self.height, (mip_level - 1) as u32)),
            },
        }
    }

    /// Whether the five calls from position `5 (mip_level - 1)` on fill mip
    /// level `mip_level`: the input barriers, twice; the blit; the barrier
    /// that makes the level above readable by shaders, twice.
    pub open spec fn spec_is_mip_level_recording(
        self,
        recording: Seq<HalaDeviceCall>,
        command_buffer: u64,
        mip_level: u32,
    ) -> bool {
        let base = 5 * (mip_level - 1);
        &&& base + 5 <= recording.len()
        &&& spec_is_image_barriers(
            recording[base],
            command_buffer,
            self.spec_mip_input_barriers(mip_level),
        )
        &&& spec_is_image_barriers(
            recording[base + 1],
            command_buffer,
            self.spec_mip_input_barriers(mip_level),
        )
        &&& recording[base + 2] == self.spec_mip_blit(command_buffer, mip_level)
        &&& spec_is_image_barriers(
            recording[base + 3],
            command_buffer,
            seq![self.spec_mip_output_barrier((mip_level - 1) as u32)],
        )
        &&& spec_is_image_barriers(
            recording[base + 4],
            command_buffer,
            seq![self.spec_mip_output_barrier((mip_level - 1) as u32)],
        )
    }

    /// Whether the calls record the generation of the whole mip chain: five
    /// calls for each level below the first, from the largest on, and then,
    /// twice, the barrier that makes the last level readable by shaders.
    pub open spec fn spec_is_mipmap_recording(self, recording: Seq<HalaDeviceCall>, command_buffer: u64) -> bool {
        &&& recording.len() == 5 * (self.mip_levels - 1) + 2
        &&& forall|mip_level: u32|
            1 <= mip_level < self.mip_levels ==> #[trigger] self.spec_is_mip_level_recording(
                recording,
                command_buffer,
                mip_level,
            )
        &&& spec_is_image_barriers(
            recording[5 * (self.mip_levels - 1)],
            command_buffer,
            seq![self.spec_mip_output_barrier((self.mip_levels - 1) as u32)],
        )
        &&& spec_is_image_barriers(
            recording[5 * (self.mip_levels - 1) + 1],
            command_buffer,
            seq![self.spec_mip_output_barrier((self.mip_levels - 1) as u32)],
        )
    }

    /// The aspect that the views of an image of the given format show: the
    /// depth of a depth format, and the colour of every other format.
    pub open spec fn spec_view_aspect(format: HalaFormat) -> HalaImageAspectFlags {
        if format.0 == HalaFormat::D16_UNORM || format.0 == HalaFormat::D32_SFLOAT || format.0
            == HalaFormat::D24_UNORM_S8_UINT {
            HalaImageAspectFlags(HalaImageAspectFlags::DEPTH)
        } else {
            HalaImageAspectFlags(HalaImageAspectFlags::COLOR)
        }
    }

    /// The aspect that the views of an image of the given format show.
    pub fn view_aspect(format: HalaFormat) -> (aspect: HalaImageAspectFlags)
        ensures
            aspect == Self::spec_view_aspect(format),
    {
        let raw = format.as_raw();
        if raw == HalaFormat::D16_UNORM || raw == HalaFormat::D32_SFLOAT || raw
            == HalaFormat::D24_UNORM_S8_UINT {
            HalaImageAspectFlags::from_raw(HalaImageAspectFlags::DEPTH)
        } else {
            HalaImageAspectFlags::from_raw(HalaImageAspectFlags::COLOR)
        }
    }

    /// The calls that give the image up: the view of each layer and of each
    /// mip level, the view of the whole, the handle of the image, and after
    /// that the memory behind it.
    pub fn destroy(&self) -> (calls: Vec<HalaDeviceCall>)
        ensures
            calls@.len() == self.array_views@.len() + self.mip_views@.len() + 3,
            forall|i: int|
                0 <= i < self.array_views@.len() ==> calls@[i] == (HalaDeviceCall::Destroy {
                    kind: HalaObjectKind::ImageView,
                    handle: self.array_views@[i],
                }),
            forall|i: int|
                0 <= i < self.mip_views@.len() ==> calls@[self.array_views@.len() + i] == (
                HalaDeviceCall::Destroy {
                    kind: HalaObjectKind::ImageView,
                    handle: self.mip_views@[i],
                }),
            calls@[calls@.len() - 3] == (HalaDeviceCall::Destroy {
                kind: HalaObjectKind::ImageView,
                handle: self.view,
            }),
            calls@[calls@.len() - 2] == (HalaDeviceCall::Destroy {
                kind: HalaObjectKind::Image,
                handle: self.raw,
            }),
            calls@[calls@.len() - 1] == (HalaDeviceCall::Destroy {
                kind: HalaObjectKind::Allocation,
                handle: self.raw,
            }),
    {
        let mut calls: Vec<HalaDeviceCall> = Vec::new();
        let mut i: usize = 0;
        while i < self.array_views.len()
            invariant
                i <= self.array_views@.len(),
                calls@.len() == i,
                forall|j: int|
                    0 <= j < i ==> calls@[j] == (HalaDeviceCall::Destroy {
                        kind: HalaObjectKind::ImageView,
                        handle: self.array_views@[j],
                    }),
            decreases self.array_views@.len() - i,
        {
            calls.push(
                HalaDeviceCall::Destroy {
                    kind: HalaObjectKind::ImageView,
                    handle: self.array_views[i],
                },
            );
            i = i + 1;
        }
        let mut k: usize = 0;
        while k < self.mip_views.len()
            invariant
                k <= self.mip_views@.len(),
                calls@.len() == self.array_views@.len() + k,
                forall|j: int|
                    0 <= j < self.array_views@.len() ==> calls@[j] == (HalaDeviceCall::Destroy {
                        kind: HalaObjectKind::ImageView,
                        handle: self.array_views@[j],
                    }),
                forall|j: int|
                    0 <= j < k ==> calls@[self.array_views@.len() + j] == (HalaDeviceCall::Destroy {
                        kind: HalaObjectKind::ImageView,
                        handle: self.mip_views@[j],
                    }),
            decreases self.mip_views@.len() - k,
        {
            calls.push(
                HalaDeviceCall::Destroy {
                    kind: HalaObjectKind::ImageView,
                    handle: self.mip_views[k],
                },
            );
            k = k + 1;
        }
        calls.push(HalaDeviceCall::Destroy { kind: HalaObjectKind::ImageView, handle: self.view });
        calls.push(HalaDeviceCall::Destroy { kind: HalaObjectKind::Image, handle: self.raw });
        calls.push(HalaDeviceCall::Destroy { kind: HalaObjectKind::Allocation, handle: self.raw });
        calls
    }

    /// The three calls that record an upload into the image: the barrier
    /// that makes it writable by a transfer, the copy from the staging
    /// buffer, and the barrier that makes it readable in the stages, with
    /// the accesses and in the layout that the caller names.
    pub fn upload_commands(
        &self,
        command_buffer: u64,
        staging_buffer: &HalaBuffer,
        dst_stage_mask: HalaPipelineStageFlags2,
        dst_access_mask: HalaAccessFlags2,
        dst_layout: HalaImageLayout,
    ) -> (recording: Vec<HalaDeviceCall>)
        ensures
            self.spec_is_upload_recording(
                recording@,
                command_buffer,
                *staging_buffer,
                dst_stage_mask,
                dst_access_mask,
                dst_layout,
            ),
    {
        let mut recording: Vec<HalaDeviceCall> = Vec::new();
        let mut input: Vec<HalaImageBarrierInfo> = Vec::new();
        input.push(
            color_barrier(
                self.raw,
                0,
                HalaPipelineStageFlags2::NONE,
                HalaAccessFlags2::NONE,
                HalaPipelineStageFlags2::TRANSFER,
                HalaAccessFlags2::TRANSFER_WRITE,
                HalaImageLayout::UNDEFINED,
                HalaImageLayout::TRANSFER_DST_OPTIMAL,
            ),
        );
        recording.push(image_barriers_call(command_buffer, input));
        recording.push(
            HalaDeviceCall::Record {
                command_buffer,
                command: HalaCommand::CopyBufferToImage {
                    src_buffer: staging_buffer.raw,
                    dst_image: self.raw,
                    dst_image_layout: HalaImageLayout::from_raw(HalaImageLayout::TRANSFER_DST_OPTIMAL),
                    width: self.width,
                    height: self.height,
                    depth: self.depth,
                },
            },
        );
        let mut output: Vec<HalaImageBarrierInfo> = Vec::new();
        output.push(
            color_barrier(
                self.raw,
                0,
                HalaPipelineStageFlags2::TRANSFER,
                HalaAccessFlags2::TRANSFER_WRITE,
                dst_stage_mask.as_raw(),
                dst_access_mask.as_raw(),
                HalaImageLayout::TRANSFER_DST_OPTIMAL,
                dst_layout.as_raw(),
            ),
        );
        recording.push(image_barriers_call(command_buffer, output));
        recording
    }

    /// Uploads `data` into this device-only image through a staging buffer:
    /// the bytes are written into the mapped memory of the staging buffer,
    /// and the returned sequence submits, on the first command buffer of the
    /// set, the three calls of `upload_commands` and blocks until they have
    /// run. An image that is not in device-only memory is refused before
    /// anything is written, and so is a staging buffer that cannot take the
    /// write.
    pub fn update_gpu_memory_with_buffer(
        &self,
        data: &[u8],
        dst_stage_mask: HalaPipelineStageFlags2,
        dst_access_mask: HalaAccessFlags2,
        dst_layout: HalaImageLayout,
        staging_buffer: &HalaBuffer,
        staging_mapped: &mut [u8],
        command_buffers: &HalaCommandBufferSet,
        logical_device: &HalaLogicalDevice,
    ) -> (result: Result<HalaCallSequence, HalaGfxError>)
        requires
            command_buffers.raw@.len() > 0,
        ensures
            !(self.memory_location is GpuOnly) ==> {
                &&& result matches Err(e)
                &&& e@ == HalaGfxError::spec_plain(
                    "Cannot update GPU memory of a non GPU only buffer."@,
                )
                &&& final(staging_mapped)@ == old(staging_mapped)@
            },
            self.memory_location is GpuOnly ==> match staging_buffer.spec_update_memory(
                0,
                data@,
                old(staging_mapped)@,
            ) {
                Err(refusal) => {
                    &&& result matches Err(e)
                    &&& e@ == refusal
                    &&& final(staging_mapped)@ == old(staging_mapped)@
                },
                Ok(written) => {
                    &&& final(staging_mapped)@ == written
                    &&& result matches Ok(sequence)
                    &&& sequence.spec_position() == 0
                    &&& !sequence.spec_failed()
                    &&& sequence.spec_calls().len() == 8
                    &&& sequence.spec_calls() == HalaLogicalDevice::spec_execute_and_submit(
                        command_buffers.raw@[0],
                        sequence.spec_calls().subrange(1, 4),
                        Self::spec_transfer_queue(*command_buffers, *logical_device),
                    )
                    &&& self.spec_is_upload_recording(
                        sequence.spec_calls().subrange(1, 4),
                        command_buffers.raw@[0],
                        *staging_buffer,
                        dst_stage_mask,
                        dst_access_mask,
                        dst_layout,
                    )
                },
            },
    {
        if let HalaMemoryLocation::GpuOnly = self.memory_location {
        } else {
            return Err(HalaGfxError::new("Cannot update GPU memory of a non GPU only buffer.", None));
        }
        staging_buffer.update_memory(0, data, staging_mapped)?;
        let queue = match logical_device.queue_for(command_buffers.command_buffer_type, 0) {
            Some(queue) => queue,
            None => logical_device.get_graphics_queue(0),
        };
        let recording = self.upload_commands(
            command_buffers.raw[0],
            staging_buffer,
            dst_stage_mask,
            dst_access_mask,
            dst_layout,
        );
        let sequence = logical_device.execute_and_submit(command_buffers, 0, recording, queue);
        Ok(sequence)
    }

    /// The calls that record the generation of the mip chain, each level
    /// below the first scaled down from the level above it, and every level
    /// made readable by shaders. The image has at least one mip level and no
    /// more than thirty-three.
    pub fn mipmap_commands(&self, command_buffer: u64) -> (recording: Vec<HalaDeviceCall>)
        requires
            1 <= self.mip_levels <= 33,
        ensures
            self.spec_is_mipmap_recording(recording@, command_buffer),
    {
        let mut recording: Vec<HalaDeviceCall> = Vec::new();
        let mut mip_level: u32 = 1;
        while mip_level < self.mip_levels
            invariant
                1 <= mip_level <= self.mip_levels <= 33,
                recording@.len() == 5 * (mip_level - 1),
                forall|level: u32|
                    1 <= level < mip_level ==> #[trigger] self.spec_is_mip_level_recording(
                        recording@,
                        command_buffer,
                        level,
                    ),
            decreases self.mip_levels - mip_level,
        {
            let ghost before = recording@;
            let shifted_width: u32 = self.width >> (mip_level - 1);
            let shifted_height: u32 = self.height >> (mip_level - 1);
            let mip_width: u32 = if shifted_width > 1 {
                shifted_width
            } else {
                1
            };
            let mip_height: u32 = if shifted_height > 1 {
                shifted_height
            } else {
                1
            };
            let mut first: Vec<HalaImageBarrierInfo> = Vec::new();
            let mut second: Vec<HalaImageBarrierInfo> = Vec::new();
            let source = color_barrier(
                self.raw,
                mip_level - 1,
                HalaPipelineStageFlags2::TRANSFER,
                HalaAccessFlags2::TRANSFER_WRITE,
                HalaPipelineStageFlags2::TRANSFER,
                HalaAccessFlags2::TRANSFER_READ,
                HalaImageLayout::UNDEFINED,
                HalaImageLayout::TRANSFER_SRC_OPTIMAL,
            );
            let destination = color_barrier(
                self.raw,
                mip_level,
                HalaPipelineStageFlags2::NONE,
                HalaAccessFlags2::NONE,
                HalaPipelineStageFlags2::TRANSFER,
                HalaAccessFlags2::TRANSFER_WRITE,
                HalaImageLayout::UNDEFINED,
                HalaImageLayout::TRANSFER_DST_OPTIMAL,
            );
            first.push(source);
            first.push(destination);
            second.push(source);
            second.push(destination);
            assert(first@ =~= self.spec_mip_input_barriers(mip_level));
            recording.push(image_barriers_call(command_buffer, first));
            recording.push(image_barriers_call(command_buffer, second));
            let dst_width: u32 = if mip_width > 1 {
                mip_width / 2
            } else {
                1
            };
            let dst_height: u32 = if mip_height > 1 {
                mip_height / 2
            } else {
                1
            };
            recording.push(
                HalaDeviceCall::Record {
                    command_buffer,
                    command: HalaCommand::BlitImage {
                        image: self.raw,
                        src_mip_level: mip_level - 1,
                        src_width: mip_width,
                        src_height: mip_height,
                        dst_mip_level: mip_level,
                        dst_width,
                        dst_height,
                    },
                },
            );
            let readable = color_barrier(
                self.raw,
                mip_level - 1,
                HalaPipelineStageFlags2::TRANSFER,
                HalaAccessFlags2::TRANSFER_WRITE,
                HalaPipelineStageFlags2::ALL_GRAPHICS,
                HalaAccessFlags2::SHADER_READ,
                HalaImageLayout::UNDEFINED,
                HalaImageLayout::SHADER_READ_ONLY_OPTIMAL,
            );
            let mut third: Vec<HalaImageBarrierInfo> = Vec::new();
            let mut fourth: Vec<HalaImageBarrierInfo> = Vec::new();
            third.push(readable);
            fourth.push(readable);
            recording.push(image_barriers_call(command_buffer, third));
            recording.push(image_barriers_call(command_buffer, fourth));
            proof {
                assert forall|level: u32| 1 <= level < mip_level implies #[trigger] self.spec_is_mip_level_recording(
                    recording@,
                    command_buffer,
                    level,
                ) by {
                    assert(self.spec_is_mip_level_recording(before, command_buffer, level));
                }
            }
            mip_level = mip_level + 1;
        }
        let ghost before = recording@;
        let last = color_barrier(
            self.raw,
            self.mip_levels - 1,
            HalaPipelineStageFlags2::TRANSFER,
            HalaAccessFlags2::TRANSFER_WRITE,
            HalaPipelineStageFlags2::ALL_GRAPHICS,
            HalaAccessFlags2::SHADER_READ,
            HalaImageLayout::UNDEFINED,
            HalaImageLayout::SHADER_READ_ONLY_OPTIMAL,
        );
        let mut first: Vec<HalaImageBarrierInfo> = Vec::new();
        let mut second: Vec<HalaImageBarrierInfo> = Vec::new();
        first.push(last);
        second.push(last);
        recording.push(image_barriers_call(command_buffer, first));
        recording.push(image_barriers_call(command_buffer, second));
        proof {
            assert forall|level: u32| 1 <= level < self.mip_levels implies #[trigger] self.spec_is_mip_level_recording(
                recording@,
                command_buffer,
                level,
            ) by {
                assert(self.spec_is_mip_level_recording(before, command_buffer, level));
            }
        }
        recording
    }

    /// The blocking submission, on the first command buffer of the set, of
    /// the calls that generate the mip chain of the image.
    pub fn gen_mipmaps(
        &self,
        command_buffers: &HalaCommandBufferSet,
        logical_device: &HalaLogicalDevice,
    ) -> (sequence: HalaCallSequence)
        requires
            1 <= self.mip_levels <= 33,
            command_buffers.raw@.len() > 0,
        ensures
            sequence.spec_position() == 0,
            !sequence.spec_failed(),
            sequence.spec_calls().len() == 5 * (self.mip_levels - 1) + 7,
            sequence.spec_calls() == HalaLogicalDevice::spec_execute_and_submit(
                command_buffers.raw@[0],
                sequence.spec_calls().subrange(1, 5 * (self.mip_levels - 1) + 3),
                Self::spec_transfer_queue(*command_buffers, *logical_device),
            ),
            self.spec_is_mipmap_recording(
                sequence.spec_calls().subrange(1, 5 * (self.mip_levels - 1) + 3),
                command_buffers.raw@[0],
            ),
    {
        let queue = match logical_device.queue_for(command_buffers.command_buffer_type, 0) {
            Some(queue) => queue,
            None => logical_device.get_graphics_queue(0),
        };
        let recording = self.mipmap_commands(command_buffers.raw[0]);
        let ghost recorded = recording@;
        let sequence = logical_device.execute_and_submit(command_buffers, 0, recording, queue);
        assert(sequence.spec_calls().subrange(1, 5 * (self.mip_levels - 1) + 3) =~= recorded);
        sequence
    }
}

} // verus!
