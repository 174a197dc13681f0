//! Image layouts, access masks and the barriers made of them.

use crate::pipeline::HalaPipelineStageFlags2;
use vstd::prelude::*;

verus! {

/// The image layout.
#[derive(Clone, Copy, PartialEq, Eq, Structural, PartialOrd, Ord, Hash, Debug)]
pub struct HalaImageLayout(pub i32);

impl Default for HalaImageLayout {
    fn default() -> (value: Self)
        ensures
            value.0 == 0,
    {
        Self(0)
    }
}

impl HalaImageLayout {
    pub const UNDEFINED: i32 = 0;
    pub const GENERAL: i32 = 1;
    pub const COLOR_ATTACHMENT_OPTIMAL: i32 = 2;
    pub const DEPTH_STENCIL_ATTACHMENT_OPTIMAL: i32 = 3;
    pub const DEPTH_STENCIL_READ_ONLY_OPTIMAL: i32 = 4;
    pub const SHADER_READ_ONLY_OPTIMAL: i32 = 5;
    pub const TRANSFER_SRC_OPTIMAL: i32 = 6;
    pub const TRANSFER_DST_OPTIMAL: i32 = 7;
    pub const PREINITIALIZED: i32 = 8;
    pub const PRESENT_SRC: i32 = 1000001002;

    /// The value with the given raw code.
    pub fn from_raw(x: i32) -> (value: Self)
        ensures
            value.0 == x,
    {
        Self(x)
    }

    /// The raw code of the value.
    pub fn as_raw(self) -> (x: i32)
        ensures
            x == self.0,
    {
        self.0
    }
}

/// The access flags.
#[derive(Clone, Copy, PartialEq, Eq, Structural, PartialOrd, Ord, Hash, Debug)]
pub struct HalaAccessFlags2(pub u64);

impl Default for HalaAccessFlags2 {
    fn default() -> (value: Self)
        ensures
            value.0 == 0,
    {
        Self(0)
    }
}

impl HalaAccessFlags2 {
    pub const NONE: u64 = 0;
    pub const INDIRECT_COMMAND_READ: u64 = 1;
    pub const INDEX_READ: u64 = 2;
    pub const VERTEX_ATTRIBUTE_READ: u64 = 4;
    pub const UNIFORM_READ: u64 = 8;
    pub const INPUT_ATTACHMENT_READ: u64 = 0x10;
    pub const SHADER_READ: u64 = 0x20;
    pub const SHADER_WRITE: u64 = 0x40;
    pub const COLOR_ATTACHMENT_READ: u64 = 0x80;
    pub const COLOR_ATTACHMENT_WRITE: u64 = 0x100;
    pub const DEPTH_STENCIL_ATTACHMENT_READ: u64 = 0x200;
    pub const DEPTH_STENCIL_ATTACHMENT_WRITE: u64 = 0x400;
    pub const TRANSFER_READ: u64 = 0x800;
    pub const TRANSFER_WRITE: u64 = 0x1000;
    pub const HOST_READ: u64 = 0x2000;
    pub const HOST_WRITE: u64 = 0x4000;
    pub const MEMORY_READ: u64 = 0x8000;
    pub const MEMORY_WRITE: u64 = 0x10000;
    pub const SHADER_SAMPLED_READ: u64 = 0x100000000;
    pub const SHADER_STORAGE_READ: u64 = 0x200000000;
    pub const SHADER_STORAGE_WRITE: u64 = 0x400000000;

    /// The value with no bit set.
    pub fn empty() -> (value: Self)
        ensures
            value.0 == 0,
    {
        Self(0)
    }

    /// The value with the given raw bits.
    pub fn from_raw(x: u64) -> (value: Self)
        ensures
            value.0 == x,
    {
        Self(x)
    }

    /// The raw bits of the value.
    pub fn as_raw(self) -> (x: u64)
        ensures
            x == self.0,
    {
        self.0
    }

    /// Whether no bit is set.
    pub fn is_empty(self) -> (b: bool)
        ensures
            b == (self.0 == 0),
    {
        self.0 == 0
    }

    /// Whether the two values share a bit.
    pub fn intersects(self, other: Self) -> (b: bool)
        ensures
            b == (self.0 & other.0 != 0),
    {
        self.0 & other.0 != 0
    }

    /// Whether every bit of `other` is set in `self`.
    pub fn contains(self, other: Self) -> (b: bool)
        ensures
            b == (self.0 & other.0 == other.0),
    {
        self.0 & other.0 == other.0
    }
}

impl core::ops::BitOr for HalaAccessFlags2 {
    type Output = Self;

    fn bitor(self, rhs: Self) -> (value: Self) {
        Self(self.0 | rhs.0)
    }
}

impl vstd::std_specs::ops::BitOrSpecImpl for HalaAccessFlags2 {
    open spec fn obeys_bitor_spec() -> bool {
        true
    }

    open spec fn bitor_req(self, rhs: Self) -> bool {
        true
    }

    open spec fn bitor_spec(self, rhs: Self) -> Self {
        Self(self.0 | rhs.0)
    }
}

impl core::ops::BitAnd for HalaAccessFlags2 {
    type Output = Self;

    fn bitand(self, rhs: Self) -> (value: Self) {
        Self(self.0 & rhs.0)
    }
}

impl vstd::std_specs::ops::BitAndSpecImpl for HalaAccessFlags2 {
    open spec fn obeys_bitand_spec() -> bool {
        true
    }

    open spec fn bitand_req(self, rhs: Self) -> bool {
        true
    }

    open spec fn bitand_spec(self, rhs: Self) -> Self {
        Self(self.0 & rhs.0)
    }
}

impl core::ops::BitXor for HalaAccessFlags2 {
    type Output = Self;

    fn bitxor(self, rhs: Self) -> (value: Self) {
        Self(self.0 ^ rhs.0)
    }
}

impl vstd::std_specs::ops::BitXorSpecImpl for HalaAccessFlags2 {
    open spec fn obeys_bitxor_spec() -> bool {
        true
    }

    open spec fn bitxor_req(self, rhs: Self) -> bool {
        true
    }

    open spec fn bitxor_spec(self, rhs: Self) -> Self {
        Self(self.0 ^ rhs.0)
    }
}

impl core::ops::Not for HalaAccessFlags2 {
    type Output = Self;

    fn not(self) -> (value: Self) {
        Self(!self.0)
    }
}

impl vstd::std_specs::ops::NotSpecImpl for HalaAccessFlags2 {
    open spec fn obeys_not_spec() -> bool {
        true
    }

    open spec fn not_req(self) -> bool {
        true
    }

    open spec fn not_spec(self) -> Self {
        Self(!self.0)
    }
}

/// The image aspect flags.
#[derive(Clone, Copy, PartialEq, Eq, Structural, PartialOrd, Ord, Hash, Debug)]
pub struct HalaImageAspectFlags(pub u32);

impl Default for HalaImageAspectFlags {
    fn default() -> (value: Self)
        ensures
            value.0 == 0,
    {
        Self(0)
    }
}

impl HalaImageAspectFlags {
    pub const NONE: u32 = 0;
    pub const COLOR: u32 = 1;
    pub const DEPTH: u32 = 2;
    pub const STENCIL: u32 = 4;
    pub const METADATA: u32 = 8;

    /// The value with no bit set.
    pub fn empty() -> (value: Self)
        ensures
            value.0 == 0,
    {
        Self(0)
    }

    /// The value with the given raw bits.
    pub fn from_raw(x: u32) -> (value: Self)
        ensures
            value.0 == x,
    {
        Self(x)
    }

    /// The raw bits of the value.
    pub fn as_raw(self) -> (x: u32)
        ensures
            x == self.0,
    {
        self.0
    }

    /// Whether no bit is set.
    pub fn is_empty(self) -> (b: bool)
        ensures
            b == (self.0 == 0),
    {
        self.0 == 0
    }

    /// Whether the two values share a bit.
    pub fn intersects(self, other: Self) -> (b: bool)
        ensures
            b == (self.0 & other.0 != 0),
    {
        self.0 & other.0 != 0
    }

    /// Whether every bit of `other` is set in `self`.
    pub fn contains(self, other: Self) -> (b: bool)
        ensures
            b == (self.0 & other.0 == other.0),
    {
        self.0 & other.0 == other.0
    }
}

impl core::ops::BitOr for HalaImageAspectFlags {
    type Output = Self;

    fn bitor(self, rhs: Self) -> (value: Self) {
        Self(self.0 | rhs.0)
    }
}

impl vstd::std_specs::ops::BitOrSpecImpl for HalaImageAspectFlags {
    open spec fn obeys_bitor_spec() -> bool {
        true
    }

    open spec fn bitor_req(self, rhs: Self) -> bool {
        true
    }

    open spec fn bitor_spec(self, rhs: Self) -> Self {
        Self(self.0 | rhs.0)
    }
}

impl core::ops::BitAnd for HalaImageAspectFlags {
    type Output = Self;

    fn bitand(self, rhs: Self) -> (value: Self) {
        Self(self.0 & rhs.0)
    }
}

impl vstd::std_specs::ops::BitAndSpecImpl for HalaImageAspectFlags {
    open spec fn obeys_bitand_spec() -> bool {
        true
    }

    open spec fn bitand_req(self, rhs: Self) -> bool {
        true
    }

    open spec fn bitand_spec(self, rhs: Self) -> Self {
        Self(self.0 & rhs.0)
    }
}

impl core::ops::BitXor for HalaImageAspectFlags {
    type Output = Self;

    fn bitxor(self, rhs: Self) -> (value: Self) {
        Self(self.0 ^ rhs.0)
    }
}

impl vstd::std_specs::ops::BitXorSpecImpl for HalaImageAspectFlags {
    open spec fn obeys_bitxor_spec() -> bool {
        true
    }

    open spec fn bitxor_req(self, rhs: Self) -> bool {
        true
    }

    open spec fn bitxor_spec(self, rhs: Self) -> Self {
        Self(self.0 ^ rhs.0)
    }
}

impl core::ops::Not for HalaImageAspectFlags {
    type Output = Self;

    fn not(self) -> (value: Self) {
        Self(!self.0)
    }
}

impl vstd::std_specs::ops::NotSpecImpl for HalaImageAspectFlags {
    open spec fn obeys_not_spec() -> bool {
        true
    }

    open spec fn not_req(self) -> bool {
        true
    }

    open spec fn not_spec(self) -> Self {
        Self(!self.0)
    }
}

/// The image barrier: a dependency between two stages of the device together
/// with a layout transition of a range of an image.
#[derive(Clone, Copy, PartialEq, Eq, Structural, Debug)]
pub struct HalaImageBarrierInfo {
    pub src_stage_mask: HalaPipelineStageFlags2,
    pub src_access_mask: HalaAccessFlags2,
    pub dst_stage_mask: HalaPipelineStageFlags2,
    pub dst_access_mask: HalaAccessFlags2,
    pub old_layout: HalaImageLayout,
    pub new_layout: HalaImageLayout,
    pub src_queue_family_index: u32,
    pub dst_queue_family_index: u32,
    pub aspect_mask: HalaImageAspectFlags,
    pub base_mip_level: u32,
    pub level_count: u32,
    pub base_array_layer: u32,
    pub layer_count: u32,
    /// The native handle of the image; zero is the null handle.
    pub image: u64,
}

impl HalaImageBarrierInfo {
    /// The barrier that `default` returns: no stage, no access, no
    /// transition, one mip level and one layer of the null image.
    pub open spec fn spec_default() -> Self {
        HalaImageBarrierInfo {
            src_stage_mask: HalaPipelineStageFlags2(HalaPipelineStageFlags2::NONE),
            src_access_mask: HalaAccessFlags2(HalaAccessFlags2::NONE),
            dst_stage_mask: HalaPipelineStageFlags2(HalaPipelineStageFlags2::NONE),
            dst_access_mask: HalaAccessFlags2(HalaAccessFlags2::NONE),
            old_layout: HalaImageLayout(HalaImageLayout::UNDEFINED),
            new_layout: HalaImageLayout(HalaImageLayout::UNDEFINED),
            src_queue_family_index: 0,
            dst_queue_family_index: 0,
            aspect_mask: HalaImageAspectFlags(HalaImageAspectFlags::NONE),
            base_mip_level: 0,
            level_count: 1,
            base_array_layer: 0,
            layer_count: 1,
            image: 0,
        }
    }
}

impl Default for HalaImageBarrierInfo {
    fn default() -> (info: Self)
        ensures
            info == Self::spec_default(),
    {
        HalaImageBarrierInfo {
            src_stage_mask: HalaPipelineStageFlags2(HalaPipelineStageFlags2::NONE),
            src_access_mask: HalaAccessFlags2(HalaAccessFlags2::NONE),
            dst_stage_mask: HalaPipelineStageFlags2(HalaPipelineStageFlags2::NONE),
            dst_access_mask: HalaAccessFlags2(HalaAccessFlags2::NONE),
            old_layout: HalaImageLayout(HalaImageLayout::UNDEFINED),
            new_layout: HalaImageLayout(HalaImageLayout::UNDEFINED),
            src_queue_family_index: 0,
            dst_queue_family_index: 0,
            aspect_mask: HalaImageAspectFlags(HalaImageAspectFlags::NONE),
            base_mip_level: 0,
            level_count: 1,
            base_array_layer: 0,
            layer_count: 1,
            image: 0,
        }
    }
}

/// The buffer barrier: a dependency between two stages of the device on a
/// range of a buffer.
#[derive(Clone, Copy, PartialEq, Eq, Structural, Debug)]
pub struct HalaBufferBarrierInfo {
    pub src_stage_mask: HalaPipelineStageFlags2,
    pub src_access_mask: HalaAccessFlags2,
    pub dst_stage_mask: HalaPipelineStageFlags2,
    pub dst_access_mask: HalaAccessFlags2,
    pub src_queue_family_index: u32,
    pub dst_queue_family_index: u32,
    pub offset: u64,
    pub size: u64,
    /// The native handle of the buffer; zero is the null handle.
    pub buffer: u64,
}

impl Default for HalaBufferBarrierInfo {
    fn default() -> (info: Self)
        ensures
            info == (HalaBufferBarrierInfo {
                src_stage_mask: HalaPipelineStageFlags2(0),
                src_access_mask: HalaAccessFlags2(0),
                dst_stage_mask: HalaPipelineStageFlags2(0),
                dst_access_mask: HalaAccessFlags2(0),
                src_queue_family_index: 0,
                dst_queue_family_index: 0,
                offset: 0,
                size: 0,
                buffer: 0,
            }),
    {
        HalaBufferBarrierInfo {
            src_stage_mask: HalaPipelineStageFlags2(0),
            src_access_mask: HalaAccessFlags2(0),
            dst_stage_mask: HalaPipelineStageFlags2(0),
            dst_access_mask: HalaAccessFlags2(0),
            src_queue_family_index: 0,
            dst_queue_family_index: 0,
            offset: 0,
            size: 0,
            buffer: 0,
        }
    }
}

/// The memory barrier: a dependency between two stages of the device on all
/// memory.
#[derive(Clone, Copy, PartialEq, Eq, Structural, Debug)]
pub struct HalaMemoryBarrierInfo {
    pub src_stage_mask: HalaPipelineStageFlags2,
    pub src_access_mask: HalaAccessFlags2,
    pub dst_stage_mask: HalaPipelineStageFlags2,
    pub dst_access_mask: HalaAccessFlags2,
}

impl Default for HalaMemoryBarrierInfo {
    fn default() -> (info: Self)
        ensures
            info == (HalaMemoryBarrierInfo {
                src_stage_mask: HalaPipelineStageFlags2(0),
                src_access_mask: HalaAccessFlags2(0),
                dst_stage_mask: HalaPipelineStageFlags2(0),
                dst_access_mask: HalaAccessFlags2(0),
            }),
    {
        HalaMemoryBarrierInfo {
            src_stage_mask: HalaPipelineStageFlags2(0),
            src_access_mask: HalaAccessFlags2(0),
            dst_stage_mask: HalaPipelineStageFlags2(0),
            dst_access_mask: HalaAccessFlags2(0),
        }
    }
}

/// The queue family index of a barrier that moves no ownership between
/// queue families.
pub const QUEUE_FAMILY_IGNORED: u32 = 0xffff_ffff;

} // verus!
