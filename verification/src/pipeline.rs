//! Pipeline state: stage and create flags, blend, depth and stencil state,
//! and the stages and groups of a ray tracing pipeline.

use crate::text::str_equals;
use crate::error::{HalaGfxError, HalaGfxErrorView};
use crate::format::HalaFormat;
use crate::shader::{HalaRayTracingShaderGroupType, HalaShader, HalaShaderStageFlags};
use crate::swapchain::{format_has_stencil, spec_has_stencil};
use vstd::prelude::*;

verus! {


#[derive(Clone, Copy, PartialEq, Eq, Structural, PartialOrd, Ord, Hash, Debug)]
pub struct HalaPipelineCreateFlags(pub u32);

impl Default for HalaPipelineCreateFlags {
    fn default() -> (value: Self)
        ensures
            value.0 == 0,
    {
        Self(0)
    }
}

impl HalaPipelineCreateFlags {
    pub const DISABLE_OPTIMIZATION: u32 = 1;
    pub const ALLOW_DERIVATIVES: u32 = 2;
    pub const DERIVATIVE: u32 = 4;
    pub const VIEW_INDEX_FROM_DEVICE_INDEX: u32 = 8;
    pub const DISPATCH_BASE: u32 = 0x10;
    pub const FAIL_ON_PIPELINE_COMPILE_REQUIRED: u32 = 0x100;
    pub const EARLY_RETURN_ON_FAILURE: u32 = 0x200;
    pub const RENDERING_FRAGMENT_SHADING_RATE_ATTACHMENT: u32 = 0x200000;
    pub const RENDERING_FRAGMENT_DENSITY_MAP_ATTACHMENT: u32 = 0x400000;
    pub const RAY_TRACING_NO_NULL_ANY_HIT_SHADERS: u32 = 0x4000;
    pub const RAY_TRACING_NO_NULL_CLOSEST_HIT_SHADERS: u32 = 0x8000;
    pub const RAY_TRACING_NO_NULL_MISS_SHADERS: u32 = 0x10000;
    pub const RAY_TRACING_NO_NULL_INTERSECTION_SHADERS: u32 = 0x20000;
    pub const RAY_TRACING_SKIP_TRIANGLES: u32 = 0x1000;
    pub const RAY_TRACING_SKIP_AABBS: u32 = 0x2000;
    pub const RAY_TRACING_SHADER_GROUP_HANDLE_CAPTURE_REPLAY: u32 = 0x80000;
    pub const DEFER_COMPILE: u32 = 0x20;
    pub const CAPTURE_STATISTICS: u32 = 0x40;
    pub const CAPTURE_INTERNAL_REPRESENTATIONS: u32 = 0x80;
    pub const INDIRECT_BINDABLE: u32 = 0x40000;
    pub const LIBRARY: u32 = 0x800;
    pub const DESCRIPTOR_BUFFER: u32 = 0x20000000;
    pub const RETAIN_LINK_TIME_OPTIMIZATION_INFO: u32 = 0x800000;
    pub const LINK_TIME_OPTIMIZATION: u32 = 0x400;
    pub const RAY_TRACING_ALLOW_MOTION: u32 = 0x100000;
    pub const COLOR_ATTACHMENT_FEEDBACK_LOOP: u32 = 0x2000000;
    pub const DEPTH_STENCIL_ATTACHMENT_FEEDBACK_LOOP: u32 = 0x4000000;
    pub const RAY_TRACING_OPACITY_MICROMAP: u32 = 0x1000000;
    pub const RAY_TRACING_DISPLACEMENT_MICROMAP: u32 = 0x10000000;
    pub const NO_PROTECTED_ACCESS: u32 = 0x8000000;
    pub const PROTECTED_ACCESS_ONLY: u32 = 0x40000000;
    pub const RASTERIZATION_STATE_CREATE_FRAGMENT_SHADING_RATE_ATTACHMENT: u32 = 0x200000;
    pub const RASTERIZATION_STATE_CREATE_FRAGMENT_DENSITY_MAP_ATTACHMENT: u32 = 0x400000;

    /// The value with no bit set.
    pub fn empty() -> (value: Self)
        ensures
            value.0 == 0,
    {
        Self(0)
    }

    /// The value with the given raw bits.
    pub fn from_raw(x: u32) -> (value: Self)
        ensures
            value.0 == x,
    {
        Self(x)
    }

    /// The raw bits of the value.
    pub fn as_raw(self) -> (x: u32)
        ensures
            x == self.0,
    {
        self.0
    }

    /// Whether no bit is set.
    pub fn is_empty(self) -> (b: bool)
        ensures
            b == (self.0 == 0),
    {
        self.0 == 0
    }

    /// Whether the two values share a bit.
    pub fn intersects(self, other: Self) -> (b: bool)
        ensures
            b == (self.0 & other.0 != 0),
    {
        self.0 & other.0 != 0
    }

    /// Whether every bit of `other` is set in `self`.
    pub fn contains(self, other: Self) -> (b: bool)
        ensures
            b == (self.0 & other.0 == other.0),
    {
        self.0 & other.0 == other.0
    }
}

impl core::ops::BitOr for HalaPipelineCreateFlags {
    type Output = Self;

    fn bitor(self, rhs: Self) -> (value: Self) {
        Self(self.0 | rhs.0)
    }
}

impl vstd::std_specs::ops::BitOrSpecImpl for HalaPipelineCreateFlags {
    open spec fn obeys_bitor_spec() -> bool {
        true
    }

    open spec fn bitor_req(self, rhs: Self) -> bool {
        true
    }

    open spec fn bitor_spec(self, rhs: Self) -> Self {
        Self(self.0 | rhs.0)
    }
}

impl core::ops::BitAnd for HalaPipelineCreateFlags {
    type Output = Self;

    fn bitand(self, rhs: Self) -> (value: Self) {
        Self(self.0 & rhs.0)
    }
}

impl vstd::std_specs::ops::BitAndSpecImpl for HalaPipelineCreateFlags {
    open spec fn obeys_bitand_spec() -> bool {
        true
    }

    open spec fn bitand_req(self, rhs: Self) -> bool {
        true
    }

    open spec fn bitand_spec(self, rhs: Self) -> Self {
        Self(self.0 & rhs.0)
    }
}

impl core::ops::BitXor for HalaPipelineCreateFlags {
    type Output = Self;

    fn bitxor(self, rhs: Self) -> (value: Self) {
        Self(self.0 ^ rhs.0)
    }
}

impl vstd::std_specs::ops::BitXorSpecImpl for HalaPipelineCreateFlags {
    open spec fn obeys_bitxor_spec() -> bool {
        true
    }

    open spec fn bitxor_req(self, rhs: Self) -> bool {
        true
    }

    open spec fn bitxor_spec(self, rhs: Self) -> Self {
        Self(self.0 ^ rhs.0)
    }
}

impl core::ops::Not for HalaPipelineCreateFlags {
    type Output = Self;

    fn not(self) -> (value: Self) {
        Self(!self.0)
    }
}

impl vstd::std_specs::ops::NotSpecImpl for HalaPipelineCreateFlags {
    open spec fn obeys_not_spec() -> bool {
        true
    }

    open spec fn not_req(self) -> bool {
        true
    }

    open spec fn not_spec(self) -> Self {
        Self(!self.0)
    }
}

/// The pipeline stage flags.
#[derive(Clone, Copy, PartialEq, Eq, Structural, PartialOrd, Ord, Hash, Debug)]
pub struct HalaPipelineStageFlags(pub u32);

impl Default for HalaPipelineStageFlags {
    fn default() -> (value: Self)
        ensures
            value.0 == 0,
    {
        Self(0)
    }
}

impl HalaPipelineStageFlags {
    pub const TOP_OF_PIPE: u32 = 1;
    pub const DRAW_INDIRECT: u32 = 2;
    pub const VERTEX_INPUT: u32 = 4;
    pub const VERTEX_SHADER: u32 = 8;
    pub const TESSELLATION_CONTROL_SHADER: u32 = 0x10;
    pub const TESSELLATION_EVALUATION_SHADER: u32 = 0x20;
    pub const GEOMETRY_SHADER: u32 = 0x40;
    pub const FRAGMENT_SHADER: u32 = 0x80;
    pub const EARLY_FRAGMENT_TESTS: u32 = 0x100;
    pub const LATE_FRAGMENT_TESTS: u32 = 0x200;
    pub const COLOR_ATTACHMENT_OUTPUT: u32 = 0x400;
    pub const COMPUTE_SHADER: u32 = 0x800;
    pub const TRANSFER: u32 = 0x1000;
    pub const BOTTOM_OF_PIPE: u32 = 0x2000;
    pub const HOST: u32 = 0x4000;
    pub const ALL_GRAPHICS: u32 = 0x8000;
    pub const ALL_COMMANDS: u32 = 0x10000;
    pub const TRANSFORM_FEEDBACK_EXT: u32 = 0x1000000;
    pub const CONDITIONAL_RENDERING_EXT: u32 = 0x40000;
    pub const RAY_TRACING_SHADER_KHR: u32 = 0x200000;
    pub const ACCELERATION_STRUCTURE_BUILD_KHR: u32 = 0x2000000;

    /// The value with no bit set.
    pub fn empty() -> (value: Self)
        ensures
            value.0 == 0,
    {
        Self(0)
    }

    /// The value with the given raw bits.
    pub fn from_raw(x: u32) -> (value: Self)
        ensures
            value.0 == x,
    {
        Self(x)
    }

    /// The raw bits of the value.
    pub fn as_raw(self) -> (x: u32)
        ensures
            x == self.0,
    {
        self.0
    }

    /// Whether no bit is set.
    pub fn is_empty(self) -> (b: bool)
        ensures
            b == (self.0 == 0),
    {
        self.0 == 0
    }

    /// Whether the two values share a bit.
    pub fn intersects(self, other: Self) -> (b: bool)
        ensures
            b == (self.0 & other.0 != 0),
    {
        self.0 & other.0 != 0
    }

    /// Whether every bit of `other` is set in `self`.
    pub fn contains(self, other: Self) -> (b: bool)
        ensures
            b == (self.0 & other.0 == other.0),
    {
        self.0 & other.0 == other.0
    }
}

impl core::ops::BitOr for HalaPipelineStageFlags {
    type Output = Self;

    fn bitor(self, rhs: Self) -> (value: Self) {
        Self(self.0 | rhs.0)
    }
}

impl vstd::std_specs::ops::BitOrSpecImpl for HalaPipelineStageFlags {
    open spec fn obeys_bitor_spec() -> bool {
        true
    }

    open spec fn bitor_req(self, rhs: Self) -> bool {
        true
    }

    open spec fn bitor_spec(self, rhs: Self) -> Self {
        Self(self.0 | rhs.0)
    }
}

impl core::ops::BitAnd for HalaPipelineStageFlags {
    type Output = Self;

    fn bitand(self, rhs: Self) -> (value: Self) {
        Self(self.0 & rhs.0)
    }
}

impl vstd::std_specs::ops::BitAndSpecImpl for HalaPipelineStageFlags {
    open spec fn obeys_bitand_spec() -> bool {
        true
    }

    open spec fn bitand_req(self, rhs: Self) -> bool {
        true
    }

    open spec fn bitand_spec(self, rhs: Self) -> Self {
        Self(self.0 & rhs.0)
    }
}

impl core::ops::BitXor for HalaPipelineStageFlags {
    type Output = Self;

    fn bitxor(self, rhs: Self) -> (value: Self) {
        Self(self.0 ^ rhs.0)
    }
}

impl vstd::std_specs::ops::BitXorSpecImpl for HalaPipelineStageFlags {
    open spec fn obeys_bitxor_spec() -> bool {
        true
    }

    open spec fn bitxor_req(self, rhs: Self) -> bool {
        true
    }

    open spec fn bitxor_spec(self, rhs: Self) -> Self {
        Self(self.0 ^ rhs.0)
    }
}

impl core::ops::Not for HalaPipelineStageFlags {
    type Output = Self;

    fn not(self) -> (value: Self) {
        Self(!self.0)
    }
}

impl vstd::std_specs::ops::NotSpecImpl for HalaPipelineStageFlags {
    open spec fn obeys_not_spec() -> bool {
        true
    }

    open spec fn not_req(self) -> bool {
        true
    }

    open spec fn not_spec(self) -> Self {
        Self(!self.0)
    }
}

/// The pipeline stage flags2.
#[derive(Clone, Copy, PartialEq, Eq, Structural, PartialOrd, Ord, Hash, Debug)]
pub struct HalaPipelineStageFlags2(pub u64);

impl Default for HalaPipelineStageFlags2 {
    fn default() -> (value: Self)
        ensures
            value.0 == 0,
    {
        Self(0)
    }
}

impl HalaPipelineStageFlags2 {
    pub const NONE: u64 = 0;
    pub const TOP_OF_PIPE: u64 = 1;
    pub const DRAW_INDIRECT: u64 = 2;
    pub const VERTEX_INPUT: u64 = 4;
    pub const VERTEX_SHADER: u64 = 8;
    pub const TESSELLATION_CONTROL_SHADER: u64 = 0x10;
    pub const TESSELLATION_EVALUATION_SHADER: u64 = 0x20;
    pub const GEOMETRY_SHADER: u64 = 0x40;
    pub const FRAGMENT_SHADER: u64 = 0x80;
    pub const EARLY_FRAGMENT_TESTS: u64 = 0x100;
    pub const LATE_FRAGMENT_TESTS: u64 = 0x200;
    pub const COLOR_ATTACHMENT_OUTPUT: u64 = 0x400;
    pub const COMPUTE_SHADER: u64 = 0x800;
    pub const ALL_TRANSFER: u64 = 0x1000;
    pub const TRANSFER: u64 = 0x1000;
    pub const BOTTOM_OF_PIPE: u64 = 0x2000;
    pub const HOST: u64 = 0x4000;
    pub const ALL_GRAPHICS: u64 = 0x8000;
    pub const ALL_COMMANDS: u64 = 0x10000;
    pub const COPY: u64 = 0x100000000;
    pub const RESOLVE: u64 = 0x200000000;
    pub const BLIT: u64 = 0x400000000;
    pub const CLEAR: u64 = 0x800000000;
    pub const INDEX_INPUT: u64 = 0x1000000000;
    pub const VERTEX_ATTRIBUTE_INPUT: u64 = 0x2000000000;
    pub const PRE_RASTERIZATION_SHADERS: u64 = 0x4000000000;
    pub const TRANSFORM_FEEDBACK_EXT: u64 = 0x1000000;
    pub const CONDITIONAL_RENDERING_EXT: u64 = 0x40000;
    pub const COMMAND_PREPROCESS_NV: u64 = 0x20000;
    pub const FRAGMENT_SHADING_RATE_ATTACHMENT: u64 = 0x400000;
    pub const SHADING_RATE_IMAGE_NV: u64 = 0x400000;
    pub const ACCELERATION_STRUCTURE_BUILD: u64 = 0x2000000;
    pub const RAY_TRACING_SHADER: u64 = 0x200000;
    pub const FRAGMENT_DENSITY_PROCESS_EXT: u64 = 0x800000;
    pub const TASK_SHADER_EXT: u64 = 0x80000;
    pub const MESH_SHADER_EXT: u64 = 0x100000;

    /// The value with no bit set.
    pub fn empty() -> (value: Self)
        ensures
            value.0 == 0,
    {
        Self(0)
    }

    /// The value with the given raw bits.
    pub fn from_raw(x: u64) -> (value: Self)
        ensures
            value.0 == x,
    {
        Self(x)
    }

    /// The raw bits of the value.
    pub fn as_raw(self) -> (x: u64)
        ensures
            x == self.0,
    {
        self.0
    }

    /// Whether no bit is set.
    pub fn is_empty(self) -> (b: bool)
        ensures
            b == (self.0 == 0),
    {
        self.0 == 0
    }

    /// Whether the two values share a bit.
    pub fn intersects(self, other: Self) -> (b: bool)
        ensures
            b == (self.0 & other.0 != 0),
    {
        self.0 & other.0 != 0
    }

    /// Whether every bit of `other` is set in `self`.
    pub fn contains(self, other: Self) -> (b: bool)
        ensures
            b == (self.0 & other.0 == other.0),
    {
        self.0 & other.0 == other.0
    }
}

impl core::ops::BitOr for HalaPipelineStageFlags2 {
    type Output = Self;

    fn bitor(self, rhs: Self) -> (value: Self) {
        Self(self.0 | rhs.0)
    }
}

impl vstd::std_specs::ops::BitOrSpecImpl for HalaPipelineStageFlags2 {
    open spec fn obeys_bitor_spec() -> bool {
        true
    }

    open spec fn bitor_req(self, rhs: Self) -> bool {
        true
    }

    open spec fn bitor_spec(self, rhs: Self) -> Self {
        Self(self.0 | rhs.0)
    }
}

impl core::ops::BitAnd for HalaPipelineStageFlags2 {
    type Output = Self;

    fn bitand(self, rhs: Self) -> (value: Self) {
        Self(self.0 & rhs.0)
    }
}

impl vstd::std_specs::ops::BitAndSpecImpl for HalaPipelineStageFlags2 {
    open spec fn obeys_bitand_spec() -> bool {
        true
    }

    open spec fn bitand_req(self, rhs: Self) -> bool {
        true
    }

    open spec fn bitand_spec(self, rhs: Self) -> Self {
        Self(self.0 & rhs.0)
    }
}

impl core::ops::BitXor for HalaPipelineStageFlags2 {
    type Output = Self;

    fn bitxor(self, rhs: Self) -> (value: Self) {
        Self(self.0 ^ rhs.0)
    }
}

impl vstd::std_specs::ops::BitXorSpecImpl for HalaPipelineStageFlags2 {
    open spec fn obeys_bitxor_spec() -> bool {
        true
    }

    open spec fn bitxor_req(self, rhs: Self) -> bool {
        true
    }

    open spec fn bitxor_spec(self, rhs: Self) -> Self {
        Self(self.0 ^ rhs.0)
    }
}

impl core::ops::Not for HalaPipelineStageFlags2 {
    type Output = Self;

    fn not(self) -> (value: Self) {
        Self(!self.0)
    }
}

impl vstd::std_specs::ops::NotSpecImpl for HalaPipelineStageFlags2 {
    open spec fn obeys_not_spec() -> bool {
        true
    }

    open spec fn not_req(self) -> bool {
        true
    }

    open spec fn not_spec(self) -> Self {
        Self(!self.0)
    }
}

/// The vertex input rate.
#[derive(Clone, Copy, PartialEq, Eq, Structural, PartialOrd, Ord, Hash, Debug)]
pub struct HalaVertexInputRate(pub i32);

impl Default for HalaVertexInputRate {
    fn default() -> (value: Self)
        ensures
            value.0 == 0,
    {
        Self(0)
    }
}

impl HalaVertexInputRate {
    pub const VERTEX: i32 = 0;
    pub const INSTANCE: i32 = 1;

    /// The value with the given raw code.
    pub fn from_raw(x: i32) -> (value: Self)
        ensures
            value.0 == x,
    {
        Self(x)
    }

    /// The raw code of the value.
    pub fn as_raw(self) -> (x: i32)
        ensures
            x == self.0,
    {
        self.0
    }
}

/// The primitive topology.
#[derive(Clone, Copy, PartialEq, Eq, Structural, PartialOrd, Ord, Hash, Debug)]
pub struct HalaPrimitiveTopology(pub i32);

impl Default for HalaPrimitiveTopology {
    fn default() -> (value: Self)
        ensures
            value.0 == 0,
    {
        Self(0)
    }
}

impl HalaPrimitiveTopology {
    pub const POINT_LIST: i32 = 0;
    pub const LINE_LIST: i32 = 1;
    pub const LINE_STRIP: i32 = 2;
    pub const TRIANGLE_LIST: i32 = 3;
    pub const TRIANGLE_STRIP: i32 = 4;
    pub const TRIANGLE_FAN: i32 = 5;
    pub const LINE_LIST_WITH_ADJACENCY: i32 = 6;
    pub const LINE_STRIP_WITH_ADJACENCY: i32 = 7;
    pub const TRIANGLE_LIST_WITH_ADJACENCY: i32 = 8;
    pub const TRIANGLE_STRIP_WITH_ADJACENCY: i32 = 9;
    pub const PATCH_LIST: i32 = 10;

    /// The value with the given raw code.
    pub fn from_raw(x: i32) -> (value: Self)
        ensures
            value.0 == x,
    {
        Self(x)
    }

    /// The raw code of the value.
    pub fn as_raw(self) -> (x: i32)
        ensures
            x == self.0,
    {
        self.0
    }
}

impl HalaPrimitiveTopology {
    /// The name that the value is written with in a description.
    /// A value that is none of the named ones is written as `default`.
    pub open spec fn spec_name(self) -> Option<Seq<char>> {
        if self.0 == HalaPrimitiveTopology::POINT_LIST {
            Some("point_list"@)
        } else if self.0 == HalaPrimitiveTopology::LINE_LIST {
            Some("list_list"@)
        } else if self.0 == HalaPrimitiveTopology::LINE_STRIP {
            Some("line_strip"@)
        } else if self.0 == HalaPrimitiveTopology::TRIANGLE_LIST {
            Some("triangle_list"@)
        } else if self.0 == HalaPrimitiveTopology::TRIANGLE_STRIP {
            Some("triangle_strip"@)
        } else if self.0 == HalaPrimitiveTopology::TRIANGLE_FAN {
            Some("triangle_fan"@)
        } else if self.0 == HalaPrimitiveTopology::LINE_LIST_WITH_ADJACENCY {
            Some("line_list_with_adjacency"@)
        } else if self.0 == HalaPrimitiveTopology::LINE_STRIP_WITH_ADJACENCY {
            Some("line_strip_with_adjacency"@)
        } else if self.0 == HalaPrimitiveTopology::TRIANGLE_LIST_WITH_ADJACENCY {
            Some("triangle_list_with_adjacency"@)
        } else if self.0 == HalaPrimitiveTopology::TRIANGLE_STRIP_WITH_ADJACENCY {
            Some("triangle_strip_with_adjacency"@)
        } else if self.0 == HalaPrimitiveTopology::PATCH_LIST {
            Some("patch_list"@)
        } else {
            Some("default"@)
        }
    }

    /// The value that a name in a description stands for. Each value is
    /// known by its name in upper case and in lower case.
    pub open spec fn spec_from_name(name: Seq<char>) -> Option<HalaPrimitiveTopology> {
        if name == "POINT_LIST"@ {
            Some(HalaPrimitiveTopology(HalaPrimitiveTopology::POINT_LIST))
        } else if name == "point_list"@ {
            Some(HalaPrimitiveTopology(HalaPrimitiveTopology::POINT_LIST))
        } else if name == "LINE_LIST"@ {
            Some(HalaPrimitiveTopology(HalaPrimitiveTopology::LINE_LIST))
        } else if name == "line_list"@ {
            Some(HalaPrimitiveTopology(HalaPrimitiveTopology::LINE_LIST))
        } else if name == "LINE_STRIP"@ {
            Some(HalaPrimitiveTopology(HalaPrimitiveTopology::LINE_STRIP))
        } else if name == "line_strip"@ {
            Some(HalaPrimitiveTopology(HalaPrimitiveTopology::LINE_STRIP))
        } else if name == "TRIANGLE_LIST"@ {
            Some(HalaPrimitiveTopology(HalaPrimitiveTopology::TRIANGLE_LIST))
        } else if name == "triangle_list"@ {
            Some(HalaPrimitiveTopology(HalaPrimitiveTopology::TRIANGLE_LIST))
        } else if name == "TRIANGLE_STRIP"@ {
            Some(HalaPrimitiveTopology(HalaPrimitiveTopology::TRIANGLE_STRIP))
        } else if name == "triangle_strip"@ {
            Some(HalaPrimitiveTopology(HalaPrimitiveTopology::TRIANGLE_STRIP))
        } else if name == "TRIANGLE_FAN"@ {
            Some(HalaPrimitiveTopology(HalaPrimitiveTopology::TRIANGLE_FAN))
        } else if name == "triangle_fan"@ {
            Some(HalaPrimitiveTopology(HalaPrimitiveTopology::TRIANGLE_FAN))
        } else if name == "LINE_LIST_WITH_ADJACENCY"@ {
            Some(HalaPrimitiveTopology(HalaPrimitiveTopology::LINE_LIST_WITH_ADJACENCY))
        } else if name == "line_list_with_adjacency"@ {
            Some(HalaPrimitiveTopology(HalaPrimitiveTopology::LINE_LIST_WITH_ADJACENCY))
        } else if name == "LINE_STRIP_WITH_ADJACENCY"@ {
            Some(HalaPrimitiveTopology(HalaPrimitiveTopology::LINE_STRIP_WITH_ADJACENCY))
        } else if name == "line_strip_with_adjacency"@ {
            Some(HalaPrimitiveTopology(HalaPrimitiveTopology::LINE_STRIP_WITH_ADJACENCY))
        } else if name == "TRIANGLE_LIST_WITH_ADJACENCY"@ {
            Some(HalaPrimitiveTopology(HalaPrimitiveTopology::TRIANGLE_LIST_WITH_ADJACENCY))
        } else if name == "triangle_list_with_adjacency"@ {
            Some(HalaPrimitiveTopology(HalaPrimitiveTopology::TRIANGLE_LIST_WITH_ADJACENCY))
        } else if name == "TRIANGLE_STRIP_WITH_ADJACENCY"@ {
            Some(HalaPrimitiveTopology(HalaPrimitiveTopology::TRIANGLE_STRIP_WITH_ADJACENCY))
        } else if name == "triangle_strip_with_adjacency"@ {
            Some(HalaPrimitiveTopology(HalaPrimitiveTopology::TRIANGLE_STRIP_WITH_ADJACENCY))
        } else if name == "PATCH_LIST"@ {
            Some(HalaPrimitiveTopology(HalaPrimitiveTopology::PATCH_LIST))
        } else if name == "patch_list"@ {
            Some(HalaPrimitiveTopology(HalaPrimitiveTopology::PATCH_LIST))
        } else if name == "default"@ {
            Some(HalaPrimitiveTopology(0))
        } else {
            None
        }
    }

    /// The name that the value is written with in a description, if it
    /// has one.
    pub fn name(self) -> (name: Option<&'static str>)
        ensures
            match self.spec_name() {
                Some(expected) => name matches Some(text) && text@ == expected,
                None => name is None,
            },
    {
        if self.0 == HalaPrimitiveTopology::POINT_LIST {
            Some("point_list")
        } else if self.0 == HalaPrimitiveTopology::LINE_LIST {
            Some("list_list")
        } else if self.0 == HalaPrimitiveTopology::LINE_STRIP {
            Some("line_strip")
        } else if self.0 == HalaPrimitiveTopology::TRIANGLE_LIST {
            Some("triangle_list")
        } else if self.0 == HalaPrimitiveTopology::TRIANGLE_STRIP {
            Some("triangle_strip")
        } else if self.0 == HalaPrimitiveTopology::TRIANGLE_FAN {
            Some("triangle_fan")
        } else if self.0 == HalaPrimitiveTopology::LINE_LIST_WITH_ADJACENCY {
            Some("line_list_with_adjacency")
        } else if self.0 == HalaPrimitiveTopology::LINE_STRIP_WITH_ADJACENCY {
            Some("line_strip_with_adjacency")
        } else if self.0 == HalaPrimitiveTopology::TRIANGLE_LIST_WITH_ADJACENCY {
            Some("triangle_list_with_adjacency")
        } else if self.0 == HalaPrimitiveTopology::TRIANGLE_STRIP_WITH_ADJACENCY {
            Some("triangle_strip_with_adjacency")
        } else if self.0 == HalaPrimitiveTopology::PATCH_LIST {
            Some("patch_list")
        } else {
            Some("default")
        }
    }

    /// The value that a name in a description stands for, if the name is
    /// known.
    pub fn from_name(name: &str) -> (value: Option<Self>)
        ensures
            value == Self::spec_from_name(name@),
    {
        if str_equals(name, "POINT_LIST") {
            Some(HalaPrimitiveTopology(HalaPrimitiveTopology::POINT_LIST))
        } else if str_equals(name, "point_list") {
            Some(HalaPrimitiveTopology(HalaPrimitiveTopology::POINT_LIST))
        } else if str_equals(name, "LINE_LIST") {
            Some(HalaPrimitiveTopology(HalaPrimitiveTopology::LINE_LIST))
        } else if str_equals(name, "line_list") {
            Some(HalaPrimitiveTopology(HalaPrimitiveTopology::LINE_LIST))
        } else if str_equals(name, "LINE_STRIP") {
            Some(HalaPrimitiveTopology(HalaPrimitiveTopology::LINE_STRIP))
        } else if str_equals(name, "line_strip") {
            Some(HalaPrimitiveTopology(HalaPrimitiveTopology::LINE_STRIP))
        } else if str_equals(name, "TRIANGLE_LIST") {
            Some(HalaPrimitiveTopology(HalaPrimitiveTopology::TRIANGLE_LIST))
        } else if str_equals(name, "triangle_list") {
            Some(HalaPrimitiveTopology(HalaPrimitiveTopology::TRIANGLE_LIST))
        } else if str_equals(name, "TRIANGLE_STRIP") {
            Some(HalaPrimitiveTopology(HalaPrimitiveTopology::TRIANGLE_STRIP))
        } else if str_equals(name, "triangle_strip") {
            Some(HalaPrimitiveTopology(HalaPrimitiveTopology::TRIANGLE_STRIP))
        } else if str_equals(name, "TRIANGLE_FAN") {
            Some(HalaPrimitiveTopology(HalaPrimitiveTopology::TRIANGLE_FAN))
        } else if str_equals(name, "triangle_fan") {
            Some(HalaPrimitiveTopology(HalaPrimitiveTopology::TRIANGLE_FAN))
        } else if str_equals(name, "LINE_LIST_WITH_ADJACENCY") {
            Some(HalaPrimitiveTopology(HalaPrimitiveTopology::LINE_LIST_WITH_ADJACENCY))
        } else if str_equals(name, "line_list_with_adjacency") {
            Some(HalaPrimitiveTopology(HalaPrimitiveTopology::LINE_LIST_WITH_ADJACENCY))
        } else if str_equals(name, "LINE_STRIP_WITH_ADJACENCY") {
            Some(HalaPrimitiveTopology(HalaPrimitiveTopology::LINE_STRIP_WITH_ADJACENCY))
        } else if str_equals(name, "line_strip_with_adjacency") {
            Some(HalaPrimitiveTopology(HalaPrimitiveTopology::LINE_STRIP_WITH_ADJACENCY))
        } else if str_equals(name, "TRIANGLE_LIST_WITH_ADJACENCY") {
            Some(HalaPrimitiveTopology(HalaPrimitiveTopology::TRIANGLE_LIST_WITH_ADJACENCY))
        } else if str_equals(name, "triangle_list_with_adjacency") {
            Some(HalaPrimitiveTopology(HalaPrimitiveTopology::TRIANGLE_LIST_WITH_ADJACENCY))
        } else if str_equals(name, "TRIANGLE_STRIP_WITH_ADJACENCY") {
            Some(HalaPrimitiveTopology(HalaPrimitiveTopology::TRIANGLE_STRIP_WITH_ADJACENCY))
        } else if str_equals(name, "triangle_strip_with_adjacency") {
            Some(HalaPrimitiveTopology(HalaPrimitiveTopology::TRIANGLE_STRIP_WITH_ADJACENCY))
        } else if str_equals(name, "PATCH_LIST") {
            Some(HalaPrimitiveTopology(HalaPrimitiveTopology::PATCH_LIST))
        } else if str_equals(name, "patch_list") {
            Some(HalaPrimitiveTopology(HalaPrimitiveTopology::PATCH_LIST))
        } else if str_equals(name, "default") {
            Some(HalaPrimitiveTopology(0))
        } else {
            None
        }
    }
}

/// The blend factor.
#[derive(Clone, Copy, PartialEq, Eq, Structural, PartialOrd, Ord, Hash, Debug)]
pub struct HalaBlendFactor(pub i32);

impl Default for HalaBlendFactor {
    fn default() -> (value: Self)
        ensures
            value.0 == 0,
    {
        Self(0)
    }
}

impl HalaBlendFactor {
    pub const ZERO: i32 = 0;
    pub const ONE: i32 = 1;
    pub const SRC_COLOR: i32 = 2;
    pub const ONE_MINUS_SRC_COLOR: i32 = 3;
    pub const DST_COLOR: i32 = 4;
    pub const ONE_MINUS_DST_COLOR: i32 = 5;
    pub const SRC_ALPHA: i32 = 6;
    pub const ONE_MINUS_SRC_ALPHA: i32 = 7;
    pub const DST_ALPHA: i32 = 8;
    pub const ONE_MINUS_DST_ALPHA: i32 = 9;
    pub const CONSTANT_COLOR: i32 = 10;
    pub const ONE_MINUS_CONSTANT_COLOR: i32 = 11;
    pub const CONSTANT_ALPHA: i32 = 12;
    pub const ONE_MINUS_CONSTANT_ALPHA: i32 = 13;
    pub const SRC_ALPHA_SATURATE: i32 = 14;
    pub const SRC1_COLOR: i32 = 15;
    pub const ONE_MINUS_SRC1_COLOR: i32 = 16;
    pub const SRC1_ALPHA: i32 = 17;
    pub const ONE_MINUS_SRC1_ALPHA: i32 = 18;

    /// The value with the given raw code.
    pub fn from_raw(x: i32) -> (value: Self)
        ensures
            value.0 == x,
    {
        Self(x)
    }

    /// The raw code of the value.
    pub fn as_raw(self) -> (x: i32)
        ensures
            x == self.0,
    {
        self.0
    }
}

impl HalaBlendFactor {
    /// The name that the value is written with in a description.
    /// A value that is none of the named ones is written as `default`.
    pub open spec fn spec_name(self) -> Option<Seq<char>> {
        if self.0 == HalaBlendFactor::ZERO {
            Some("zero"@)
        } else if self.0 == HalaBlendFactor::ONE {
            Some("one"@)
        } else if self.0 == HalaBlendFactor::SRC_COLOR {
            Some("src_color"@)
        } else if self.0 == HalaBlendFactor::ONE_MINUS_SRC_COLOR {
            Some("one_minus_src_color"@)
        } else if self.0 == HalaBlendFactor::DST_COLOR {
            Some("dst_color"@)
        } else if self.0 == HalaBlendFactor::ONE_MINUS_DST_COLOR {
            Some("one_minus_dst_color"@)
        } else if self.0 == HalaBlendFactor::SRC_ALPHA {
            Some("src_alpha"@)
        } else if self.0 == HalaBlendFactor::ONE_MINUS_SRC_ALPHA {
            Some("one_minus_src_alpha"@)
        } else if self.0 == HalaBlendFactor::DST_ALPHA {
            Some("dst_alpha"@)
        } else if self.0 == HalaBlendFactor::ONE_MINUS_DST_ALPHA {
            Some("one_minus_dst_alpha"@)
        } else if self.0 == HalaBlendFactor::CONSTANT_COLOR {
            Some("constant_color"@)
        } else if self.0 == HalaBlendFactor::ONE_MINUS_CONSTANT_COLOR {
            Some("one_minus_constant_color"@)
        } else if self.0 == HalaBlendFactor::CONSTANT_ALPHA {
            Some("constant_alpha"@)
        } else if self.0 == HalaBlendFactor::ONE_MINUS_CONSTANT_ALPHA {
            Some("one_minus_constant_alpha"@)
        } else if self.0 == HalaBlendFactor::SRC_ALPHA_SATURATE {
            Some("src_alpha_saturate"@)
        } else if self.0 == HalaBlendFactor::SRC1_COLOR {
            Some("src1_color"@)
        } else if self.0 == HalaBlendFactor::ONE_MINUS_SRC1_COLOR {
            Some("one_minus_src1_color"@)
        } else if self.0 == HalaBlendFactor::SRC1_ALPHA {
            Some("src1_alpha"@)
        } else if self.0 == HalaBlendFactor::ONE_MINUS_SRC1_ALPHA {
            Some("one_minus_src1_alpha"@)
        } else {
            Some("default"@)
        }
    }

    /// The value that a name in a description stands for. Each value is
    /// known by its name in upper case and in lower case.
    pub open spec fn spec_from_name(name: Seq<char>) -> Option<HalaBlendFactor> {
        if name == "ZERO"@ {
            Some(HalaBlendFactor(HalaBlendFactor::ZERO))
        } else if name == "zero"@ {
            Some(HalaBlendFactor(HalaBlendFactor::ZERO))
        } else if name == "ONE"@ {
            Some(HalaBlendFactor(HalaBlendFactor::ONE))
        } else if name == "one"@ {
            Some(HalaBlendFactor(HalaBlendFactor::ONE))
        } else if name == "SRC_COLOR"@ {
            Some(HalaBlendFactor(HalaBlendFactor::SRC_COLOR))
        } else if name == "src_color"@ {
            Some(HalaBlendFactor(HalaBlendFactor::SRC_COLOR))
        } else if name == "ONE_MINUS_SRC_COLOR"@ {
            Some(HalaBlendFactor(HalaBlendFactor::ONE_MINUS_SRC_COLOR))
        } else if name == "one_minus_src_color"@ {
            Some(HalaBlendFactor(HalaBlendFactor::ONE_MINUS_SRC_COLOR))
        } else if name == "DST_COLOR"@ {
            Some(HalaBlendFactor(HalaBlendFactor::DST_COLOR))
        } else if name == "dst_color"@ {
            Some(HalaBlendFactor(HalaBlendFactor::DST_COLOR))
        } else if name == "ONE_MINUS_DST_COLOR"@ {
            Some(HalaBlendFactor(HalaBlendFactor::ONE_MINUS_DST_COLOR))
        } else if name == "one_minus_dst_color"@ {
            Some(HalaBlendFactor(HalaBlendFactor::ONE_MINUS_DST_COLOR))
        } else if name == "SRC_ALPHA"@ {
            Some(HalaBlendFactor(HalaBlendFactor::SRC_ALPHA))
        } else if name == "src_alpha"@ {
            Some(HalaBlendFactor(HalaBlendFactor::SRC_ALPHA))
        } else if name == "ONE_MINUS_SRC_ALPHA"@ {
            Some(HalaBlendFactor(HalaBlendFactor::ONE_MINUS_SRC_ALPHA))
        } else if name == "one_minus_src_alpha"@ {
            Some(HalaBlendFactor(HalaBlendFactor::ONE_MINUS_SRC_ALPHA))
        } else if name == "DST_ALPHA"@ {
            Some(HalaBlendFactor(HalaBlendFactor::DST_ALPHA))
        } else if name == "dst_alpha"@ {
            Some(HalaBlendFactor(HalaBlendFactor::DST_ALPHA))
        } else if name == "ONE_MINUS_DST_ALPHA"@ {
            Some(HalaBlendFactor(HalaBlendFactor::ONE_MINUS_DST_ALPHA))
        } else if name == "one_minus_dst_alpha"@ {
            Some(HalaBlendFactor(HalaBlendFactor::ONE_MINUS_DST_ALPHA))
        } else if name == "CONSTANT_COLOR"@ {
            Some(HalaBlendFactor(HalaBlendFactor::CONSTANT_COLOR))
        } else if name == "constant_color"@ {
            Some(HalaBlendFactor(HalaBlendFactor::CONSTANT_COLOR))
        } else if name == "ONE_MINUS_CONSTANT_COLOR"@ {
            Some(HalaBlendFactor(HalaBlendFactor::ONE_MINUS_CONSTANT_COLOR))
        } else if name == "one_minus_constant_color"@ {
            Some(HalaBlendFactor(HalaBlendFactor::ONE_MINUS_CONSTANT_COLOR))
        } else if name == "CONSTANT_ALPHA"@ {
            Some(HalaBlendFactor(HalaBlendFactor::CONSTANT_ALPHA))
        } else if name == "constant_alpha"@ {
            Some(HalaBlendFactor(HalaBlendFactor::CONSTANT_ALPHA))
        } else if name == "ONE_MINUS_CONSTANT_ALPHA"@ {
            Some(HalaBlendFactor(HalaBlendFactor::ONE_MINUS_CONSTANT_ALPHA))
        } else if name == "one_minus_constant_alpha"@ {
            Some(HalaBlendFactor(HalaBlendFactor::ONE_MINUS_CONSTANT_ALPHA))
        } else if name == "SRC_ALPHA_SATURATE"@ {
            Some(HalaBlendFactor(HalaBlendFactor::SRC_ALPHA_SATURATE))
        } else if name == "src_alpha_saturate"@ {
            Some(HalaBlendFactor(HalaBlendFactor::SRC_ALPHA_SATURATE))
        } else if name == "SRC1_COLOR"@ {
            Some(HalaBlendFactor(HalaBlendFactor::SRC1_COLOR))
        } else if name == "src1_color"@ {
            Some(HalaBlendFactor(HalaBlendFactor::SRC1_COLOR))
        } else if name == "ONE_MINUS_SRC1_COLOR"@ {
            Some(HalaBlendFactor(HalaBlendFactor::ONE_MINUS_SRC1_COLOR))
        } else if name == "one_minus_src1_color"@ {
            Some(HalaBlendFactor(HalaBlendFactor::ONE_MINUS_SRC1_COLOR))
        } else if name == "SRC1_ALPHA"@ {
            Some(HalaBlendFactor(HalaBlendFactor::SRC1_ALPHA))
        } else if name == "src1_alpha"@ {
            Some(HalaBlendFactor(HalaBlendFactor::SRC1_ALPHA))
        } else if name == "ONE_MINUS_SRC1_ALPHA"@ {
            Some(HalaBlendFactor(HalaBlendFactor::ONE_MINUS_SRC1_ALPHA))
        } else if name == "one_minus_src1_alpha"@ {
            Some(HalaBlendFactor(HalaBlendFactor::ONE_MINUS_SRC1_ALPHA))
        } else if name == "default"@ {
            Some(HalaBlendFactor(0))
        } else {
            None
        }
    }

    /// The name that the value is written with in a description, if it
    /// has one.
    pub fn name(self) -> (name: Option<&'static str>)
        ensures
            match self.spec_name() {
                Some(expected) => name matches Some(text) && text@ == expected,
                None => name is None,
            },
    {
        if self.0 == HalaBlendFactor::ZERO {
            Some("zero")
        } else if self.0 == HalaBlendFactor::ONE {
            Some("one")
        } else if self.0 == HalaBlendFactor::SRC_COLOR {
            Some("src_color")
        } else if self.0 == HalaBlendFactor::ONE_MINUS_SRC_COLOR {
            Some("one_minus_src_color")
        } else if self.0 == HalaBlendFactor::DST_COLOR {
            Some("dst_color")
        } else if self.0 == HalaBlendFactor::ONE_MINUS_DST_COLOR {
            Some("one_minus_dst_color")
        } else if self.0 == HalaBlendFactor::SRC_ALPHA {
            Some("src_alpha")
        } else if self.0 == HalaBlendFactor::ONE_MINUS_SRC_ALPHA {
            Some("one_minus_src_alpha")
        } else if self.0 == HalaBlendFactor::DST_ALPHA {
            Some("dst_alpha")
        } else if self.0 == HalaBlendFactor::ONE_MINUS_DST_ALPHA {
            Some("one_minus_dst_alpha")
        } else if self.0 == HalaBlendFactor::CONSTANT_COLOR {
            Some("constant_color")
        } else if self.0 == HalaBlendFactor::ONE_MINUS_CONSTANT_COLOR {
            Some("one_minus_constant_color")
        } else if self.0 == HalaBlendFactor::CONSTANT_ALPHA {
            Some("constant_alpha")
        } else if self.0 == HalaBlendFactor::ONE_MINUS_CONSTANT_ALPHA {
            Some("one_minus_constant_alpha")
        } else if self.0 == HalaBlendFactor::SRC_ALPHA_SATURATE {
            Some("src_alpha_saturate")
        } else if self.0 == HalaBlendFactor::SRC1_COLOR {
            Some("src1_color")
        } else if self.0 == HalaBlendFactor::ONE_MINUS_SRC1_COLOR {
            Some("one_minus_src1_color")
        } else if self.0 == HalaBlendFactor::SRC1_ALPHA {
            Some("src1_alpha")
        } else if self.0 == HalaBlendFactor::ONE_MINUS_SRC1_ALPHA {
            Some("one_minus_src1_alpha")
        } else {
            Some("default")
        }
    }

    /// The value that a name in a description stands for, if the name is
    /// known.
    pub fn from_name(name: &str) -> (value: Option<Self>)
        ensures
            value == Self::spec_from_name(name@),
    {
        if str_equals(name, "ZERO") {
            Some(HalaBlendFactor(HalaBlendFactor::ZERO))
        } else if str_equals(name, "zero") {
            Some(HalaBlendFactor(HalaBlendFactor::ZERO))
        } else if str_equals(name, "ONE") {
            Some(HalaBlendFactor(HalaBlendFactor::ONE))
        } else if str_equals(name, "one") {
            Some(HalaBlendFactor(HalaBlendFactor::ONE))
        } else if str_equals(name, "SRC_COLOR") {
            Some(HalaBlendFactor(HalaBlendFactor::SRC_COLOR))
        } else if str_equals(name, "src_color") {
            Some(HalaBlendFactor(HalaBlendFactor::SRC_COLOR))
        } else if str_equals(name, "ONE_MINUS_SRC_COLOR") {
            Some(HalaBlendFactor(HalaBlendFactor::ONE_MINUS_SRC_COLOR))
        } else if str_equals(name, "one_minus_src_color") {
            Some(HalaBlendFactor(HalaBlendFactor::ONE_MINUS_SRC_COLOR))
        } else if str_equals(name, "DST_COLOR") {
            Some(HalaBlendFactor(HalaBlendFactor::DST_COLOR))
        } else if str_equals(name, "dst_color") {
            Some(HalaBlendFactor(HalaBlendFactor::DST_COLOR))
        } else if str_equals(name, "ONE_MINUS_DST_COLOR") {
            Some(HalaBlendFactor(HalaBlendFactor::ONE_MINUS_DST_COLOR))
        } else if str_equals(name, "one_minus_dst_color") {
            Some(HalaBlendFactor(HalaBlendFactor::ONE_MINUS_DST_COLOR))
        } else if str_equals(name, "SRC_ALPHA") {
            Some(HalaBlendFactor(HalaBlendFactor::SRC_ALPHA))
        } else if str_equals(name, "src_alpha") {
            Some(HalaBlendFactor(HalaBlendFactor::SRC_ALPHA))
        } else if str_equals(name, "ONE_MINUS_SRC_ALPHA") {
            Some(HalaBlendFactor(HalaBlendFactor::ONE_MINUS_SRC_ALPHA))
        } else if str_equals(name, "one_minus_src_alpha") {
            Some(HalaBlendFactor(HalaBlendFactor::ONE_MINUS_SRC_ALPHA))
        } else if str_equals(name, "DST_ALPHA") {
            Some(HalaBlendFactor(HalaBlendFactor::DST_ALPHA))
        } else if str_equals(name, "dst_alpha") {
            Some(HalaBlendFactor(HalaBlendFactor::DST_ALPHA))
        } else if str_equals(name, "ONE_MINUS_DST_ALPHA") {
            Some(HalaBlendFactor(HalaBlendFactor::ONE_MINUS_DST_ALPHA))
        } else if str_equals(name, "one_minus_dst_alpha") {
            Some(HalaBlendFactor(HalaBlendFactor::ONE_MINUS_DST_ALPHA))
        } else if str_equals(name, "CONSTANT_COLOR") {
            Some(HalaBlendFactor(HalaBlendFactor::CONSTANT_COLOR))
        } else if str_equals(name, "constant_color") {
            Some(HalaBlendFactor(HalaBlendFactor::CONSTANT_COLOR))
        } else if str_equals(name, "ONE_MINUS_CONSTANT_COLOR") {
            Some(HalaBlendFactor(HalaBlendFactor::ONE_MINUS_CONSTANT_COLOR))
        } else if str_equals(name, "one_minus_constant_color") {
            Some(HalaBlendFactor(HalaBlendFactor::ONE_MINUS_CONSTANT_COLOR))
        } else if str_equals(name, "CONSTANT_ALPHA") {
            Some(HalaBlendFactor(HalaBlendFactor::CONSTANT_ALPHA))
        } else if str_equals(name, "constant_alpha") {
            Some(HalaBlendFactor(HalaBlendFactor::CONSTANT_ALPHA))
        } else if str_equals(name, "ONE_MINUS_CONSTANT_ALPHA") {
            Some(HalaBlendFactor(HalaBlendFactor::ONE_MINUS_CONSTANT_ALPHA))
        } else if str_equals(name, "one_minus_constant_alpha") {
            Some(HalaBlendFactor(HalaBlendFactor::ONE_MINUS_CONSTANT_ALPHA))
        } else if str_equals(name, "SRC_ALPHA_SATURATE") {
            Some(HalaBlendFactor(HalaBlendFactor::SRC_ALPHA_SATURATE))
        } else if str_equals(name, "src_alpha_saturate") {
            Some(HalaBlendFactor(HalaBlendFactor::SRC_ALPHA_SATURATE))
        } else if str_equals(name, "SRC1_COLOR") {
            Some(HalaBlendFactor(HalaBlendFactor::SRC1_COLOR))
        } else if str_equals(name, "src1_color") {
            Some(HalaBlendFactor(HalaBlendFactor::SRC1_COLOR))
        } else if str_equals(name, "ONE_MINUS_SRC1_COLOR") {
            Some(HalaBlendFactor(HalaBlendFactor::ONE_MINUS_SRC1_COLOR))
        } else if str_equals(name, "one_minus_src1_color") {
            Some(HalaBlendFactor(HalaBlendFactor::ONE_MINUS_SRC1_COLOR))
        } else if str_equals(name, "SRC1_ALPHA") {
            Some(HalaBlendFactor(HalaBlendFactor::SRC1_ALPHA))
        } else if str_equals(name, "src1_alpha") {
            Some(HalaBlendFactor(HalaBlendFactor::SRC1_ALPHA))
        } else if str_equals(name, "ONE_MINUS_SRC1_ALPHA") {
            Some(HalaBlendFactor(HalaBlendFactor::ONE_MINUS_SRC1_ALPHA))
        } else if str_equals(name, "one_minus_src1_alpha") {
            Some(HalaBlendFactor(HalaBlendFactor::ONE_MINUS_SRC1_ALPHA))
        } else if str_equals(name, "default") {
            Some(HalaBlendFactor(0))
        } else {
            None
        }
    }
}

/// The blend operation.
#[derive(Clone, Copy, PartialEq, Eq, Structural, PartialOrd, Ord, Hash, Debug)]
pub struct HalaBlendOp(pub i32);

impl Default for HalaBlendOp {
    fn default() -> (value: Self)
        ensures
            value.0 == 0,
    {
        Self(0)
    }
}

impl HalaBlendOp {
    pub const ADD: i32 = 0;
    pub const SUBTRACT: i32 = 1;
    pub const REVERSE_SUBTRACT: i32 = 2;
    pub const MIN: i32 = 3;
    pub const MAX: i32 = 4;

    /// The value with the given raw code.
    pub fn from_raw(x: i32) -> (value: Self)
        ensures
            value.0 == x,
    {
        Self(x)
    }

    /// The raw code of the value.
    pub fn as_raw(self) -> (x: i32)
        ensures
            x == self.0,
    {
        self.0
    }
}

impl HalaBlendOp {
    /// The name that the value is written with in a description.
    /// A value that is none of the named ones is written as `default`.
    pub open spec fn spec_name(self) -> Option<Seq<char>> {
        if self.0 == HalaBlendOp::ADD {
            Some("add"@)
        } else if self.0 == HalaBlendOp::SUBTRACT {
            Some("subtract"@)
        } else if self.0 == HalaBlendOp::REVERSE_SUBTRACT {
            Some("reverse_subtract"@)
        } else if self.0 == HalaBlendOp::MIN {
            Some("min"@)
        } else if self.0 == HalaBlendOp::MAX {
            Some("max"@)
        } else {
            Some("default"@)
        }
    }

    /// The value that a name in a description stands for. Each value is
    /// known by its name in upper case and in lower case.
    pub open spec fn spec_from_name(name: Seq<char>) -> Option<HalaBlendOp> {
        if name == "ADD"@ {
            Some(HalaBlendOp(HalaBlendOp::ADD))
        } else if name == "add"@ {
            Some(HalaBlendOp(HalaBlendOp::ADD))
        } else if name == "SUBTRACT"@ {
            Some(HalaBlendOp(HalaBlendOp::SUBTRACT))
        } else if name == "subtract"@ {
            Some(HalaBlendOp(HalaBlendOp::SUBTRACT))
        } else if name == "REVERSE_SUBTRACT"@ {
            Some(HalaBlendOp(HalaBlendOp::REVERSE_SUBTRACT))
        } else if name == "reverse_subtract"@ {
            Some(HalaBlendOp(HalaBlendOp::REVERSE_SUBTRACT))
        } else if name == "MIN"@ {
            Some(HalaBlendOp(HalaBlendOp::MIN))
        } else if name == "min"@ {
            Some(HalaBlendOp(HalaBlendOp::MIN))
        } else if name == "MAX"@ {
            Some(HalaBlendOp(HalaBlendOp::MAX))
        } else if name == "max"@ {
            Some(HalaBlendOp(HalaBlendOp::MAX))
        } else if name == "default"@ {
            Some(HalaBlendOp(0))
        } else {
            None
        }
    }

    /// The name that the value is written with in a description, if it
    /// has one.
    pub fn name(self) -> (name: Option<&'static str>)
        ensures
            match self.spec_name() {
                Some(expected) => name matches Some(text) && text@ == expected,
                None => name is None,
            },
    {
        if self.0 == HalaBlendOp::ADD {
            Some("add")
        } else if self.0 == HalaBlendOp::SUBTRACT {
            Some("subtract")
        } else if self.0 == HalaBlendOp::REVERSE_SUBTRACT {
            Some("reverse_subtract")
        } else if self.0 == HalaBlendOp::MIN {
            Some("min")
        } else if self.0 == HalaBlendOp::MAX {
            Some("max")
        } else {
            Some("default")
        }
    }

    /// The value that a name in a description stands for, if the name is
    /// known.
    pub fn from_name(name: &str) -> (value: Option<Self>)
        ensures
            value == Self::spec_from_name(name@),
    {
        if str_equals(name, "ADD") {
            Some(HalaBlendOp(HalaBlendOp::ADD))
        } else if str_equals(name, "add") {
            Some(HalaBlendOp(HalaBlendOp::ADD))
        } else if str_equals(name, "SUBTRACT") {
            Some(HalaBlendOp(HalaBlendOp::SUBTRACT))
        } else if str_equals(name, "subtract") {
            Some(HalaBlendOp(HalaBlendOp::SUBTRACT))
        } else if str_equals(name, "REVERSE_SUBTRACT") {
            Some(HalaBlendOp(HalaBlendOp::REVERSE_SUBTRACT))
        } else if str_equals(name, "reverse_subtract") {
            Some(HalaBlendOp(HalaBlendOp::REVERSE_SUBTRACT))
        } else if str_equals(name, "MIN") {
            Some(HalaBlendOp(HalaBlendOp::MIN))
        } else if str_equals(name, "min") {
            Some(HalaBlendOp(HalaBlendOp::MIN))
        } else if str_equals(name, "MAX") {
            Some(HalaBlendOp(HalaBlendOp::MAX))
        } else if str_equals(name, "max") {
            Some(HalaBlendOp(HalaBlendOp::MAX))
        } else if str_equals(name, "default") {
            Some(HalaBlendOp(0))
        } else {
            None
        }
    }
}

/// The front face.
#[derive(Clone, Copy, PartialEq, Eq, Structural, PartialOrd, Ord, Hash, Debug)]
pub struct HalaFrontFace(pub i32);

impl Default for HalaFrontFace {
    fn default() -> (value: Self)
        ensures
            value.0 == 0,
    {
        Self(0)
    }
}

impl HalaFrontFace {
    pub const COUNTER_CLOCKWISE: i32 = 0;
    pub const CLOCKWISE: i32 = 1;

    /// The value with the given raw code.
    pub fn from_raw(x: i32) -> (value: Self)
        ensures
            value.0 == x,
    {
        Self(x)
    }

    /// The raw code of the value.
    pub fn as_raw(self) -> (x: i32)
        ensures
            x == self.0,
    {
        self.0
    }
}

impl HalaFrontFace {
    /// The name that the value is written with in a description.
    /// A value that is none of the named ones is written as `default`.
    pub open spec fn spec_name(self) -> Option<Seq<char>> {
        if self.0 == HalaFrontFace::COUNTER_CLOCKWISE {
            Some("counter_clockwise"@)
        } else if self.0 == HalaFrontFace::CLOCKWISE {
            Some("clockwise"@)
        } else {
            Some("default"@)
        }
    }

    /// The value that a name in a description stands for. Each value is
    /// known by its name in upper case and in lower case.
    pub open spec fn spec_from_name(name: Seq<char>) -> Option<HalaFrontFace> {
        if name == "COUNTER_CLOCKWISE"@ {
            Some(HalaFrontFace(HalaFrontFace::COUNTER_CLOCKWISE))
        } else if name == "counter_clockwise"@ {
            Some(HalaFrontFace(HalaFrontFace::COUNTER_CLOCKWISE))
        } else if name == "CLOCKWISE"@ {
            Some(HalaFrontFace(HalaFrontFace::CLOCKWISE))
        } else if name == "clockwise"@ {
            Some(HalaFrontFace(HalaFrontFace::CLOCKWISE))
        } else if name == "default"@ {
            Some(HalaFrontFace(0))
        } else {
            None
        }
    }

    /// The name that the value is written with in a description, if it
    /// has one.
    pub fn name(self) -> (name: Option<&'static str>)
        ensures
            match self.spec_name() {
                Some(expected) => name matches Some(text) && text@ == expected,
                None => name is None,
            },
    {
        if self.0 == HalaFrontFace::COUNTER_CLOCKWISE {
            Some("counter_clockwise")
        } else if self.0 == HalaFrontFace::CLOCKWISE {
            Some("clockwise")
        } else {
            Some("default")
        }
    }

    /// The value that a name in a description stands for, if the name is
    /// known.
    pub fn from_name(name: &str) -> (value: Option<Self>)
        ensures
            value == Self::spec_from_name(name@),
    {
        if str_equals(name, "COUNTER_CLOCKWISE") {
            Some(HalaFrontFace(HalaFrontFace::COUNTER_CLOCKWISE))
        } else if str_equals(name, "counter_clockwise") {
            Some(HalaFrontFace(HalaFrontFace::COUNTER_CLOCKWISE))
        } else if str_equals(name, "CLOCKWISE") {
            Some(HalaFrontFace(HalaFrontFace::CLOCKWISE))
        } else if str_equals(name, "clockwise") {
            Some(HalaFrontFace(HalaFrontFace::CLOCKWISE))
        } else if str_equals(name, "default") {
            Some(HalaFrontFace(0))
        } else {
            None
        }
    }
}

/// The cull mode.
#[derive(Clone, Copy, PartialEq, Eq, Structural, PartialOrd, Ord, Hash, Debug)]
pub struct HalaCullModeFlags(pub u32);

impl Default for HalaCullModeFlags {
    fn default() -> (value: Self)
        ensures
            value.0 == 0,
    {
        Self(0)
    }
}

impl HalaCullModeFlags {
    pub const NONE: u32 = 0;
    pub const FRONT: u32 = 1;
    pub const BACK: u32 = 2;
    pub const FRONT_AND_BACK: u32 = 3;

    /// The value with no bit set.
    pub fn empty() -> (value: Self)
        ensures
            value.0 == 0,
    {
        Self(0)
    }

    /// The value with the given raw bits.
    pub fn from_raw(x: u32) -> (value: Self)
        ensures
            value.0 == x,
    {
        Self(x)
    }

    /// The raw bits of the value.
    pub fn as_raw(self) -> (x: u32)
        ensures
            x == self.0,
    {
        self.0
    }

    /// Whether no bit is set.
    pub fn is_empty(self) -> (b: bool)
        ensures
            b == (self.0 == 0),
    {
        self.0 == 0
    }

    /// Whether the two values share a bit.
    pub fn intersects(self, other: Self) -> (b: bool)
        ensures
            b == (self.0 & other.0 != 0),
    {
        self.0 & other.0 != 0
    }

    /// Whether every bit of `other` is set in `self`.
    pub fn contains(self, other: Self) -> (b: bool)
        ensures
            b == (self.0 & other.0 == other.0),
    {
        self.0 & other.0 == other.0
    }
}

impl core::ops::BitOr for HalaCullModeFlags {
    type Output = Self;

    fn bitor(self, rhs: Self) -> (value: Self) {
        Self(self.0 | rhs.0)
    }
}

impl vstd::std_specs::ops::BitOrSpecImpl for HalaCullModeFlags {
    open spec fn obeys_bitor_spec() -> bool {
        true
    }

    open spec fn bitor_req(self, rhs: Self) -> bool {
        true
    }

    open spec fn bitor_spec(self, rhs: Self) -> Self {
        Self(self.0 | rhs.0)
    }
}

impl core::ops::BitAnd for HalaCullModeFlags {
    type Output = Self;

    fn bitand(self, rhs: Self) -> (value: Self) {
        Self(self.0 & rhs.0)
    }
}

impl vstd::std_specs::ops::BitAndSpecImpl for HalaCullModeFlags {
    open spec fn obeys_bitand_spec() -> bool {
        true
    }

    open spec fn bitand_req(self, rhs: Self) -> bool {
        true
    }

    open spec fn bitand_spec(self, rhs: Self) -> Self {
        Self(self.0 & rhs.0)
    }
}

impl core::ops::BitXor for HalaCullModeFlags {
    type Output = Self;

    fn bitxor(self, rhs: Self) -> (value: Self) {
        Self(self.0 ^ rhs.0)
    }
}

impl vstd::std_specs::ops::BitXorSpecImpl for HalaCullModeFlags {
    open spec fn obeys_bitxor_spec() -> bool {
        true
    }

    open spec fn bitxor_req(self, rhs: Self) -> bool {
        true
    }

    open spec fn bitxor_spec(self, rhs: Self) -> Self {
        Self(self.0 ^ rhs.0)
    }
}

impl core::ops::Not for HalaCullModeFlags {
    type Output = Self;

    fn not(self) -> (value: Self) {
        Self(!self.0)
    }
}

impl vstd::std_specs::ops::NotSpecImpl for HalaCullModeFlags {
    open spec fn obeys_not_spec() -> bool {
        true
    }

    open spec fn not_req(self) -> bool {
        true
    }

    open spec fn not_spec(self) -> Self {
        Self(!self.0)
    }
}

impl HalaCullModeFlags {
    /// The name that the value is written with in a description.
    /// A value that is none of the named ones has no name.
    pub open spec fn spec_name(self) -> Option<Seq<char>> {
        if self.0 == HalaCullModeFlags::NONE {
            Some("none"@)
        } else if self.0 == HalaCullModeFlags::FRONT {
            Some("front"@)
        } else if self.0 == HalaCullModeFlags::BACK {
            Some("back"@)
        } else if self.0 == HalaCullModeFlags::FRONT_AND_BACK {
            Some("front_and_back"@)
        } else {
            None
        }
    }

    /// The value that a name in a description stands for. Each value is
    /// known by its name in upper case and in lower case.
    pub open spec fn spec_from_name(name: Seq<char>) -> Option<HalaCullModeFlags> {
        if name == "NONE"@ {
            Some(HalaCullModeFlags(HalaCullModeFlags::NONE))
        } else if name == "none"@ {
            Some(HalaCullModeFlags(HalaCullModeFlags::NONE))
        } else if name == "FRONT"@ {
            Some(HalaCullModeFlags(HalaCullModeFlags::FRONT))
        } else if name == "front"@ {
            Some(HalaCullModeFlags(HalaCullModeFlags::FRONT))
        } else if name == "BACK"@ {
            Some(HalaCullModeFlags(HalaCullModeFlags::BACK))
        } else if name == "back"@ {
            Some(HalaCullModeFlags(HalaCullModeFlags::BACK))
        } else if name == "FRONT_AND_BACK"@ {
            Some(HalaCullModeFlags(HalaCullModeFlags::FRONT_AND_BACK))
        } else if name == "front_and_back"@ {
            Some(HalaCullModeFlags(HalaCullModeFlags::FRONT_AND_BACK))
        } else {
            None
        }
    }

    /// The name that the value is written with in a description, if it
    /// has one.
    pub fn name(self) -> (name: Option<&'static str>)
        ensures
            match self.spec_name() {
                Some(expected) => name matches Some(text) && text@ == expected,
                None => name is None,
            },
    {
        if self.0 == HalaCullModeFlags::NONE {
            Some("none")
        } else if self.0 == HalaCullModeFlags::FRONT {
            Some("front")
        } else if self.0 == HalaCullModeFlags::BACK {
            Some("back")
        } else if self.0 == HalaCullModeFlags::FRONT_AND_BACK {
            Some("front_and_back")
        } else {
            None
        }
    }

    /// The value that a name in a description stands for, if the name is
    /// known.
    pub fn from_name(name: &str) -> (value: Option<Self>)
        ensures
            value == Self::spec_from_name(name@),
    {
        if str_equals(name, "NONE") {
            Some(HalaCullModeFlags(HalaCullModeFlags::NONE))
        } else if str_equals(name, "none") {
            Some(HalaCullModeFlags(HalaCullModeFlags::NONE))
        } else if str_equals(name, "FRONT") {
            Some(HalaCullModeFlags(HalaCullModeFlags::FRONT))
        } else if str_equals(name, "front") {
            Some(HalaCullModeFlags(HalaCullModeFlags::FRONT))
        } else if str_equals(name, "BACK") {
            Some(HalaCullModeFlags(HalaCullModeFlags::BACK))
        } else if str_equals(name, "back") {
            Some(HalaCullModeFlags(HalaCullModeFlags::BACK))
        } else if str_equals(name, "FRONT_AND_BACK") {
            Some(HalaCullModeFlags(HalaCullModeFlags::FRONT_AND_BACK))
        } else if str_equals(name, "front_and_back") {
            Some(HalaCullModeFlags(HalaCullModeFlags::FRONT_AND_BACK))
        } else {
            None
        }
    }
}

/// The polygon mode.
#[derive(Clone, Copy, PartialEq, Eq, Structural, PartialOrd, Ord, Hash, Debug)]
pub struct HalaPolygonMode(pub i32);

impl Default for HalaPolygonMode {
    fn default() -> (value: Self)
        ensures
            value.0 == 0,
    {
        Self(0)
    }
}

impl HalaPolygonMode {
    pub const FILL: i32 = 0;
    pub const LINE: i32 = 1;
    pub const POINT: i32 = 2;

    /// The value with the given raw code.
    pub fn from_raw(x: i32) -> (value: Self)
        ensures
            value.0 == x,
    {
        Self(x)
    }

    /// The raw code of the value.
    pub fn as_raw(self) -> (x: i32)
        ensures
            x == self.0,
    {
        self.0
    }
}

impl HalaPolygonMode {
    /// The name that the value is written with in a description.
    /// A value that is none of the named ones is written as `default`.
    pub open spec fn spec_name(self) -> Option<Seq<char>> {
        if self.0 == HalaPolygonMode::FILL {
            Some("fill"@)
        } else if self.0 == HalaPolygonMode::LINE {
            Some("line"@)
        } else if self.0 == HalaPolygonMode::POINT {
            Some("point"@)
        } else {
            Some("default"@)
        }
    }

    /// The value that a name in a description stands for. Each value is
    /// known by its name in upper case and in lower case.
    pub open spec fn spec_from_name(name: Seq<char>) -> Option<HalaPolygonMode> {
        if name == "FILL"@ {
            Some(HalaPolygonMode(HalaPolygonMode::FILL))
        } else if name == "fill"@ {
            Some(HalaPolygonMode(HalaPolygonMode::FILL))
        } else if name == "LINE"@ {
            Some(HalaPolygonMode(HalaPolygonMode::LINE))
        } else if name == "line"@ {
            Some(HalaPolygonMode(HalaPolygonMode::LINE))
        } else if name == "POINT"@ {
            Some(HalaPolygonMode(HalaPolygonMode::POINT))
        } else if name == "point"@ {
            Some(HalaPolygonMode(HalaPolygonMode::POINT))
        } else if name == "default"@ {
            Some(HalaPolygonMode(0))
        } else {
            None
        }
    }

    /// The name that the value is written with in a description, if it
    /// has one.
    pub fn name(self) -> (name: Option<&'static str>)
        ensures
            match self.spec_name() {
                Some(expected) => name matches Some(text) && text@ == expected,
                None => name is None,
            },
    {
        if self.0 == HalaPolygonMode::FILL {
            Some("fill")
        } else if self.0 == HalaPolygonMode::LINE {
            Some("line")
        } else if self.0 == HalaPolygonMode::POINT {
            Some("point")
        } else {
            Some("default")
        }
    }

    /// The value that a name in a description stands for, if the name is
    /// known.
    pub fn from_name(name: &str) -> (value: Option<Self>)
        ensures
            value == Self::spec_from_name(name@),
    {
        if str_equals(name, "FILL") {
            Some(HalaPolygonMode(HalaPolygonMode::FILL))
        } else if str_equals(name, "fill") {
            Some(HalaPolygonMode(HalaPolygonMode::FILL))
        } else if str_equals(name, "LINE") {
            Some(HalaPolygonMode(HalaPolygonMode::LINE))
        } else if str_equals(name, "line") {
            Some(HalaPolygonMode(HalaPolygonMode::LINE))
        } else if str_equals(name, "POINT") {
            Some(HalaPolygonMode(HalaPolygonMode::POINT))
        } else if str_equals(name, "point") {
            Some(HalaPolygonMode(HalaPolygonMode::POINT))
        } else if str_equals(name, "default") {
            Some(HalaPolygonMode(0))
        } else {
            None
        }
    }
}

/// The compare operation.
#[derive(Clone, Copy, PartialEq, Eq, Structural, PartialOrd, Ord, Hash, Debug)]
pub struct HalaCompareOp(pub i32);

impl Default for HalaCompareOp {
    fn default() -> (value: Self)
        ensures
            value.0 == 0,
    {
        Self(0)
    }
}

impl HalaCompareOp {
    pub const NEVER: i32 = 0;
    pub const LESS: i32 = 1;
    pub const EQUAL: i32 = 2;
    pub const LESS_OR_EQUAL: i32 = 3;
    pub const GREATER: i32 = 4;
    pub const NOT_EQUAL: i32 = 5;
    pub const GREATER_OR_EQUAL: i32 = 6;
    pub const ALWAYS: i32 = 7;

    /// The value with the given raw code.
    pub fn from_raw(x: i32) -> (value: Self)
        ensures
            value.0 == x,
    {
        Self(x)
    }

    /// The raw code of the value.
    pub fn as_raw(self) -> (x: i32)
        ensures
            x == self.0,
    {
        self.0
    }
}

impl HalaCompareOp {
    /// The name that the value is written with in a description.
    /// A value that is none of the named ones is written as `default`.
    pub open spec fn spec_name(self) -> Option<Seq<char>> {
        if self.0 == HalaCompareOp::NEVER {
            Some("never"@)
        } else if self.0 == HalaCompareOp::LESS {
            Some("less"@)
        } else if self.0 == HalaCompareOp::EQUAL {
            Some("equal"@)
        } else if self.0 == HalaCompareOp::LESS_OR_EQUAL {
            Some("less_or_equal"@)
        } else if self.0 == HalaCompareOp::GREATER {
            Some("greater"@)
        } else if self.0 == HalaCompareOp::NOT_EQUAL {
            Some("not_equal"@)
        } else if self.0 == HalaCompareOp::GREATER_OR_EQUAL {
            Some("greater_or_equal"@)
        } else if self.0 == HalaCompareOp::ALWAYS {
            Some("always"@)
        } else {
            Some("default"@)
        }
    }

    /// The value that a name in a description stands for. Each value is
    /// known by its name in upper case and in lower case.
    pub open spec fn spec_from_name(name: Seq<char>) -> Option<HalaCompareOp> {
        if name == "NEVER"@ {
            Some(HalaCompareOp(HalaCompareOp::NEVER))
        } else if name == "never"@ {
            Some(HalaCompareOp(HalaCompareOp::NEVER))
        } else if name == "LESS"@ {
            Some(HalaCompareOp(HalaCompareOp::LESS))
        } else if name == "less"@ {
            Some(HalaCompareOp(HalaCompareOp::LESS))
        } else if name == "EQUAL"@ {
            Some(HalaCompareOp(HalaCompareOp::EQUAL))
        } else if name == "equal"@ {
            Some(HalaCompareOp(HalaCompareOp::EQUAL))
        } else if name == "LESS_OR_EQUAL"@ {
            Some(HalaCompareOp(HalaCompareOp::LESS_OR_EQUAL))
        } else if name == "less_or_equal"@ {
            Some(HalaCompareOp(HalaCompareOp::LESS_OR_EQUAL))
        } else if name == "GREATER"@ {
            Some(HalaCompareOp(HalaCompareOp::GREATER))
        } else if name == "greater"@ {
            Some(HalaCompareOp(HalaCompareOp::GREATER))
        } else if name == "NOT_EQUAL"@ {
            Some(HalaCompareOp(HalaCompareOp::NOT_EQUAL))
        } else if name == "not_equal"@ {
            Some(HalaCompareOp(HalaCompareOp::NOT_EQUAL))
        } else if name == "GREATER_OR_EQUAL"@ {
            Some(HalaCompareOp(HalaCompareOp::GREATER_OR_EQUAL))
        } else if name == "greater_or_equal"@ {
            Some(HalaCompareOp(HalaCompareOp::GREATER_OR_EQUAL))
        } else if name == "ALWAYS"@ {
            Some(HalaCompareOp(HalaCompareOp::ALWAYS))
        } else if name == "always"@ {
            Some(HalaCompareOp(HalaCompareOp::ALWAYS))
        } else if name == "default"@ {
            Some(HalaCompareOp(0))
        } else {
            None
        }
    }

    /// The name that the value is written with in a description, if it
    /// has one.
    pub fn name(self) -> (name: Option<&'static str>)
        ensures
            match self.spec_name() {
                Some(expected) => name matches Some(text) && text@ == expected,
                None => name is None,
            },
    {
        if self.0 == HalaCompareOp::NEVER {
            Some("never")
        } else if self.0 == HalaCompareOp::LESS {
            Some("less")
        } else if self.0 == HalaCompareOp::EQUAL {
            Some("equal")
        } else if self.0 == HalaCompareOp::LESS_OR_EQUAL {
            Some("less_or_equal")
        } else if self.0 == HalaCompareOp::GREATER {
            Some("greater")
        } else if self.0 == HalaCompareOp::NOT_EQUAL {
            Some("not_equal")
        } else if self.0 == HalaCompareOp::GREATER_OR_EQUAL {
            Some("greater_or_equal")
        } else if self.0 == HalaCompareOp::ALWAYS {
            Some("always")
        } else {
            Some("default")
        }
    }

    /// The value that a name in a description stands for, if the name is
    /// known.
    pub fn from_name(name: &str) -> (value: Option<Self>)
        ensures
            value == Self::spec_from_name(name@),
    {
        if str_equals(name, "NEVER") {
            Some(HalaCompareOp(HalaCompareOp::NEVER))
        } else if str_equals(name, "never") {
            Some(HalaCompareOp(HalaCompareOp::NEVER))
        } else if str_equals(name, "LESS") {
            Some(HalaCompareOp(HalaCompareOp::LESS))
        } else if str_equals(name, "less") {
            Some(HalaCompareOp(HalaCompareOp::LESS))
        } else if str_equals(name, "EQUAL") {
            Some(HalaCompareOp(HalaCompareOp::EQUAL))
        } else if str_equals(name, "equal") {
            Some(HalaCompareOp(HalaCompareOp::EQUAL))
        } else if str_equals(name, "LESS_OR_EQUAL") {
            Some(HalaCompareOp(HalaCompareOp::LESS_OR_EQUAL))
        } else if str_equals(name, "less_or_equal") {
            Some(HalaCompareOp(HalaCompareOp::LESS_OR_EQUAL))
        } else if str_equals(name, "GREATER") {
            Some(HalaCompareOp(HalaCompareOp::GREATER))
        } else if str_equals(name, "greater") {
            Some(HalaCompareOp(HalaCompareOp::GREATER))
        } else if str_equals(name, "NOT_EQUAL") {
            Some(HalaCompareOp(HalaCompareOp::NOT_EQUAL))
        } else if str_equals(name, "not_equal") {
            Some(HalaCompareOp(HalaCompareOp::NOT_EQUAL))
        } else if str_equals(name, "GREATER_OR_EQUAL") {
            Some(HalaCompareOp(HalaCompareOp::GREATER_OR_EQUAL))
        } else if str_equals(name, "greater_or_equal") {
            Some(HalaCompareOp(HalaCompareOp::GREATER_OR_EQUAL))
        } else if str_equals(name, "ALWAYS") {
            Some(HalaCompareOp(HalaCompareOp::ALWAYS))
        } else if str_equals(name, "always") {
            Some(HalaCompareOp(HalaCompareOp::ALWAYS))
        } else if str_equals(name, "default") {
            Some(HalaCompareOp(0))
        } else {
            None
        }
    }
}

/// The stencil face flags.
#[derive(Clone, Copy, PartialEq, Eq, Structural, PartialOrd, Ord, Hash, Debug)]
pub struct HalaStencilFaceFlags(pub u32);

impl Default for HalaStencilFaceFlags {
    fn default() -> (value: Self)
        ensures
            value.0 == 0,
    {
        Self(0)
    }
}

impl HalaStencilFaceFlags {
    pub const FRONT: u32 = 1;
    pub const BACK: u32 = 2;
    pub const FRONT_AND_BACK: u32 = 3;

    /// The value with no bit set.
    pub fn empty() -> (value: Self)
        ensures
            value.0 == 0,
    {
        Self(0)
    }

    /// The value with the given raw bits.
    pub fn from_raw(x: u32) -> (value: Self)
        ensures
            value.0 == x,
    {
        Self(x)
    }

    /// The raw bits of the value.
    pub fn as_raw(self) -> (x: u32)
        ensures
            x == self.0,
    {
        self.0
    }

    /// Whether no bit is set.
    pub fn is_empty(self) -> (b: bool)
        ensures
            b == (self.0 == 0),
    {
        self.0 == 0
    }

    /// Whether the two values share a bit.
    pub fn intersects(self, other: Self) -> (b: bool)
        ensures
            b == (self.0 & other.0 != 0),
    {
        self.0 & other.0 != 0
    }

    /// Whether every bit of `other` is set in `self`.
    pub fn contains(self, other: Self) -> (b: bool)
        ensures
            b == (self.0 & other.0 == other.0),
    {
        self.0 & other.0 == other.0
    }
}

impl core::ops::BitOr for HalaStencilFaceFlags {
    type Output = Self;

    fn bitor(self, rhs: Self) -> (value: Self) {
        Self(self.0 | rhs.0)
    }
}

impl vstd::std_specs::ops::BitOrSpecImpl for HalaStencilFaceFlags {
    open spec fn obeys_bitor_spec() -> bool {
        true
    }

    open spec fn bitor_req(self, rhs: Self) -> bool {
        true
    }

    open spec fn bitor_spec(self, rhs: Self) -> Self {
        Self(self.0 | rhs.0)
    }
}

impl core::ops::BitAnd for HalaStencilFaceFlags {
    type Output = Self;

    fn bitand(self, rhs: Self) -> (value: Self) {
        Self(self.0 & rhs.0)
    }
}

impl vstd::std_specs::ops::BitAndSpecImpl for HalaStencilFaceFlags {
    open spec fn obeys_bitand_spec() -> bool {
        true
    }

    open spec fn bitand_req(self, rhs: Self) -> bool {
        true
    }

    open spec fn bitand_spec(self, rhs: Self) -> Self {
        Self(self.0 & rhs.0)
    }
}

impl core::ops::BitXor for HalaStencilFaceFlags {
    type Output = Self;

    fn bitxor(self, rhs: Self) -> (value: Self) {
        Self(self.0 ^ rhs.0)
    }
}

impl vstd::std_specs::ops::BitXorSpecImpl for HalaStencilFaceFlags {
    open spec fn obeys_bitxor_spec() -> bool {
        true
    }

    open spec fn bitxor_req(self, rhs: Self) -> bool {
        true
    }

    open spec fn bitxor_spec(self, rhs: Self) -> Self {
        Self(self.0 ^ rhs.0)
    }
}

impl core::ops::Not for HalaStencilFaceFlags {
    type Output = Self;

    fn not(self) -> (value: Self) {
        Self(!self.0)
    }
}

impl vstd::std_specs::ops::NotSpecImpl for HalaStencilFaceFlags {
    open spec fn obeys_not_spec() -> bool {
        true
    }

    open spec fn not_req(self) -> bool {
        true
    }

    open spec fn not_spec(self) -> Self {
        Self(!self.0)
    }
}

/// The stencil operation.
#[derive(Clone, Copy, PartialEq, Eq, Structural, PartialOrd, Ord, Hash, Debug)]
pub struct HalaStencilOp(pub i32);

impl Default for HalaStencilOp {
    fn default() -> (value: Self)
        ensures
            value.0 == 0,
    {
        Self(0)
    }
}

impl HalaStencilOp {
    pub const KEEP: i32 = 0;
    pub const ZERO: i32 = 1;
    pub const REPLACE: i32 = 2;
    pub const INCREMENT_AND_CLAMP: i32 = 3;
    pub const DECREMENT_AND_CLAMP: i32 = 4;
    pub const INVERT: i32 = 5;
    pub const INCREMENT_AND_WRAP: i32 = 6;
    pub const DECREMENT_AND_WRAP: i32 = 7;

    /// The value with the given raw code.
    pub fn from_raw(x: i32) -> (value: Self)
        ensures
            value.0 == x,
    {
        Self(x)
    }

    /// The raw code of the value.
    pub fn as_raw(self) -> (x: i32)
        ensures
            x == self.0,
    {
        self.0
    }
}

impl HalaStencilOp {
    /// The name that the value is written with in a description.
    /// A value that is none of the named ones is written as `default`.
    pub open spec fn spec_name(self) -> Option<Seq<char>> {
        if self.0 == HalaStencilOp::KEEP {
            Some("keep"@)
        } else if self.0 == HalaStencilOp::ZERO {
            Some("zero"@)
        } else if self.0 == HalaStencilOp::REPLACE {
            Some("replace"@)
        } else if self.0 == HalaStencilOp::INCREMENT_AND_CLAMP {
            Some("increment_and_clamp"@)
        } else if self.0 == HalaStencilOp::DECREMENT_AND_CLAMP {
            Some("decrement_and_clamp"@)
        } else if self.0 == HalaStencilOp::INVERT {
            Some("invert"@)
        } else if self.0 == HalaStencilOp::INCREMENT_AND_WRAP {
            Some("increment_and_wrap"@)
        } else if self.0 == HalaStencilOp::DECREMENT_AND_WRAP {
            Some("decrement_and_wrap"@)
        } else {
            Some("default"@)
        }
    }

    /// The value that a name in a description stands for. Each value is
    /// known by its name in upper case and in lower case.
    pub open spec fn spec_from_name(name: Seq<char>) -> Option<HalaStencilOp> {
        if name == "KEEP"@ {
            Some(HalaStencilOp(HalaStencilOp::KEEP))
        } else if name == "keep"@ {
            Some(HalaStencilOp(HalaStencilOp::KEEP))
        } else if name == "ZERO"@ {
            Some(HalaStencilOp(HalaStencilOp::ZERO))
        } else if name == "zero"@ {
            Some(HalaStencilOp(HalaStencilOp::ZERO))
        } else if name == "REPLACE"@ {
            Some(HalaStencilOp(HalaStencilOp::REPLACE))
        } else if name == "replace"@ {
            Some(HalaStencilOp(HalaStencilOp::REPLACE))
        } else if name == "INCREMENT_AND_CLAMP"@ {
            Some(HalaStencilOp(HalaStencilOp::INCREMENT_AND_CLAMP))
        } else if name == "increment_and_clamp"@ {
            Some(HalaStencilOp(HalaStencilOp::INCREMENT_AND_CLAMP))
        } else if name == "DECREMENT_AND_CLAMP"@ {
            Some(HalaStencilOp(HalaStencilOp::DECREMENT_AND_CLAMP))
        } else if name == "decrement_and_clamp"@ {
            Some(HalaStencilOp(HalaStencilOp::DECREMENT_AND_CLAMP))
        } else if name == "INVERT"@ {
            Some(HalaStencilOp(HalaStencilOp::INVERT))
        } else if name == "invert"@ {
            Some(HalaStencilOp(HalaStencilOp::INVERT))
        } else if name == "INCREMENT_AND_WRAP"@ {
            Some(HalaStencilOp(HalaStencilOp::INCREMENT_AND_WRAP))
        } else if name == "increment_and_wrap"@ {
            Some(HalaStencilOp(HalaStencilOp::INCREMENT_AND_WRAP))
        } else if name == "DECREMENT_AND_WRAP"@ {
            Some(HalaStencilOp(HalaStencilOp::DECREMENT_AND_WRAP))
        } else if name == "decrement_and_wrap"@ {
            Some(HalaStencilOp(HalaStencilOp::DECREMENT_AND_WRAP))
        } else if name == "default"@ {
            Some(HalaStencilOp(0))
        } else {
            None
        }
    }

    /// The name that the value is written with in a description, if it
    /// has one.
    pub fn name(self) -> (name: Option<&'static str>)
        ensures
            match self.spec_name() {
                Some(expected) => name matches Some(text) && text@ == expected,
                None => name is None,
            },
    {
        if self.0 == HalaStencilOp::KEEP {
            Some("keep")
        } else if self.0 == HalaStencilOp::ZERO {
            Some("zero")
        } else if self.0 == HalaStencilOp::REPLACE {
            Some("replace")
        } else if self.0 == HalaStencilOp::INCREMENT_AND_CLAMP {
            Some("increment_and_clamp")
        } else if self.0 == HalaStencilOp::DECREMENT_AND_CLAMP {
            Some("decrement_and_clamp")
        } else if self.0 == HalaStencilOp::INVERT {
            Some("invert")
        } else if self.0 == HalaStencilOp::INCREMENT_AND_WRAP {
            Some("increment_and_wrap")
        } else if self.0 == HalaStencilOp::DECREMENT_AND_WRAP {
            Some("decrement_and_wrap")
        } else {
            Some("default")
        }
    }

    /// The value that a name in a description stands for, if the name is
    /// known.
    pub fn from_name(name: &str) -> (value: Option<Self>)
        ensures
            value == Self::spec_from_name(name@),
    {
        if str_equals(name, "KEEP") {
            Some(HalaStencilOp(HalaStencilOp::KEEP))
        } else if str_equals(name, "keep") {
            Some(HalaStencilOp(HalaStencilOp::KEEP))
        } else if str_equals(name, "ZERO") {
            Some(HalaStencilOp(HalaStencilOp::ZERO))
        } else if str_equals(name, "zero") {
            Some(HalaStencilOp(HalaStencilOp::ZERO))
        } else if str_equals(name, "REPLACE") {
            Some(HalaStencilOp(HalaStencilOp::REPLACE))
        } else if str_equals(name, "replace") {
            Some(HalaStencilOp(HalaStencilOp::REPLACE))
        } else if str_equals(name, "INCREMENT_AND_CLAMP") {
            Some(HalaStencilOp(HalaStencilOp::INCREMENT_AND_CLAMP))
        } else if str_equals(name, "increment_and_clamp") {
            Some(HalaStencilOp(HalaStencilOp::INCREMENT_AND_CLAMP))
        } else if str_equals(name, "DECREMENT_AND_CLAMP") {
            Some(HalaStencilOp(HalaStencilOp::DECREMENT_AND_CLAMP))
        } else if str_equals(name, "decrement_and_clamp") {
            Some(HalaStencilOp(HalaStencilOp::DECREMENT_AND_CLAMP))
        } else if str_equals(name, "INVERT") {
            Some(HalaStencilOp(HalaStencilOp::INVERT))
        } else if str_equals(name, "invert") {
            Some(HalaStencilOp(HalaStencilOp::INVERT))
        } else if str_equals(name, "INCREMENT_AND_WRAP") {
            Some(HalaStencilOp(HalaStencilOp::INCREMENT_AND_WRAP))
        } else if str_equals(name, "increment_and_wrap") {
            Some(HalaStencilOp(HalaStencilOp::INCREMENT_AND_WRAP))
        } else if str_equals(name, "DECREMENT_AND_WRAP") {
            Some(HalaStencilOp(HalaStencilOp::DECREMENT_AND_WRAP))
        } else if str_equals(name, "decrement_and_wrap") {
            Some(HalaStencilOp(HalaStencilOp::DECREMENT_AND_WRAP))
        } else if str_equals(name, "default") {
            Some(HalaStencilOp(0))
        } else {
            None
        }
    }
}

/// The dynamic state.
#[derive(Clone, Copy, PartialEq, Eq, Structural, PartialOrd, Ord, Hash, Debug)]
pub struct HalaDynamicState(pub i32);

impl Default for HalaDynamicState {
    fn default() -> (value: Self)
        ensures
            value.0 == 0,
    {
        Self(0)
    }
}

impl HalaDynamicState {
    pub const VIEWPORT: i32 = 0;
    pub const SCISSOR: i32 = 1;
    pub const LINE_WIDTH: i32 = 2;
    pub const DEPTH_BIAS: i32 = 3;
    pub const BLEND_CONSTANTS: i32 = 4;
    pub const DEPTH_BOUNDS: i32 = 5;
    pub const STENCIL_COMPARE_MASK: i32 = 6;
    pub const STENCIL_WRITE_MASK: i32 = 7;
    pub const STENCIL_REFERENCE: i32 = 8;
    pub const VIEWPORT_W_SCALING_NV: i32 = 1000087000;
    pub const DISCARD_RECTANGLE_EXT: i32 = 1000099000;
    pub const SAMPLE_LOCATIONS_EXT: i32 = 1000143000;
    pub const RAY_TRACING_PIPELINE_STACK_SIZE_KHR: i32 = 1000347000;
    pub const VIEWPORT_SHADING_RATE_PALETTE_NV: i32 = 1000164004;
    pub const VIEWPORT_COARSE_SAMPLE_ORDER_NV: i32 = 1000164006;
    pub const EXCLUSIVE_SCISSOR_NV: i32 = 1000205001;
    pub const FRAGMENT_SHADING_RATE_KHR: i32 = 1000226000;
    pub const LINE_STIPPLE_EXT: i32 = 1000259000;
    pub const CULL_MODE_EXT: i32 = 1000267000;
    pub const FRONT_FACE_EXT: i32 = 1000267001;
    pub const PRIMITIVE_TOPOLOGY_EXT: i32 = 1000267002;
    pub const VIEWPORT_WITH_COUNT_EXT: i32 = 1000267003;
    pub const SCISSOR_WITH_COUNT_EXT: i32 = 1000267004;
    pub const VERTEX_INPUT_BINDING_STRIDE_EXT: i32 = 1000267005;
    pub const DEPTH_TEST_ENABLE_EXT: i32 = 1000267006;
    pub const DEPTH_WRITE_ENABLE_EXT: i32 = 1000267007;
    pub const DEPTH_COMPARE_OP_EXT: i32 = 1000267008;
    pub const DEPTH_BOUNDS_TEST_ENABLE_EXT: i32 = 1000267009;
    pub const STENCIL_TEST_ENABLE_EXT: i32 = 1000267010;
    pub const STENCIL_OP_EXT: i32 = 1000267011;

    /// The value with the given raw code.
    pub fn from_raw(x: i32) -> (value: Self)
        ensures
            value.0 == x,
    {
        Self(x)
    }

    /// The raw code of the value.
    pub fn as_raw(self) -> (x: i32)
        ensures
            x == self.0,
    {
        self.0
    }
}

/// The vertex input attribute description.
#[derive(Clone, Copy, PartialEq, Eq, Structural, Debug)]
pub struct HalaVertexInputAttributeDescription {
    pub location: u32,
    pub binding: u32,
    pub format: HalaFormat,
    pub offset: u32,
}

impl Default for HalaVertexInputAttributeDescription {
    fn default() -> (desc: Self)
        ensures
            desc == (HalaVertexInputAttributeDescription {
                location: 0,
                binding: 0,
                format: HalaFormat(0),
                offset: 0,
            }),
    {
        HalaVertexInputAttributeDescription {
            location: 0,
            binding: 0,
            format: HalaFormat(0),
            offset: 0,
        }
    }
}

/// The vertex input binding description.
#[derive(Clone, Copy, PartialEq, Eq, Structural, Debug)]
pub struct HalaVertexInputBindingDescription {
    pub binding: u32,
    pub stride: u32,
    pub input_rate: HalaVertexInputRate,
}

impl Default for HalaVertexInputBindingDescription {
    fn default() -> (desc: Self)
        ensures
            desc == (HalaVertexInputBindingDescription {
                binding: 0,
                stride: 0,
                input_rate: HalaVertexInputRate(0),
            }),
    {
        HalaVertexInputBindingDescription {
            binding: 0,
            stride: 0,
            input_rate: HalaVertexInputRate(0),
        }
    }
}

/// The push constant range.
#[derive(Clone, Copy, PartialEq, Eq, Structural, Debug)]
pub struct HalaPushConstantRange {
    pub stage_flags: HalaShaderStageFlags,
    pub offset: u32,
    pub size: u32,
}

impl Default for HalaPushConstantRange {
    fn default() -> (range: Self)
        ensures
            range == (HalaPushConstantRange {
                stage_flags: HalaShaderStageFlags(0),
                offset: 0,
                size: 0,
            }),
    {
        HalaPushConstantRange { stage_flags: HalaShaderStageFlags(0), offset: 0, size: 0 }
    }
}

/// The blend state.
#[derive(Clone, Copy, PartialEq, Eq, Structural, Debug)]
pub struct HalaBlendState {
    pub src_factor: HalaBlendFactor,
    pub dst_factor: HalaBlendFactor,
    pub op: HalaBlendOp,
}

impl Default for HalaBlendState {
    fn default() -> (state: Self)
        ensures
            state == (HalaBlendState {
                src_factor: HalaBlendFactor(HalaBlendFactor::ONE),
                dst_factor: HalaBlendFactor(HalaBlendFactor::ZERO),
                op: HalaBlendOp(HalaBlendOp::ADD),
            }),
    {
        HalaBlendState {
            src_factor: HalaBlendFactor(HalaBlendFactor::ONE),
            dst_factor: HalaBlendFactor(HalaBlendFactor::ZERO),
            op: HalaBlendOp(HalaBlendOp::ADD),
        }
    }
}

impl HalaBlendState {
    /// The blend state that combines source and destination with `op`.
    pub fn new(src_factor: HalaBlendFactor, dst_factor: HalaBlendFactor, op: HalaBlendOp) -> (state:
        Self)
        ensures
            state == (HalaBlendState { src_factor, dst_factor, op }),
    {
        HalaBlendState { src_factor, dst_factor, op }
    }
}

/// The depth state.
#[derive(Clone, Copy, PartialEq, Eq, Structural, Debug)]
pub struct HalaDepthState {
    pub test_enable: bool,
    pub write_enable: bool,
    pub compare_op: HalaCompareOp,
}

impl Default for HalaDepthState {
    fn default() -> (state: Self)
        ensures
            state == (HalaDepthState {
                test_enable: true,
                write_enable: true,
                compare_op: HalaCompareOp(HalaCompareOp::LESS),
            }),
    {
        HalaDepthState {
            test_enable: true,
            write_enable: true,
            compare_op: HalaCompareOp(HalaCompareOp::LESS),
        }
    }
}

impl HalaDepthState {
    /// The depth state with the given switches and comparison.
    pub fn new(test_enable: bool, write_enable: bool, compare_op: HalaCompareOp) -> (state: Self)
        ensures
            state == (HalaDepthState { test_enable, write_enable, compare_op }),
    {
        HalaDepthState { test_enable, write_enable, compare_op }
    }
}

/// The stencil operation state.
#[derive(Clone, Copy, PartialEq, Eq, Structural, Debug)]
pub struct HalaStencilOpState {
    pub fail_op: HalaStencilOp,
    pub pass_op: HalaStencilOp,
    pub depth_fail_op: HalaStencilOp,
    pub compare_op: HalaCompareOp,
    pub compare_mask: u32,
    pub write_mask: u32,
    pub reference: u32,
}

impl HalaStencilOpState {
    /// The state that `default` returns: every field zero.
    pub open spec fn spec_default() -> Self {
        HalaStencilOpState {
            fail_op: HalaStencilOp(0),
            pass_op: HalaStencilOp(0),
            depth_fail_op: HalaStencilOp(0),
            compare_op: HalaCompareOp(0),
            compare_mask: 0,
            write_mask: 0,
            reference: 0,
        }
    }
}

impl Default for HalaStencilOpState {
    fn default() -> (state: Self)
        ensures
            state == Self::spec_default(),
    {
        HalaStencilOpState {
            fail_op: HalaStencilOp(0),
            pass_op: HalaStencilOp(0),
            depth_fail_op: HalaStencilOp(0),
            compare_op: HalaCompareOp(0),
            compare_mask: 0,
            write_mask: 0,
            reference: 0,
        }
    }
}

/// The stencil state.
#[derive(Clone, Copy, PartialEq, Eq, Structural, Debug)]
pub struct HalaStencilState {
    pub test_enable: bool,
    pub front: HalaStencilOpState,
    pub back: HalaStencilOpState,
}

impl Default for HalaStencilState {
    fn default() -> (state: Self)
        ensures
            state == (HalaStencilState {
                test_enable: false,
                front: HalaStencilOpState::spec_default(),
                back: HalaStencilOpState::spec_default(),
            }),
    {
        HalaStencilState {
            test_enable: false,
            front: HalaStencilOpState::default(),
            back: HalaStencilOpState::default(),
        }
    }
}

impl HalaStencilState {
    /// The stencil state with the given switch and face states.
    pub fn new(test_enable: bool, front: HalaStencilOpState, back: HalaStencilOpState) -> (state:
        Self)
        ensures
            state == (HalaStencilState { test_enable, front, back }),
    {
        HalaStencilState { test_enable, front, back }
    }
}

/// The graphics pipeline: its native handle and the handle of its layout.
#[derive(Clone, Copy, PartialEq, Eq, Structural, Debug)]
pub struct HalaGraphicsPipeline {
    pub raw: u64,
    pub layout: u64,
}

/// The ray tracing pipeline: its native handle and the handle of its layout.
#[derive(Clone, Copy, PartialEq, Eq, Structural, Debug)]
pub struct HalaRayTracingPipeline {
    pub raw: u64,
    pub layout: u64,
}

/// The compute pipeline: its native handle and the handle of its layout.
#[derive(Clone, Copy, PartialEq, Eq, Structural, Debug)]
pub struct HalaComputePipeline {
    pub raw: u64,
    pub layout: u64,
}

/// The depth and stencil state that a graphics pipeline is created with.
#[derive(Clone, Copy, PartialEq, Eq, Structural, Debug)]
pub struct HalaDepthStencilState {
    /// Whether the format of the attachment has stencil bits beside its
    /// depth bits.
    pub has_stencil: bool,
    pub depth_test_enable: bool,
    pub depth_write_enable: bool,
    pub depth_compare_op: HalaCompareOp,
    pub stencil_test_enable: bool,
    pub front: HalaStencilOpState,
    pub back: HalaStencilOpState,
}

impl HalaGraphicsPipeline {
    /// The depth and stencil state of a pipeline that renders into a depth
    /// attachment of the given format, if it has one. Without stencil bits
    /// in the format the stencil test is off; with them the stencil state
    /// is needed.
    pub open spec fn spec_depth_stencil_state(
        depth_format: Option<HalaFormat>,
        depth_info: HalaDepthState,
        stencil_info: Option<HalaStencilState>,
    ) -> Result<Option<HalaDepthStencilState>, HalaGfxErrorView> {
        match depth_format {
            None => Ok(None),
            Some(format) => if !spec_has_stencil(format) {
                Ok(
                    Some(
                        HalaDepthStencilState {
                            has_stencil: false,
                            depth_test_enable: depth_info.test_enable,
                            depth_write_enable: depth_info.write_enable,
                            depth_compare_op: depth_info.compare_op,
                            stencil_test_enable: false,
                            front: HalaStencilOpState::spec_default(),
                            back: HalaStencilOpState::spec_default(),
                        },
                    ),
                )
            } else {
                match stencil_info {
                    None => Err(HalaGfxError::spec_plain("Stencil info is required."@)),
                    Some(stencil) => Ok(
                        Some(
                            HalaDepthStencilState {
                                has_stencil: true,
                                depth_test_enable: depth_info.test_enable,
                                depth_write_enable: depth_info.write_enable,
                                depth_compare_op: depth_info.compare_op,
                                stencil_test_enable: stencil.test_enable,
                                front: stencil.front,
                                back: stencil.back,
                            },
                        ),
                    ),
                }
            },
        }
    }

    /// The depth and stencil state of a pipeline that renders into a depth
    /// attachment of the given format, if it has one.
    pub fn depth_stencil_state(
        depth_format: Option<HalaFormat>,
        depth_info: &HalaDepthState,
        stencil_info: Option<&HalaStencilState>,
    ) -> (result: Result<Option<HalaDepthStencilState>, HalaGfxError>)
        ensures
            match Self::spec_depth_stencil_state(
                depth_format,
                *depth_info,
                match stencil_info {
                    Some(stencil) => Some(*stencil),
                    None => None,
                },
            ) {
                Ok(state) => result == Ok::<_, HalaGfxError>(state),
                Err(refusal) => result matches Err(e) && e@ == refusal,
            },
    {
        let format = match depth_format {
            Some(format) => format,
            None => {
                return Ok(None);
            },
        };
        if !format_has_stencil(format) {
            return Ok(
                Some(
                    HalaDepthStencilState {
                        has_stencil: false,
                        depth_test_enable: depth_info.test_enable,
                        depth_write_enable: depth_info.write_enable,
                        depth_compare_op: depth_info.compare_op,
                        stencil_test_enable: false,
                        front: HalaStencilOpState::default(),
                        back: HalaStencilOpState::default(),
                    },
                ),
            );
        }
        match stencil_info {
            None => Err(HalaGfxError::new("Stencil info is required.", None)),
            Some(stencil) => Ok(
                Some(
                    HalaDepthStencilState {
                        has_stencil: true,
                        depth_test_enable: depth_info.test_enable,
                        depth_write_enable: depth_info.write_enable,
                        depth_compare_op: depth_info.compare_op,
                        stencil_test_enable: stencil.test_enable,
                        front: stencil.front,
                        back: stencil.back,
                    },
                ),
            ),
        }
    }
}

/// The index that stands for no shader in a shader group.
pub const SHADER_UNUSED: u32 = 0xffff_ffff;

/// The shaders of one hit group: closest hit, any hit and intersection,
/// each of which may be missing.
pub struct HalaHitShaders {
    pub closest_hit: Option<HalaShader>,
    pub any_hit: Option<HalaShader>,
    pub intersection: Option<HalaShader>,
}

/// One shader group of a ray tracing pipeline: its kind and the index of
/// each of its shaders among the stages of the pipeline.
#[derive(Clone, Copy, PartialEq, Eq, Structural, Debug)]
pub struct HalaRayTracingShaderGroup {
    pub ty: HalaRayTracingShaderGroupType,
    pub general_shader: u32,
    pub closest_hit_shader: u32,
    pub any_hit_shader: u32,
    pub intersection_shader: u32,
}

/// The stages and the groups of a ray tracing pipeline.
pub struct HalaRayTracingStages {
    pub stages: Vec<HalaShader>,
    pub groups: Vec<HalaRayTracingShaderGroup>,
}

/// The group of a raygen, miss or callable shader: the shader alone, at
/// its index among the stages.
pub open spec fn spec_general_group(shader: HalaShader, index: int) -> HalaRayTracingShaderGroup {
    HalaRayTracingShaderGroup {
        ty: shader.ray_tracing_group_type,
        general_shader: index as u32,
        closest_hit_shader: SHADER_UNUSED,
        any_hit_shader: SHADER_UNUSED,
        intersection_shader: SHADER_UNUSED,
    }
}

/// The stages of one hit group: those of its shaders that are there, in
/// the order closest hit, any hit, intersection.
pub open spec fn spec_hit_stages(hit: HalaHitShaders) -> Seq<HalaShader> {
    (match hit.closest_hit {
        Some(shader) => seq![shader],
        None => Seq::<HalaShader>::empty(),
    }) + (match hit.any_hit {
        Some(shader) => seq![shader],
        None => Seq::<HalaShader>::empty(),
    }) + (match hit.intersection {
        Some(shader) => seq![shader],
        None => Seq::<HalaShader>::empty(),
    })
}

/// The stages of the first `n` hit groups.
pub open spec fn spec_hit_stages_before(hits: Seq<HalaHitShaders>, n: int) -> Seq<HalaShader>
    decreases n,
{
    if n <= 0 {
        Seq::<HalaShader>::empty()
    } else {
        spec_hit_stages_before(hits, n - 1) + spec_hit_stages(hits[n - 1])
    }
}

/// A hit group whose stages begin at the index `first`: a group of
/// triangles unless it has an intersection shader, each shader that is
/// there at the next free index.
pub open spec fn spec_hit_group(hit: HalaHitShaders, first: int) -> HalaRayTracingShaderGroup {
    let after_closest = if hit.closest_hit is Some {
        first + 1
    } else {
        first
    };
    let after_any = if hit.any_hit is Some {
        after_closest + 1
    } else {
        after_closest
    };
    HalaRayTracingShaderGroup {
        ty: if hit.intersection is None {
            HalaRayTracingShaderGroupType(HalaRayTracingShaderGroupType::TRIANGLES_HIT_GROUP)
        } else {
            HalaRayTracingShaderGroupType(HalaRayTracingShaderGroupType::PROCEDURAL_HIT_GROUP)
        },
        general_shader: SHADER_UNUSED,
        closest_hit_shader: if hit.closest_hit is Some {
            first as u32
        } else {
            SHADER_UNUSED
        },
        any_hit_shader: if hit.any_hit is Some {
            after_closest as u32
        } else {
            SHADER_UNUSED
        },
        intersection_shader: if hit.intersection is Some {
            after_any as u32
        } else {
            SHADER_UNUSED
        },
    }
}

/// Whether a hit group has none of its three shaders.
pub open spec fn spec_hit_is_empty(hit: HalaHitShaders) -> bool {
    hit.closest_hit is None && hit.any_hit is None && hit.intersection is None
}

impl HalaRayTracingPipeline {
    /// The stages of a pipeline: the raygen shaders, the miss shaders, the
    /// shaders of the hit groups and the callable shaders, in this order.
    pub open spec fn spec_stages(
        raygen: Seq<HalaShader>,
        miss: Seq<HalaShader>,
        hits: Seq<HalaHitShaders>,
        callable: Seq<HalaShader>,
    ) -> Seq<HalaShader> {
        raygen + miss + spec_hit_stages_before(hits, hits.len() as int) + callable
    }

    /// The groups of a pipeline, in the order in which the shader binding
    /// table holds their handles: one group for each raygen shader, for
    /// each miss shader, for each hit group and for each callable shader.
    pub open spec fn spec_groups(
        raygen: Seq<HalaShader>,
        miss: Seq<HalaShader>,
        hits: Seq<HalaHitShaders>,
        callable: Seq<HalaShader>,
    ) -> Seq<HalaRayTracingShaderGroup> {
        Seq::new(raygen.len(), |i: int| spec_general_group(raygen[i], i)) + Seq::new(
            miss.len(),
            |i: int| spec_general_group(miss[i], raygen.len() + i),
        ) + Seq::new(
            hits.len(),
            |i: int|
                spec_hit_group(
                    hits[i],
                    (raygen.len() + miss.len() + spec_hit_stages_before(hits, i).len()) as int,
                ),
        ) + Seq::new(
            callable.len(),
            |i: int|
                spec_general_group(
                    callable[i],
                    raygen.len() + miss.len() + spec_hit_stages_before(hits, hits.len() as int).len()
                        + i,
                ),
        )
    }

    /// The recursion depth of a pipeline: what is asked for, cut down to
    /// what the device allows.
    pub fn clamp_recursion_depth(requested: u32, max_ray_recursion_depth: u32) -> (depth: u32)
        ensures
            depth == if requested > max_ray_recursion_depth {
                max_ray_recursion_depth
            } else {
                requested
            },
    {
        if requested > max_ray_recursion_depth {
            max_ray_recursion_depth
        } else {
            requested
        }
    }

    /// Appends the groups of shaders that stand alone.
    fn push_general(out: &mut HalaRayTracingStages, shaders: &[HalaShader])
        requires
            old(out).stages@.len() + shaders@.len() <= u32::MAX,
        ensures
            final(out).stages@ == old(out).stages@ + shaders@,
            final(out).groups@ == old(out).groups@ + Seq::new(
                shaders@.len(),
                |i: int| spec_general_group(shaders@[i], old(out).stages@.len() + i),
            ),
    {
        let ghost before_stages = out.stages@;
        let ghost before_groups = out.groups@;
        let mut i: usize = 0;
        while i < shaders.len()
            invariant
                i <= shaders@.len(),
                before_stages.len() + shaders@.len() <= u32::MAX,
                out.stages@ == before_stages + shaders@.subrange(0, i as int),
                out.groups@ == before_groups + Seq::new(
                    i as nat,
                    |j: int| spec_general_group(shaders@[j], before_stages.len() + j),
                ),
            decreases shaders@.len() - i,
        {
            let index: u32 = out.stages.len() as u32;
            out.stages.push(shaders[i]);
            out.groups.push(
                HalaRayTracingShaderGroup {
                    ty: shaders[i].ray_tracing_group_type,
                    general_shader: index,
                    closest_hit_shader: SHADER_UNUSED,
                    any_hit_shader: SHADER_UNUSED,
                    intersection_shader: SHADER_UNUSED,
                },
            );
            i = i + 1;
        }
    }

    /// Lays out the stages and the shader groups of a ray tracing pipeline.
    /// A hit group without any shader is refused. The pipeline has no more
    /// stages than a 32-bit index can number.
    pub fn shader_groups(
        raygen_shaders: &[HalaShader],
        miss_shaders: &[HalaShader],
        hit_shaders: &[HalaHitShaders],
        callable_shaders: &[HalaShader],
    ) -> (result: Result<HalaRayTracingStages, HalaGfxError>)
        requires
            raygen_shaders@.len() + miss_shaders@.len() + 3 * hit_shaders@.len()
                + callable_shaders@.len() <= u32::MAX,
        ensures
            (exists|k: int| 0 <= k < hit_shaders@.len() && spec_hit_is_empty(hit_shaders@[k])) ==> (
            result matches Err(e) && e@ == HalaGfxError::spec_plain(
                "The closest_hit_shader, any_hit_shader and intersection_shader can not be all None."@,
            )),
            (forall|k: int| 0 <= k < hit_shaders@.len() ==> !spec_hit_is_empty(hit_shaders@[k])) ==> (
            result matches Ok(out) && out.stages@ == Self::spec_stages(
                raygen_shaders@,
                miss_shaders@,
                hit_shaders@,
                callable_shaders@,
            ) && out.groups@ == Self::spec_groups(
                raygen_shaders@,
                miss_shaders@,
                hit_shaders@,
                callable_shaders@,
            )),
    {
        let mut out = HalaRayTracingStages { stages: Vec::new(), groups: Vec::new() };
        Self::push_general(&mut out, raygen_shaders);
        Self::push_general(&mut out, miss_shaders);
        let ghost general = out.groups@;
        let ghost base = (raygen_shaders@.len() + miss_shaders@.len()) as int;
        let mut k: usize = 0;
        while k < hit_shaders.len()
            invariant
                k <= hit_shaders@.len(),
                base == raygen_shaders@.len() + miss_shaders@.len(),
                base + 3 * hit_shaders@.len() + callable_shaders@.len() <= u32::MAX,
                forall|j: int| 0 <= j < k ==> !spec_hit_is_empty(hit_shaders@[j]),
                spec_hit_stages_before(hit_shaders@, k as int).len() <= 3 * k,
                out.stages@ == raygen_shaders@ + miss_shaders@ + spec_hit_stages_before(
                    hit_shaders@,
                    k as int,
                ),
                out.groups@ == general + Seq::new(
                    k as nat,
                    |i: int|
                        spec_hit_group(
                            hit_shaders@[i],
                            base + spec_hit_stages_before(hit_shaders@, i).len() as int,
                        ),
                ),
            decreases hit_shaders@.len() - k,
        {
            let hit = &hit_shaders[k];
            if hit.closest_hit.is_none() && hit.any_hit.is_none() && hit.intersection.is_none() {
                return Err(
                    HalaGfxError::new(
                        "The closest_hit_shader, any_hit_shader and intersection_shader can not be all None.",
                        None,
                    ),
                );
            }
            let mut group = HalaRayTracingShaderGroup {
                ty: if hit.intersection.is_none() {
                    HalaRayTracingShaderGroupType(HalaRayTracingShaderGroupType::TRIANGLES_HIT_GROUP)
                } else {
                    HalaRayTracingShaderGroupType(HalaRayTracingShaderGroupType::PROCEDURAL_HIT_GROUP)
                },
                general_shader: SHADER_UNUSED,
                closest_hit_shader: SHADER_UNUSED,
                any_hit_shader: SHADER_UNUSED,
                intersection_shader: SHADER_UNUSED,
            };
            if let Some(shader) = hit.closest_hit {
                group.closest_hit_shader = out.stages.len() as u32;
                out.stages.push(shader);
            }
            if let Some(shader) = hit.any_hit {
                group.any_hit_shader = out.stages.len() as u32;
                out.stages.push(shader);
            }
            if let Some(shader) = hit.intersection {
                group.intersection_shader = out.stages.len() as u32;
                out.stages.push(shader);
            }
            out.groups.push(group);
            k = k + 1;
        }
        Self::push_general(&mut out, callable_shaders);
        Ok(out)
    }
}

} // verus!
