//! Shader stages and the group types of ray tracing shaders.

use vstd::prelude::*;

verus! {

/// The shader stage.
#[derive(Clone, Copy, PartialEq, Eq, Structural, PartialOrd, Ord, Hash, Debug)]
pub struct HalaShaderStageFlags(pub u32);

impl Default for HalaShaderStageFlags {
    fn default() -> (value: Self)
        ensures
            value.0 == 0,
    {
        Self(0)
    }
}

impl HalaShaderStageFlags {
    pub const VERTEX: u32 = 1;
    pub const TESSELLATION_CONTROL: u32 = 2;
    pub const TESSELLATION_EVALUATION: u32 = 4;
    pub const GEOMETRY: u32 = 8;
    pub const FRAGMENT: u32 = 0x10;
    pub const COMPUTE: u32 = 0x20;
    pub const ALL_GRAPHICS: u32 = 0x1f;
    pub const ALL: u32 = 0x7fffffff;
    pub const RAYGEN: u32 = 0x100;
    pub const ANY_HIT: u32 = 0x200;
    pub const CLOSEST_HIT: u32 = 0x400;
    pub const MISS: u32 = 0x800;
    pub const INTERSECTION: u32 = 0x1000;
    pub const CALLABLE: u32 = 0x2000;
    pub const TASK: u32 = 0x40;
    pub const MESH: u32 = 0x80;

    /// The value with no bit set.
    pub fn empty() -> (value: Self)
        ensures
            value.0 == 0,
    {
        Self(0)
    }

    /// The value with the given raw bits.
    pub fn from_raw(x: u32) -> (value: Self)
        ensures
            value.0 == x,
    {
        Self(x)
    }

    /// The raw bits of the value.
    pub fn as_raw(self) -> (x: u32)
        ensures
            x == self.0,
    {
        self.0
    }

    /// Whether no bit is set.
    pub fn is_empty(self) -> (b: bool)
        ensures
            b == (self.0 == 0),
    {
        self.0 == 0
    }

    /// Whether the two values share a bit.
    pub fn intersects(self, other: Self) -> (b: bool)
        ensures
            b == (self.0 & other.0 != 0),
    {
        self.0 & other.0 != 0
    }

    /// Whether every bit of `other` is set in `self`.
    pub fn contains(self, other: Self) -> (b: bool)
        ensures
            b == (self.0 & other.0 == other.0),
    {
        self.0 & other.0 == other.0
    }
}

impl core::ops::BitOr for HalaShaderStageFlags {
    type Output = Self;

    fn bitor(self, rhs: Self) -> (value: Self) {
        Self(self.0 | rhs.0)
    }
}

impl vstd::std_specs::ops::BitOrSpecImpl for HalaShaderStageFlags {
    open spec fn obeys_bitor_spec() -> bool {
        true
    }

    open spec fn bitor_req(self, rhs: Self) -> bool {
        true
    }

    open spec fn bitor_spec(self, rhs: Self) -> Self {
        Self(self.0 | rhs.0)
    }
}

impl core::ops::BitAnd for HalaShaderStageFlags {
    type Output = Self;

    fn bitand(self, rhs: Self) -> (value: Self) {
        Self(self.0 & rhs.0)
    }
}

impl vstd::std_specs::ops::BitAndSpecImpl for HalaShaderStageFlags {
    open spec fn obeys_bitand_spec() -> bool {
        true
    }

    open spec fn bitand_req(self, rhs: Self) -> bool {
        true
    }

    open spec fn bitand_spec(self, rhs: Self) -> Self {
        Self(self.0 & rhs.0)
    }
}

impl core::ops::BitXor for HalaShaderStageFlags {
    type Output = Self;

    fn bitxor(self, rhs: Self) -> (value: Self) {
        Self(self.0 ^ rhs.0)
    }
}

impl vstd::std_specs::ops::BitXorSpecImpl for HalaShaderStageFlags {
    open spec fn obeys_bitxor_spec() -> bool {
        true
    }

    open spec fn bitxor_req(self, rhs: Self) -> bool {
        true
    }

    open spec fn bitxor_spec(self, rhs: Self) -> Self {
        Self(self.0 ^ rhs.0)
    }
}

impl core::ops::Not for HalaShaderStageFlags {
    type Output = Self;

    fn not(self) -> (value: Self) {
        Self(!self.0)
    }
}

impl vstd::std_specs::ops::NotSpecImpl for HalaShaderStageFlags {
    open spec fn obeys_not_spec() -> bool {
        true
    }

    open spec fn not_req(self) -> bool {
        true
    }

    open spec fn not_spec(self) -> Self {
        Self(!self.0)
    }
}

/// The ray tracing shader group type.
#[derive(Clone, Copy, PartialEq, Eq, Structural, PartialOrd, Ord, Hash, Debug)]
pub struct HalaRayTracingShaderGroupType(pub i32);

impl Default for HalaRayTracingShaderGroupType {
    fn default() -> (value: Self)
        ensures
            value.0 == 0,
    {
        Self(0)
    }
}

impl HalaRayTracingShaderGroupType {
    pub const GENERAL: i32 = 0;
    pub const TRIANGLES_HIT_GROUP: i32 = 1;
    pub const PROCEDURAL_HIT_GROUP: i32 = 2;

    /// The value with the given raw code.
    pub fn from_raw(x: i32) -> (value: Self)
        ensures
            value.0 == x,
    {
        Self(x)
    }

    /// The raw code of the value.
    pub fn as_raw(self) -> (x: i32)
        ensures
            x == self.0,
    {
        self.0
    }
}

/// The shader: its module, its stage and the kind of ray tracing shader
/// group that it forms where it stands for a group of its own.
#[derive(Clone, Copy, PartialEq, Eq, Structural, Debug)]
pub struct HalaShader {
    pub module: u64,
    pub stage_flags: HalaShaderStageFlags,
    pub ray_tracing_group_type: HalaRayTracingShaderGroupType,
}

} // verus!
