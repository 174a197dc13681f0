//! Query pools and the distance between two timestamps.

use vstd::prelude::*;

verus! {

/// The query pipeline statistic flags.
#[derive(Clone, Copy, PartialEq, Eq, Structural, PartialOrd, Ord, Hash, Debug)]
pub struct HalaQueryPipelineStatisticFlags(pub u32);

impl Default for HalaQueryPipelineStatisticFlags {
    fn default() -> (value: Self)
        ensures
            value.0 == 0,
    {
        Self(0)
    }
}

impl HalaQueryPipelineStatisticFlags {
    pub const INPUT_ASSEMBLY_VERTICES: u32 = 1;
    pub const INPUT_ASSEMBLY_PRIMITIVES: u32 = 2;
    pub const VERTEX_SHADER_INVOCATIONS: u32 = 4;
    pub const GEOMETRY_SHADER_INVOCATIONS: u32 = 8;
    pub const GEOMETRY_SHADER_PRIMITIVES: u32 = 0x10;
    pub const CLIPPING_INVOCATIONS: u32 = 0x20;
    pub const CLIPPING_PRIMITIVES: u32 = 0x40;
    pub const FRAGMENT_SHADER_INVOCATIONS: u32 = 0x80;
    pub const TESSELLATION_CONTROL_SHADER_PATCHES: u32 = 0x100;
    pub const TESSELLATION_EVALUATION_SHADER_INVOCATIONS: u32 = 0x200;
    pub const COMPUTE_SHADER_INVOCATIONS: u32 = 0x400;

    /// The value with no bit set.
    pub fn empty() -> (value: Self)
        ensures
            value.0 == 0,
    {
        Self(0)
    }

    /// The value with the given raw bits.
    pub fn from_raw(x: u32) -> (value: Self)
        ensures
            value.0 == x,
    {
        Self(x)
    }

    /// The raw bits of the value.
    pub fn as_raw(self) -> (x: u32)
        ensures
            x == self.0,
    {
        self.0
    }

    /// Whether no bit is set.
    pub fn is_empty(self) -> (b: bool)
        ensures
            b == (self.0 == 0),
    {
        self.0 == 0
    }

    /// Whether the two values share a bit.
    pub fn intersects(self, other: Self) -> (b: bool)
        ensures
            b == (self.0 & other.0 != 0),
    {
        self.0 & other.0 != 0
    }

    /// Whether every bit of `other` is set in `self`.
    pub fn contains(self, other: Self) -> (b: bool)
        ensures
            b == (self.0 & other.0 == other.0),
    {
        self.0 & other.0 == other.0
    }
}

impl core::ops::BitOr for HalaQueryPipelineStatisticFlags {
    type Output = Self;

    fn bitor(self, rhs: Self) -> (value: Self) {
        Self(self.0 | rhs.0)
    }
}

impl vstd::std_specs::ops::BitOrSpecImpl for HalaQueryPipelineStatisticFlags {
    open spec fn obeys_bitor_spec() -> bool {
        true
    }

    open spec fn bitor_req(self, rhs: Self) -> bool {
        true
    }

    open spec fn bitor_spec(self, rhs: Self) -> Self {
        Self(self.0 | rhs.0)
    }
}

impl core::ops::BitAnd for HalaQueryPipelineStatisticFlags {
    type Output = Self;

    fn bitand(self, rhs: Self) -> (value: Self) {
        Self(self.0 & rhs.0)
    }
}

impl vstd::std_specs::ops::BitAndSpecImpl for HalaQueryPipelineStatisticFlags {
    open spec fn obeys_bitand_spec() -> bool {
        true
    }

    open spec fn bitand_req(self, rhs: Self) -> bool {
        true
    }

    open spec fn bitand_spec(self, rhs: Self) -> Self {
        Self(self.0 & rhs.0)
    }
}

impl core::ops::BitXor for HalaQueryPipelineStatisticFlags {
    type Output = Self;

    fn bitxor(self, rhs: Self) -> (value: Self) {
        Self(self.0 ^ rhs.0)
    }
}

impl vstd::std_specs::ops::BitXorSpecImpl for HalaQueryPipelineStatisticFlags {
    open spec fn obeys_bitxor_spec() -> bool {
        true
    }

    open spec fn bitxor_req(self, rhs: Self) -> bool {
        true
    }

    open spec fn bitxor_spec(self, rhs: Self) -> Self {
        Self(self.0 ^ rhs.0)
    }
}

impl core::ops::Not for HalaQueryPipelineStatisticFlags {
    type Output = Self;

    fn not(self) -> (value: Self) {
        Self(!self.0)
    }
}

impl vstd::std_specs::ops::NotSpecImpl for HalaQueryPipelineStatisticFlags {
    open spec fn obeys_not_spec() -> bool {
        true
    }

    open spec fn not_req(self) -> bool {
        true
    }

    open spec fn not_spec(self) -> Self {
        Self(!self.0)
    }
}

/// The query pool: its native handle and the number of its queries.
#[derive(Clone, Copy, PartialEq, Eq, Structural, Debug)]
pub struct HalaQueryPool {
    pub raw: u64,
    pub size: u32,
}

impl HalaQueryPool {
    /// The record of a query pool that was created with the given handle.
    pub fn new(raw: u64, size: u32) -> (pool: Self)
        ensures
            pool == (HalaQueryPool { raw, size }),
    {
        HalaQueryPool { raw, size }
    }

    /// The number of ticks between the two timestamps of a frame, the first
    /// and the second of `timestamps`; zero where the second is not later
    /// than the first or where there are fewer than two.
    pub fn elapsed_ticks(timestamps: &[u64]) -> (ticks: u64)
        ensures
            ticks == if timestamps@.len() >= 2 && timestamps@[1] >= timestamps@[0] {
                (timestamps@[1] - timestamps@[0]) as u64
            } else {
                0
            },
    {
        if timestamps.len() >= 2 && timestamps[1] >= timestamps[0] {
            timestamps[1] - timestamps[0]
        } else {
            0
        }
    }
}

} // verus!
