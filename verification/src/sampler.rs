//! Filters and address modes of samplers.

use vstd::prelude::*;

verus! {

/// The filter.
#[derive(Clone, Copy, PartialEq, Eq, Structural, PartialOrd, Ord, Hash, Debug)]
pub struct HalaFilter(pub i32);

impl Default for HalaFilter {
    fn default() -> (value: Self)
        ensures
            value.0 == 0,
    {
        Self(0)
    }
}

impl HalaFilter {
    pub const NEAREST: i32 = 0;
    pub const LINEAR: i32 = 1;

    /// The value with the given raw code.
    pub fn from_raw(x: i32) -> (value: Self)
        ensures
            value.0 == x,
    {
        Self(x)
    }

    /// The raw code of the value.
    pub fn as_raw(self) -> (x: i32)
        ensures
            x == self.0,
    {
        self.0
    }
}

/// The sampler mipmap mode.
#[derive(Clone, Copy, PartialEq, Eq, Structural, PartialOrd, Ord, Hash, Debug)]
pub struct HalaSamplerMipmapMode(pub i32);

impl Default for HalaSamplerMipmapMode {
    fn default() -> (value: Self)
        ensures
            value.0 == 0,
    {
        Self(0)
    }
}

impl HalaSamplerMipmapMode {
    pub const NEAREST: i32 = 0;
    pub const LINEAR: i32 = 1;

    /// The value with the given raw code.
    pub fn from_raw(x: i32) -> (value: Self)
        ensures
            value.0 == x,
    {
        Self(x)
    }

    /// The raw code of the value.
    pub fn as_raw(self) -> (x: i32)
        ensures
            x == self.0,
    {
        self.0
    }
}

/// The sampler address mode.
#[derive(Clone, Copy, PartialEq, Eq, Structural, PartialOrd, Ord, Hash, Debug)]
pub struct HalaSamplerAddressMode(pub i32);

impl Default for HalaSamplerAddressMode {
    fn default() -> (value: Self)
        ensures
            value.0 == 0,
    {
        Self(0)
    }
}

impl HalaSamplerAddressMode {
    pub const REPEAT: i32 = 0;
    pub const MIRRORED_REPEAT: i32 = 1;
    pub const CLAMP_TO_EDGE: i32 = 2;
    pub const CLAMP_TO_BORDER: i32 = 3;
    pub const MIRROR_CLAMP_TO_EDGE: i32 = 4;

    /// The value with the given raw code.
    pub fn from_raw(x: i32) -> (value: Self)
        ensures
            value.0 == x,
    {
        Self(x)
    }

    /// The raw code of the value.
    pub fn as_raw(self) -> (x: i32)
        ensures
            x == self.0,
    {
        self.0
    }
}

} // verus!
