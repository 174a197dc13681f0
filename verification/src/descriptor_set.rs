//! Descriptor types, binding flags and the bindings of a descriptor set
//! layout.

use crate::text::str_equals;
use crate::shader::HalaShaderStageFlags;
use vstd::prelude::*;

verus! {

/// The descriptor type.
#[derive(Clone, Copy, PartialEq, Eq, Structural, PartialOrd, Ord, Hash, Debug)]
pub struct HalaDescriptorType(pub i32);

impl Default for HalaDescriptorType {
    fn default() -> (value: Self)
        ensures
            value.0 == 0,
    {
        Self(0)
    }
}

impl HalaDescriptorType {
    pub const SAMPLER: i32 = 0;
    pub const UNIFORM_BUFFER: i32 = 6;
    pub const COMBINED_IMAGE_SAMPLER: i32 = 1;
    pub const SAMPLED_IMAGE: i32 = 2;
    pub const STORAGE_IMAGE: i32 = 3;
    pub const UNIFORM_TEXEL_BUFFER: i32 = 4;
    pub const STORAGE_TEXEL_BUFFER: i32 = 5;
    pub const STORAGE_BUFFER: i32 = 7;
    pub const UNIFORM_BUFFER_DYNAMIC: i32 = 8;
    pub const STORAGE_BUFFER_DYNAMIC: i32 = 9;
    pub const INPUT_ATTACHMENT: i32 = 10;
    pub const ACCELERATION_STRUCTURE: i32 = 1000150000;

    /// The value with the given raw code.
    pub fn from_raw(x: i32) -> (value: Self)
        ensures
            value.0 == x,
    {
        Self(x)
    }

    /// The raw code of the value.
    pub fn as_raw(self) -> (x: i32)
        ensures
            x == self.0,
    {
        self.0
    }
}

impl HalaDescriptorType {
    /// The name that the value is written with in a description.
    /// A value that is none of the named ones is written as `default`.
    pub open spec fn spec_name(self) -> Option<Seq<char>> {
        if self.0 == HalaDescriptorType::SAMPLER {
            Some("sampler"@)
        } else if self.0 == HalaDescriptorType::COMBINED_IMAGE_SAMPLER {
            Some("combined_image_sampler"@)
        } else if self.0 == HalaDescriptorType::SAMPLED_IMAGE {
            Some("sampled_image"@)
        } else if self.0 == HalaDescriptorType::STORAGE_IMAGE {
            Some("storage_image"@)
        } else if self.0 == HalaDescriptorType::UNIFORM_TEXEL_BUFFER {
            Some("uniform_texel_buffer"@)
        } else if self.0 == HalaDescriptorType::STORAGE_TEXEL_BUFFER {
            Some("storage_texel_buffer"@)
        } else if self.0 == HalaDescriptorType::UNIFORM_BUFFER {
            Some("uniform_buffer"@)
        } else if self.0 == HalaDescriptorType::STORAGE_BUFFER {
            Some("storage_buffer"@)
        } else if self.0 == HalaDescriptorType::UNIFORM_BUFFER_DYNAMIC {
            Some("uniform_buffer_dynamic"@)
        } else if self.0 == HalaDescriptorType::STORAGE_BUFFER_DYNAMIC {
            Some("storage_buffer_dynamic"@)
        } else if self.0 == HalaDescriptorType::INPUT_ATTACHMENT {
            Some("input_attachment"@)
        } else if self.0 == HalaDescriptorType::ACCELERATION_STRUCTURE {
            Some("acceleration_structure"@)
        } else {
            Some("default"@)
        }
    }

    /// The value that a name in a description stands for. Each value is
    /// known by its name in upper case and in lower case.
    pub open spec fn spec_from_name(name: Seq<char>) -> Option<HalaDescriptorType> {
        if name == "SAMPLER"@ {
            Some(HalaDescriptorType(HalaDescriptorType::SAMPLER))
        } else if name == "sampler"@ {
            Some(HalaDescriptorType(HalaDescriptorType::SAMPLER))
        } else if name == "COMBINED_IMAGE_SAMPLER"@ {
            Some(HalaDescriptorType(HalaDescriptorType::COMBINED_IMAGE_SAMPLER))
        } else if name == "combined_image_sampler"@ {
            Some(HalaDescriptorType(HalaDescriptorType::COMBINED_IMAGE_SAMPLER))
        } else if name == "SAMPLED_IMAGE"@ {
            Some(HalaDescriptorType(HalaDescriptorType::SAMPLED_IMAGE))
        } else if name == "sampled_image"@ {
            Some(HalaDescriptorType(HalaDescriptorType::SAMPLED_IMAGE))
        } else if name == "STORAGE_IMAGE"@ {
            Some(HalaDescriptorType(HalaDescriptorType::STORAGE_IMAGE))
        } else if name == "storage_image"@ {
            Some(HalaDescriptorType(HalaDescriptorType::STORAGE_IMAGE))
        } else if name == "UNIFORM_TEXEL_BUFFER"@ {
            Some(HalaDescriptorType(HalaDescriptorType::UNIFORM_TEXEL_BUFFER))
        } else if name == "uniform_texel_buffer"@ {
            Some(HalaDescriptorType(HalaDescriptorType::UNIFORM_TEXEL_BUFFER))
        } else if name == "STORAGE_TEXEL_BUFFER"@ {
            Some(HalaDescriptorType(HalaDescriptorType::STORAGE_TEXEL_BUFFER))
        } else if name == "storage_texel_buffer"@ {
            Some(HalaDescriptorType(HalaDescriptorType::STORAGE_TEXEL_BUFFER))
        } else if name == "UNIFORM_BUFFER"@ {
            Some(HalaDescriptorType(HalaDescriptorType::UNIFORM_BUFFER))
        } else if name == "uniform_buffer"@ {
            Some(HalaDescriptorType(HalaDescriptorType::UNIFORM_BUFFER))
        } else if name == "STORAGE_BUFFER"@ {
            Some(HalaDescriptorType(HalaDescriptorType::STORAGE_BUFFER))
        } else if name == "storage_buffer"@ {
            Some(HalaDescriptorType(HalaDescriptorType::STORAGE_BUFFER))
        } else if name == "UNIFORM_BUFFER_DYNAMIC"@ {
            Some(HalaDescriptorType(HalaDescriptorType::UNIFORM_BUFFER_DYNAMIC))
        } else if name == "uniform_buffer_dynamic"@ {
            Some(HalaDescriptorType(HalaDescriptorType::UNIFORM_BUFFER_DYNAMIC))
        } else if name == "STORAGE_BUFFER_DYNAMIC"@ {
            Some(HalaDescriptorType(HalaDescriptorType::STORAGE_BUFFER_DYNAMIC))
        } else if name == "storage_buffer_dynamic"@ {
            Some(HalaDescriptorType(HalaDescriptorType::STORAGE_BUFFER_DYNAMIC))
        } else if name == "INPUT_ATTACHMENT"@ {
            Some(HalaDescriptorType(HalaDescriptorType::INPUT_ATTACHMENT))
        } else if name == "input_attachment"@ {
            Some(HalaDescriptorType(HalaDescriptorType::INPUT_ATTACHMENT))
        } else if name == "ACCELERATION_STRUCTURE"@ {
            Some(HalaDescriptorType(HalaDescriptorType::ACCELERATION_STRUCTURE))
        } else if name == "acceleration_structure"@ {
            Some(HalaDescriptorType(HalaDescriptorType::ACCELERATION_STRUCTURE))
        } else if name == "default"@ {
            Some(HalaDescriptorType(0))
        } else {
            None
        }
    }

    /// The name that the value is written with in a description, if it
    /// has one.
    pub fn name(self) -> (name: Option<&'static str>)
        ensures
            match self.spec_name() {
                Some(expected) => name matches Some(text) && text@ == expected,
                None => name is None,
            },
    {
        if self.0 == HalaDescriptorType::SAMPLER {
            Some("sampler")
        } else if self.0 == HalaDescriptorType::COMBINED_IMAGE_SAMPLER {
            Some("combined_image_sampler")
        } else if self.0 == HalaDescriptorType::SAMPLED_IMAGE {
            Some("sampled_image")
        } else if self.0 == HalaDescriptorType::STORAGE_IMAGE {
            Some("storage_image")
        } else if self.0 == HalaDescriptorType::UNIFORM_TEXEL_BUFFER {
            Some("uniform_texel_buffer")
        } else if self.0 == HalaDescriptorType::STORAGE_TEXEL_BUFFER {
            Some("storage_texel_buffer")
        } else if self.0 == HalaDescriptorType::UNIFORM_BUFFER {
            Some("uniform_buffer")
        } else if self.0 == HalaDescriptorType::STORAGE_BUFFER {
            Some("storage_buffer")
        } else if self.0 == HalaDescriptorType::UNIFORM_BUFFER_DYNAMIC {
            Some("uniform_buffer_dynamic")
        } else if self.0 == HalaDescriptorType::STORAGE_BUFFER_DYNAMIC {
            Some("storage_buffer_dynamic")
        } else if self.0 == HalaDescriptorType::INPUT_ATTACHMENT {
            Some("input_attachment")
        } else if self.0 == HalaDescriptorType::ACCELERATION_STRUCTURE {
            Some("acceleration_structure")
        } else {
            Some("default")
        }
    }

    /// The value that a name in a description stands for, if the name is
    /// known.
    pub fn from_name(name: &str) -> (value: Option<Self>)
        ensures
            value == Self::spec_from_name(name@),
    {
        if str_equals(name, "SAMPLER") {
            Some(HalaDescriptorType(HalaDescriptorType::SAMPLER))
        } else if str_equals(name, "sampler") {
            Some(HalaDescriptorType(HalaDescriptorType::SAMPLER))
        } else if str_equals(name, "COMBINED_IMAGE_SAMPLER") {
            Some(HalaDescriptorType(HalaDescriptorType::COMBINED_IMAGE_SAMPLER))
        } else if str_equals(name, "combined_image_sampler") {
            Some(HalaDescriptorType(HalaDescriptorType::COMBINED_IMAGE_SAMPLER))
        } else if str_equals(name, "SAMPLED_IMAGE") {
            Some(HalaDescriptorType(HalaDescriptorType::SAMPLED_IMAGE))
        } else if str_equals(name, "sampled_image") {
            Some(HalaDescriptorType(HalaDescriptorType::SAMPLED_IMAGE))
        } else if str_equals(name, "STORAGE_IMAGE") {
            Some(HalaDescriptorType(HalaDescriptorType::STORAGE_IMAGE))
        } else if str_equals(name, "storage_image") {
            Some(HalaDescriptorType(HalaDescriptorType::STORAGE_IMAGE))
        } else if str_equals(name, "UNIFORM_TEXEL_BUFFER") {
            Some(HalaDescriptorType(HalaDescriptorType::UNIFORM_TEXEL_BUFFER))
        } else if str_equals(name, "uniform_texel_buffer") {
            Some(HalaDescriptorType(HalaDescriptorType::UNIFORM_TEXEL_BUFFER))
        } else if str_equals(name, "STORAGE_TEXEL_BUFFER") {
            Some(HalaDescriptorType(HalaDescriptorType::STORAGE_TEXEL_BUFFER))
        } else if str_equals(name, "storage_texel_buffer") {
            Some(HalaDescriptorType(HalaDescriptorType::STORAGE_TEXEL_BUFFER))
        } else if str_equals(name, "UNIFORM_BUFFER") {
            Some(HalaDescriptorType(HalaDescriptorType::UNIFORM_BUFFER))
        } else if str_equals(name, "uniform_buffer") {
            Some(HalaDescriptorType(HalaDescriptorType::UNIFORM_BUFFER))
        } else if str_equals(name, "STORAGE_BUFFER") {
            Some(HalaDescriptorType(HalaDescriptorType::STORAGE_BUFFER))
        } else if str_equals(name, "storage_buffer") {
            Some(HalaDescriptorType(HalaDescriptorType::STORAGE_BUFFER))
        } else if str_equals(name, "UNIFORM_BUFFER_DYNAMIC") {
            Some(HalaDescriptorType(HalaDescriptorType::UNIFORM_BUFFER_DYNAMIC))
        } else if str_equals(name, "uniform_buffer_dynamic") {
            Some(HalaDescriptorType(HalaDescriptorType::UNIFORM_BUFFER_DYNAMIC))
        } else if str_equals(name, "STORAGE_BUFFER_DYNAMIC") {
            Some(HalaDescriptorType(HalaDescriptorType::STORAGE_BUFFER_DYNAMIC))
        } else if str_equals(name, "storage_buffer_dynamic") {
            Some(HalaDescriptorType(HalaDescriptorType::STORAGE_BUFFER_DYNAMIC))
        } else if str_equals(name, "INPUT_ATTACHMENT") {
            Some(HalaDescriptorType(HalaDescriptorType::INPUT_ATTACHMENT))
        } else if str_equals(name, "input_attachment") {
            Some(HalaDescriptorType(HalaDescriptorType::INPUT_ATTACHMENT))
        } else if str_equals(name, "ACCELERATION_STRUCTURE") {
            Some(HalaDescriptorType(HalaDescriptorType::ACCELERATION_STRUCTURE))
        } else if str_equals(name, "acceleration_structure") {
            Some(HalaDescriptorType(HalaDescriptorType::ACCELERATION_STRUCTURE))
        } else if str_equals(name, "default") {
            Some(HalaDescriptorType(0))
        } else {
            None
        }
    }
}

/// The descriptor binding flags.
#[derive(Clone, Copy, PartialEq, Eq, Structural, PartialOrd, Ord, Hash, Debug)]
pub struct HalaDescriptorBindingFlags(pub u32);

impl Default for HalaDescriptorBindingFlags {
    fn default() -> (value: Self)
        ensures
            value.0 == 0,
    {
        Self(0)
    }
}

impl HalaDescriptorBindingFlags {
    pub const UPDATE_AFTER_BIND: u32 = 1;
    pub const UPDATE_UNUSED_WHILE_PENDING: u32 = 2;
    pub const PARTIALLY_BOUND: u32 = 4;
    pub const VARIABLE_DESCRIPTOR_COUNT: u32 = 8;

    /// The value with no bit set.
    pub fn empty() -> (value: Self)
        ensures
            value.0 == 0,
    {
        Self(0)
    }

    /// The value with the given raw bits.
    pub fn from_raw(x: u32) -> (value: Self)
        ensures
            value.0 == x,
    {
        Self(x)
    }

    /// The raw bits of the value.
    pub fn as_raw(self) -> (x: u32)
        ensures
            x == self.0,
    {
        self.0
    }

    /// Whether no bit is set.
    pub fn is_empty(self) -> (b: bool)
        ensures
            b == (self.0 == 0),
    {
        self.0 == 0
    }

    /// Whether the two values share a bit.
    pub fn intersects(self, other: Self) -> (b: bool)
        ensures
            b == (self.0 & other.0 != 0),
    {
        self.0 & other.0 != 0
    }

    /// Whether every bit of `other` is set in `self`.
    pub fn contains(self, other: Self) -> (b: bool)
        ensures
            b == (self.0 & other.0 == other.0),
    {
        self.0 & other.0 == other.0
    }
}

impl core::ops::BitOr for HalaDescriptorBindingFlags {
    type Output = Self;

    fn bitor(self, rhs: Self) -> (value: Self) {
        Self(self.0 | rhs.0)
    }
}

impl vstd::std_specs::ops::BitOrSpecImpl for HalaDescriptorBindingFlags {
    open spec fn obeys_bitor_spec() -> bool {
        true
    }

    open spec fn bitor_req(self, rhs: Self) -> bool {
        true
    }

    open spec fn bitor_spec(self, rhs: Self) -> Self {
        Self(self.0 | rhs.0)
    }
}

impl core::ops::BitAnd for HalaDescriptorBindingFlags {
    type Output = Self;

    fn bitand(self, rhs: Self) -> (value: Self) {
        Self(self.0 & rhs.0)
    }
}

impl vstd::std_specs::ops::BitAndSpecImpl for HalaDescriptorBindingFlags {
    open spec fn obeys_bitand_spec() -> bool {
        true
    }

    open spec fn bitand_req(self, rhs: Self) -> bool {
        true
    }

    open spec fn bitand_spec(self, rhs: Self) -> Self {
        Self(self.0 & rhs.0)
    }
}

impl core::ops::BitXor for HalaDescriptorBindingFlags {
    type Output = Self;

    fn bitxor(self, rhs: Self) -> (value: Self) {
        Self(self.0 ^ rhs.0)
    }
}

impl vstd::std_specs::ops::BitXorSpecImpl for HalaDescriptorBindingFlags {
    open spec fn obeys_bitxor_spec() -> bool {
        true
    }

    open spec fn bitxor_req(self, rhs: Self) -> bool {
        true
    }

    open spec fn bitxor_spec(self, rhs: Self) -> Self {
        Self(self.0 ^ rhs.0)
    }
}

impl core::ops::Not for HalaDescriptorBindingFlags {
    type Output = Self;

    fn not(self) -> (value: Self) {
        Self(!self.0)
    }
}

impl vstd::std_specs::ops::NotSpecImpl for HalaDescriptorBindingFlags {
    open spec fn obeys_not_spec() -> bool {
        true
    }

    open spec fn not_req(self) -> bool {
        true
    }

    open spec fn not_spec(self) -> Self {
        Self(!self.0)
    }
}

/// The descriptor set layout binding.
#[derive(Clone, Copy, PartialEq, Eq, Structural, Debug)]
pub struct HalaDescriptorSetLayoutBinding {
    pub binding_index: u32,
    pub descriptor_type: HalaDescriptorType,
    pub descriptor_count: u32,
    pub stage_flags: HalaShaderStageFlags,
    pub binding_flags: HalaDescriptorBindingFlags,
}

impl HalaDescriptorSetLayoutBinding {
    /// A binding of `descriptor_count` descriptors of one type at
    /// `binding_index`, visible to the given stages.
    pub fn new(
        binding_index: u32,
        descriptor_type: HalaDescriptorType,
        descriptor_count: u32,
        stage_flags: HalaShaderStageFlags,
        binding_flags: HalaDescriptorBindingFlags,
    ) -> (binding: Self)
        ensures
            binding == (HalaDescriptorSetLayoutBinding {
                binding_index,
                descriptor_type,
                descriptor_count,
                stage_flags,
                binding_flags,
            }),
    {
        HalaDescriptorSetLayoutBinding {
            binding_index,
            descriptor_type,
            descriptor_count,
            stage_flags,
            binding_flags,
        }
    }
}

/// The descriptor set: one native handle where the set is static, else one
/// for each frame in flight.
#[derive(Clone, Debug)]
pub struct HalaDescriptorSet {
    pub raw: Vec<u64>,
    pub is_static: bool,
}

} // verus!
