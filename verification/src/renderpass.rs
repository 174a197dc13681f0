//! Render passes: attachment descriptions, subpasses and their
//! dependencies.

use crate::text::str_equals;
use crate::barrier::{HalaImageAspectFlags, HalaImageLayout};
use crate::device::{HalaDeviceCall, HalaObjectKind};
use crate::format::HalaFormat;
use crate::pipeline::HalaPipelineStageFlags;
use vstd::slice::slice_to_vec;
use vstd::prelude::*;

verus! {

/// The attachment load operation.
#[derive(Clone, Copy, PartialEq, Eq, Structural, PartialOrd, Ord, Hash, Debug)]
pub struct HalaAttachmentLoadOp(pub i32);

impl Default for HalaAttachmentLoadOp {
    fn default() -> (value: Self)
        ensures
            value.0 == 0,
    {
        Self(0)
    }
}

impl HalaAttachmentLoadOp {
    pub const LOAD: i32 = 0;
    pub const CLEAR: i32 = 1;
    pub const DONT_CARE: i32 = 2;

    /// The value with the given raw code.
    pub fn from_raw(x: i32) -> (value: Self)
        ensures
            value.0 == x,
    {
        Self(x)
    }

    /// The raw code of the value.
    pub fn as_raw(self) -> (x: i32)
        ensures
            x == self.0,
    {
        self.0
    }
}

/// The attachment store operation.
#[derive(Clone, Copy, PartialEq, Eq, Structural, PartialOrd, Ord, Hash, Debug)]
pub struct HalaAttachmentStoreOp(pub i32);

impl Default for HalaAttachmentStoreOp {
    fn default() -> (value: Self)
        ensures
            value.0 == 0,
    {
        Self(0)
    }
}

impl HalaAttachmentStoreOp {
    pub const STORE: i32 = 0;
    pub const DONT_CARE: i32 = 1;

    /// The value with the given raw code.
    pub fn from_raw(x: i32) -> (value: Self)
        ensures
            value.0 == x,
    {
        Self(x)
    }

    /// The raw code of the value.
    pub fn as_raw(self) -> (x: i32)
        ensures
            x == self.0,
    {
        self.0
    }
}

/// The sample count flags.
#[derive(Clone, Copy, PartialEq, Eq, Structural, PartialOrd, Ord, Hash, Debug)]
pub struct HalaSampleCountFlags(pub u32);

impl Default for HalaSampleCountFlags {
    fn default() -> (value: Self)
        ensures
            value.0 == 0,
    {
        Self(0)
    }
}

impl HalaSampleCountFlags {
    pub const TYPE_1: u32 = 1;
    pub const TYPE_2: u32 = 2;
    pub const TYPE_4: u32 = 4;
    pub const TYPE_8: u32 = 8;
    pub const TYPE_16: u32 = 0x10;
    pub const TYPE_32: u32 = 0x20;
    pub const TYPE_64: u32 = 0x40;

    /// The value with no bit set.
    pub fn empty() -> (value: Self)
        ensures
            value.0 == 0,
    {
        Self(0)
    }

    /// The value with the given raw bits.
    pub fn from_raw(x: u32) -> (value: Self)
        ensures
            value.0 == x,
    {
        Self(x)
    }

    /// The raw bits of the value.
    pub fn as_raw(self) -> (x: u32)
        ensures
            x == self.0,
    {
        self.0
    }

    /// Whether no bit is set.
    pub fn is_empty(self) -> (b: bool)
        ensures
            b == (self.0 == 0),
    {
        self.0 == 0
    }

    /// Whether the two values share a bit.
    pub fn intersects(self, other: Self) -> (b: bool)
        ensures
            b == (self.0 & other.0 != 0),
    {
        self.0 & other.0 != 0
    }

    /// Whether every bit of `other` is set in `self`.
    pub fn contains(self, other: Self) -> (b: bool)
        ensures
            b == (self.0 & other.0 == other.0),
    {
        self.0 & other.0 == other.0
    }
}

impl core::ops::BitOr for HalaSampleCountFlags {
    type Output = Self;

    fn bitor(self, rhs: Self) -> (value: Self) {
        Self(self.0 | rhs.0)
    }
}

impl vstd::std_specs::ops::BitOrSpecImpl for HalaSampleCountFlags {
    open spec fn obeys_bitor_spec() -> bool {
        true
    }

    open spec fn bitor_req(self, rhs: Self) -> bool {
        true
    }

    open spec fn bitor_spec(self, rhs: Self) -> Self {
        Self(self.0 | rhs.0)
    }
}

impl core::ops::BitAnd for HalaSampleCountFlags {
    type Output = Self;

    fn bitand(self, rhs: Self) -> (value: Self) {
        Self(self.0 & rhs.0)
    }
}

impl vstd::std_specs::ops::BitAndSpecImpl for HalaSampleCountFlags {
    open spec fn obeys_bitand_spec() -> bool {
        true
    }

    open spec fn bitand_req(self, rhs: Self) -> bool {
        true
    }

    open spec fn bitand_spec(self, rhs: Self) -> Self {
        Self(self.0 & rhs.0)
    }
}

impl core::ops::BitXor for HalaSampleCountFlags {
    type Output = Self;

    fn bitxor(self, rhs: Self) -> (value: Self) {
        Self(self.0 ^ rhs.0)
    }
}

impl vstd::std_specs::ops::BitXorSpecImpl for HalaSampleCountFlags {
    open spec fn obeys_bitxor_spec() -> bool {
        true
    }

    open spec fn bitxor_req(self, rhs: Self) -> bool {
        true
    }

    open spec fn bitxor_spec(self, rhs: Self) -> Self {
        Self(self.0 ^ rhs.0)
    }
}

impl core::ops::Not for HalaSampleCountFlags {
    type Output = Self;

    fn not(self) -> (value: Self) {
        Self(!self.0)
    }
}

impl vstd::std_specs::ops::NotSpecImpl for HalaSampleCountFlags {
    open spec fn obeys_not_spec() -> bool {
        true
    }

    open spec fn not_req(self) -> bool {
        true
    }

    open spec fn not_spec(self) -> Self {
        Self(!self.0)
    }
}

impl HalaSampleCountFlags {
    /// The name that the value is written with in a description.
    /// A value that is none of the named ones is written as `default`.
    pub open spec fn spec_name(self) -> Option<Seq<char>> {
        if self.0 == HalaSampleCountFlags::TYPE_1 {
            Some("type_1"@)
        } else if self.0 == HalaSampleCountFlags::TYPE_2 {
            Some("type_2"@)
        } else if self.0 == HalaSampleCountFlags::TYPE_4 {
            Some("type_4"@)
        } else if self.0 == HalaSampleCountFlags::TYPE_8 {
            Some("type_8"@)
        } else if self.0 == HalaSampleCountFlags::TYPE_16 {
            Some("type_16"@)
        } else if self.0 == HalaSampleCountFlags::TYPE_32 {
            Some("type_32"@)
        } else if self.0 == HalaSampleCountFlags::TYPE_64 {
            Some("type_64"@)
        } else {
            Some("default"@)
        }
    }

    /// The value that a name in a description stands for. Each value is
    /// known by its name in upper case and in lower case.
    pub open spec fn spec_from_name(name: Seq<char>) -> Option<HalaSampleCountFlags> {
        if name == "type_1"@ {
            Some(HalaSampleCountFlags(HalaSampleCountFlags::TYPE_1))
        } else if name == "TYPE_1"@ {
            Some(HalaSampleCountFlags(HalaSampleCountFlags::TYPE_1))
        } else if name == "type_2"@ {
            Some(HalaSampleCountFlags(HalaSampleCountFlags::TYPE_2))
        } else if name == "TYPE_2"@ {
            Some(HalaSampleCountFlags(HalaSampleCountFlags::TYPE_2))
        } else if name == "type_4"@ {
            Some(HalaSampleCountFlags(HalaSampleCountFlags::TYPE_4))
        } else if name == "TYPE_4"@ {
            Some(HalaSampleCountFlags(HalaSampleCountFlags::TYPE_4))
        } else if name == "type_8"@ {
            Some(HalaSampleCountFlags(HalaSampleCountFlags::TYPE_8))
        } else if name == "TYPE_8"@ {
            Some(HalaSampleCountFlags(HalaSampleCountFlags::TYPE_8))
        } else if name == "type_16"@ {
            Some(HalaSampleCountFlags(HalaSampleCountFlags::TYPE_16))
        } else if name == "TYPE_16"@ {
            Some(HalaSampleCountFlags(HalaSampleCountFlags::TYPE_16))
        } else if name == "type_32"@ {
            Some(HalaSampleCountFlags(HalaSampleCountFlags::TYPE_32))
        } else if name == "TYPE_32"@ {
            Some(HalaSampleCountFlags(HalaSampleCountFlags::TYPE_32))
        } else if name == "type_64"@ {
            Some(HalaSampleCountFlags(HalaSampleCountFlags::TYPE_64))
        } else if name == "TYPE_64"@ {
            Some(HalaSampleCountFlags(HalaSampleCountFlags::TYPE_64))
        } else if name == "default"@ {
            Some(HalaSampleCountFlags(0))
        } else {
            None
        }
    }

    /// The name that the value is written with in a description, if it
    /// has one.
    pub fn name(self) -> (name: Option<&'static str>)
        ensures
            match self.spec_name() {
                Some(expected) => name matches Some(text) && text@ == expected,
                None => name is None,
            },
    {
        if self.0 == HalaSampleCountFlags::TYPE_1 {
            Some("type_1")
        } else if self.0 == HalaSampleCountFlags::TYPE_2 {
            Some("type_2")
        } else if self.0 == HalaSampleCountFlags::TYPE_4 {
            Some("type_4")
        } else if self.0 == HalaSampleCountFlags::TYPE_8 {
            Some("type_8")
        } else if self.0 == HalaSampleCountFlags::TYPE_16 {
            Some("type_16")
        } else if self.0 == HalaSampleCountFlags::TYPE_32 {
            Some("type_32")
        } else if self.0 == HalaSampleCountFlags::TYPE_64 {
            Some("type_64")
        } else {
            Some("default")
        }
    }

    /// The value that a name in a description stands for, if the name is
    /// known.
    pub fn from_name(name: &str) -> (value: Option<Self>)
        ensures
            value == Self::spec_from_name(name@),
    {
        if str_equals(name, "type_1") {
            Some(HalaSampleCountFlags(HalaSampleCountFlags::TYPE_1))
        } else if str_equals(name, "TYPE_1") {
            Some(HalaSampleCountFlags(HalaSampleCountFlags::TYPE_1))
        } else if str_equals(name, "type_2") {
            Some(HalaSampleCountFlags(HalaSampleCountFlags::TYPE_2))
        } else if str_equals(name, "TYPE_2") {
            Some(HalaSampleCountFlags(HalaSampleCountFlags::TYPE_2))
        } else if str_equals(name, "type_4") {
            Some(HalaSampleCountFlags(HalaSampleCountFlags::TYPE_4))
        } else if str_equals(name, "TYPE_4") {
            Some(HalaSampleCountFlags(HalaSampleCountFlags::TYPE_4))
        } else if str_equals(name, "type_8") {
            Some(HalaSampleCountFlags(HalaSampleCountFlags::TYPE_8))
        } else if str_equals(name, "TYPE_8") {
            Some(HalaSampleCountFlags(HalaSampleCountFlags::TYPE_8))
        } else if str_equals(name, "type_16") {
            Some(HalaSampleCountFlags(HalaSampleCountFlags::TYPE_16))
        } else if str_equals(name, "TYPE_16") {
            Some(HalaSampleCountFlags(HalaSampleCountFlags::TYPE_16))
        } else if str_equals(name, "type_32") {
            Some(HalaSampleCountFlags(HalaSampleCountFlags::TYPE_32))
        } else if str_equals(name, "TYPE_32") {
            Some(HalaSampleCountFlags(HalaSampleCountFlags::TYPE_32))
        } else if str_equals(name, "type_64") {
            Some(HalaSampleCountFlags(HalaSampleCountFlags::TYPE_64))
        } else if str_equals(name, "TYPE_64") {
            Some(HalaSampleCountFlags(HalaSampleCountFlags::TYPE_64))
        } else if str_equals(name, "default") {
            Some(HalaSampleCountFlags(0))
        } else {
            None
        }
    }
}

/// The resolve mode flags.
#[derive(Clone, Copy, PartialEq, Eq, Structural, PartialOrd, Ord, Hash, Debug)]
pub struct HalaResolveModeFlags(pub u32);

impl Default for HalaResolveModeFlags {
    fn default() -> (value: Self)
        ensures
            value.0 == 0,
    {
        Self(0)
    }
}

impl HalaResolveModeFlags {
    pub const NONE: u32 = 0;
    pub const SAMPLE_ZERO: u32 = 1;
    pub const AVERAGE: u32 = 2;
    pub const MIN: u32 = 4;
    pub const MAX: u32 = 8;

    /// The value with no bit set.
    pub fn empty() -> (value: Self)
        ensures
            value.0 == 0,
    {
        Self(0)
    }

    /// The value with the given raw bits.
    pub fn from_raw(x: u32) -> (value: Self)
        ensures
            value.0 == x,
    {
        Self(x)
    }

    /// The raw bits of the value.
    pub fn as_raw(self) -> (x: u32)
        ensures
            x == self.0,
    {
        self.0
    }

    /// Whether no bit is set.
    pub fn is_empty(self) -> (b: bool)
        ensures
            b == (self.0 == 0),
    {
        self.0 == 0
    }

    /// Whether the two values share a bit.
    pub fn intersects(self, other: Self) -> (b: bool)
        ensures
            b == (self.0 & other.0 != 0),
    {
        self.0 & other.0 != 0
    }

    /// Whether every bit of `other` is set in `self`.
    pub fn contains(self, other: Self) -> (b: bool)
        ensures
            b == (self.0 & other.0 == other.0),
    {
        self.0 & other.0 == other.0
    }
}

impl core::ops::BitOr for HalaResolveModeFlags {
    type Output = Self;

    fn bitor(self, rhs: Self) -> (value: Self) {
        Self(self.0 | rhs.0)
    }
}

impl vstd::std_specs::ops::BitOrSpecImpl for HalaResolveModeFlags {
    open spec fn obeys_bitor_spec() -> bool {
        true
    }

    open spec fn bitor_req(self, rhs: Self) -> bool {
        true
    }

    open spec fn bitor_spec(self, rhs: Self) -> Self {
        Self(self.0 | rhs.0)
    }
}

impl core::ops::BitAnd for HalaResolveModeFlags {
    type Output = Self;

    fn bitand(self, rhs: Self) -> (value: Self) {
        Self(self.0 & rhs.0)
    }
}

impl vstd::std_specs::ops::BitAndSpecImpl for HalaResolveModeFlags {
    open spec fn obeys_bitand_spec() -> bool {
        true
    }

    open spec fn bitand_req(self, rhs: Self) -> bool {
        true
    }

    open spec fn bitand_spec(self, rhs: Self) -> Self {
        Self(self.0 & rhs.0)
    }
}

impl core::ops::BitXor for HalaResolveModeFlags {
    type Output = Self;

    fn bitxor(self, rhs: Self) -> (value: Self) {
        Self(self.0 ^ rhs.0)
    }
}

impl vstd::std_specs::ops::BitXorSpecImpl for HalaResolveModeFlags {
    open spec fn obeys_bitxor_spec() -> bool {
        true
    }

    open spec fn bitxor_req(self, rhs: Self) -> bool {
        true
    }

    open spec fn bitxor_spec(self, rhs: Self) -> Self {
        Self(self.0 ^ rhs.0)
    }
}

impl core::ops::Not for HalaResolveModeFlags {
    type Output = Self;

    fn not(self) -> (value: Self) {
        Self(!self.0)
    }
}

impl vstd::std_specs::ops::NotSpecImpl for HalaResolveModeFlags {
    open spec fn obeys_not_spec() -> bool {
        true
    }

    open spec fn not_req(self) -> bool {
        true
    }

    open spec fn not_spec(self) -> Self {
        Self(!self.0)
    }
}

/// The pipeline bind point.
#[derive(Clone, Copy, PartialEq, Eq, Structural, PartialOrd, Ord, Hash, Debug)]
pub struct HalaPipelineBindPoint(pub i32);

impl Default for HalaPipelineBindPoint {
    fn default() -> (value: Self)
        ensures
            value.0 == 0,
    {
        Self(0)
    }
}

impl HalaPipelineBindPoint {
    pub const GRAPHICS: i32 = 0;
    pub const COMPUTE: i32 = 1;
    pub const RAY_TRACING: i32 = 1000165000;

    /// The value with the given raw code.
    pub fn from_raw(x: i32) -> (value: Self)
        ensures
            value.0 == x,
    {
        Self(x)
    }

    /// The raw code of the value.
    pub fn as_raw(self) -> (x: i32)
        ensures
            x == self.0,
    {
        self.0
    }
}

/// The dependency flags.
#[derive(Clone, Copy, PartialEq, Eq, Structural, PartialOrd, Ord, Hash, Debug)]
pub struct HalaDependencyFlags(pub u32);

impl Default for HalaDependencyFlags {
    fn default() -> (value: Self)
        ensures
            value.0 == 0,
    {
        Self(0)
    }
}

impl HalaDependencyFlags {
    pub const BY_REGION: u32 = 1;
    pub const DEVICE_GROUP: u32 = 4;
    pub const VIEW_LOCAL: u32 = 2;
    pub const FEEDBACK_LOOP: u32 = 8;

    /// The value with no bit set.
    pub fn empty() -> (value: Self)
        ensures
            value.0 == 0,
    {
        Self(0)
    }

    /// The value with the given raw bits.
    pub fn from_raw(x: u32) -> (value: Self)
        ensures
            value.0 == x,
    {
        Self(x)
    }

    /// The raw bits of the value.
    pub fn as_raw(self) -> (x: u32)
        ensures
            x == self.0,
    {
        self.0
    }

    /// Whether no bit is set.
    pub fn is_empty(self) -> (b: bool)
        ensures
            b == (self.0 == 0),
    {
        self.0 == 0
    }

    /// Whether the two values share a bit.
    pub fn intersects(self, other: Self) -> (b: bool)
        ensures
            b == (self.0 & other.0 != 0),
    {
        self.0 & other.0 != 0
    }

    /// Whether every bit of `other` is set in `self`.
    pub fn contains(self, other: Self) -> (b: bool)
        ensures
            b == (self.0 & other.0 == other.0),
    {
        self.0 & other.0 == other.0
    }
}

impl core::ops::BitOr for HalaDependencyFlags {
    type Output = Self;

    fn bitor(self, rhs: Self) -> (value: Self) {
        Self(self.0 | rhs.0)
    }
}

impl vstd::std_specs::ops::BitOrSpecImpl for HalaDependencyFlags {
    open spec fn obeys_bitor_spec() -> bool {
        true
    }

    open spec fn bitor_req(self, rhs: Self) -> bool {
        true
    }

    open spec fn bitor_spec(self, rhs: Self) -> Self {
        Self(self.0 | rhs.0)
    }
}

impl core::ops::BitAnd for HalaDependencyFlags {
    type Output = Self;

    fn bitand(self, rhs: Self) -> (value: Self) {
        Self(self.0 & rhs.0)
    }
}

impl vstd::std_specs::ops::BitAndSpecImpl for HalaDependencyFlags {
    open spec fn obeys_bitand_spec() -> bool {
        true
    }

    open spec fn bitand_req(self, rhs: Self) -> bool {
        true
    }

    open spec fn bitand_spec(self, rhs: Self) -> Self {
        Self(self.0 & rhs.0)
    }
}

impl core::ops::BitXor for HalaDependencyFlags {
    type Output = Self;

    fn bitxor(self, rhs: Self) -> (value: Self) {
        Self(self.0 ^ rhs.0)
    }
}

impl vstd::std_specs::ops::BitXorSpecImpl for HalaDependencyFlags {
    open spec fn obeys_bitxor_spec() -> bool {
        true
    }

    open spec fn bitxor_req(self, rhs: Self) -> bool {
        true
    }

    open spec fn bitxor_spec(self, rhs: Self) -> Self {
        Self(self.0 ^ rhs.0)
    }
}

impl core::ops::Not for HalaDependencyFlags {
    type Output = Self;

    fn not(self) -> (value: Self) {
        Self(!self.0)
    }
}

impl vstd::std_specs::ops::NotSpecImpl for HalaDependencyFlags {
    open spec fn obeys_not_spec() -> bool {
        true
    }

    open spec fn not_req(self) -> bool {
        true
    }

    open spec fn not_spec(self) -> Self {
        Self(!self.0)
    }
}

/// The access flags.
#[derive(Clone, Copy, PartialEq, Eq, Structural, PartialOrd, Ord, Hash, Debug)]
pub struct HalaAccessFlags(pub u32);

impl Default for HalaAccessFlags {
    fn default() -> (value: Self)
        ensures
            value.0 == 0,
    {
        Self(0)
    }
}

impl HalaAccessFlags {
    pub const INDIRECT_COMMAND_READ: u32 = 1;
    pub const INDEX_READ: u32 = 2;
    pub const VERTEX_ATTRIBUTE_READ: u32 = 4;
    pub const UNIFORM_READ: u32 = 8;
    pub const INPUT_ATTACHMENT_READ: u32 = 0x10;
    pub const SHADER_READ: u32 = 0x20;
    pub const SHADER_WRITE: u32 = 0x40;
    pub const COLOR_ATTACHMENT_READ: u32 = 0x80;
    pub const COLOR_ATTACHMENT_WRITE: u32 = 0x100;
    pub const DEPTH_STENCIL_ATTACHMENT_READ: u32 = 0x200;
    pub const DEPTH_STENCIL_ATTACHMENT_WRITE: u32 = 0x400;
    pub const TRANSFER_READ: u32 = 0x800;
    pub const TRANSFER_WRITE: u32 = 0x1000;
    pub const HOST_READ: u32 = 0x2000;
    pub const HOST_WRITE: u32 = 0x4000;
    pub const MEMORY_READ: u32 = 0x8000;
    pub const MEMORY_WRITE: u32 = 0x10000;
    pub const TRANSFORM_FEEDBACK_WRITE: u32 = 0x2000000;
    pub const TRANSFORM_FEEDBACK_COUNTER_READ: u32 = 0x4000000;
    pub const TRANSFORM_FEEDBACK_COUNTER_WRITE: u32 = 0x8000000;
    pub const CONDITIONAL_RENDERING_READ: u32 = 0x100000;
    pub const COLOR_ATTACHMENT_READ_NONCOHERENT: u32 = 0x80000;
    pub const ACCELERATION_STRUCTURE_READ: u32 = 0x200000;
    pub const ACCELERATION_STRUCTURE_WRITE: u32 = 0x400000;
    pub const FRAGMENT_DENSITY_MAP_READ: u32 = 0x1000000;
    pub const FRAGMENT_SHADING_RATE_ATTACHMENT_READ: u32 = 0x800000;
    pub const COMMAND_PREPROCESS_READ: u32 = 0x20000;
    pub const COMMAND_PREPROCESS_WRITE: u32 = 0x40000;
    pub const NONE: u32 = 0;

    /// The value with no bit set.
    pub fn empty() -> (value: Self)
        ensures
            value.0 == 0,
    {
        Self(0)
    }

    /// The value with the given raw bits.
    pub fn from_raw(x: u32) -> (value: Self)
        ensures
            value.0 == x,
    {
        Self(x)
    }

    /// The raw bits of the value.
    pub fn as_raw(self) -> (x: u32)
        ensures
            x == self.0,
    {
        self.0
    }

    /// Whether no bit is set.
    pub fn is_empty(self) -> (b: bool)
        ensures
            b == (self.0 == 0),
    {
        self.0 == 0
    }

    /// Whether the two values share a bit.
    pub fn intersects(self, other: Self) -> (b: bool)
        ensures
            b == (self.0 & other.0 != 0),
    {
        self.0 & other.0 != 0
    }

    /// Whether every bit of `other` is set in `self`.
    pub fn contains(self, other: Self) -> (b: bool)
        ensures
            b == (self.0 & other.0 == other.0),
    {
        self.0 & other.0 == other.0
    }
}

impl core::ops::BitOr for HalaAccessFlags {
    type Output = Self;

    fn bitor(self, rhs: Self) -> (value: Self) {
        Self(self.0 | rhs.0)
    }
}

impl vstd::std_specs::ops::BitOrSpecImpl for HalaAccessFlags {
    open spec fn obeys_bitor_spec() -> bool {
        true
    }

    open spec fn bitor_req(self, rhs: Self) -> bool {
        true
    }

    open spec fn bitor_spec(self, rhs: Self) -> Self {
        Self(self.0 | rhs.0)
    }
}

impl core::ops::BitAnd for HalaAccessFlags {
    type Output = Self;

    fn bitand(self, rhs: Self) -> (value: Self) {
        Self(self.0 & rhs.0)
    }
}

impl vstd::std_specs::ops::BitAndSpecImpl for HalaAccessFlags {
    open spec fn obeys_bitand_spec() -> bool {
        true
    }

    open spec fn bitand_req(self, rhs: Self) -> bool {
        true
    }

    open spec fn bitand_spec(self, rhs: Self) -> Self {
        Self(self.0 & rhs.0)
    }
}

impl core::ops::BitXor for HalaAccessFlags {
    type Output = Self;

    fn bitxor(self, rhs: Self) -> (value: Self) {
        Self(self.0 ^ rhs.0)
    }
}

impl vstd::std_specs::ops::BitXorSpecImpl for HalaAccessFlags {
    open spec fn obeys_bitxor_spec() -> bool {
        true
    }

    open spec fn bitxor_req(self, rhs: Self) -> bool {
        true
    }

    open spec fn bitxor_spec(self, rhs: Self) -> Self {
        Self(self.0 ^ rhs.0)
    }
}

impl core::ops::Not for HalaAccessFlags {
    type Output = Self;

    fn not(self) -> (value: Self) {
        Self(!self.0)
    }
}

impl vstd::std_specs::ops::NotSpecImpl for HalaAccessFlags {
    open spec fn obeys_not_spec() -> bool {
        true
    }

    open spec fn not_req(self) -> bool {
        true
    }

    open spec fn not_spec(self) -> Self {
        Self(!self.0)
    }
}

/// The attachment reference.
#[derive(Clone, Copy, PartialEq, Eq, Structural, Debug)]
pub struct HalaAttachmentReference {
    pub attachment: u32,
    pub layout: HalaImageLayout,
    pub aspect_mask: HalaImageAspectFlags,
}

impl Default for HalaAttachmentReference {
    fn default() -> (reference: Self)
        ensures
            reference == (HalaAttachmentReference {
                attachment: 0,
                layout: HalaImageLayout(0),
                aspect_mask: HalaImageAspectFlags(0),
            }),
    {
        HalaAttachmentReference {
            attachment: 0,
            layout: HalaImageLayout(0),
            aspect_mask: HalaImageAspectFlags(0),
        }
    }
}

/// The subpass dependency.
#[derive(Clone, Copy, PartialEq, Eq, Structural, Debug)]
pub struct HalaSubpassDependency {
    pub src_subpass: u32,
    pub dst_subpass: u32,
    pub src_stage_mask: HalaPipelineStageFlags,
    pub dst_stage_mask: HalaPipelineStageFlags,
    pub src_access_mask: HalaAccessFlags,
    pub dst_access_mask: HalaAccessFlags,
    pub dependency_flags: HalaDependencyFlags,
}

impl Default for HalaSubpassDependency {
    fn default() -> (dependency: Self)
        ensures
            dependency == (HalaSubpassDependency {
                src_subpass: 0,
                dst_subpass: 0,
                src_stage_mask: HalaPipelineStageFlags(0),
                dst_stage_mask: HalaPipelineStageFlags(0),
                src_access_mask: HalaAccessFlags(0),
                dst_access_mask: HalaAccessFlags(0),
                dependency_flags: HalaDependencyFlags(0),
            }),
    {
        HalaSubpassDependency {
            src_subpass: 0,
            dst_subpass: 0,
            src_stage_mask: HalaPipelineStageFlags(0),
            dst_stage_mask: HalaPipelineStageFlags(0),
            src_access_mask: HalaAccessFlags(0),
            dst_access_mask: HalaAccessFlags(0),
            dependency_flags: HalaDependencyFlags(0),
        }
    }
}

/// The subpass description.
#[derive(Clone, Debug)]
pub struct HalaSubpassDescription {
    pub pipeline_bind_point: HalaPipelineBindPoint,
    pub input_attachments: Vec<HalaAttachmentReference>,
    pub color_attachments: Vec<HalaAttachmentReference>,
    pub resolve_attachments: Vec<HalaAttachmentReference>,
    pub depth_stencil_attachment: Option<HalaAttachmentReference>,
    pub preserve_attachments: Vec<u32>,
}

/// The description of a render pass attachment.
#[derive(Clone, Copy, PartialEq, Eq, Structural, Debug)]
pub struct HalaRenderPassAttachmentDesc {
    pub format: HalaFormat,
    pub load_op: HalaAttachmentLoadOp,
    pub store_op: HalaAttachmentStoreOp,
    pub stencil_load_op: HalaAttachmentLoadOp,
    pub stencil_store_op: HalaAttachmentStoreOp,
    pub samples: HalaSampleCountFlags,
    pub initial_layout: HalaImageLayout,
    pub final_layout: HalaImageLayout,
}

impl Default for HalaRenderPassAttachmentDesc {
    fn default() -> (desc: Self)
        ensures
            desc == (HalaRenderPassAttachmentDesc {
                format: HalaFormat(HalaFormat::UNDEFINED),
                load_op: HalaAttachmentLoadOp(HalaAttachmentLoadOp::DONT_CARE),
                store_op: HalaAttachmentStoreOp(HalaAttachmentStoreOp::DONT_CARE),
                stencil_load_op: HalaAttachmentLoadOp(HalaAttachmentLoadOp::DONT_CARE),
                stencil_store_op: HalaAttachmentStoreOp(HalaAttachmentStoreOp::DONT_CARE),
                samples: HalaSampleCountFlags(HalaSampleCountFlags::TYPE_1),
                initial_layout: HalaImageLayout(HalaImageLayout::UNDEFINED),
                final_layout: HalaImageLayout(HalaImageLayout::GENERAL),
            }),
    {
        HalaRenderPassAttachmentDesc {
            format: HalaFormat(HalaFormat::UNDEFINED),
            load_op: HalaAttachmentLoadOp(HalaAttachmentLoadOp::DONT_CARE),
            store_op: HalaAttachmentStoreOp(HalaAttachmentStoreOp::DONT_CARE),
            stencil_load_op: HalaAttachmentLoadOp(HalaAttachmentLoadOp::DONT_CARE),
            stencil_store_op: HalaAttachmentStoreOp(HalaAttachmentStoreOp::DONT_CARE),
            samples: HalaSampleCountFlags(HalaSampleCountFlags::TYPE_1),
            initial_layout: HalaImageLayout(HalaImageLayout::UNDEFINED),
            final_layout: HalaImageLayout(HalaImageLayout::GENERAL),
        }
    }
}

impl HalaRenderPassAttachmentDesc {
    /// The same description with another format.
    pub fn format(self, format: HalaFormat) -> (desc: Self)
        ensures
            desc == (HalaRenderPassAttachmentDesc { format, ..self }),
    {
        HalaRenderPassAttachmentDesc { format, ..self }
    }

    /// The same description with another load operation.
    pub fn load_op(self, load_op: HalaAttachmentLoadOp) -> (desc: Self)
        ensures
            desc == (HalaRenderPassAttachmentDesc { load_op, ..self }),
    {
        HalaRenderPassAttachmentDesc { load_op, ..self }
    }

    /// The same description with another store operation.
    pub fn store_op(self, store_op: HalaAttachmentStoreOp) -> (desc: Self)
        ensures
            desc == (HalaRenderPassAttachmentDesc { store_op, ..self }),
    {
        HalaRenderPassAttachmentDesc { store_op, ..self }
    }

    /// The same description with another stencil load operation.
    pub fn stencil_load_op(self, stencil_load_op: HalaAttachmentLoadOp) -> (desc: Self)
        ensures
            desc == (HalaRenderPassAttachmentDesc { stencil_load_op, ..self }),
    {
        HalaRenderPassAttachmentDesc { stencil_load_op, ..self }
    }

    /// The same description with another stencil store operation.
    pub fn stencil_store_op(self, stencil_store_op: HalaAttachmentStoreOp) -> (desc: Self)
        ensures
            desc == (HalaRenderPassAttachmentDesc { stencil_store_op, ..self }),
    {
        HalaRenderPassAttachmentDesc { stencil_store_op, ..self }
    }

    /// The same description with another sample count.
    pub fn samples(self, samples: HalaSampleCountFlags) -> (desc: Self)
        ensures
            desc == (HalaRenderPassAttachmentDesc { samples, ..self }),
    {
        HalaRenderPassAttachmentDesc { samples, ..self }
    }

    /// The same description with another initial layout.
    pub fn initial_layout(self, initial_layout: HalaImageLayout) -> (desc: Self)
        ensures
            desc == (HalaRenderPassAttachmentDesc { initial_layout, ..self }),
    {
        HalaRenderPassAttachmentDesc { initial_layout, ..self }
    }

    /// The same description with another final layout.
    pub fn final_layout(self, final_layout: HalaImageLayout) -> (desc: Self)
        ensures
            desc == (HalaRenderPassAttachmentDesc { final_layout, ..self }),
    {
        HalaRenderPassAttachmentDesc { final_layout, ..self }
    }
}

/// The subpass index that stands, in a dependency, for what is recorded
/// outside the render pass.
pub const SUBPASS_EXTERNAL: u32 = 0xffff_ffff;

/// The render pass: its native handle and the descriptions of the
/// attachments that it was created with, colour attachments first.
#[derive(Clone, Debug)]
pub struct HalaRenderPass {
    pub raw: u64,
    pub color_attachment_descs: Vec<HalaRenderPassAttachmentDesc>,
    pub depth_stencil_attachment_descs: Vec<HalaRenderPassAttachmentDesc>,
}

/// The framebuffers of a render pass, one for each image that is rendered
/// to in turn.
#[derive(Clone, Debug)]
pub struct HalaFrameBufferSet {
    pub raw: Vec<u64>,
}

impl HalaRenderPass {
    /// The reference of the subpass to the colour attachment `index`.
    pub open spec fn spec_color_reference(index: int) -> HalaAttachmentReference {
        HalaAttachmentReference {
            attachment: index as u32,
            layout: HalaImageLayout(HalaImageLayout::COLOR_ATTACHMENT_OPTIMAL),
            aspect_mask: HalaImageAspectFlags(HalaImageAspectFlags::COLOR),
        }
    }

    /// The reference of the subpass to the depth and stencil attachment,
    /// which follows `color_count` colour attachments.
    pub open spec fn spec_depth_stencil_reference(color_count: int) -> HalaAttachmentReference {
        HalaAttachmentReference {
            attachment: color_count as u32,
            layout: HalaImageLayout(HalaImageLayout::DEPTH_STENCIL_ATTACHMENT_OPTIMAL),
            aspect_mask: HalaImageAspectFlags(
                HalaImageAspectFlags::DEPTH | HalaImageAspectFlags::STENCIL,
            ),
        }
    }

    /// The dependency of a render pass of one subpass: the subpass writes
    /// its colour attachments after whatever came before the render pass
    /// has put out its colours.
    pub open spec fn spec_default_dependency() -> HalaSubpassDependency {
        HalaSubpassDependency {
            src_subpass: SUBPASS_EXTERNAL,
            dst_subpass: 0,
            src_stage_mask: HalaPipelineStageFlags(HalaPipelineStageFlags::COLOR_ATTACHMENT_OUTPUT),
            dst_stage_mask: HalaPipelineStageFlags(HalaPipelineStageFlags::COLOR_ATTACHMENT_OUTPUT),
            src_access_mask: HalaAccessFlags(0),
            dst_access_mask: HalaAccessFlags(
                HalaAccessFlags::COLOR_ATTACHMENT_READ | HalaAccessFlags::COLOR_ATTACHMENT_WRITE,
            ),
            dependency_flags: HalaDependencyFlags(0),
        }
    }

    /// The one graphics subpass of a render pass that is given no subpasses
    /// of its own: it writes every colour attachment, in their order, and
    /// the depth and stencil attachment behind them if there is one; it
    /// reads, resolves and preserves nothing.
    pub fn default_subpass(color_attachment_count: u32, has_depth_stencil: bool) -> (subpass:
        HalaSubpassDescription)
        ensures
            subpass.pipeline_bind_point == HalaPipelineBindPoint(HalaPipelineBindPoint::GRAPHICS),
            subpass.input_attachments@.len() == 0,
            subpass.resolve_attachments@.len() == 0,
            subpass.preserve_attachments@.len() == 0,
            subpass.color_attachments@ == Seq::new(
                color_attachment_count as nat,
                |i: int| Self::spec_color_reference(i),
            ),
            subpass.depth_stencil_attachment == if has_depth_stencil {
                Some(Self::spec_depth_stencil_reference(color_attachment_count as int))
            } else {
                None
            },
    {
        let mut color_attachments: Vec<HalaAttachmentReference> = Vec::new();
        let mut index: u32 = 0;
        while index < color_attachment_count
            invariant
                index <= color_attachment_count,
                color_attachments@ == Seq::new(
                    index as nat,
                    |i: int| Self::spec_color_reference(i),
                ),
            decreases color_attachment_count - index,
        {
            color_attachments.push(
                HalaAttachmentReference {
                    attachment: index,
                    layout: HalaImageLayout::from_raw(HalaImageLayout::COLOR_ATTACHMENT_OPTIMAL),
                    aspect_mask: HalaImageAspectFlags::from_raw(HalaImageAspectFlags::COLOR),
                },
            );
            index = index + 1;
        }
        let depth_stencil_attachment = if has_depth_stencil {
            Some(
                HalaAttachmentReference {
                    attachment: color_attachment_count,
                    layout: HalaImageLayout::from_raw(
                        HalaImageLayout::DEPTH_STENCIL_ATTACHMENT_OPTIMAL,
                    ),
                    aspect_mask: HalaImageAspectFlags::from_raw(
                        HalaImageAspectFlags::DEPTH | HalaImageAspectFlags::STENCIL,
                    ),
                },
            )
        } else {
            None
        };
        HalaSubpassDescription {
            pipeline_bind_point: HalaPipelineBindPoint::from_raw(HalaPipelineBindPoint::GRAPHICS),
            input_attachments: Vec::new(),
            color_attachments,
            resolve_attachments: Vec::new(),
            depth_stencil_attachment,
            preserve_attachments: Vec::new(),
        }
    }

    /// The dependency of a render pass that is given no dependencies of its
    /// own.
    pub fn default_dependency() -> (dependency: HalaSubpassDependency)
        ensures
            dependency == Self::spec_default_dependency(),
    {
        HalaSubpassDependency {
            src_subpass: SUBPASS_EXTERNAL,
            dst_subpass: 0,
            src_stage_mask: HalaPipelineStageFlags::from_raw(
                HalaPipelineStageFlags::COLOR_ATTACHMENT_OUTPUT,
            ),
            dst_stage_mask: HalaPipelineStageFlags::from_raw(
                HalaPipelineStageFlags::COLOR_ATTACHMENT_OUTPUT,
            ),
            src_access_mask: HalaAccessFlags::from_raw(0),
            dst_access_mask: HalaAccessFlags::from_raw(
                HalaAccessFlags::COLOR_ATTACHMENT_READ | HalaAccessFlags::COLOR_ATTACHMENT_WRITE,
            ),
            dependency_flags: HalaDependencyFlags::from_raw(0),
        }
    }

    /// The render pass with the given native handle, which was created with
    /// the given attachments.
    pub fn new(
        raw: u64,
        color_attachment_descs: &[HalaRenderPassAttachmentDesc],
        depth_stencil_attachment_descs: Option<&[HalaRenderPassAttachmentDesc]>,
    ) -> (render_pass: Self)
        ensures
            render_pass.raw == raw,
            render_pass.color_attachment_descs@ == color_attachment_descs@,
            render_pass.depth_stencil_attachment_descs@ == match depth_stencil_attachment_descs {
                Some(descs) => descs@,
                None => Seq::<HalaRenderPassAttachmentDesc>::empty(),
            },
    {
        HalaRenderPass {
            raw,
            color_attachment_descs: slice_to_vec(color_attachment_descs),
            depth_stencil_attachment_descs: match depth_stencil_attachment_descs {
                Some(descs) => slice_to_vec(descs),
                None => Vec::new(),
            },
        }
    }

    /// The call that gives the render pass up.
    pub fn destroy(&self) -> (call: HalaDeviceCall)
        ensures
            call == (HalaDeviceCall::Destroy { kind: HalaObjectKind::RenderPass, handle: self.raw }),
    {
        HalaDeviceCall::Destroy { kind: HalaObjectKind::RenderPass, handle: self.raw }
    }
}

impl HalaFrameBufferSet {
    /// The set of the framebuffers with the given native handles.
    pub fn new(raw: Vec<u64>) -> (set: Self)
        ensures
            set.raw@ == raw@,
    {
        HalaFrameBufferSet { raw }
    }

    /// The calls that give the framebuffers up, in their order.
    pub fn destroy(&self) -> (calls: Vec<HalaDeviceCall>)
        ensures
            calls@ == Seq::new(
                self.raw@.len(),
                |i: int|
                    HalaDeviceCall::Destroy { kind: HalaObjectKind::Framebuffer, handle: self.raw@[i] },
            ),
    {
        let mut calls: Vec<HalaDeviceCall> = Vec::new();
        let mut i: usize = 0;
        while i < self.raw.len()
            invariant
                i <= self.raw@.len(),
                calls@ == Seq::new(
                    i as nat,
                    |k: int|
                        HalaDeviceCall::Destroy {
                            kind: HalaObjectKind::Framebuffer,
                            handle: self.raw@[k],
                        },
                ),
            decreases self.raw@.len() - i,
        {
            calls.push(HalaDeviceCall::Destroy { kind: HalaObjectKind::Framebuffer, handle: self.raw[i] });
            i = i + 1;
        }
        calls
    }
}

} // verus!
