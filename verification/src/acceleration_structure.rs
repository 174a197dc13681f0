//! Acceleration structures: the buffers that a build needs, the aligned
//! scratch address, and the blocking submission of the build.

use crate::align::{align_up, lemma_align_up_bounds, spec_align_up, spec_is_aligned};
use crate::buffer::{HalaBuffer, HalaBufferDesc, HalaBufferUsageFlags};
use crate::command_buffer::HalaCommandBufferSet;
use crate::device::{HalaCallSequence, HalaCommand, HalaDeviceCall, HalaObjectKind, HalaQueue};
use crate::error::{HalaGfxError, HalaGfxErrorView};
use crate::format::HalaFormat;
use crate::logical_device::{HalaLogicalDevice, HalaMemoryLocation};
use vstd::string::StringExecFns;
use vstd::prelude::*;

verus! {

/// The index type.
#[derive(Clone, Copy, PartialEq, Eq, Structural, PartialOrd, Ord, Hash, Debug)]
pub struct HalaIndexType(pub i32);

impl Default for HalaIndexType {
    fn default() -> (value: Self)
        ensures
            value.0 == 0,
    {
        Self(0)
    }
}

impl HalaIndexType {
    pub const UINT16: i32 = 0;
    pub const UINT32: i32 = 1;

    /// The value with the given raw code.
    pub fn from_raw(x: i32) -> (value: Self)
        ensures
            value.0 == x,
    {
        Self(x)
    }

    /// The raw code of the value.
    pub fn as_raw(self) -> (x: i32)
        ensures
            x == self.0,
    {
        self.0
    }
}


#[derive(Clone, Copy, PartialEq, Eq, Structural, PartialOrd, Ord, Hash, Debug)]
pub struct HalaAccelerationStructureLevel(pub i32);

impl Default for HalaAccelerationStructureLevel {
    fn default() -> (value: Self)
        ensures
            value.0 == 0,
    {
        Self(0)
    }
}

impl HalaAccelerationStructureLevel {
    pub const TOP_LEVEL: i32 = 0;
    pub const BOTTOM_LEVEL: i32 = 1;
    pub const GENERIC: i32 = 2;

    /// The value with the given raw code.
    pub fn from_raw(x: i32) -> (value: Self)
        ensures
            value.0 == x,
    {
        Self(x)
    }

    /// The raw code of the value.
    pub fn as_raw(self) -> (x: i32)
        ensures
            x == self.0,
    {
        self.0
    }
}

/// The geometry type.
#[derive(Clone, Copy, PartialEq, Eq, Structural, PartialOrd, Ord, Hash, Debug)]
pub struct HalaGeometryType(pub i32);

impl Default for HalaGeometryType {
    fn default() -> (value: Self)
        ensures
            value.0 == 0,
    {
        Self(0)
    }
}

impl HalaGeometryType {
    pub const TRIANGLES: i32 = 0;
    pub const AABBS: i32 = 1;
    pub const INSTANCES: i32 = 2;

    /// The value with the given raw code.
    pub fn from_raw(x: i32) -> (value: Self)
        ensures
            value.0 == x,
    {
        Self(x)
    }

    /// The raw code of the value.
    pub fn as_raw(self) -> (x: i32)
        ensures
            x == self.0,
    {
        self.0
    }
}

/// The geometry flags.
#[derive(Clone, Copy, PartialEq, Eq, Structural, PartialOrd, Ord, Hash, Debug)]
pub struct HalaGeometryFlags(pub u32);

impl Default for HalaGeometryFlags {
    fn default() -> (value: Self)
        ensures
            value.0 == 0,
    {
        Self(0)
    }
}

impl HalaGeometryFlags {
    pub const OPAQUE: u32 = 1;
    pub const NO_DUPLICATE_ANY_HIT_INVOCATION: u32 = 2;

    /// The value with no bit set.
    pub fn empty() -> (value: Self)
        ensures
            value.0 == 0,
    {
        Self(0)
    }

    /// The value with the given raw bits.
    pub fn from_raw(x: u32) -> (value: Self)
        ensures
            value.0 == x,
    {
        Self(x)
    }

    /// The raw bits of the value.
    pub fn as_raw(self) -> (x: u32)
        ensures
            x == self.0,
    {
        self.0
    }

    /// Whether no bit is set.
    pub fn is_empty(self) -> (b: bool)
        ensures
            b == (self.0 == 0),
    {
        self.0 == 0
    }

    /// Whether the two values share a bit.
    pub fn intersects(self, other: Self) -> (b: bool)
        ensures
            b == (self.0 & other.0 != 0),
    {
        self.0 & other.0 != 0
    }

    /// Whether every bit of `other` is set in `self`.
    pub fn contains(self, other: Self) -> (b: bool)
        ensures
            b == (self.0 & other.0 == other.0),
    {
        self.0 & other.0 == other.0
    }
}

impl core::ops::BitOr for HalaGeometryFlags {
    type Output = Self;

    fn bitor(self, rhs: Self) -> (value: Self) {
        Self(self.0 | rhs.0)
    }
}

impl vstd::std_specs::ops::BitOrSpecImpl for HalaGeometryFlags {
    open spec fn obeys_bitor_spec() -> bool {
        true
    }

    open spec fn bitor_req(self, rhs: Self) -> bool {
        true
    }

    open spec fn bitor_spec(self, rhs: Self) -> Self {
        Self(self.0 | rhs.0)
    }
}

impl core::ops::BitAnd for HalaGeometryFlags {
    type Output = Self;

    fn bitand(self, rhs: Self) -> (value: Self) {
        Self(self.0 & rhs.0)
    }
}

impl vstd::std_specs::ops::BitAndSpecImpl for HalaGeometryFlags {
    open spec fn obeys_bitand_spec() -> bool {
        true
    }

    open spec fn bitand_req(self, rhs: Self) -> bool {
        true
    }

    open spec fn bitand_spec(self, rhs: Self) -> Self {
        Self(self.0 & rhs.0)
    }
}

impl core::ops::BitXor for HalaGeometryFlags {
    type Output = Self;

    fn bitxor(self, rhs: Self) -> (value: Self) {
        Self(self.0 ^ rhs.0)
    }
}

impl vstd::std_specs::ops::BitXorSpecImpl for HalaGeometryFlags {
    open spec fn obeys_bitxor_spec() -> bool {
        true
    }

    open spec fn bitxor_req(self, rhs: Self) -> bool {
        true
    }

    open spec fn bitxor_spec(self, rhs: Self) -> Self {
        Self(self.0 ^ rhs.0)
    }
}

impl core::ops::Not for HalaGeometryFlags {
    type Output = Self;

    fn not(self) -> (value: Self) {
        Self(!self.0)
    }
}

impl vstd::std_specs::ops::NotSpecImpl for HalaGeometryFlags {
    open spec fn obeys_not_spec() -> bool {
        true
    }

    open spec fn not_req(self) -> bool {
        true
    }

    open spec fn not_spec(self) -> Self {
        Self(!self.0)
    }
}

/// The geometry instance flags.
#[derive(Clone, Copy, PartialEq, Eq, Structural, PartialOrd, Ord, Hash, Debug)]
pub struct HalaGeometryInstanceFlags(pub u8);

impl Default for HalaGeometryInstanceFlags {
    fn default() -> (value: Self)
        ensures
            value.0 == 0,
    {
        Self(0)
    }
}

impl HalaGeometryInstanceFlags {
    pub const TRIANGLE_FACING_CULL_DISABLE: u8 = 1;
    pub const TRIANGLE_FLIP_FACING: u8 = 2;
    pub const FORCE_OPAQUE: u8 = 4;
    pub const FORCE_NO_OPAQUE: u8 = 8;
    pub const TRIANGLE_FRONT_COUNTERCLOCKWISE: u8 = 2;

    /// The value with no bit set.
    pub fn empty() -> (value: Self)
        ensures
            value.0 == 0,
    {
        Self(0)
    }

    /// The value with the given raw bits.
    pub fn from_raw(x: u8) -> (value: Self)
        ensures
            value.0 == x,
    {
        Self(x)
    }

    /// The raw bits of the value.
    pub fn as_raw(self) -> (x: u8)
        ensures
            x == self.0,
    {
        self.0
    }

    /// Whether no bit is set.
    pub fn is_empty(self) -> (b: bool)
        ensures
            b == (self.0 == 0),
    {
        self.0 == 0
    }

    /// Whether the two values share a bit.
    pub fn intersects(self, other: Self) -> (b: bool)
        ensures
            b == (self.0 & other.0 != 0),
    {
        self.0 & other.0 != 0
    }

    /// Whether every bit of `other` is set in `self`.
    pub fn contains(self, other: Self) -> (b: bool)
        ensures
            b == (self.0 & other.0 == other.0),
    {
        self.0 & other.0 == other.0
    }
}

impl core::ops::BitOr for HalaGeometryInstanceFlags {
    type Output = Self;

    fn bitor(self, rhs: Self) -> (value: Self) {
        Self(self.0 | rhs.0)
    }
}

impl vstd::std_specs::ops::BitOrSpecImpl for HalaGeometryInstanceFlags {
    open spec fn obeys_bitor_spec() -> bool {
        true
    }

    open spec fn bitor_req(self, rhs: Self) -> bool {
        true
    }

    open spec fn bitor_spec(self, rhs: Self) -> Self {
        Self(self.0 | rhs.0)
    }
}

impl core::ops::BitAnd for HalaGeometryInstanceFlags {
    type Output = Self;

    fn bitand(self, rhs: Self) -> (value: Self) {
        Self(self.0 & rhs.0)
    }
}

impl vstd::std_specs::ops::BitAndSpecImpl for HalaGeometryInstanceFlags {
    open spec fn obeys_bitand_spec() -> bool {
        true
    }

    open spec fn bitand_req(self, rhs: Self) -> bool {
        true
    }

    open spec fn bitand_spec(self, rhs: Self) -> Self {
        Self(self.0 & rhs.0)
    }
}

impl core::ops::BitXor for HalaGeometryInstanceFlags {
    type Output = Self;

    fn bitxor(self, rhs: Self) -> (value: Self) {
        Self(self.0 ^ rhs.0)
    }
}

impl vstd::std_specs::ops::BitXorSpecImpl for HalaGeometryInstanceFlags {
    open spec fn obeys_bitxor_spec() -> bool {
        true
    }

    open spec fn bitxor_req(self, rhs: Self) -> bool {
        true
    }

    open spec fn bitxor_spec(self, rhs: Self) -> Self {
        Self(self.0 ^ rhs.0)
    }
}

impl core::ops::Not for HalaGeometryInstanceFlags {
    type Output = Self;

    fn not(self) -> (value: Self) {
        Self(!self.0)
    }
}

impl vstd::std_specs::ops::NotSpecImpl for HalaGeometryInstanceFlags {
    open spec fn obeys_not_spec() -> bool {
        true
    }

    open spec fn not_req(self) -> bool {
        true
    }

    open spec fn not_spec(self) -> Self {
        Self(!self.0)
    }
}

/// The acceleration structure geometry triangles data.
#[derive(Clone, Copy, PartialEq, Eq, Structural, Debug)]
pub struct HalaAccelerationStructureGeometryTrianglesData {
    pub vertex_format: HalaFormat,
    pub vertex_data_address: u64,
    pub vertex_stride: u64,
    pub vertex_count: u32,
    pub index_type: HalaIndexType,
    pub index_data_address: u64,
    pub transform_data_address: u64,
}

impl Default for HalaAccelerationStructureGeometryTrianglesData {
    fn default() -> (data: Self)
        ensures
            data == (HalaAccelerationStructureGeometryTrianglesData {
                vertex_format: HalaFormat(0),
                vertex_data_address: 0,
                vertex_stride: 0,
                vertex_count: 0,
                index_type: HalaIndexType(0),
                index_data_address: 0,
                transform_data_address: 0,
            }),
    {
        HalaAccelerationStructureGeometryTrianglesData {
            vertex_format: HalaFormat(0),
            vertex_data_address: 0,
            vertex_stride: 0,
            vertex_count: 0,
            index_type: HalaIndexType(0),
            index_data_address: 0,
            transform_data_address: 0,
        }
    }
}

/// The acceleration structure geometry aabbs data.
#[derive(Clone, Copy, PartialEq, Eq, Structural, Debug)]
pub struct HalaAccelerationStructureGeometryAabbsData {
    pub data_address: u64,
    pub stride: u64,
}

impl Default for HalaAccelerationStructureGeometryAabbsData {
    fn default() -> (data: Self)
        ensures
            data == (HalaAccelerationStructureGeometryAabbsData { data_address: 0, stride: 0 }),
    {
        HalaAccelerationStructureGeometryAabbsData { data_address: 0, stride: 0 }
    }
}

/// The acceleration structure geometry instances data.
#[derive(Clone, Copy, PartialEq, Eq, Structural, Debug)]
pub struct HalaAccelerationStructureGeometryInstancesData {
    pub array_of_pointers: bool,
    pub data_address: u64,
}

impl Default for HalaAccelerationStructureGeometryInstancesData {
    fn default() -> (data: Self)
        ensures
            data == (HalaAccelerationStructureGeometryInstancesData {
                array_of_pointers: false,
                data_address: 0,
            }),
    {
        HalaAccelerationStructureGeometryInstancesData { array_of_pointers: false, data_address: 0 }
    }
}

/// The acceleration structure geometry.
#[derive(Clone, Copy, PartialEq, Eq, Structural, Debug)]
pub struct HalaAccelerationStructureGeometry {
    pub ty: HalaGeometryType,
    pub flags: HalaGeometryFlags,
    pub triangles_data: Option<HalaAccelerationStructureGeometryTrianglesData>,
    pub aabbs_data: Option<HalaAccelerationStructureGeometryAabbsData>,
    pub instances_data: Option<HalaAccelerationStructureGeometryInstancesData>,
}

impl Default for HalaAccelerationStructureGeometry {
    fn default() -> (geometry: Self)
        ensures
            geometry == (HalaAccelerationStructureGeometry {
                ty: HalaGeometryType(0),
                flags: HalaGeometryFlags(0),
                triangles_data: None,
                aabbs_data: None,
                instances_data: None,
            }),
    {
        HalaAccelerationStructureGeometry {
            ty: HalaGeometryType(0),
            flags: HalaGeometryFlags(0),
            triangles_data: None,
            aabbs_data: None,
            instances_data: None,
        }
    }
}

/// The acceleration structure build range info.
#[derive(Clone, Copy, PartialEq, Eq, Structural, Debug)]
pub struct HalaAccelerationStructureBuildRangeInfo {
    pub primitive_count: u32,
    pub primitive_offset: u32,
    pub first_vertex: u32,
    pub transform_offset: u32,
}

impl Default for HalaAccelerationStructureBuildRangeInfo {
    fn default() -> (info: Self)
        ensures
            info == (HalaAccelerationStructureBuildRangeInfo {
                primitive_count: 0,
                primitive_offset: 0,
                first_vertex: 0,
                transform_offset: 0,
            }),
    {
        HalaAccelerationStructureBuildRangeInfo {
            primitive_count: 0,
            primitive_offset: 0,
            first_vertex: 0,
            transform_offset: 0,
        }
    }
}

/// The acceleration structure: its native handle, the buffer that backs it
/// and its device address.
#[derive(Clone, Copy, PartialEq, Eq, Structural, Debug)]
pub struct HalaAccelerationStructure {
    pub raw: u64,
    pub buffer: HalaBuffer,
    pub address: u64,
}

/// The scratch address that a build uses: the device address of the scratch
/// buffer, rounded up to the scratch offset alignment of the device.
pub open spec fn spec_scratch_address(address: u64, alignment: u32) -> int {
    spec_align_up(address as int, alignment as int)
}

/// The size of the scratch buffer: what the device reports as needed, and
/// one alignment more, so that the rounded address leaves room enough.
pub open spec fn spec_scratch_buffer_size(build_scratch_size: u64, alignment: u32) -> int {
    build_scratch_size + alignment
}

/// For any size that the device asks for and any scratch offset alignment
/// other than zero, the rounded address is not below the address of the
/// scratch buffer, is a multiple of the alignment, and leaves the whole of
/// the size asked for inside the buffer.
pub proof fn lemma_scratch_address_is_aligned(address: u64, build_scratch_size: u64, alignment: u32)
    requires
        alignment > 0,
    ensures
        spec_scratch_address(address, alignment) >= address,
        spec_is_aligned(spec_scratch_address(address, alignment), alignment as int),
        spec_scratch_address(address, alignment) - address < alignment,
        spec_scratch_address(address, alignment) + build_scratch_size <= address
            + spec_scratch_buffer_size(build_scratch_size, alignment),
{
    lemma_align_up_bounds(address as int, alignment as int);
}

impl HalaAccelerationStructure {
    /// The single build command, submitted on the first graphics command
    /// buffer to the first graphics queue.
    pub open spec fn spec_build(
        logical_device: HalaLogicalDevice,
        command_buffer: u64,
        acceleration_structure: u64,
        scratch_address: u64,
    ) -> Seq<HalaDeviceCall> {
        HalaLogicalDevice::spec_execute_and_submit(
            command_buffer,
            seq![
                HalaDeviceCall::Record {
                    command_buffer,
                    command: HalaCommand::BuildAccelerationStructure {
                        acceleration_structure,
                        scratch_address,
                    },
                },
            ],
            HalaQueue { family_index: logical_device.graphics_queue_family_index, queue_index: 0 },
        )
    }

    /// What the backing storage is created from: as large as the device
    /// reports, in device-only memory, usable as storage of an acceleration
    /// structure and addressable by shaders.
    pub fn storage_buffer_desc(acceleration_structure_size: u64, debug_name: &str) -> (desc:
        HalaBufferDesc)
        ensures
            desc.size == acceleration_structure_size,
            desc.usage_flags.0 == HalaBufferUsageFlags::ACCELERATION_STRUCTURE_STORAGE
                | HalaBufferUsageFlags::SHADER_DEVICE_ADDRESS,
            desc.memory_location is GpuOnly,
            !desc.use_managed_memory,
            desc.debug_name@ == debug_name@ + ".buffer"@,
    {
        HalaBufferDesc {
            size: acceleration_structure_size,
            usage_flags: HalaBufferUsageFlags::from_raw(
                HalaBufferUsageFlags::ACCELERATION_STRUCTURE_STORAGE
                    | HalaBufferUsageFlags::SHADER_DEVICE_ADDRESS,
            ),
            memory_location: HalaMemoryLocation::GpuOnly,
            use_managed_memory: false,
            debug_name: debug_name.to_owned().concat(".buffer"),
        }
    }

    /// What the scratch buffer is created from: one alignment larger than
    /// the scratch size that the device reports, in device-only memory,
    /// usable as a storage buffer and addressable by shaders. A size that 64
    /// bits do not hold is refused.
    pub fn scratch_buffer_desc(
        build_scratch_size: u64,
        alignment: u32,
        debug_name: &str,
    ) -> (result: Result<HalaBufferDesc, HalaGfxError>)
        ensures
            spec_scratch_buffer_size(build_scratch_size, alignment) > u64::MAX ==> (result matches Err(
                e,
            ) && e@ == HalaGfxError::spec_plain("The scratch buffer is too large."@)),
            spec_scratch_buffer_size(build_scratch_size, alignment) <= u64::MAX ==> (result matches Ok(
                desc,
            ) && desc.size == spec_scratch_buffer_size(build_scratch_size, alignment)
                && desc.usage_flags.0 == HalaBufferUsageFlags::STORAGE_BUFFER
                | HalaBufferUsageFlags::SHADER_DEVICE_ADDRESS && desc.memory_location is GpuOnly
                && !desc.use_managed_memory && desc.debug_name@ == debug_name@
                + ".scratch.buffer"@),
    {
        match build_scratch_size.checked_add(alignment as u64) {
            Some(size) => Ok(
                HalaBufferDesc {
                    size,
                    usage_flags: HalaBufferUsageFlags::from_raw(
                        HalaBufferUsageFlags::STORAGE_BUFFER
                            | HalaBufferUsageFlags::SHADER_DEVICE_ADDRESS,
                    ),
                    memory_location: HalaMemoryLocation::GpuOnly,
                    use_managed_memory: false,
                    debug_name: debug_name.to_owned().concat(".scratch.buffer"),
                },
            ),
            None => Err(HalaGfxError::new("The scratch buffer is too large.", None)),
        }
    }

    /// What `scratch_address` returns.
    pub open spec fn spec_scratch_address_result(address: u64, alignment: u32) -> Result<
        u64,
        HalaGfxErrorView,
    > {
        if alignment == 0 {
            Err(HalaGfxError::spec_plain("The scratch offset alignment must not be zero."@))
        } else if spec_scratch_address(address, alignment) > u64::MAX {
            Err(HalaGfxError::spec_plain("The scratch address exceeds the device address range."@))
        } else {
            Ok(spec_scratch_address(address, alignment) as u64)
        }
    }

    /// The address that the build writes its scratch data to: the device
    /// address of the scratch buffer, rounded up to the scratch offset
    /// alignment of the device. An alignment of zero is refused, and so is
    /// an address whose rounding passes 64 bits.
    pub fn scratch_address(address: u64, alignment: u32) -> (result: Result<u64, HalaGfxError>)
        ensures
            match Self::spec_scratch_address_result(address, alignment) {
                Ok(aligned) => result == Ok::<u64, HalaGfxError>(aligned),
                Err(refusal) => result matches Err(e) && e@ == refusal,
            },
    {
        if alignment == 0 {
            return Err(HalaGfxError::new("The scratch offset alignment must not be zero.", None));
        }
        match align_up(address, alignment as u64) {
            Some(aligned) => Ok(aligned),
            None => Err(
                HalaGfxError::new("The scratch address exceeds the device address range.", None),
            ),
        }
    }

    /// The blocking submission of the one command that builds the
    /// structure, on the first command buffer of the graphics set and the
    /// first graphics queue.
    pub fn build(
        logical_device: &HalaLogicalDevice,
        graphics_command_buffers: &HalaCommandBufferSet,
        acceleration_structure: u64,
        scratch_address: u64,
    ) -> (sequence: HalaCallSequence)
        requires
            graphics_command_buffers.raw@.len() > 0,
        ensures
            sequence.spec_position() == 0,
            !sequence.spec_failed(),
            sequence.spec_calls() == Self::spec_build(
                *logical_device,
                graphics_command_buffers.raw@[0],
                acceleration_structure,
                scratch_address,
            ),
    {
        let mut recording: Vec<HalaDeviceCall> = Vec::new();
        recording.push(
            HalaDeviceCall::Record {
                command_buffer: graphics_command_buffers.raw[0],
                command: HalaCommand::BuildAccelerationStructure {
                    acceleration_structure,
                    scratch_address,
                },
            },
        );
        logical_device.graphics_execute_and_submit(graphics_command_buffers, 0, recording, 0)
    }

    /// The record of a structure that has been built. Its device address is
    /// asked of the driver only once the build has been waited for, so the
    /// sequence of the build is shown here: unless every call of it has
    /// succeeded, there is no structure.
    pub fn new(raw: u64, buffer: HalaBuffer, address: u64, build: &HalaCallSequence) -> (result:
        Result<Self, HalaGfxError>)
        ensures
            build.spec_is_done() ==> result == Ok::<Self, HalaGfxError>(
                HalaAccelerationStructure { raw, buffer, address },
            ),
            !build.spec_is_done() ==> (result matches Err(e) && e@ == HalaGfxError::spec_plain(
                "The acceleration structure has not been built."@,
            )),
    {
        if build.is_done() {
            Ok(HalaAccelerationStructure { raw, buffer, address })
        } else {
            Err(HalaGfxError::new("The acceleration structure has not been built.", None))
        }
    }

    /// The calls that give the structure up: the structure itself first,
    /// then the handle of its backing buffer, then the memory of that.
    pub fn destroy(self) -> (calls: Vec<HalaDeviceCall>)
        ensures
            calls@ == seq![
                HalaDeviceCall::Destroy {
                    kind: HalaObjectKind::AccelerationStructure,
                    handle: self.raw,
                },
                HalaDeviceCall::Destroy { kind: HalaObjectKind::Buffer, handle: self.buffer.raw },
                HalaDeviceCall::Destroy {
                    kind: HalaObjectKind::Allocation,
                    handle: self.buffer.raw,
                },
            ],
    {
        let mut calls: Vec<HalaDeviceCall> = Vec::new();
        calls.push(
            HalaDeviceCall::Destroy {
                kind: HalaObjectKind::AccelerationStructure,
                handle: self.raw,
            },
        );
        calls.push(HalaDeviceCall::Destroy {
            kind: HalaObjectKind::Buffer,
            handle: self.buffer.raw,
        });
        calls.push(
            HalaDeviceCall::Destroy { kind: HalaObjectKind::Allocation, handle: self.buffer.raw },
        );
        calls
    }
}

} // verus!
