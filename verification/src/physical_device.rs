//! The choice of a physical device and of a memory type.

use crate::error::HalaGfxError;
use crate::{HalaGPURequirements, HalaGPUType};
use vstd::prelude::*;

verus! {

/// The reserved descriptor count for the fixed descriptor sets.
pub const RESERVED_DESCRIPTOR_COUNT: usize = 1024;

/// The raw type of a physical device that is an integrated GPU.
pub const DEVICE_TYPE_INTEGRATED_GPU: i32 = 1;

/// The raw type of a physical device that is a discrete GPU.
pub const DEVICE_TYPE_DISCRETE_GPU: i32 = 2;

/// The raw type of a physical device that is a virtual GPU.
pub const DEVICE_TYPE_VIRTUAL_GPU: i32 = 3;

/// The raw type of a physical device that is a CPU.
pub const DEVICE_TYPE_CPU: i32 = 4;

/// The largest number of memory types that a physical device reports.
pub const MAX_MEMORY_TYPES: usize = 32;

/// The GPU queue family: what the physical device reports of it, and
/// whether it can present to the surface.
#[derive(Clone, Copy, PartialEq, Eq, Structural, Debug)]
pub struct HalaQueueFamily {
    pub index: u32,
    pub queue_count: u32,
    /// The capabilities of the queues, as raw queue flag bits.
    pub queue_flags: u32,
    pub supports_present: bool,
}

impl HalaQueueFamily {
    pub const GRAPHICS: u32 = 0x1;
    pub const COMPUTE: u32 = 0x2;
    pub const TRANSFER: u32 = 0x4;
    pub const VIDEO_DECODE: u32 = 0x20;
    pub const VIDEO_ENCODE: u32 = 0x40;
    pub const OPTICAL_FLOW: u32 = 0x100;
}

/// A memory type of a physical device.
#[derive(Clone, Copy, PartialEq, Eq, Structural, Debug)]
pub struct HalaMemoryType {
    /// The raw memory property flags.
    pub property_flags: u32,
    pub heap_index: u32,
}

/// What a physical device reports of itself before it is chosen.
#[derive(Clone, Copy, PartialEq, Eq, Structural, Debug)]
pub struct HalaPhysicalDeviceProperties {
    /// The raw device type.
    pub device_type: i32,
    /// The packed version of the API that the device supports.
    pub api_version: u32,
}

/// The physical device.
#[derive(Clone, Debug)]
pub struct HalaPhysicalDevice {
    pub raw: u64,
    pub properties: HalaPhysicalDeviceProperties,
    pub memory_types: Vec<HalaMemoryType>,
    pub enable_buffer_device_address: bool,
    pub device_name: String,
}

/// A version of the API packed into 32 bits: the variant in the highest
/// three bits, then seven bits of major number, ten of minor number and
/// twelve of patch number. A number too large for its bits runs into the
/// bits above.
pub open spec fn spec_make_api_version(variant: u32, major: u32, minor: u32, patch: u32) -> u32 {
    (variant << 29) | (major << 22) | (minor << 12) | patch
}

/// Packs a version with `ash::vk::make_api_version`, which shifts the
/// variant by 29 bits, the major number by 22 and the minor number by 12
/// and joins them and the patch number with bitwise or.
#[verifier::external_body]
fn vk_make_api_version(variant: u32, major: u32, minor: u32, patch: u32) -> (version: u32)
    ensures
        version == spec_make_api_version(variant, major, minor, patch),
{
    ash::vk::make_api_version(variant, major, minor, patch)
}

/// Whether the requirements rule a device out by its type: a GPU is asked
/// for, and the device is a GPU of a kind that is not wanted.
pub open spec fn spec_type_is_unwanted(gpu_req: HalaGPURequirements, device_type: i32) -> bool {
    gpu_req.is_gpu && if device_type == DEVICE_TYPE_DISCRETE_GPU {
        !gpu_req.gpu_types@.contains(HalaGPUType::Discrete)
    } else if device_type == DEVICE_TYPE_INTEGRATED_GPU {
        !gpu_req.gpu_types@.contains(HalaGPUType::Integrated)
    } else if device_type == DEVICE_TYPE_VIRTUAL_GPU {
        !gpu_req.gpu_types@.contains(HalaGPUType::Virtual)
    } else {
        false
    }
}

/// Whether a device meets the requirements: its type is not ruled out, it
/// is no CPU where a GPU is asked for, and it supports the version of the
/// API that is asked for.
pub open spec fn spec_is_suitable(gpu_req: HalaGPURequirements, device: HalaPhysicalDeviceProperties) -> bool {
    &&& !spec_type_is_unwanted(gpu_req, device.device_type)
    &&& !(gpu_req.is_gpu && device.device_type == DEVICE_TYPE_CPU)
    &&& device.api_version >= spec_make_api_version(
        0,
        gpu_req.version.0,
        gpu_req.version.1,
        gpu_req.version.2,
    )
}

/// The last suitable device among the first `n`.
pub open spec fn spec_last_suitable(
    gpu_req: HalaGPURequirements,
    devices: Seq<HalaPhysicalDeviceProperties>,
    n: int,
) -> Option<usize>
    decreases n,
{
    if n <= 0 {
        None
    } else if spec_is_suitable(gpu_req, devices[n - 1]) {
        Some((n - 1) as usize)
    } else {
        spec_last_suitable(gpu_req, devices, n - 1)
    }
}

/// Whether the device at `i` is a suitable discrete GPU.
pub open spec fn spec_is_suitable_discrete(
    gpu_req: HalaGPURequirements,
    devices: Seq<HalaPhysicalDeviceProperties>,
    i: int,
) -> bool {
    spec_is_suitable(gpu_req, devices[i]) && devices[i].device_type == DEVICE_TYPE_DISCRETE_GPU
}

/// Whether `chosen` is the device that the requirements choose: the first
/// suitable discrete GPU or, where no discrete GPU is suitable, the last
/// suitable device.
pub open spec fn spec_is_chosen(
    gpu_req: HalaGPURequirements,
    devices: Seq<HalaPhysicalDeviceProperties>,
    chosen: int,
) -> bool {
    &&& 0 <= chosen < devices.len()
    &&& spec_is_suitable(gpu_req, devices[chosen])
    &&& forall|i: int| 0 <= i < chosen ==> !spec_is_suitable_discrete(gpu_req, devices, i)
    &&& devices[chosen].device_type == DEVICE_TYPE_DISCRETE_GPU || forall|i: int|
        chosen < i < devices.len() ==> !spec_is_suitable(gpu_req, #[trigger] devices[i])
}

/// The first memory type at or after `from` that the bit mask allows and
/// that has all the wanted properties.
pub open spec fn spec_find_memory_type(
    memory_types: Seq<HalaMemoryType>,
    memory_type_bits: u32,
    property_flags: u32,
    from: int,
) -> Option<u32>
    decreases memory_types.len() - from,
{
    if from < 0 || from >= memory_types.len() || from >= 32 {
        None
    } else if memory_type_bits & (1u32 << (from as u32)) != 0 && memory_types[from].property_flags
        & property_flags == property_flags {
        Some(from as u32)
    } else {
        spec_find_memory_type(memory_types, memory_type_bits, property_flags, from + 1)
    }
}

/// Whether a list of kinds of GPU holds a kind.
fn contains_type(gpu_types: &Vec<HalaGPUType>, wanted: HalaGPUType) -> (found: bool)
    ensures
        found == gpu_types@.contains(wanted),
{
    let mut i: usize = 0;
    while i < gpu_types.len()
        invariant
            i <= gpu_types@.len(),
            forall|j: int| 0 <= j < i ==> gpu_types@[j] != wanted,
        decreases gpu_types@.len() - i,
    {
        if gpu_types[i] == wanted {
            return true;
        }
        i = i + 1;
    }
    false
}

impl HalaPhysicalDevice {
    /// Whether a device meets the requirements.
    pub fn is_suitable(gpu_req: &HalaGPURequirements, device: &HalaPhysicalDeviceProperties) -> (suitable:
        bool)
        ensures
            suitable == spec_is_suitable(*gpu_req, *device),
    {
        let unwanted = gpu_req.is_gpu && if device.device_type == DEVICE_TYPE_DISCRETE_GPU {
            !contains_type(&gpu_req.gpu_types, HalaGPUType::Discrete)
        } else if device.device_type == DEVICE_TYPE_INTEGRATED_GPU {
            !contains_type(&gpu_req.gpu_types, HalaGPUType::Integrated)
        } else if device.device_type == DEVICE_TYPE_VIRTUAL_GPU {
            !contains_type(&gpu_req.gpu_types, HalaGPUType::Virtual)
        } else {
            false
        };
        if unwanted {
            return false;
        }
        if gpu_req.is_gpu && device.device_type == DEVICE_TYPE_CPU {
            return false;
        }
        device.api_version >= vk_make_api_version(
            0,
            gpu_req.version.0,
            gpu_req.version.1,
            gpu_req.version.2,
        )
    }

    /// Chooses among the physical devices of the instance, given in the
    /// order in which the instance lists them: the first suitable discrete
    /// GPU is taken; where no discrete GPU is suitable, the last suitable
    /// device is. Where no device is suitable there is an error.
    pub fn select(gpu_req: &HalaGPURequirements, devices: &[HalaPhysicalDeviceProperties]) -> (result:
        Result<usize, HalaGfxError>)
        ensures
            match result {
                Ok(chosen) => spec_is_chosen(*gpu_req, devices@, chosen as int),
                Err(e) => e@ == HalaGfxError::spec_plain(
                    "Failed to find a suitable physical device."@,
                ) && forall|i: int|
                    0 <= i < devices@.len() ==> !spec_is_suitable(*gpu_req, #[trigger] devices@[i]),
            },
    {
        let mut chosen: Option<usize> = None;
        let mut i: usize = 0;
        while i < devices.len()
            invariant
                i <= devices@.len(),
                forall|j: int| 0 <= j < i ==> !spec_is_suitable_discrete(*gpu_req, devices@, j),
                match chosen {
                    Some(c) => c < i && spec_is_suitable(*gpu_req, devices@[c as int]) && forall|
                        j: int,
                    |
                        c < j < i ==> !spec_is_suitable(*gpu_req, #[trigger] devices@[j]),
                    None => forall|j: int|
                        0 <= j < i ==> !spec_is_suitable(*gpu_req, #[trigger] devices@[j]),
                },
            decreases devices@.len() - i,
        {
            if Self::is_suitable(gpu_req, &devices[i]) {
                if devices[i].device_type == DEVICE_TYPE_DISCRETE_GPU {
                    return Ok(i);
                }
                chosen = Some(i);
            }
            i = i + 1;
        }
        match chosen {
            Some(c) => Ok(c),
            None => Err(HalaGfxError::new("Failed to find a suitable physical device.", None)),
        }
    }

    /// The record of the chosen physical device.
    pub fn new(
        raw: u64,
        properties: HalaPhysicalDeviceProperties,
        memory_types: Vec<HalaMemoryType>,
        enable_buffer_device_address: bool,
        device_name: String,
    ) -> (device: Self)
        ensures
            device.raw == raw,
            device.properties == properties,
            device.memory_types@ == memory_types@,
            device.enable_buffer_device_address == enable_buffer_device_address,
            device.device_name@ == device_name@,
    {
        HalaPhysicalDevice {
            raw,
            properties,
            memory_types,
            enable_buffer_device_address,
            device_name,
        }
    }

    /// The index of the first memory type that the bit mask of a memory
    /// requirement allows and that has all the wanted properties. Only the
    /// first thirty-two memory types count: a device reports no more.
    pub fn find_memory_type_index(&self, memory_type_bits: u32, memory_property_flags: u32) -> (index:
        Option<u32>)
        ensures
            index == spec_find_memory_type(
                self.memory_types@,
                memory_type_bits,
                memory_property_flags,
                0,
            ),
    {
        let mut i: usize = 0;
        while i < self.memory_types.len() && i < MAX_MEMORY_TYPES
            invariant
                i <= self.memory_types@.len(),
                i <= MAX_MEMORY_TYPES,
                spec_find_memory_type(
                    self.memory_types@,
                    memory_type_bits,
                    memory_property_flags,
                    0,
                ) == spec_find_memory_type(
                    self.memory_types@,
                    memory_type_bits,
                    memory_property_flags,
                    i as int,
                ),
            decreases self.memory_types@.len() - i,
        {
            let bit: u32 = 1u32 << (i as u32);
            if memory_type_bits & bit != 0 && self.memory_types[i].property_flags
                & memory_property_flags == memory_property_flags {
                return Some(i as u32);
            }
            i = i + 1;
        }
        None
    }
}

} // verus!
