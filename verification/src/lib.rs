//! A host-side layer over an explicit graphics and compute device, written
//! without I/O.
//!
//! The layer decides which calls are made into the native driver, in which
//! order and with which arguments, and hands each call out as a plain value
//! ([`HalaDeviceCall`]). Whoever owns the driver performs the call and reports
//! how it ended. What the calls do to the device is stated over a mathematical
//! model ([`model`]); the frame cycle is a state machine ([`frame`]) whose
//! invariant is proved; the layouts for ray tracing are proved aligned and
//! contiguous ([`shader_binding_table`], [`acceleration_structure`]).
//!
//! Handles of native objects are raw 64-bit values, zero being the null
//! handle. Enumerations and bit masks of the native API are newtypes over
//! their native integer, with the native values as constants.

use vstd::prelude::*;

pub mod acceleration_structure;
pub mod align;
pub mod barrier;
pub mod buffer;
pub mod command_buffer;
pub mod context;
pub mod descriptor_set;
pub mod device;
pub mod error;
pub mod format;
pub mod frame;
pub mod image;
pub mod logical_device;
pub mod model;
pub mod physical_device;
pub mod pipeline;
pub mod pools;
pub mod query;
pub mod renderpass;
pub mod sampler;
pub mod shader;
pub mod shader_binding_table;
pub mod swapchain;
pub mod text;

pub use crate::acceleration_structure::{
    HalaAccelerationStructure, HalaAccelerationStructureBuildRangeInfo,
    HalaAccelerationStructureGeometry, HalaAccelerationStructureGeometryAabbsData,
    HalaAccelerationStructureGeometryInstancesData, HalaAccelerationStructureGeometryTrianglesData,
    HalaAccelerationStructureLevel, HalaGeometryFlags, HalaGeometryInstanceFlags, HalaGeometryType,
    HalaIndexType,
};
pub use crate::barrier::{
    HalaAccessFlags2, HalaBufferBarrierInfo, HalaImageAspectFlags, HalaImageBarrierInfo,
    HalaImageLayout, HalaMemoryBarrierInfo,
};
pub use crate::buffer::{HalaBuffer, HalaBufferDesc, HalaBufferUsageFlags};
pub use crate::command_buffer::{
    HalaCommandBufferLevel, HalaCommandBufferSet, HalaCommandBufferType,
    HalaCommandBufferUsageFlags, HalaSubpassContents,
};
pub use crate::context::{
    HalaContext, HalaContextParts, HalaRecordingProgress, HalaResizeProgress,
};
pub use crate::descriptor_set::{
    HalaDescriptorBindingFlags, HalaDescriptorSet, HalaDescriptorSetLayoutBinding,
    HalaDescriptorType,
};
pub use crate::device::{
    HalaCallSequence, HalaClearValue, HalaCommand, HalaDeviceCall, HalaObjectKind, HalaQueue,
    HalaRenderingAttachmentInfo,
};
pub use crate::error::{HalaErrorSource, HalaGfxError};
pub use crate::format::HalaFormat;
pub use crate::frame::{HalaFramePhase, HalaFrameReply, HalaFrameStep};
pub use crate::image::{HalaImage, HalaImageUsageFlags};
pub use crate::logical_device::{HalaLogicalDevice, HalaMemoryLocation};
pub use crate::physical_device::{
    HalaMemoryType, HalaPhysicalDevice, HalaPhysicalDeviceProperties, HalaQueueFamily,
};
pub use crate::pipeline::{
    HalaBlendFactor, HalaBlendOp, HalaBlendState, HalaCompareOp, HalaComputePipeline,
    HalaCullModeFlags, HalaDepthState, HalaDepthStencilState, HalaDynamicState, HalaFrontFace,
    HalaGraphicsPipeline, HalaHitShaders, HalaPipelineCreateFlags, HalaPipelineStageFlags,
    HalaPipelineStageFlags2, HalaPolygonMode, HalaPrimitiveTopology, HalaPushConstantRange,
    HalaRayTracingPipeline, HalaRayTracingShaderGroup, HalaRayTracingStages, HalaStencilFaceFlags,
    HalaStencilOp, HalaStencilOpState, HalaStencilState, HalaVertexInputAttributeDescription,
    HalaVertexInputBindingDescription, HalaVertexInputRate,
};
pub use crate::pools::HalaCommandPools;
pub use crate::query::{HalaQueryPipelineStatisticFlags, HalaQueryPool};
pub use crate::renderpass::{
    HalaAccessFlags, HalaAttachmentLoadOp, HalaAttachmentReference, HalaAttachmentStoreOp,
    HalaDependencyFlags, HalaFrameBufferSet, HalaPipelineBindPoint, HalaRenderPass,
    HalaRenderPassAttachmentDesc, HalaResolveModeFlags, HalaSampleCountFlags,
    HalaSubpassDependency, HalaSubpassDescription,
};
pub use crate::sampler::{HalaFilter, HalaSamplerAddressMode, HalaSamplerMipmapMode};
pub use crate::shader::{HalaRayTracingShaderGroupType, HalaShader, HalaShaderStageFlags};
pub use crate::shader_binding_table::{
    HalaShaderBindingTable, HalaShaderBindingTableLayout, HalaStridedDeviceAddressRegion,
};
pub use crate::swapchain::{
    HalaDepthStencilCreateInfo, HalaFormatFallback, HalaSurfaceCapabilities, HalaSurfaceFormat,
    HalaSwapchain, HalaSwapchainCreateInfo, HalaSwapchainParts,
};

verus! {

/// The kind of GPU that a physical device is.
#[derive(Debug, Clone, Copy, PartialEq, Eq, Structural)]
pub enum HalaGPUType {
    Discrete,
    Integrated,
    Virtual,
}

/// What is asked of the GPU and of the presentation surface when the
/// context is set up.
#[derive(Debug, PartialEq, Eq)]
pub struct HalaGPURequirements {
    pub width: u32,
    pub height: u32,
    pub version: (u32, u32, u32),
    pub is_gpu: bool,
    pub gpu_types: Vec<HalaGPUType>,
    pub require_srgb_surface: bool,
    pub require_mesh_shader: bool,
    pub require_ray_tracing: bool,
    pub require_10bits_output: bool,
    pub is_immediate: bool,
    pub is_low_latency: bool,
    pub require_depth: bool,
    pub require_stencil: bool,
    pub require_printf_in_shader: bool,
    pub require_depth_stencil_resolve: bool,
}

impl HalaGPURequirements {
    /// Whether two requirements ask for the same.
    pub open spec fn spec_same(self, other: HalaGPURequirements) -> bool {
        &&& self.width == other.width
        &&& self.height == other.height
        &&& self.version == other.version
        &&& self.is_gpu == other.is_gpu
        &&& self.gpu_types@ == other.gpu_types@
        &&& self.require_srgb_surface == other.require_srgb_surface
        &&& self.require_mesh_shader == other.require_mesh_shader
        &&& self.require_ray_tracing == other.require_ray_tracing
        &&& self.require_10bits_output == other.require_10bits_output
        &&& self.is_immediate == other.is_immediate
        &&& self.is_low_latency == other.is_low_latency
        &&& self.require_depth == other.require_depth
        &&& self.require_stencil == other.require_stencil
        &&& self.require_printf_in_shader == other.require_printf_in_shader
        &&& self.require_depth_stencil_resolve == other.require_depth_stencil_resolve
    }
}

impl Clone for HalaGPURequirements {
    fn clone(&self) -> (req: Self)
        ensures
            req.spec_same(*self),
    {
        let mut gpu_types: Vec<HalaGPUType> = Vec::new();
        let mut i: usize = 0;
        while i < self.gpu_types.len()
            invariant
                i <= self.gpu_types@.len(),
                gpu_types@ == self.gpu_types@.subrange(0, i as int),
            decreases self.gpu_types@.len() - i,
        {
            gpu_types.push(self.gpu_types[i]);
            assert(gpu_types@ =~= self.gpu_types@.subrange(0, i as int + 1));
            i = i + 1;
        }
        assert(gpu_types@ =~= self.gpu_types@);
        HalaGPURequirements {
            width: self.width,
            height: self.height,
            version: (self.version.0, self.version.1, self.version.2),
            is_gpu: self.is_gpu,
            gpu_types,
            require_srgb_surface: self.require_srgb_surface,
            require_mesh_shader: self.require_mesh_shader,
            require_ray_tracing: self.require_ray_tracing,
            require_10bits_output: self.require_10bits_output,
            is_immediate: self.is_immediate,
            is_low_latency: self.is_low_latency,
            require_depth: self.require_depth,
            require_stencil: self.require_stencil,
            require_printf_in_shader: self.require_printf_in_shader,
            require_depth_stencil_resolve: self.require_depth_stencil_resolve,
        }
    }
}

impl Default for HalaGPURequirements {
    fn default() -> (req: Self)
        ensures
            req.width == 1280,
            req.height == 720,
            req.version == (1u32, 2u32, 0u32),
            req.is_gpu,
            req.gpu_types@ == seq![HalaGPUType::Discrete, HalaGPUType::Integrated],
            !req.require_srgb_surface,
            !req.require_mesh_shader,
            !req.require_ray_tracing,
            !req.require_10bits_output,
            !req.is_immediate,
            !req.is_low_latency,
            req.require_depth,
            !req.require_stencil,
            !req.require_printf_in_shader,
            !req.require_depth_stencil_resolve,
    {
        let mut gpu_types: Vec<HalaGPUType> = Vec::new();
        gpu_types.push(HalaGPUType::Discrete);
        gpu_types.push(HalaGPUType::Integrated);
        HalaGPURequirements {
            width: 1280,
            height: 720,
            version: (1, 2, 0),
            is_gpu: true,
            gpu_types,
            require_srgb_surface: false,
            require_mesh_shader: false,
            require_ray_tracing: false,
            require_10bits_output: false,
            is_immediate: false,
            is_low_latency: false,
            require_depth: true,
            require_stencil: false,
            require_printf_in_shader: false,
            require_depth_stencil_resolve: false,
        }
    }
}

} // verus!
