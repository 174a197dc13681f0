use hala_gfx::acceleration_structure::HalaIndexType;
use hala_gfx::barrier::{
    HalaAccessFlags2, HalaBufferBarrierInfo, HalaImageAspectFlags, HalaImageBarrierInfo,
    HalaImageLayout, HalaMemoryBarrierInfo, QUEUE_FAMILY_IGNORED,
};
use hala_gfx::buffer::{HalaBuffer, HalaBufferUsageFlags};
use hala_gfx::command_buffer::{
    HalaCommandBufferSet, HalaCommandBufferType, HalaCommandBufferUsageFlags,
    DEFAULT_CLEAR_DEPTH_BITS, IMAGE_LAYOUT_ATTACHMENT_OPTIMAL,
};
use hala_gfx::context::{HalaContext, HalaContextParts, HalaRecordingProgress};
use hala_gfx::descriptor_set::{HalaDescriptorSet, HalaDescriptorSetLayoutBinding, HalaDescriptorType, HalaDescriptorBindingFlags};
use hala_gfx::device::{HalaClearValue, HalaCommand, HalaDeviceCall, HalaObjectKind, HalaQueue, HalaRenderingAttachmentInfo};
use hala_gfx::format::HalaFormat;
use hala_gfx::frame::{HalaFrameReply, HalaFrameStep};
use hala_gfx::image::HalaImage;
use hala_gfx::logical_device::{HalaLogicalDevice, HalaMemoryLocation};
use hala_gfx::pipeline::{
    HalaBlendFactor, HalaBlendOp, HalaBlendState, HalaCompareOp, HalaComputePipeline,
    HalaCullModeFlags, HalaDepthState, HalaFrontFace, HalaGraphicsPipeline, HalaPipelineStageFlags2,
    HalaPolygonMode, HalaPrimitiveTopology, HalaRayTracingPipeline, HalaStencilFaceFlags,
    HalaStencilOp, HalaStencilOpState, HalaStencilState,
};
use hala_gfx::pools::HalaCommandPools;
use hala_gfx::query::HalaQueryPool;
use hala_gfx::renderpass::{
    HalaAttachmentLoadOp, HalaAttachmentStoreOp, HalaPipelineBindPoint, HalaRenderPassAttachmentDesc,
    HalaSampleCountFlags,
};
use hala_gfx::shader::HalaShaderStageFlags;
use hala_gfx::shader_binding_table::HalaShaderBindingTable;
use hala_gfx::swapchain::{HalaSwapchain, HalaSwapchainParts};
use hala_gfx::text::str_equals;
use hala_gfx::HalaGPURequirements;

fn logical_device() -> HalaLogicalDevice {
    HalaLogicalDevice {
        graphics_queue_family_index: 4,
        transfer_queue_family_index: 5,
        compute_queue_family_index: 6,
        min_acceleration_structure_scratch_offset_alignment: 128,
        max_ray_recursion_depth: 8,
        shader_group_handle_size: 32,
        shader_group_handle_alignment: 32,
        shader_group_base_alignment: 64,
    }
}

fn set(buffer_type: i32) -> HalaCommandBufferSet {
    HalaCommandBufferSet::new(vec![11, 12, 13], HalaCommandBufferType::from_raw(buffer_type))
}

fn record(command_buffer: u64, command: HalaCommand) -> HalaDeviceCall {
    HalaDeviceCall::Record { command_buffer, command }
}

fn image_barriers(command_buffer: u64, barriers: Vec<HalaImageBarrierInfo>) -> HalaDeviceCall {
    record(
        command_buffer,
        HalaCommand::PipelineBarrier { image_barriers: barriers, buffer_barriers: Vec::new(), memory_barriers: Vec::new() },
    )
}

fn image(mip_levels: u32, width: u32, height: u32) -> HalaImage {
    HalaImage {
        raw: 70,
        view: 71,
        width,
        height,
        depth: 1,
        format: HalaFormat(HalaFormat::R8G8B8A8_UNORM),
        mip_levels,
        mip_views: (0..mip_levels as u64).map(|i| 80 + i).collect(),
        array_layers: 2,
        array_views: vec![90, 91],
        memory_location: HalaMemoryLocation::GpuOnly,
        size: (width * height * 4) as u64,
    }
}

fn color_barrier(image: u64, mip: u32, stages: (u64, u64), accesses: (u64, u64), layouts: (i32, i32)) -> HalaImageBarrierInfo {
    HalaImageBarrierInfo {
        src_stage_mask: HalaPipelineStageFlags2(stages.0),
        src_access_mask: HalaAccessFlags2(accesses.0),
        dst_stage_mask: HalaPipelineStageFlags2(stages.1),
        dst_access_mask: HalaAccessFlags2(accesses.1),
        old_layout: HalaImageLayout(layouts.0),
        new_layout: HalaImageLayout(layouts.1),
        src_queue_family_index: QUEUE_FAMILY_IGNORED,
        dst_queue_family_index: QUEUE_FAMILY_IGNORED,
        aspect_mask: HalaImageAspectFlags(HalaImageAspectFlags::COLOR),
        base_mip_level: mip,
        level_count: 1,
        base_array_layer: 0,
        layer_count: 1,
        image,
    }
}

#[test]
fn command_buffer_type_keeps_its_raw_value() {
    let names: Vec<&str> = [0, 1, 2, 3, -1].iter().map(|raw| HalaCommandBufferType::from_raw(*raw).name()).collect();
    assert_eq!(names, vec!["GRAPHICS", "TRANSFER", "COMPUTE", "UNKNOWN", "UNKNOWN"]);
    assert_eq!(HalaCommandBufferType::from_raw(2).as_raw(), 2);
    assert_eq!(HalaCommandBufferType::from_raw(-7).as_raw(), -7);
    assert_eq!(HalaCommandBufferType::from_raw(HalaCommandBufferType::GRAPHICS), HalaCommandBufferType(0));
    assert_eq!((HalaCommandBufferType::GRAPHICS, HalaCommandBufferType::TRANSFER, HalaCommandBufferType::COMPUTE), (0, 1, 2));
    assert_eq!(HalaCommandBufferType::default().as_raw(), 0);
}

#[test]
fn flags_combine_as_bit_sets() {
    let src = HalaBufferUsageFlags::from_raw(HalaBufferUsageFlags::TRANSFER_SRC);
    let dst = HalaBufferUsageFlags::from_raw(HalaBufferUsageFlags::TRANSFER_DST);
    let both = src | dst;
    assert_eq!(both.as_raw(), 3);
    assert!(both.contains(src) && both.contains(dst) && !src.contains(both));
    assert!(both.intersects(dst) && !src.intersects(dst));
    assert_eq!((both & dst), dst);
    assert_eq!((both ^ dst), src);
    assert_eq!((!src).as_raw(), !1u32);
    assert!(HalaBufferUsageFlags::empty().is_empty() && !src.is_empty());
    assert_eq!(HalaBufferUsageFlags::default(), HalaBufferUsageFlags::empty());
    let wide = HalaAccessFlags2::from_raw(HalaAccessFlags2::SHADER_STORAGE_WRITE) | HalaAccessFlags2::from_raw(1);
    assert_eq!(wide.as_raw(), (1u64 << 34) | 1);
    assert!(wide.contains(HalaAccessFlags2(1)));
}

#[test]
fn a_queue_is_named_by_family_and_index() {
    let device = logical_device();
    assert_eq!(device.get_queue(9, 2), HalaQueue { family_index: 9, queue_index: 2 });
    assert_eq!(device.get_graphics_queue(1), HalaQueue { family_index: 4, queue_index: 1 });
    assert_eq!(device.get_transfer_queue(0), HalaQueue { family_index: 5, queue_index: 0 });
    assert_eq!(device.get_compute_queue(3), HalaQueue { family_index: 6, queue_index: 3 });
    assert_eq!(device.queue_for(HalaCommandBufferType(1), 0), Some(HalaQueue { family_index: 5, queue_index: 0 }));
    assert_eq!(device.queue_for(HalaCommandBufferType(3), 0), None);
    assert_eq!(device.wait_idle(), HalaDeviceCall::DeviceWaitIdle);
    assert_eq!(device.compute_wait(1), HalaDeviceCall::QueueWaitIdle { queue: HalaQueue { family_index: 6, queue_index: 1 } });
    assert_eq!(device.graphics_wait(0), device.wait(device.get_graphics_queue(0)));
    assert_eq!(device.transfer_wait(2), device.wait(device.get_transfer_queue(2)));
    let cbs = set(0);
    assert_eq!(device.graphics_submit(&cbs, 1, 0), device.submit(&cbs, 1, device.get_graphics_queue(0)));
    assert_eq!(device.transfer_submit(&cbs, 2, 1), device.submit(&cbs, 2, device.get_transfer_queue(1)));
    assert_eq!(device.compute_submit(&cbs, 0, 0), device.submit(&cbs, 0, device.get_compute_queue(0)));
    let a = device.graphics_execute_and_submit(&cbs, 0, Vec::new(), 2);
    assert_eq!(a.calls()[2], device.graphics_submit(&cbs, 0, 2));
    let a = device.compute_execute_and_submit(&cbs, 1, Vec::new(), 0);
    assert_eq!(a.calls()[3], device.compute_wait(0));
    assert!(a.calls()[0].failure(-1).message() == "Failed to begin the command buffer.");
    assert!(!a.calls()[0].is_command());
}

#[test]
fn commands_name_their_command_buffer() {
    let cbs = set(0);
    let a = HalaBuffer::new(1, 16, HalaMemoryLocation::GpuOnly);
    let b = HalaBuffer::new(2, 32, HalaMemoryLocation::GpuOnly);
    assert_eq!(
        cbs.begin(1, HalaCommandBufferUsageFlags(HalaCommandBufferUsageFlags::ONE_TIME_SUBMIT)),
        HalaDeviceCall::BeginCommandBuffer { command_buffer: 12, usage_flags: HalaCommandBufferUsageFlags(1) }
    );
    assert_eq!(cbs.end(2), HalaDeviceCall::EndCommandBuffer { command_buffer: 13 });
    assert_eq!(
        cbs.copy_buffer_2_buffer(0, &a, 4, &b, 8),
        record(11, HalaCommand::CopyBuffer { src_buffer: 1, dst_buffer: 2, src_offset: 4, dst_offset: 8, size: 16 })
    );
    assert_eq!(cbs.draw(1, 3, 1, 0, 0), record(12, HalaCommand::Draw { vertex_count: 3, instance_count: 1, first_vertex: 0, first_instance: 0 }));
    assert_eq!(
        cbs.draw_indexed(1, 6, 2, 1, -3, 4),
        record(12, HalaCommand::DrawIndexed { index_count: 6, instance_count: 2, first_index: 1, vertex_offset: -3, first_instance: 4 })
    );
    assert_eq!(cbs.dispatch(2, 8, 4, 1), record(13, HalaCommand::Dispatch { group_count_x: 8, group_count_y: 4, group_count_z: 1 }));
    assert_eq!(cbs.dispatch_indirect(2, &a, 64), record(13, HalaCommand::DispatchIndirect { buffer: 1, offset: 64 }));
    assert_eq!(cbs.draw_indirect(0, &b, 8, 2, 16), record(11, HalaCommand::DrawIndirect { buffer: 2, offset: 8, draw_count: 2, stride: 16 }));
    assert_eq!(
        cbs.draw_indexed_indirect_count(0, &a, 1, &b, 2, 3, 4),
        record(11, HalaCommand::DrawIndexedIndirectCount { buffer: 1, offset: 1, count_buffer: 2, count_buffer_offset: 2, max_draw_count: 3, stride: 4 })
    );
    assert_eq!(cbs.draw_mesh_tasks(0, 1, 2, 3), record(11, HalaCommand::DrawMeshTasks { group_count_x: 1, group_count_y: 2, group_count_z: 3 }));
    assert_eq!(cbs.end_rendering(0), record(11, HalaCommand::EndRendering));
    assert_eq!(cbs.end_debug_label(0), record(11, HalaCommand::EndDebugLabel));
    assert_eq!(cbs.enable_depth_test(0, true), record(11, HalaCommand::SetDepthTestEnable { enable: true }));
    assert_eq!(cbs.enable_depth_write(0, false), record(11, HalaCommand::SetDepthWriteEnable { enable: false }));
    assert_eq!(cbs.enable_stencil_test(0, true), record(11, HalaCommand::SetStencilTestEnable { enable: true }));
    assert_eq!(
        cbs.set_depth_compare_op(0, HalaCompareOp(HalaCompareOp::LESS)),
        record(11, HalaCommand::SetDepthCompareOp { op: HalaCompareOp(1) })
    );
    assert_eq!(
        cbs.set_stencil_reference(0, HalaStencilFaceFlags(HalaStencilFaceFlags::FRONT), 5),
        record(11, HalaCommand::SetStencilReference { face_mask: HalaStencilFaceFlags(1), reference: 5 })
    );
    assert_eq!(
        cbs.set_stencil_op(0, HalaStencilFaceFlags(3), HalaStencilOp(0), HalaStencilOp(1), HalaStencilOp(2), HalaCompareOp(7)),
        record(
            11,
            HalaCommand::SetStencilOp {
                face_mask: HalaStencilFaceFlags(3),
                fail_op: HalaStencilOp(0),
                pass_op: HalaStencilOp(1),
                depth_fail_op: HalaStencilOp(2),
                compare_op: HalaCompareOp(7),
            }
        )
    );
    assert_eq!(
        cbs.set_scissor(0, 1, &[(0, 0, 640, 480), (-1, 2, 3, 4)]),
        record(11, HalaCommand::SetScissor { first_scissor: 1, scissors: vec![(0, 0, 640, 480), (-1, 2, 3, 4)] })
    );
    assert_eq!(
        cbs.push_constants(0, 77, HalaShaderStageFlags(HalaShaderStageFlags::VERTEX), 16, &[1, 2, 3, 4]),
        record(11, HalaCommand::PushConstants { pipeline_layout: 77, stage_flags: HalaShaderStageFlags(1), offset: 16, data: vec![1, 2, 3, 4] })
    );
    assert!(cbs.draw(0, 1, 1, 0, 0).is_command());
}

#[test]
fn binds_name_the_handles_that_they_bind() {
    let cbs = set(0);
    let a = HalaBuffer::new(1, 16, HalaMemoryLocation::GpuOnly);
    let b = HalaBuffer::new(2, 32, HalaMemoryLocation::GpuOnly);
    let graphics = HalaGraphicsPipeline { raw: 30, layout: 31 };
    let ray_tracing = HalaRayTracingPipeline { raw: 40, layout: 41 };
    let compute = HalaComputePipeline { raw: 50, layout: 51 };
    assert_eq!(
        cbs.bind_graphics_pipeline(0, &graphics),
        record(11, HalaCommand::BindPipeline { bind_point: HalaPipelineBindPoint(0), pipeline: 30 })
    );
    assert_eq!(
        cbs.bind_compute_pipeline(0, &compute),
        record(11, HalaCommand::BindPipeline { bind_point: HalaPipelineBindPoint(1), pipeline: 50 })
    );
    assert_eq!(
        cbs.bind_ray_tracing_pipeline(1, &ray_tracing),
        record(12, HalaCommand::BindPipeline { bind_point: HalaPipelineBindPoint(1_000_165_000), pipeline: 40 })
    );
    assert_eq!(
        cbs.bind_vertex_buffers(0, 2, &[a, b], &[0, 8]),
        record(11, HalaCommand::BindVertexBuffers { first_binding: 2, buffers: vec![1, 2], offsets: vec![0, 8] })
    );
    assert_eq!(
        cbs.bind_index_buffers(0, &[b, a], &[4, 8], HalaIndexType(HalaIndexType::UINT32)),
        record(11, HalaCommand::BindIndexBuffer { buffer: 2, offset: 4, index_type: HalaIndexType(1) })
    );
    let fixed = HalaDescriptorSet { raw: vec![60], is_static: true };
    let per_frame = HalaDescriptorSet { raw: vec![61, 62, 63], is_static: false };
    let sets = [fixed, per_frame];
    for (call, bind_point, layout) in [
        (cbs.bind_graphics_descriptor_sets(2, &graphics, 1, &sets, &[256]), 0, 31),
        (cbs.bind_compute_descriptor_sets(2, &compute, 1, &sets, &[256]), 1, 51),
        (cbs.bind_ray_tracing_descriptor_sets(2, &ray_tracing, 1, &sets, &[256]), 1_000_165_000, 41),
    ] {
        assert_eq!(
            call,
            record(
                13,
                HalaCommand::BindDescriptorSets {
                    bind_point: HalaPipelineBindPoint(bind_point),
                    pipeline_layout: layout,
                    first_set: 1,
                    descriptor_sets: vec![60, 63],
                    dynamic_offsets: vec![256],
                }
            )
        );
    }
    let layout = HalaShaderBindingTable::layout(1, 1, 1, 0, 32, 32, 64).unwrap();
    let sbt = HalaShaderBindingTable::new(&layout, b, 0x4000).unwrap();
    assert_eq!(
        cbs.trace_rays(0, &sbt, 640, 480, 1),
        record(
            11,
            HalaCommand::TraceRays {
                raygen_region: sbt.raygen_region,
                miss_region: sbt.miss_region,
                hit_region: sbt.hit_region,
                callable_region: sbt.callable_region,
                width: 640,
                height: 480,
                depth: 1,
            }
        )
    );
    assert_eq!(
        cbs.set_ray_tracing_pipeline_stack_size(0, 1024),
        record(11, HalaCommand::SetRayTracingPipelineStackSize { pipeline_stack_size: 1024 })
    );
}

#[test]
fn barriers_are_recorded_in_one_pipeline_barrier() {
    let cbs = set(0);
    let info = HalaImageBarrierInfo { image: 5, level_count: 3, ..HalaImageBarrierInfo::default() };
    assert_eq!(cbs.set_image_barriers(1, &[info, info]), image_barriers(12, vec![info, info]));
    let buffer = HalaBufferBarrierInfo { buffer: 9, size: 64, ..HalaBufferBarrierInfo::default() };
    assert_eq!(
        cbs.set_buffer_barriers(0, &[buffer]),
        record(11, HalaCommand::PipelineBarrier { image_barriers: vec![], buffer_barriers: vec![buffer], memory_barriers: vec![] })
    );
    let memory = HalaMemoryBarrierInfo { dst_access_mask: HalaAccessFlags2(4), ..HalaMemoryBarrierInfo::default() };
    assert_eq!(
        cbs.set_memory_barriers(0, &[memory]),
        record(11, HalaCommand::PipelineBarrier { image_barriers: vec![], buffer_barriers: vec![], memory_barriers: vec![memory] })
    );
    let default = HalaImageBarrierInfo::default();
    assert_eq!((default.level_count, default.layer_count, default.image), (1, 1, 0));
    assert_eq!((default.old_layout, default.aspect_mask), (HalaImageLayout(0), HalaImageAspectFlags(0)));
}

#[test]
fn an_upload_into_an_image_is_bracketed_by_barriers() {
    let target = image(1, 16, 8);
    let staging = HalaBuffer::new(3, 512, HalaMemoryLocation::CpuToGpu);
    let stage = HalaPipelineStageFlags2(HalaPipelineStageFlags2::FRAGMENT_SHADER);
    let access = HalaAccessFlags2(HalaAccessFlags2::SHADER_READ);
    let layout = HalaImageLayout(HalaImageLayout::SHADER_READ_ONLY_OPTIMAL);
    let expected = vec![
        image_barriers(
            11,
            vec![color_barrier(70, 0, (0, HalaPipelineStageFlags2::TRANSFER), (0, HalaAccessFlags2::TRANSFER_WRITE), (0, HalaImageLayout::TRANSFER_DST_OPTIMAL))],
        ),
        record(
            11,
            HalaCommand::CopyBufferToImage {
                src_buffer: 3,
                dst_image: 70,
                dst_image_layout: HalaImageLayout(HalaImageLayout::TRANSFER_DST_OPTIMAL),
                width: 16,
                height: 8,
                depth: 1,
            },
        ),
        image_barriers(
            11,
            vec![color_barrier(
                70,
                0,
                (HalaPipelineStageFlags2::TRANSFER, stage.0),
                (HalaAccessFlags2::TRANSFER_WRITE, access.0),
                (HalaImageLayout::TRANSFER_DST_OPTIMAL, layout.0),
            )],
        ),
    ];
    assert_eq!(target.upload_commands(11, &staging, stage, access, layout), expected);

    let mut mapped = vec![0u8; 512];
    let data = vec![7u8; 100];
    for (buffer_type, family) in [(0, 4u32), (1, 5), (2, 6), (9, 4)] {
        let sequence = target
            .update_gpu_memory_with_buffer(&data, stage, access, layout, &staging, &mut mapped, &set(buffer_type), &logical_device())
            .unwrap();
        assert_eq!(&sequence.calls()[1..4], &expected[..]);
        assert_eq!(sequence.calls().len(), 8);
        assert_eq!(sequence.calls()[6], HalaDeviceCall::QueueWaitIdle { queue: HalaQueue { family_index: family, queue_index: 0 } });
    }
    assert_eq!(&mapped[..100], &data[..]);
    assert!(mapped[100..].iter().all(|b| *b == 0));

    let mut visible = image(1, 16, 8);
    visible.memory_location = HalaMemoryLocation::CpuToGpu;
    let e = visible
        .update_gpu_memory_with_buffer(&[1], stage, access, layout, &staging, &mut mapped, &set(1), &logical_device())
        .unwrap_err();
    assert_eq!(e.message(), "Cannot update GPU memory of a non GPU only buffer.");
    assert_eq!(mapped[0], 7);
}

#[test]
fn a_mip_chain_is_blitted_level_by_level() {
    let target = image(4, 20, 4);
    let commands = target.mipmap_commands(12);
    assert_eq!(commands.len(), 5 * 3 + 2);
    let readable = |mip: u32| {
        image_barriers(
            12,
            vec![color_barrier(
                70,
                mip,
                (HalaPipelineStageFlags2::TRANSFER, HalaPipelineStageFlags2::ALL_GRAPHICS),
                (HalaAccessFlags2::TRANSFER_WRITE, HalaAccessFlags2::SHADER_READ),
                (0, HalaImageLayout::SHADER_READ_ONLY_OPTIMAL),
            )],
        )
    };
    let sizes = [(20u32, 4u32, 10u32, 2u32), (10, 2, 5, 1), (5, 1, 2, 1)];
    for level in 1..4u32 {
        let base = 5 * (level as usize - 1);
        let input = image_barriers(
            12,
            vec![
                color_barrier(
                    70,
                    level - 1,
                    (HalaPipelineStageFlags2::TRANSFER, HalaPipelineStageFlags2::TRANSFER),
                    (HalaAccessFlags2::TRANSFER_WRITE, HalaAccessFlags2::TRANSFER_READ),
                    (0, HalaImageLayout::TRANSFER_SRC_OPTIMAL),
                ),
                color_barrier(70, level, (0, HalaPipelineStageFlags2::TRANSFER), (0, HalaAccessFlags2::TRANSFER_WRITE), (0, HalaImageLayout::TRANSFER_DST_OPTIMAL)),
            ],
        );
        assert_eq!(commands[base], input);
        assert_eq!(commands[base + 1], input);
        let (src_width, src_height, dst_width, dst_height) = sizes[level as usize - 1];
        assert_eq!(
            commands[base + 2],
            record(
                12,
                HalaCommand::BlitImage {
                    image: 70,
                    src_mip_level: level - 1,
                    src_width,
                    src_height,
                    dst_mip_level: level,
                    dst_width,
                    dst_height,
                }
            )
        );
        assert_eq!(commands[base + 3], readable(level - 1));
        assert_eq!(commands[base + 4], readable(level - 1));
    }
    assert_eq!(commands[15], readable(3));
    assert_eq!(commands[16], readable(3));

    assert_eq!(image(1, 4, 4).mipmap_commands(1).len(), 2);
    let sequence = target.gen_mipmaps(&set(2), &logical_device());
    assert_eq!(sequence.calls().len(), 17 + 5);
    assert_eq!(&sequence.calls()[1..18], &target.mipmap_commands(11)[..]);
    assert_eq!(sequence.calls()[20], HalaDeviceCall::QueueWaitIdle { queue: HalaQueue { family_index: 6, queue_index: 0 } });
    let deep = image(32, 1 << 31, 1);
    assert_eq!(deep.mipmap_commands(1).len(), 5 * 31 + 2);
    assert_eq!(
        target.destroy(),
        vec![
            HalaDeviceCall::Destroy { kind: HalaObjectKind::ImageView, handle: 90 },
            HalaDeviceCall::Destroy { kind: HalaObjectKind::ImageView, handle: 91 },
            HalaDeviceCall::Destroy { kind: HalaObjectKind::ImageView, handle: 80 },
            HalaDeviceCall::Destroy { kind: HalaObjectKind::ImageView, handle: 81 },
            HalaDeviceCall::Destroy { kind: HalaObjectKind::ImageView, handle: 82 },
            HalaDeviceCall::Destroy { kind: HalaObjectKind::ImageView, handle: 83 },
            HalaDeviceCall::Destroy { kind: HalaObjectKind::ImageView, handle: 71 },
            HalaDeviceCall::Destroy { kind: HalaObjectKind::Image, handle: 70 },
            HalaDeviceCall::Destroy { kind: HalaObjectKind::Allocation, handle: 70 },
        ]
    );
}

fn swapchain(depth_stencil_format: i32) -> HalaSwapchain {
    HalaSwapchain::new(HalaSwapchainParts {
        swapchain: 100,
        images: vec![101, 102],
        image_views: vec![111, 112],
        format: HalaFormat(HalaFormat::B8G8R8A8_UNORM),
        color_space: 0,
        width: 1280,
        height: 720,
        present_mode: 2,
        depth_stencil_format: HalaFormat(depth_stencil_format),
        depth_stencil_image: 120,
        depth_stencil_image_view: 121,
        depth_stencil_memory: 122,
        image_availables: vec![131, 132],
        render_finisheds: vec![141, 142],
        draw_fences: vec![151, 152],
    })
    .unwrap()
}

fn prepared_context(depth_stencil_format: i32, image: u32) -> HalaContext {
    let mut context = HalaContext::new(HalaContextParts {
        name: "frame".to_string(),
        gpu_req: HalaGPURequirements::default(),
        instance: 1,
        surface: 2,
        device: 3,
        logical_device: logical_device(),
        swapchain: swapchain(depth_stencil_format),
        pools: HalaCommandPools::new(4, 5, 6),
        short_time_pools: HalaCommandPools::new(7, 8, 9),
        timestamp_query_pool: HalaQueryPool::new(10, 4),
    })
    .unwrap();
    assert!(matches!(context.prepare_frame(HalaFrameReply::Start), HalaFrameStep::Call(_)));
    assert!(matches!(context.prepare_frame(HalaFrameReply::Done), HalaFrameStep::Call(_)));
    assert!(matches!(context.prepare_frame(HalaFrameReply::ImageIndex(image)), HalaFrameStep::Call(_)));
    assert!(matches!(context.prepare_frame(HalaFrameReply::Done), HalaFrameStep::Call(_)));
    assert!(matches!(context.prepare_frame(HalaFrameReply::Done), HalaFrameStep::Prepared(_)));
    context
}

fn frame_barrier(image: u64, stages: (u64, u64), accesses: (u64, u64), layouts: (i32, i32), aspects: u32) -> HalaImageBarrierInfo {
    HalaImageBarrierInfo {
        src_stage_mask: HalaPipelineStageFlags2(stages.0),
        src_access_mask: HalaAccessFlags2(accesses.0),
        dst_stage_mask: HalaPipelineStageFlags2(stages.1),
        dst_access_mask: HalaAccessFlags2(accesses.1),
        old_layout: HalaImageLayout(layouts.0),
        new_layout: HalaImageLayout(layouts.1),
        aspect_mask: HalaImageAspectFlags(aspects),
        image,
        ..HalaImageBarrierInfo::default()
    }
}

fn attachment(image_view: u64, load_op: i32, store_op: i32, clear_value: HalaClearValue) -> HalaRenderingAttachmentInfo {
    HalaRenderingAttachmentInfo {
        image_view,
        image_layout: HalaImageLayout(IMAGE_LAYOUT_ATTACHMENT_OPTIMAL),
        load_op: HalaAttachmentLoadOp(load_op),
        store_op: HalaAttachmentStoreOp(store_op),
        clear_value,
    }
}

#[test]
fn a_frame_recording_opens_with_reset_begin_and_the_first_timestamp() {
    let mut context = prepared_context(HalaFormat::UNDEFINED, 1);
    let cbs = set(0);
    assert!(context.may_record(1, &cbs) && !context.may_record(0, &cbs));
    assert_eq!(context.recording_progress(), HalaRecordingProgress::NotBegun);
    assert_eq!(
        context.record_graphics_command_buffer(1, &cbs).unwrap(),
        vec![
            HalaDeviceCall::ResetCommandBuffer { command_buffer: 12, release_resources: false },
            HalaDeviceCall::BeginCommandBuffer { command_buffer: 12, usage_flags: HalaCommandBufferUsageFlags(0) },
            record(12, HalaCommand::ResetQueryPool { query_pool: 10, first_query: 2, query_count: 2 }),
            record(12, HalaCommand::WriteTimestamp { stage_flags: HalaPipelineStageFlags2(0), query_pool: 10, query: 2 }),
        ]
    );
    assert_eq!(context.recording_progress(), HalaRecordingProgress::Opened);
    assert_eq!(context.record_presentation(1, &cbs).unwrap_err().message(), "The frame cycle is out of step.");
    assert_eq!(context.recording_progress(), HalaRecordingProgress::Opened);
    assert_eq!(context.record_rendering(1, &cbs, None, None, None, None).unwrap().len(), 2);
    assert_eq!(context.recording_progress(), HalaRecordingProgress::Rendering);
    assert!(context.record_rendering(1, &cbs, None, None, None, None).is_err());
    assert_eq!(
        context.record_presentation(1, &cbs).unwrap(),
        vec![
            record(12, HalaCommand::EndRendering),
            image_barriers(
                12,
                vec![frame_barrier(
                    102,
                    (HalaPipelineStageFlags2::COLOR_ATTACHMENT_OUTPUT, HalaPipelineStageFlags2::BOTTOM_OF_PIPE),
                    (HalaAccessFlags2::COLOR_ATTACHMENT_WRITE, 0),
                    (HalaImageLayout::COLOR_ATTACHMENT_OPTIMAL, HalaImageLayout::PRESENT_SRC),
                    HalaImageAspectFlags::COLOR,
                )]
            ),
            record(12, HalaCommand::WriteTimestamp { stage_flags: HalaPipelineStageFlags2(HalaPipelineStageFlags2::ALL_COMMANDS), query_pool: 10, query: 3 }),
            HalaDeviceCall::EndCommandBuffer { command_buffer: 12 },
        ]
    );
    assert_eq!(context.recording_progress(), HalaRecordingProgress::Closed);
    assert!(context.record_presentation(1, &cbs).is_err());
    assert!(context.record_rendering(1, &cbs, None, None, None, None).is_err());
    assert_eq!(context.record_graphics_command_buffer(0, &cbs).unwrap_err().message(), "The frame cycle is out of step.");
    assert_eq!(context.recording_progress(), HalaRecordingProgress::Closed);
    assert_eq!(context.record_graphics_command_buffer(1, &cbs).unwrap().len(), 4);
    assert_eq!(context.recording_progress(), HalaRecordingProgress::Opened);
    assert_eq!(HalaQueryPool::elapsed_ticks(&[100, 250]), 150);
    assert_eq!(HalaQueryPool::elapsed_ticks(&[250, 100]), 0);
    assert_eq!(HalaQueryPool::elapsed_ticks(&[250]), 0);
}

#[test]
fn rendering_begins_on_the_attachments_of_the_swapchain() {
    let cbs = set(0);
    let tests = HalaPipelineStageFlags2::EARLY_FRAGMENT_TESTS | HalaPipelineStageFlags2::LATE_FRAGMENT_TESTS;
    let to_color = frame_barrier(
        101,
        (HalaPipelineStageFlags2::TOP_OF_PIPE, HalaPipelineStageFlags2::COLOR_ATTACHMENT_OUTPUT),
        (0, HalaAccessFlags2::COLOR_ATTACHMENT_WRITE),
        (0, HalaImageLayout::COLOR_ATTACHMENT_OPTIMAL),
        HalaImageAspectFlags::COLOR,
    );
    let to_depth = |aspects: u32| {
        frame_barrier(
            120,
            (tests, tests),
            (0, HalaAccessFlags2::DEPTH_STENCIL_ATTACHMENT_WRITE),
            (0, HalaImageLayout::DEPTH_STENCIL_ATTACHMENT_OPTIMAL),
            aspects,
        )
    };
    let begin = |color, depth, stencil| {
        record(
            11,
            HalaCommand::BeginRendering {
                x: 0,
                y: 0,
                width: 1280,
                height: 720,
                layer_count: 1,
                color_attachments: vec![color],
                depth_attachment: depth,
                stencil_attachment: stencil,
            },
        )
    };

    let mut context = prepared_context(HalaFormat::UNDEFINED, 0);
    context.record_graphics_command_buffer(0, &cbs).unwrap();
    let calls = context.record_rendering(0, &cbs, Some((1, 2, 3, 4)), None, None, None).unwrap();
    assert_eq!(
        calls,
        vec![
            image_barriers(11, vec![to_color]),
            begin(attachment(111, 1, 0, HalaClearValue::Color { red: 1, green: 2, blue: 3, alpha: 4 }), None, None),
        ]
    );

    let mut context = prepared_context(HalaFormat::D32_SFLOAT, 0);
    context.record_graphics_command_buffer(0, &cbs).unwrap();
    let calls = context.record_rendering(0, &cbs, None, Some(0x3f00_0000), None, None).unwrap();
    assert_eq!(
        calls,
        vec![
            image_barriers(11, vec![to_color, to_depth(2)]),
            begin(
                attachment(111, 2, 0, HalaClearValue::Color { red: 0, green: 0, blue: 0, alpha: 0 }),
                Some(attachment(121, 1, 1, HalaClearValue::DepthStencil { depth: 0x3f00_0000, stencil: 0 })),
                None
            ),
        ]
    );

    let mut context = prepared_context(HalaFormat::D24_UNORM_S8_UINT, 0);
    context.record_graphics_command_buffer(0, &cbs).unwrap();
    let calls = context.record_rendering(0, &cbs, None, None, Some(9), None).unwrap();
    let value = HalaClearValue::DepthStencil { depth: DEFAULT_CLEAR_DEPTH_BITS, stencil: 9 };
    assert_eq!(
        calls,
        vec![
            image_barriers(11, vec![to_color, to_depth(6)]),
            begin(
                attachment(111, 2, 0, HalaClearValue::Color { red: 0, green: 0, blue: 0, alpha: 0 }),
                Some(attachment(121, 2, 1, value)),
                Some(attachment(121, 1, 1, value))
            ),
        ]
    );
    assert_eq!(DEFAULT_CLEAR_DEPTH_BITS, 1.0f32.to_bits());
    assert_eq!(IMAGE_LAYOUT_ATTACHMENT_OPTIMAL, ash::vk::ImageLayout::ATTACHMENT_OPTIMAL.as_raw());
    assert_eq!(QUEUE_FAMILY_IGNORED, ash::vk::QUEUE_FAMILY_IGNORED);
}

#[test]
fn a_ray_traced_image_is_copied_into_the_swapchain_image() {
    let cbs = set(0);
    let mut context = prepared_context(HalaFormat::D32_SFLOAT, 1);
    let traced = image(1, 640, 360);
    context.record_graphics_command_buffer(1, &cbs).unwrap();
    let calls = context.record_rendering(1, &cbs, None, None, None, Some(&traced)).unwrap();
    assert_eq!(calls.len(), 4);
    let transfer = HalaPipelineStageFlags2::TRANSFER;
    assert_eq!(
        calls[0],
        image_barriers(
            12,
            vec![
                frame_barrier(102, (HalaPipelineStageFlags2::TOP_OF_PIPE, transfer), (0, HalaAccessFlags2::TRANSFER_WRITE), (0, HalaImageLayout::TRANSFER_DST_OPTIMAL), 1),
                frame_barrier(
                    70,
                    (HalaPipelineStageFlags2::RAY_TRACING_SHADER, transfer),
                    (HalaAccessFlags2::SHADER_WRITE, HalaAccessFlags2::TRANSFER_READ),
                    (HalaImageLayout::GENERAL, HalaImageLayout::TRANSFER_SRC_OPTIMAL),
                    1
                ),
            ]
        )
    );
    assert_eq!(
        calls[1],
        record(
            12,
            HalaCommand::CopyImage {
                src_image: 70,
                src_image_layout: HalaImageLayout(HalaImageLayout::TRANSFER_SRC_OPTIMAL),
                dst_image: 102,
                dst_image_layout: HalaImageLayout(HalaImageLayout::TRANSFER_DST_OPTIMAL),
                width: 640,
                height: 360,
            }
        )
    );
    match &calls[2] {
        HalaDeviceCall::Record { command: HalaCommand::PipelineBarrier { image_barriers, .. }, .. } => {
            assert_eq!(image_barriers.len(), 3);
            assert_eq!(image_barriers[0].new_layout, HalaImageLayout(HalaImageLayout::COLOR_ATTACHMENT_OPTIMAL));
            assert_eq!(image_barriers[1].new_layout, HalaImageLayout(HalaImageLayout::GENERAL));
            assert_eq!((image_barriers[2].image, image_barriers[2].aspect_mask), (120, HalaImageAspectFlags(2)));
        }
        other => panic!("not a barrier: {:?}", other),
    }
    assert!(matches!(calls[3], HalaDeviceCall::Record { command: HalaCommand::BeginRendering { .. }, .. }));
    assert_eq!(cbs.copy_image_2_image(0, &traced, HalaImageLayout(1), &traced, HalaImageLayout(2)), record(11, HalaCommand::CopyImage {
        src_image: 70,
        src_image_layout: HalaImageLayout(1),
        dst_image: 70,
        dst_image_layout: HalaImageLayout(2),
        width: 640,
        height: 360,
    }));
    let buffer = HalaBuffer::new(1, 16, HalaMemoryLocation::GpuOnly);
    assert_eq!(
        cbs.copy_image_2_buffer(0, &traced, HalaImageLayout(6), &buffer),
        record(11, HalaCommand::CopyImageToBuffer { src_image: 70, src_image_layout: HalaImageLayout(6), dst_buffer: 1, width: 640, height: 360, depth: 1 })
    );
    assert_eq!(
        cbs.copy_buffer_2_image(0, &buffer, &traced, HalaImageLayout(7)),
        record(11, HalaCommand::CopyBufferToImage { src_buffer: 1, dst_image: 70, dst_image_layout: HalaImageLayout(7), width: 640, height: 360, depth: 1 })
    );
}

#[test]
fn command_buffers_go_back_to_the_pool_of_their_type() {
    let pools = HalaCommandPools::new(1, 2, 3);
    assert_eq!(pools.pool_for(HalaCommandBufferType(0)), Some(1));
    assert_eq!(pools.pool_for(HalaCommandBufferType(1)), Some(3));
    assert_eq!(pools.pool_for(HalaCommandBufferType(2)), Some(2));
    assert_eq!(pools.pool_for(HalaCommandBufferType(3)), None);
    assert_eq!(pools.allocation_pool(HalaCommandBufferType(3)), 1);
    assert_eq!(pools.allocation_pool(HalaCommandBufferType(1)), 3);
    assert_eq!(set(1).free(&pools), Some(HalaDeviceCall::FreeCommandBuffers { command_pool: 3, command_buffers: vec![11, 12, 13] }));
    assert_eq!(set(5).free(&pools), None);
    assert_eq!(HalaCommandPools::create_flags(true), ash::vk::CommandPoolCreateFlags::TRANSIENT.as_raw());
    assert_eq!(HalaCommandPools::create_flags(false), ash::vk::CommandPoolCreateFlags::RESET_COMMAND_BUFFER.as_raw());
    assert_eq!(
        pools.destroy(),
        vec![
            HalaDeviceCall::Destroy { kind: HalaObjectKind::CommandPool, handle: 1 },
            HalaDeviceCall::Destroy { kind: HalaObjectKind::CommandPool, handle: 2 },
            HalaDeviceCall::Destroy { kind: HalaObjectKind::CommandPool, handle: 3 },
        ]
    );
}

#[test]
fn names_in_descriptions_stand_for_their_values() {
    assert_eq!(HalaBlendFactor::from_name("ONE_MINUS_SRC_ALPHA"), Some(HalaBlendFactor(HalaBlendFactor::ONE_MINUS_SRC_ALPHA)));
    assert_eq!(HalaBlendFactor::from_name("one_minus_src_alpha"), Some(HalaBlendFactor(7)));
    assert_eq!(HalaBlendFactor::from_name("default"), Some(HalaBlendFactor(0)));
    assert_eq!(HalaBlendFactor::from_name("One"), None);
    assert_eq!(HalaBlendFactor(HalaBlendFactor::SRC1_ALPHA).name(), Some("src1_alpha"));
    assert_eq!(HalaBlendFactor(999).name(), Some("default"));
    assert_eq!(HalaCullModeFlags::from_name("front_and_back"), Some(HalaCullModeFlags(3)));
    assert_eq!(HalaCullModeFlags::from_name("default"), None);
    assert_eq!(HalaCullModeFlags(2).name(), Some("back"));
    assert_eq!(HalaCullModeFlags(8).name(), None);
    assert_eq!(HalaPrimitiveTopology::from_name("TRIANGLE_LIST"), Some(HalaPrimitiveTopology(3)));
    assert_eq!(HalaDescriptorType::from_name("uniform_buffer"), Some(HalaDescriptorType(HalaDescriptorType::UNIFORM_BUFFER)));
    assert_eq!(HalaSampleCountFlags::from_name("type_4"), Some(HalaSampleCountFlags(4)));
    assert_eq!(HalaSampleCountFlags(64).name(), Some("type_64"));
    assert_eq!(HalaFrontFace::from_name("clockwise"), Some(HalaFrontFace(HalaFrontFace::CLOCKWISE)));
    assert_eq!(HalaPolygonMode(HalaPolygonMode::LINE).name(), Some("line"));
    assert_eq!(HalaCompareOp::from_name("LESS_OR_EQUAL"), Some(HalaCompareOp(3)));
    assert_eq!(HalaStencilOp::from_name("invert"), Some(HalaStencilOp(HalaStencilOp::INVERT)));
    assert_eq!(HalaBlendOp(HalaBlendOp::MAX).name(), Some("max"));
    for raw in 0..19 {
        let factor = HalaBlendFactor(raw);
        assert_eq!(HalaBlendFactor::from_name(factor.name().unwrap()), Some(factor));
    }
    assert!(str_equals("abc", "abc") && !str_equals("abc", "abd") && !str_equals("", "a"));
}

#[test]
fn state_descriptions_keep_what_they_are_given() {
    let blend = HalaBlendState::new(HalaBlendFactor(6), HalaBlendFactor(7), HalaBlendOp(0));
    assert_eq!((blend.src_factor, blend.dst_factor, blend.op), (HalaBlendFactor(6), HalaBlendFactor(7), HalaBlendOp(0)));
    assert_eq!(HalaBlendState::default(), HalaBlendState::new(HalaBlendFactor(1), HalaBlendFactor(0), HalaBlendOp(0)));
    let depth = HalaDepthState::new(false, true, HalaCompareOp(4));
    assert_eq!((depth.test_enable, depth.write_enable, depth.compare_op), (false, true, HalaCompareOp(4)));
    assert_eq!(HalaDepthState::default(), HalaDepthState::new(true, true, HalaCompareOp(HalaCompareOp::LESS)));
    let face = HalaStencilOpState { reference: 3, ..HalaStencilOpState::default() };
    let stencil = HalaStencilState::new(true, face, HalaStencilOpState::default());
    assert_eq!((stencil.test_enable, stencil.front.reference, stencil.back.reference), (true, 3, 0));
    assert_eq!(HalaStencilState::default(), HalaStencilState::new(false, HalaStencilOpState::default(), HalaStencilOpState::default()));
    let binding = HalaDescriptorSetLayoutBinding::new(2, HalaDescriptorType(6), 4, HalaShaderStageFlags(0x10), HalaDescriptorBindingFlags(1));
    assert_eq!((binding.binding_index, binding.descriptor_type, binding.descriptor_count), (2, HalaDescriptorType(6), 4));
    assert_eq!((binding.stage_flags, binding.binding_flags), (HalaShaderStageFlags(0x10), HalaDescriptorBindingFlags(1)));
}

#[test]
fn attachment_descriptions_are_built_field_by_field() {
    let default = HalaRenderPassAttachmentDesc::default();
    assert_eq!(default.format, HalaFormat(0));
    assert_eq!((default.load_op, default.store_op), (HalaAttachmentLoadOp(2), HalaAttachmentStoreOp(1)));
    assert_eq!((default.stencil_load_op, default.stencil_store_op), (HalaAttachmentLoadOp(2), HalaAttachmentStoreOp(1)));
    assert_eq!(default.samples, HalaSampleCountFlags(1));
    assert_eq!((default.initial_layout, default.final_layout), (HalaImageLayout(0), HalaImageLayout(1)));
    let built = default
        .format(HalaFormat(HalaFormat::R8G8B8A8_SRGB))
        .load_op(HalaAttachmentLoadOp(HalaAttachmentLoadOp::CLEAR))
        .store_op(HalaAttachmentStoreOp(HalaAttachmentStoreOp::STORE))
        .stencil_load_op(HalaAttachmentLoadOp(HalaAttachmentLoadOp::LOAD))
        .stencil_store_op(HalaAttachmentStoreOp(HalaAttachmentStoreOp::STORE))
        .samples(HalaSampleCountFlags(HalaSampleCountFlags::TYPE_4))
        .initial_layout(HalaImageLayout(HalaImageLayout::GENERAL))
        .final_layout(HalaImageLayout(HalaImageLayout::PRESENT_SRC));
    assert_eq!(
        built,
        HalaRenderPassAttachmentDesc {
            format: HalaFormat(43),
            load_op: HalaAttachmentLoadOp(1),
            store_op: HalaAttachmentStoreOp(0),
            stencil_load_op: HalaAttachmentLoadOp(0),
            stencil_store_op: HalaAttachmentStoreOp(0),
            samples: HalaSampleCountFlags(4),
            initial_layout: HalaImageLayout(1),
            final_layout: HalaImageLayout(1_000_001_002),
        }
    );
    assert_eq!(default.format(HalaFormat(9)).load_op, default.load_op);
}

#[test]
fn ray_tracing_groups_follow_the_order_of_the_binding_table() {
    use_groups();
}

fn shader(module: u64, group_type: i32) -> hala_gfx::shader::HalaShader {
    hala_gfx::shader::HalaShader {
        module,
        stage_flags: HalaShaderStageFlags(0x100),
        ray_tracing_group_type: hala_gfx::HalaRayTracingShaderGroupType(group_type),
    }
}

fn use_groups() {
    let unused = hala_gfx::pipeline::SHADER_UNUSED;
    assert_eq!(unused, ash::vk::SHADER_UNUSED_KHR);
    let hits = [
        hala_gfx::pipeline::HalaHitShaders { closest_hit: Some(shader(30, 1)), any_hit: None, intersection: None },
        hala_gfx::pipeline::HalaHitShaders { closest_hit: None, any_hit: Some(shader(31, 1)), intersection: Some(shader(32, 2)) },
        hala_gfx::pipeline::HalaHitShaders { closest_hit: Some(shader(33, 1)), any_hit: Some(shader(34, 1)), intersection: Some(shader(35, 2)) },
    ];
    let out = HalaRayTracingPipeline::shader_groups(&[shader(10, 0)], &[shader(20, 0), shader(21, 0)], &hits, &[shader(40, 0)]).unwrap();
    let modules: Vec<u64> = out.stages.iter().map(|stage| stage.module).collect();
    assert_eq!(modules, vec![10, 20, 21, 30, 31, 32, 33, 34, 35, 40]);
    let group = |ty: i32, general: u32, closest: u32, any: u32, intersection: u32| hala_gfx::pipeline::HalaRayTracingShaderGroup {
        ty: hala_gfx::HalaRayTracingShaderGroupType(ty),
        general_shader: general,
        closest_hit_shader: closest,
        any_hit_shader: any,
        intersection_shader: intersection,
    };
    assert_eq!(
        out.groups,
        vec![
            group(0, 0, unused, unused, unused),
            group(0, 1, unused, unused, unused),
            group(0, 2, unused, unused, unused),
            group(1, unused, 3, unused, unused),
            group(2, unused, unused, 4, 5),
            group(2, unused, 6, 7, 8),
            group(0, 9, unused, unused, unused),
        ]
    );
    let empty = [hala_gfx::pipeline::HalaHitShaders { closest_hit: None, any_hit: None, intersection: None }];
    match HalaRayTracingPipeline::shader_groups(&[shader(10, 0)], &[], &empty, &[]) {
        Err(e) => assert_eq!(e.message(), "The closest_hit_shader, any_hit_shader and intersection_shader can not be all None."),
        Ok(_) => panic!("an empty hit group was accepted"),
    }
    assert_eq!(HalaRayTracingPipeline::clamp_recursion_depth(4, 8), 4);
    assert_eq!(HalaRayTracingPipeline::clamp_recursion_depth(9, 8), 8);
}

#[test]
fn a_graphics_pipeline_needs_stencil_state_for_a_stencil_format() {
    let depth = HalaDepthState::new(true, false, HalaCompareOp(3));
    let face = HalaStencilOpState { compare_mask: 0xff, ..HalaStencilOpState::default() };
    let stencil = HalaStencilState::new(true, face, HalaStencilOpState::default());
    assert_eq!(HalaGraphicsPipeline::depth_stencil_state(None, &depth, Some(&stencil)).unwrap(), None);
    let plain = HalaGraphicsPipeline::depth_stencil_state(Some(HalaFormat(HalaFormat::D32_SFLOAT)), &depth, Some(&stencil)).unwrap().unwrap();
    assert!(!plain.has_stencil && !plain.stencil_test_enable && plain.depth_test_enable && !plain.depth_write_enable);
    assert_eq!((plain.depth_compare_op, plain.front), (HalaCompareOp(3), HalaStencilOpState::default()));
    let full = HalaGraphicsPipeline::depth_stencil_state(Some(HalaFormat(HalaFormat::D24_UNORM_S8_UINT)), &depth, Some(&stencil)).unwrap().unwrap();
    assert!(full.has_stencil && full.stencil_test_enable);
    assert_eq!((full.front, full.back), (face, HalaStencilOpState::default()));
    let e = HalaGraphicsPipeline::depth_stencil_state(Some(HalaFormat(HalaFormat::D16_UNORM_S8_UINT)), &depth, None).unwrap_err();
    assert_eq!(e.message(), "Stencil info is required.");
}

#[test]
fn indirect_draws_name_their_buffers() {
    let cbs = set(0);
    let arguments = HalaBuffer::new(21, 256, HalaMemoryLocation::GpuOnly);
    let counts = HalaBuffer::new(22, 16, HalaMemoryLocation::GpuOnly);
    assert_eq!(
        cbs.draw_indexed_indirect(1, &arguments, 32, 3, 20),
        record(12, HalaCommand::DrawIndexedIndirect { buffer: 21, offset: 32, draw_count: 3, stride: 20 })
    );
    assert_eq!(
        cbs.draw_indirect_count(2, &arguments, 16, &counts, 4, 7, 16),
        record(
            13,
            HalaCommand::DrawIndirectCount { buffer: 21, offset: 16, count_buffer: 22, count_buffer_offset: 4, max_draw_count: 7, stride: 16 }
        )
    );
    assert_eq!(
        cbs.draw_mesh_tasks_indirect(0, &arguments, 8, 2, 12),
        record(11, HalaCommand::DrawMeshTasksIndirect { buffer: 21, offset: 8, draw_count: 2, stride: 12 })
    );
    assert_eq!(
        cbs.draw_mesh_tasks_indirect_count(0, &arguments, 8, &counts, 12, 5, 12),
        record(
            11,
            HalaCommand::DrawMeshTasksIndirectCount { buffer: 21, offset: 8, count_buffer: 22, count_buffer_offset: 12, max_draw_count: 5, stride: 12 }
        )
    );
}

#[test]
fn queries_and_stencil_masks_are_recorded_as_given() {
    let cbs = set(0);
    let pool = HalaQueryPool::new(10, 4);
    assert_eq!(cbs.reset_query_pool(1, &pool, 2, 2), record(12, HalaCommand::ResetQueryPool { query_pool: 10, first_query: 2, query_count: 2 }));
    let stage = HalaPipelineStageFlags2(HalaPipelineStageFlags2::BOTTOM_OF_PIPE);
    assert_eq!(cbs.write_timestamp(1, stage, &pool, 3), record(12, HalaCommand::WriteTimestamp { stage_flags: stage, query_pool: 10, query: 3 }));
    let faces = HalaStencilFaceFlags(HalaStencilFaceFlags::FRONT_AND_BACK);
    assert_eq!(cbs.set_stencil_compare_mask(0, faces, 0xf0), record(11, HalaCommand::SetStencilCompareMask { face_mask: faces, compare_mask: 0xf0 }));
    assert_eq!(cbs.set_stencil_write_mask(0, faces, 0x0f), record(11, HalaCommand::SetStencilWriteMask { face_mask: faces, write_mask: 0x0f }));
}

#[test]
fn rays_are_traced_over_the_regions_of_the_table() {
    let cbs = set(0);
    let layout = HalaShaderBindingTable::layout(1, 2, 3, 0, 32, 32, 64).unwrap();
    let table = HalaShaderBindingTable::new(&layout, HalaBuffer::new(30, 384, HalaMemoryLocation::CpuToGpu), 0x4000).unwrap();
    let call = cbs.trace_rays_indirect(1, &table, 0x9000);
    assert_eq!(
        call,
        record(
            12,
            HalaCommand::TraceRaysIndirect {
                raygen_region: table.raygen_region,
                miss_region: table.miss_region,
                hit_region: table.hit_region,
                callable_region: table.callable_region,
                indirect_device_address: 0x9000,
            }
        )
    );
    assert_eq!((table.raygen_region.device_address, table.miss_region.device_address, table.hit_region.device_address), (0x4000, 0x4040, 0x4080));
}

#[test]
fn the_set_renders_to_the_swapchain_image_of_its_index() {
    let cbs = set(0);
    let chain = swapchain(HalaFormat::D24_UNORM_S8_UINT);
    let value = HalaClearValue::DepthStencil { depth: 0x3f00_0000, stencil: 0 };
    assert_eq!(
        cbs.begin_rendering(1, &chain, (4, 8, 640, 360), Some((1, 2, 3, 4)), Some(0x3f00_0000), None),
        record(
            12,
            HalaCommand::BeginRendering {
                x: 4,
                y: 8,
                width: 640,
                height: 360,
                layer_count: 1,
                color_attachments: vec![attachment(112, 1, 0, HalaClearValue::Color { red: 1, green: 2, blue: 3, alpha: 4 })],
                depth_attachment: Some(attachment(121, 1, 1, value)),
                stencil_attachment: Some(attachment(121, 2, 1, value)),
            }
        )
    );
    let color = frame_barrier(0, (1, 2), (3, 4), (0, 2), 1);
    let depth = frame_barrier(0, (5, 6), (7, 8), (0, 3), 6);
    assert_eq!(
        cbs.set_swapchain_image_barrier(1, &chain, &color, &depth),
        image_barriers(12, vec![HalaImageBarrierInfo { image: 102, ..color }, HalaImageBarrierInfo { image: 120, ..depth }])
    );
    assert_eq!(hala_gfx::image::image_barriers_call(12, vec![color]), image_barriers(12, vec![color]));
    let bare = swapchain(HalaFormat::UNDEFINED);
    assert_eq!(cbs.set_swapchain_image_barrier(0, &bare, &color, &depth), image_barriers(11, vec![HalaImageBarrierInfo { image: 101, ..color }]));
    let traced = image(1, 640, 360);
    assert_eq!(
        cbs.copy_image_2_swapchain(0, &traced, HalaImageLayout(6), &chain, HalaImageLayout(7), 1),
        record(
            11,
            HalaCommand::CopyImage {
                src_image: 70,
                src_image_layout: HalaImageLayout(6),
                dst_image: 102,
                dst_image_layout: HalaImageLayout(7),
                width: 640,
                height: 360,
            }
        )
    );
    let (wait, acquire) = chain.acquire_next_image(&logical_device());
    assert_eq!(wait, HalaDeviceCall::QueueWaitIdle { queue: HalaQueue { family_index: 4, queue_index: 0 } });
    assert_eq!(acquire, HalaDeviceCall::AcquireNextImage { swapchain: 100, timeout: u64::MAX, semaphore: 131, fence: 0 });
}

#[test]
fn a_device_is_created_with_each_queue_family_once() {
    assert_eq!(HalaLogicalDevice::queue_create_families(0, 0, 0), vec![0]);
    assert_eq!(HalaLogicalDevice::queue_create_families(0, 1, 0), vec![0, 1]);
    assert_eq!(HalaLogicalDevice::queue_create_families(0, 0, 2), vec![0, 2]);
    assert_eq!(HalaLogicalDevice::queue_create_families(0, 1, 1), vec![0, 1]);
    assert_eq!(HalaLogicalDevice::queue_create_families(2, 1, 0), vec![2, 1, 0]);
    assert_eq!(hala_gfx::buffer::copy_len(8, 5), 5);
    assert_eq!(hala_gfx::buffer::copy_len(5, 8), 5);
    assert_eq!(hala_gfx::buffer::copy_len(0, u64::MAX), 0);
    let context = prepared_context(HalaFormat::D32_SFLOAT, 0);
    assert_eq!(context.multisample_count(), HalaSampleCountFlags(HalaSampleCountFlags::TYPE_1));
}

#[test]
fn a_depth_format_is_viewed_by_its_depth() {
    for format in [HalaFormat::D16_UNORM, HalaFormat::D32_SFLOAT, HalaFormat::D24_UNORM_S8_UINT] {
        assert_eq!(HalaImage::view_aspect(HalaFormat(format)), HalaImageAspectFlags(HalaImageAspectFlags::DEPTH));
    }
    for format in [HalaFormat::UNDEFINED, HalaFormat::R8G8B8A8_UNORM, HalaFormat::B8G8R8A8_SRGB, HalaFormat::D32_SFLOAT_S8_UINT] {
        assert_eq!(HalaImage::view_aspect(HalaFormat(format)), HalaImageAspectFlags(HalaImageAspectFlags::COLOR));
    }
}

#[test]
fn rendering_on_targets_attaches_each_cleared_colour_image() {
    let cbs = set(0);
    let first = image(1, 64, 64);
    let second = HalaImage { view: 72, ..image(1, 64, 64) };
    let third = HalaImage { view: 73, ..image(1, 64, 64) };
    let depth = HalaImage { view: 74, format: HalaFormat(HalaFormat::D32_SFLOAT_S8_UINT), ..image(1, 64, 64) };
    let plain_depth = HalaImage { view: 75, format: HalaFormat(HalaFormat::D32_SFLOAT), ..image(1, 64, 64) };
    let value = HalaClearValue::DepthStencil { depth: DEFAULT_CLEAR_DEPTH_BITS, stencil: 7 };
    let black = HalaClearValue::Color { red: 0, green: 0, blue: 0, alpha: 0 };
    let begin = |colors, depth, stencil| {
        record(
            13,
            HalaCommand::BeginRendering {
                x: 1,
                y: 2,
                width: 64,
                height: 32,
                layer_count: 1,
                color_attachments: colors,
                depth_attachment: depth,
                stencil_attachment: stencil,
            },
        )
    };
    assert_eq!(
        cbs.begin_rendering_with_rt(2, &[&first, &second, &third], Some(&depth), (1, 2, 64, 32), &[Some((9, 8, 7, 6)), None], None, Some(7)),
        begin(
            vec![attachment(71, 1, 0, HalaClearValue::Color { red: 9, green: 8, blue: 7, alpha: 6 }), attachment(72, 2, 0, black)],
            Some(attachment(74, 2, 1, value)),
            Some(attachment(74, 1, 1, value))
        )
    );
    let half = HalaClearValue::DepthStencil { depth: 0x3f00_0000, stencil: 0 };
    assert_eq!(
        cbs.begin_rendering_with_rt(2, &[&first], Some(&plain_depth), (1, 2, 64, 32), &[None, None], Some(0x3f00_0000), None),
        begin(vec![attachment(71, 2, 0, black)], Some(attachment(75, 1, 1, half)), None)
    );
    assert_eq!(cbs.begin_rendering_with_rt(2, &[], None, (1, 2, 64, 32), &[None], None, Some(1)), begin(vec![], None, None));
    assert!(hala_gfx::swapchain::format_has_stencil(HalaFormat(HalaFormat::D16_UNORM_S8_UINT)));
    assert!(!hala_gfx::swapchain::format_has_stencil(HalaFormat(HalaFormat::D16_UNORM)));
}

#[test]
fn a_render_pass_of_one_subpass_writes_all_its_attachments() {
    let subpass = hala_gfx::HalaRenderPass::default_subpass(2, true);
    assert_eq!(subpass.pipeline_bind_point, HalaPipelineBindPoint(HalaPipelineBindPoint::GRAPHICS));
    assert!(subpass.input_attachments.is_empty() && subpass.resolve_attachments.is_empty() && subpass.preserve_attachments.is_empty());
    let color = |attachment: u32| hala_gfx::HalaAttachmentReference {
        attachment,
        layout: HalaImageLayout(HalaImageLayout::COLOR_ATTACHMENT_OPTIMAL),
        aspect_mask: HalaImageAspectFlags(1),
    };
    assert_eq!(subpass.color_attachments, vec![color(0), color(1)]);
    assert_eq!(
        subpass.depth_stencil_attachment,
        Some(hala_gfx::HalaAttachmentReference {
            attachment: 2,
            layout: HalaImageLayout(HalaImageLayout::DEPTH_STENCIL_ATTACHMENT_OPTIMAL),
            aspect_mask: HalaImageAspectFlags(6),
        })
    );
    let bare = hala_gfx::HalaRenderPass::default_subpass(0, false);
    assert!(bare.color_attachments.is_empty() && bare.depth_stencil_attachment.is_none());
    let dependency = hala_gfx::HalaRenderPass::default_dependency();
    assert_eq!(dependency.src_subpass, ash::vk::SUBPASS_EXTERNAL);
    assert_eq!(dependency.dst_subpass, 0);
    assert_eq!(dependency.src_stage_mask.as_raw(), ash::vk::PipelineStageFlags::COLOR_ATTACHMENT_OUTPUT.as_raw());
    assert_eq!(dependency.dst_stage_mask, dependency.src_stage_mask);
    assert_eq!(dependency.src_access_mask.as_raw(), 0);
    assert_eq!(
        dependency.dst_access_mask.as_raw(),
        (ash::vk::AccessFlags::COLOR_ATTACHMENT_READ | ash::vk::AccessFlags::COLOR_ATTACHMENT_WRITE).as_raw()
    );
    assert_eq!(dependency.dependency_flags.as_raw(), 0);
}

#[test]
fn a_render_pass_begins_on_the_framebuffer_of_its_index() {
    let cbs = set(0);
    let desc = HalaRenderPassAttachmentDesc::default();
    let with_depth = hala_gfx::HalaRenderPass::new(40, &[desc, desc], Some(&[desc]));
    let without = hala_gfx::HalaRenderPass::new(41, &[desc], None);
    assert_eq!((with_depth.color_attachment_descs.len(), with_depth.depth_stencil_attachment_descs.len()), (2, 1));
    assert_eq!((without.color_attachment_descs.len(), without.depth_stencil_attachment_descs.len()), (1, 0));
    let framebuffers = hala_gfx::HalaFrameBufferSet::new(vec![51, 52, 53]);
    let contents = hala_gfx::HalaSubpassContents(0);
    let begin = |render_pass, clear_values| {
        record(
            12,
            HalaCommand::BeginRenderPass { render_pass, framebuffer: 52, x: 0, y: 0, width: 800, height: 600, clear_values, contents },
        )
    };
    let color = HalaClearValue::Color { red: 1, green: 2, blue: 3, alpha: 4 };
    assert_eq!(
        cbs.begin_render_pass(1, &with_depth, &framebuffers, (0, 0, 800, 600), ((1, 2, 3, 4), 5, 6), contents),
        begin(40, vec![color, HalaClearValue::DepthStencil { depth: 5, stencil: 6 }])
    );
    assert_eq!(cbs.begin_render_pass(1, &without, &framebuffers, (0, 0, 800, 600), ((1, 2, 3, 4), 5, 6), contents), begin(41, vec![color]));
    assert_eq!(cbs.end_render_pass(2), record(13, HalaCommand::EndRenderPass));
    assert_eq!(with_depth.destroy(), HalaDeviceCall::Destroy { kind: HalaObjectKind::RenderPass, handle: 40 });
    assert_eq!(
        framebuffers.destroy(),
        vec![
            HalaDeviceCall::Destroy { kind: HalaObjectKind::Framebuffer, handle: 51 },
            HalaDeviceCall::Destroy { kind: HalaObjectKind::Framebuffer, handle: 52 },
            HalaDeviceCall::Destroy { kind: HalaObjectKind::Framebuffer, handle: 53 },
        ]
    );
}
