use std::collections::{HashMap, HashSet};

use hala_gfx::acceleration_structure::HalaAccelerationStructure;
use hala_gfx::buffer::HalaBuffer;
use hala_gfx::command_buffer::{HalaCommandBufferSet, HalaCommandBufferType, HalaCommandBufferUsageFlags};
use hala_gfx::context::{HalaContext, HalaContextParts, HalaResizeProgress};
use hala_gfx::device::{HalaCommand, HalaCallSequence, HalaDeviceCall, HalaObjectKind, HalaQueue};
use hala_gfx::error::HalaGfxError;
use hala_gfx::format::HalaFormat;
use hala_gfx::frame::{HalaFramePhase, HalaFrameReply, HalaFrameStep};
use hala_gfx::logical_device::{HalaLogicalDevice, HalaMemoryLocation};
use hala_gfx::pipeline::HalaPipelineStageFlags;
use hala_gfx::pools::HalaCommandPools;
use hala_gfx::query::HalaQueryPool;
use hala_gfx::swapchain::{HalaSwapchain, HalaSwapchainParts};
use hala_gfx::HalaGPURequirements;

#[derive(Clone, Copy, PartialEq, Eq, Debug)]
enum Lifecycle {
    Initial,
    Recording,
    Executable,
    Pending,
}

/// A stand-in for the driver: it keeps the bytes of the buffers, the state
/// of the command buffers and of the fences, and counts what is created and
/// destroyed.
struct Device {
    next_handle: u64,
    live: HashSet<(HalaObjectKind, u64)>,
    created: usize,
    destroyed: usize,
    buffers: HashMap<u64, Vec<u8>>,
    lifecycle: HashMap<u64, Lifecycle>,
    recorded: HashMap<u64, Vec<HalaDeviceCall>>,
    pending_fence: HashMap<u64, u64>,
    signaled: HashMap<u64, bool>,
    log: Vec<HalaDeviceCall>,
    failing: Option<(&'static str, i32)>,
    next_image: u32,
    image_count: u32,
}

fn kind_of(call: &HalaDeviceCall) -> &'static str {
    match call {
        HalaDeviceCall::BeginCommandBuffer { .. } => "begin",
        HalaDeviceCall::EndCommandBuffer { .. } => "end",
        HalaDeviceCall::ResetCommandBuffer { .. } => "reset",
        HalaDeviceCall::QueueSubmit { .. } => "submit",
        HalaDeviceCall::QueueWaitIdle { .. } => "queue_wait_idle",
        HalaDeviceCall::DeviceWaitIdle => "device_wait_idle",
        HalaDeviceCall::AcquireNextImage { .. } => "acquire",
        HalaDeviceCall::WaitForFence { .. } => "wait_for_fence",
        HalaDeviceCall::ResetFence { .. } => "reset_fence",
        HalaDeviceCall::QueuePresent { .. } => "present",
        HalaDeviceCall::Destroy { .. } => "destroy",
        HalaDeviceCall::FreeCommandBuffers { .. } => "free",
        _ => "command",
    }
}

impl Device {
    fn new(image_count: u32) -> Device {
        Device {
            next_handle: 100,
            live: HashSet::new(),
            created: 0,
            destroyed: 0,
            buffers: HashMap::new(),
            lifecycle: HashMap::new(),
            recorded: HashMap::new(),
            pending_fence: HashMap::new(),
            signaled: HashMap::new(),
            log: Vec::new(),
            failing: None,
            next_image: 0,
            image_count,
        }
    }

    fn create(&mut self, kind: HalaObjectKind) -> u64 {
        self.next_handle += 1;
        self.created += 1;
        self.live.insert((kind, self.next_handle));
        if kind == HalaObjectKind::Fence {
            self.signaled.insert(self.next_handle, true);
        }
        self.next_handle
    }

    fn create_many(&mut self, kind: HalaObjectKind, count: usize) -> Vec<u64> {
        (0..count).map(|_| self.create(kind)).collect()
    }

    fn command_buffers(&mut self, count: usize) -> Vec<u64> {
        (0..count)
            .map(|_| {
                self.next_handle += 1;
                self.lifecycle.insert(self.next_handle, Lifecycle::Initial);
                self.recorded.insert(self.next_handle, Vec::new());
                self.next_handle
            })
            .collect()
    }

    fn buffer(&mut self, size: usize, memory_location: HalaMemoryLocation) -> HalaBuffer {
        let raw = self.create(HalaObjectKind::Buffer);
        self.buffers.insert(raw, vec![0; size]);
        HalaBuffer::new(raw, size as u64, memory_location)
    }

    fn complete(&mut self, fence: Option<u64>) {
        let done: Vec<u64> = self
            .lifecycle
            .iter()
            .filter(|(cb, state)| {
                **state == Lifecycle::Pending && (fence.is_none() || self.pending_fence.get(*cb) == fence.as_ref())
            })
            .map(|(cb, _)| *cb)
            .collect();
        for cb in done {
            self.lifecycle.insert(cb, Lifecycle::Executable);
            self.pending_fence.remove(&cb);
        }
    }

    fn execute(&mut self, command: &HalaDeviceCall) {
        if let HalaDeviceCall::Record { command: HalaCommand::CopyBuffer { src_buffer, dst_buffer, src_offset, dst_offset, size, .. }, .. } = command {
            let (from, to, size) = (*src_offset as usize, *dst_offset as usize, *size as usize);
            let bytes = self.buffers[src_buffer][from..from + size].to_vec();
            self.buffers.get_mut(dst_buffer).unwrap()[to..to + size].copy_from_slice(&bytes);
        }
    }

    fn perform(&mut self, call: &HalaDeviceCall) -> Result<Option<u32>, i32> {
        self.log.push(call.clone());
        if let Some((kind, code)) = self.failing {
            if kind == kind_of(call) {
                return Err(code);
            }
        }
        match call {
            HalaDeviceCall::BeginCommandBuffer { command_buffer, .. } => {
                let state = self.lifecycle[command_buffer];
                assert!(state != Lifecycle::Pending && state != Lifecycle::Recording);
                self.lifecycle.insert(*command_buffer, Lifecycle::Recording);
                self.recorded.insert(*command_buffer, Vec::new());
            }
            HalaDeviceCall::EndCommandBuffer { command_buffer } => {
                assert_eq!(self.lifecycle[command_buffer], Lifecycle::Recording);
                self.lifecycle.insert(*command_buffer, Lifecycle::Executable);
            }
            HalaDeviceCall::ResetCommandBuffer { command_buffer, .. } => {
                assert!(self.lifecycle[command_buffer] != Lifecycle::Pending);
                self.lifecycle.insert(*command_buffer, Lifecycle::Initial);
                self.recorded.insert(*command_buffer, Vec::new());
            }
            HalaDeviceCall::QueueSubmit { command_buffer, fence, .. } => {
                assert_eq!(self.lifecycle[command_buffer], Lifecycle::Executable);
                let commands = self.recorded[command_buffer].clone();
                for command in commands.iter() {
                    self.execute(command);
                }
                self.lifecycle.insert(*command_buffer, Lifecycle::Pending);
                if *fence != 0 {
                    assert!(!self.signaled[fence]);
                    self.pending_fence.insert(*command_buffer, *fence);
                    self.signaled.insert(*fence, true);
                }
            }
            HalaDeviceCall::QueueWaitIdle { .. } | HalaDeviceCall::DeviceWaitIdle => self.complete(None),
            HalaDeviceCall::WaitForFence { fence, .. } => {
                assert!(self.signaled[fence]);
                self.complete(Some(*fence));
            }
            HalaDeviceCall::ResetFence { fence } => {
                self.signaled.insert(*fence, false);
            }
            HalaDeviceCall::AcquireNextImage { .. } => {
                let image = self.next_image;
                self.next_image = (self.next_image + 1) % self.image_count;
                return Ok(Some(image));
            }
            HalaDeviceCall::QueuePresent { .. } => {}
            HalaDeviceCall::Destroy { kind, handle } => {
                if *kind != HalaObjectKind::Allocation {
                    assert!(self.live.remove(&(*kind, *handle)), "destroyed twice or never created");
                    self.destroyed += 1;
                }
            }
            HalaDeviceCall::FreeCommandBuffers { command_buffers, .. } => {
                for cb in command_buffers {
                    self.lifecycle.remove(cb);
                }
            }
            command => {
                let cb = match command {
                    HalaDeviceCall::Record { command_buffer, .. } => *command_buffer,
                    HalaDeviceCall::Record { command_buffer, .. } => *command_buffer,
                    HalaDeviceCall::Record { command_buffer, .. } => *command_buffer,
                    HalaDeviceCall::Record { command_buffer, .. } => *command_buffer,
                    other => panic!("unexpected command {:?}", other),
                };
                assert_eq!(self.lifecycle[&cb], Lifecycle::Recording);
                self.recorded.get_mut(&cb).unwrap().push(command.clone());
            }
        }
        Ok(None)
    }

    fn run(&mut self, sequence: &mut HalaCallSequence) -> Result<(), HalaGfxError> {
        while let Some(call) = sequence.current() {
            let call = call.clone();
            let outcome = self.perform(&call).map(|_| ());
            sequence.complete(outcome)?;
        }
        Ok(())
    }
}

fn logical_device() -> HalaLogicalDevice {
    HalaLogicalDevice {
        graphics_queue_family_index: 0,
        transfer_queue_family_index: 1,
        compute_queue_family_index: 2,
        min_acceleration_structure_scratch_offset_alignment: 128,
        max_ray_recursion_depth: 8,
        shader_group_handle_size: 32,
        shader_group_handle_alignment: 32,
        shader_group_base_alignment: 64,
    }
}

fn transfer_set(device: &mut Device) -> HalaCommandBufferSet {
    HalaCommandBufferSet::new(device.command_buffers(2), HalaCommandBufferType(HalaCommandBufferType::TRANSFER))
}

fn copy(cb: u64, src: u64, dst: u64, size: u64) -> HalaDeviceCall {
    HalaDeviceCall::Record { command_buffer: cb, command: HalaCommand::CopyBuffer { src_buffer: src, dst_buffer: dst, src_offset: 0, dst_offset: 0, size } }
}

#[test]
fn execute_and_submit_makes_its_calls_in_order() {
    let mut device = Device::new(3);
    let set = transfer_set(&mut device);
    let cb = set.raw[1];
    let queue = HalaQueue { family_index: 1, queue_index: 0 };
    let recording = vec![copy(cb, 7, 8, 0)];
    let sequence = logical_device().execute_and_submit(&set, 1, recording.clone(), queue);
    let expected = vec![
        HalaDeviceCall::BeginCommandBuffer {
            command_buffer: cb,
            usage_flags: HalaCommandBufferUsageFlags(HalaCommandBufferUsageFlags::ONE_TIME_SUBMIT),
        },
        recording[0].clone(),
        HalaDeviceCall::EndCommandBuffer { command_buffer: cb },
        HalaDeviceCall::QueueSubmit {
            queue,
            command_buffer: cb,
            wait_semaphore: 0,
            wait_stage_mask: HalaPipelineStageFlags(0),
            signal_semaphore: 0,
            fence: 0,
        },
        HalaDeviceCall::QueueWaitIdle { queue },
        HalaDeviceCall::ResetCommandBuffer { command_buffer: cb, release_resources: false },
    ];
    assert_eq!(sequence.calls(), &expected);
    assert!(!sequence.is_done());
    let same = logical_device().transfer_execute_and_submit(&set, 1, recording, 0);
    assert_eq!(same.calls(), &expected);
}

#[test]
fn execute_and_submit_blocks_until_the_buffer_is_initial_again() {
    let mut device = Device::new(3);
    let set = transfer_set(&mut device);
    let mut sequence = logical_device().transfer_execute_and_submit(&set, 0, Vec::new(), 0);
    device.run(&mut sequence).unwrap();
    assert!(sequence.is_done());
    assert!(sequence.current().is_none());
    assert_eq!(device.lifecycle[&set.raw[0]], Lifecycle::Initial);
    assert_eq!(device.log.len(), 5);
    sequence.complete(Err(-4)).unwrap();
    assert!(sequence.is_done() && !sequence.has_failed());
}

#[test]
fn a_failed_submission_leaves_the_command_buffer_unreset() {
    for (kind, message, calls_made) in [
        ("begin", "Failed to begin the command buffer.", 1),
        ("end", "Failed to end the command buffer.", 3),
        ("submit", "Failed to submit queue.", 4),
        ("queue_wait_idle", "Failed to wait queue idle.", 5),
        ("reset", "Failed to reset the command buffer.", 6),
    ] {
        let mut device = Device::new(3);
        let set = transfer_set(&mut device);
        let cb = set.raw[0];
        let mut sequence = logical_device().transfer_execute_and_submit(&set, 0, vec![set.draw(0, 3, 1, 0, 0)], 0);
        device.failing = Some((kind, -4));
        let e = device.run(&mut sequence).unwrap_err();
        assert_eq!(e.message(), message);
        assert!(e.is_device_lost());
        assert_eq!(e.vulkan_code(), Some(-4));
        assert_eq!(device.log.len(), calls_made);
        assert!(sequence.has_failed() && !sequence.is_done());
        assert!(sequence.current().is_none());
        sequence.complete(Ok(())).unwrap();
        assert!(sequence.current().is_none() && sequence.has_failed());
        if kind != "reset" {
            assert!(!device.log.iter().any(|call| kind_of(call) == "reset"));
        }
        if kind == "submit" {
            assert_eq!(device.lifecycle[&cb], Lifecycle::Executable);
        }
    }
}

#[test]
fn resetting_a_command_buffer_that_was_never_begun_changes_nothing() {
    let mut device = Device::new(3);
    let set = transfer_set(&mut device);
    let before = (device.lifecycle.clone(), device.recorded.clone(), device.buffers.clone());
    let call = set.reset(0, false);
    assert_eq!(call, HalaDeviceCall::ResetCommandBuffer { command_buffer: set.raw[0], release_resources: false });
    device.perform(&call).unwrap();
    assert_eq!((device.lifecycle.clone(), device.recorded.clone(), device.buffers.clone()), before);
    assert_eq!(set.reset(1, true), HalaDeviceCall::ResetCommandBuffer { command_buffer: set.raw[1], release_resources: true });
}

#[test]
fn two_submissions_leave_the_device_as_one_combined_submission() {
    let run = |combined: bool| {
        let mut device = Device::new(3);
        let set = transfer_set(&mut device);
        let cb = set.raw[0];
        let a = device.buffer(4, HalaMemoryLocation::CpuToGpu);
        let b = device.buffer(4, HalaMemoryLocation::GpuOnly);
        let c = device.buffer(4, HalaMemoryLocation::GpuOnly);
        device.buffers.insert(a.raw, vec![1, 2, 3, 4]);
        let first = vec![copy(cb, a.raw, b.raw, 4)];
        let second = vec![copy(cb, b.raw, c.raw, 2), copy(cb, c.raw, a.raw, 1)];
        if combined {
            let mut both = first.clone();
            both.extend(second);
            let mut sequence = logical_device().transfer_execute_and_submit(&set, 0, both, 0);
            device.run(&mut sequence).unwrap();
        } else {
            let mut sequence = logical_device().transfer_execute_and_submit(&set, 0, first, 0);
            device.run(&mut sequence).unwrap();
            let mut sequence = logical_device().transfer_execute_and_submit(&set, 0, second, 0);
            device.run(&mut sequence).unwrap();
        }
        (device.buffers[&a.raw].clone(), device.buffers[&b.raw].clone(), device.buffers[&c.raw].clone(), device.lifecycle[&cb])
    };
    let twice = run(false);
    assert_eq!(twice, run(true));
    assert_eq!(twice, (vec![1, 2, 3, 4], vec![1, 2, 3, 4], vec![1, 2, 0, 0], Lifecycle::Initial));
}

#[test]
fn what_is_uploaded_through_staging_is_downloaded_through_staging() {
    for capacity in [0usize, 1, 7, 64] {
        for len in 0..=capacity {
            let mut device = Device::new(3);
            let set = transfer_set(&mut device);
            let target = device.buffer(capacity, HalaMemoryLocation::GpuOnly);
            let data: Vec<u8> = (0..len).map(|i| (i * 7 + 1) as u8).collect();

            let desc = target.update_gpu_memory(data.len()).unwrap();
            assert_eq!(desc.size, len as u64);
            assert_eq!(desc.debug_name, "staging_buffer");
            let staging = device.buffer(desc.size as usize, desc.memory_location);
            let mut mapped = device.buffers[&staging.raw].clone();
            let mut upload = target
                .update_gpu_memory_with_buffer(&data, &staging, &mut mapped, &set, &logical_device())
                .unwrap();
            device.buffers.insert(staging.raw, mapped);
            device.run(&mut upload).unwrap();
            assert_eq!(&device.buffers[&target.raw][..len], &data[..]);

            let desc = target.download_gpu_memory(len).unwrap();
            let back = device.buffer(desc.size as usize, desc.memory_location);
            let mut download = target.download_gpu_memory_with_buffer(&back, &set, &logical_device()).unwrap();
            device.run(&mut download).unwrap();
            let mut out = vec![0xeeu8; len];
            back.download_memory(0, &mut out, &device.buffers[&back.raw]).unwrap();
            assert_eq!(out, data);
        }
    }
}

#[test]
fn a_staging_transfer_copies_no_more_than_both_buffers_hold() {
    let mut device = Device::new(3);
    let set = transfer_set(&mut device);
    let target = device.buffer(4, HalaMemoryLocation::GpuOnly);
    let staging = device.buffer(10, HalaMemoryLocation::CpuToGpu);
    let mut mapped = vec![0u8; 10];
    let data: Vec<u8> = (1..=12).collect();
    let mut upload = target.update_gpu_memory_with_buffer(&data, &staging, &mut mapped, &set, &logical_device()).unwrap();
    assert_eq!(mapped, vec![1, 2, 3, 4, 5, 6, 7, 8, 9, 10]);
    assert_eq!(upload.calls()[1], copy(set.raw[0], staging.raw, target.raw, 4));
    device.buffers.insert(staging.raw, mapped);
    device.run(&mut upload).unwrap();
    assert_eq!(device.buffers[&target.raw], vec![1, 2, 3, 4]);
    let download = target.download_gpu_memory_with_buffer(&staging, &set, &logical_device()).unwrap();
    assert_eq!(download.calls()[1], copy(set.raw[0], target.raw, staging.raw, 4));
    assert_eq!(
        download.calls()[3],
        HalaDeviceCall::QueueSubmit {
            queue: HalaQueue { family_index: 1, queue_index: 0 },
            command_buffer: set.raw[0],
            wait_semaphore: 0,
            wait_stage_mask: HalaPipelineStageFlags(0),
            signal_semaphore: 0,
            fence: 0,
        }
    );
}

#[test]
fn staging_transfers_are_refused_with_the_documented_errors() {
    let mut device = Device::new(3);
    let set = transfer_set(&mut device);
    let unknown = HalaCommandBufferSet::new(device.command_buffers(1), HalaCommandBufferType(9));
    let target = device.buffer(4, HalaMemoryLocation::GpuOnly);
    let visible = device.buffer(4, HalaMemoryLocation::CpuToGpu);
    let staging = device.buffer(4, HalaMemoryLocation::CpuToGpu);
    let hidden = device.buffer(4, HalaMemoryLocation::GpuOnly);
    let mut mapped = vec![9u8; 4];

    let e = visible.update_gpu_memory_with_buffer(&[1, 2], &staging, &mut mapped, &set, &logical_device()).unwrap_err();
    assert_eq!(e.message(), "Cannot update GPU memory of a non GPU only buffer.");
    assert_eq!(mapped, vec![9; 4]);
    let e = visible.download_gpu_memory_with_buffer(&staging, &set, &logical_device()).unwrap_err();
    assert_eq!(e.message(), "Cannot update GPU memory of a non GPU only buffer.");
    assert_eq!(visible.update_gpu_memory(4).unwrap_err().message(), "Cannot update GPU memory of a non GPU only buffer.");
    assert_eq!(visible.download_gpu_memory(4).unwrap_err().message(), "Cannot update GPU memory of a non GPU only buffer.");

    let e = target.update_gpu_memory_with_buffer(&[1, 2], &hidden, &mut mapped, &set, &logical_device()).unwrap_err();
    assert_eq!(e.message(), "Cannot update memory of a GPU only buffer.");
    assert_eq!(mapped, vec![9; 4]);

    let e = target.update_gpu_memory_with_buffer(&[1, 2], &staging, &mut mapped, &unknown, &logical_device()).unwrap_err();
    assert_eq!(e.message(), "Invalid command buffer type.");
    assert_eq!(mapped, vec![1, 2, 9, 9]);
    let e = target.download_gpu_memory_with_buffer(&staging, &unknown, &logical_device()).unwrap_err();
    assert_eq!(e.message(), "Invalid command buffer type.");
}

#[test]
fn host_visible_memory_gives_back_what_was_written() {
    for location in [HalaMemoryLocation::CpuToGpu, HalaMemoryLocation::GpuToCpu, HalaMemoryLocation::Unknown] {
        for len in 0..=8usize {
            for offset in 0..=4usize {
                let buffer = HalaBuffer::new(1, 8, location);
                let mut mapped = vec![0x55u8; 12];
                let data: Vec<u8> = (0..len).map(|i| (i + 1) as u8).collect();
                buffer.update_memory(offset, &data, &mut mapped).unwrap();
                let mut out = vec![0u8; len];
                buffer.download_memory(offset, &mut out, &mapped).unwrap();
                assert_eq!(out, data);
                assert!(mapped[..offset].iter().all(|b| *b == 0x55));
                assert!(mapped[offset + len..].iter().all(|b| *b == 0x55));
            }
        }
    }
}

#[test]
fn device_only_memory_is_never_written_by_the_host() {
    let buffer = HalaBuffer::new(1, 8, HalaMemoryLocation::GpuOnly);
    let mut mapped = vec![7u8; 8];
    let e = buffer.update_memory(0, &[1, 2, 3], &mut mapped).unwrap_err();
    assert_eq!(e.message(), "Cannot update memory of a GPU only buffer.");
    assert!(!e.is_device_lost());
    assert_eq!(mapped, vec![7u8; 8]);
    let mut out = vec![3u8; 4];
    let e = buffer.download_memory(0, &mut out, &mapped).unwrap_err();
    assert_eq!(e.message(), "Cannot download memory of a GPU only buffer.");
    assert_eq!(out, vec![3u8; 4]);
}

#[test]
fn copies_are_cut_to_the_smaller_side_and_kept_in_range() {
    let buffer = HalaBuffer::new(1, 4, HalaMemoryLocation::CpuToGpu);
    let mut mapped = vec![0u8; 6];
    buffer.update_memory(1, &[1, 2, 3, 4, 5, 6, 7], &mut mapped).unwrap();
    assert_eq!(mapped, vec![0, 1, 2, 3, 4, 0]);
    let mut out = vec![9u8; 6];
    buffer.download_memory(2, &mut out, &mapped).unwrap();
    assert_eq!(out, vec![2, 3, 4, 0, 9, 9]);
    let e = buffer.update_memory(3, &[1, 2, 3, 4], &mut mapped).unwrap_err();
    assert_eq!(e.message(), "Cannot update memory beyond the mapped range.");
    assert_eq!(mapped, vec![0, 1, 2, 3, 4, 0]);
    let e = buffer.update_memory(7, &[], &mut mapped).unwrap_err();
    assert_eq!(e.message(), "Cannot update memory beyond the mapped range.");
    let e = buffer.download_memory(3, &mut out, &mapped).unwrap_err();
    assert_eq!(e.message(), "Cannot download memory beyond the mapped range.");
    assert_eq!(out, vec![2, 3, 4, 0, 9, 9]);
    buffer.update_memory(6, &[], &mut mapped).unwrap();
    assert_eq!(
        buffer.destroy(),
        vec![
            HalaDeviceCall::Destroy { kind: HalaObjectKind::Buffer, handle: 1 },
            HalaDeviceCall::Destroy { kind: HalaObjectKind::Allocation, handle: 1 },
        ]
    );
}

struct Rig {
    device: Device,
    context: HalaContext,
    set: HalaCommandBufferSet,
}

fn swapchain(device: &mut Device, images: usize, depth_stencil_format: i32, width: u32, height: u32) -> HalaSwapchain {
    let has_depth = depth_stencil_format != HalaFormat::UNDEFINED;
    let parts = HalaSwapchainParts {
        swapchain: device.create(HalaObjectKind::Swapchain),
        images: (0..images as u64).map(|i| 9000 + i + device.next_handle).collect(),
        image_views: device.create_many(HalaObjectKind::ImageView, images),
        format: HalaFormat(HalaFormat::B8G8R8A8_UNORM),
        color_space: 0,
        width,
        height,
        present_mode: 2,
        depth_stencil_format: HalaFormat(depth_stencil_format),
        depth_stencil_image: if has_depth { device.create(HalaObjectKind::Image) } else { 0 },
        depth_stencil_image_view: if has_depth { device.create(HalaObjectKind::ImageView) } else { 0 },
        depth_stencil_memory: if has_depth { device.create(HalaObjectKind::DeviceMemory) } else { 0 },
        image_availables: device.create_many(HalaObjectKind::Semaphore, images),
        render_finisheds: device.create_many(HalaObjectKind::Semaphore, images),
        draw_fences: device.create_many(HalaObjectKind::Fence, images),
    };
    HalaSwapchain::new(parts).unwrap()
}

fn rig(images: usize, depth_stencil_format: i32) -> Rig {
    let mut device = Device::new(images as u32);
    let swapchain = swapchain(&mut device, images, depth_stencil_format, 1280, 720);
    let set = HalaCommandBufferSet::new(device.command_buffers(images), HalaCommandBufferType(HalaCommandBufferType::GRAPHICS));
    let parts = HalaContextParts {
        name: "test".to_string(),
        gpu_req: HalaGPURequirements::default(),
        instance: device.create(HalaObjectKind::Instance),
        surface: device.create(HalaObjectKind::Surface),
        device: device.create(HalaObjectKind::Device),
        logical_device: logical_device(),
        pools: HalaCommandPools::new(
            device.create(HalaObjectKind::CommandPool),
            device.create(HalaObjectKind::CommandPool),
            device.create(HalaObjectKind::CommandPool),
        ),
        short_time_pools: HalaCommandPools::new(
            device.create(HalaObjectKind::CommandPool),
            device.create(HalaObjectKind::CommandPool),
            device.create(HalaObjectKind::CommandPool),
        ),
        timestamp_query_pool: HalaQueryPool::new(device.create(HalaObjectKind::QueryPool), HalaContext::timestamp_query_count(&swapchain)),
        swapchain,
    };
    let context = HalaContext::new(parts).unwrap();
    Rig { device, context, set }
}

fn reply_of(outcome: Result<Option<u32>, i32>) -> HalaFrameReply {
    match outcome {
        Ok(Some(image)) => HalaFrameReply::ImageIndex(image),
        Ok(None) => HalaFrameReply::Done,
        Err(code) => HalaFrameReply::Failed(code),
    }
}

impl Rig {
    fn prepare(&mut self) -> Result<usize, HalaGfxError> {
        let mut reply = HalaFrameReply::Start;
        loop {
            match self.context.prepare_frame(reply) {
                HalaFrameStep::Call(call) => reply = reply_of(self.device.perform(&call)),
                HalaFrameStep::Prepared(index) => return Ok(index),
                HalaFrameStep::Presented => panic!("presented while preparing"),
                HalaFrameStep::Failed(e) => return Err(e),
            }
        }
    }

    fn record(&mut self, index: usize) {
        let mut calls = self.context.record_graphics_command_buffer(index, &self.set).unwrap();
        calls.extend(self.context.record_rendering(index, &self.set, Some((0, 0, 0, 0x3f80_0000)), Some(0x3f80_0000), None, None).unwrap());
        calls.push(self.set.draw(index, 3, 1, 0, 0));
        calls.extend(self.context.record_presentation(index, &self.set).unwrap());
        for call in calls {
            match kind_of(&call) {
                "command" => match call {
                    HalaDeviceCall::Record { command: HalaCommand::PipelineBarrier { .. }, .. } | HalaDeviceCall::Record { command: HalaCommand::Draw { .. }, .. } => {
                        self.device.perform(&call).unwrap();
                    }
                    _ => self.device.log.push(call),
                },
                _ => {
                    self.device.perform(&call).unwrap();
                }
            }
        }
    }

    fn submit_and_present(&mut self, index: usize) -> Result<(), HalaGfxError> {
        let mut reply = HalaFrameReply::Start;
        loop {
            match self.context.submit_and_present_frame(index, &self.set, reply) {
                HalaFrameStep::Call(call) => reply = reply_of(self.device.perform(&call)),
                HalaFrameStep::Presented => return Ok(()),
                HalaFrameStep::Prepared(_) => panic!("prepared while presenting"),
                HalaFrameStep::Failed(e) => return Err(e),
            }
        }
    }
}

#[test]
fn a_frame_makes_its_calls_with_the_handles_of_its_slots() {
    let mut rig = rig(3, HalaFormat::D32_SFLOAT);
    rig.device.next_image = 2;
    let swapchain_handle = rig.context.swapchain().unwrap().swapchain();
    let available = rig.context.swapchain().unwrap().image_availables().clone();
    let finished = rig.context.swapchain().unwrap().render_finisheds().clone();
    let fences = rig.context.swapchain().unwrap().draw_fences().clone();
    let queue = HalaQueue { family_index: 0, queue_index: 0 };

    assert_eq!(rig.prepare().unwrap(), 2);
    assert_eq!(
        rig.device.log,
        vec![
            HalaDeviceCall::QueueWaitIdle { queue },
            HalaDeviceCall::AcquireNextImage { swapchain: swapchain_handle, timeout: u64::MAX, semaphore: available[0], fence: 0 },
            HalaDeviceCall::WaitForFence { fence: fences[2], timeout: u64::MAX },
            HalaDeviceCall::ResetFence { fence: fences[2] },
        ]
    );
    assert_eq!(rig.context.frame_phase(), HalaFramePhase::Recording);
    rig.record(2);
    rig.device.log.clear();
    rig.submit_and_present(2).unwrap();
    assert_eq!(
        rig.device.log,
        vec![
            HalaDeviceCall::QueueSubmit {
                queue,
                command_buffer: rig.set.raw[2],
                wait_semaphore: available[0],
                wait_stage_mask: HalaPipelineStageFlags(HalaPipelineStageFlags::COLOR_ATTACHMENT_OUTPUT),
                signal_semaphore: finished[0],
                fence: fences[2],
            },
            HalaDeviceCall::QueuePresent { queue, swapchain: swapchain_handle, image_index: 2, wait_semaphore: finished[0] },
        ]
    );
    assert_eq!(rig.context.frame_phase(), HalaFramePhase::Idle);
    assert_eq!(rig.context.swapchain().unwrap().current_image_index(), 1);
    assert!(rig.context.is_in_flight(2));
    assert!(!rig.context.is_in_flight(0) && !rig.context.is_in_flight(1) && !rig.context.is_in_flight(3));
}

#[test]
fn five_frames_on_three_images_reuse_the_first_slot_after_its_fence() {
    let mut rig = rig(3, HalaFormat::UNDEFINED);
    let fences = rig.context.swapchain().unwrap().draw_fences().clone();
    let available = rig.context.swapchain().unwrap().image_availables().clone();
    let finished = rig.context.swapchain().unwrap().render_finisheds().clone();
    for frame in 0..5usize {
        let slot = frame % 3;
        rig.device.log.clear();
        let was_in_flight = rig.context.is_in_flight(slot);
        assert_eq!(was_in_flight, frame >= 3);
        if frame >= 3 {
            assert!(rig.device.signaled[&fences[slot]]);
        }
        assert_eq!(rig.prepare().unwrap(), slot);
        assert!(!rig.context.is_in_flight(slot));
        assert!(!rig.device.signaled[&fences[slot]]);
        assert!(rig.device.lifecycle[&rig.set.raw[slot]] != Lifecycle::Pending);
        rig.record(slot);
        rig.submit_and_present(slot).unwrap();
        assert!(rig.context.is_in_flight(slot));

        let waited = rig.device.log.iter().position(|call| *call == HalaDeviceCall::WaitForFence { fence: fences[slot], timeout: u64::MAX }).unwrap();
        let reset = rig.device.log.iter().position(|call| kind_of(call) == "reset").unwrap();
        let submitted = rig.device.log.iter().position(|call| kind_of(call) == "submit").unwrap();
        assert!(waited < reset && reset < submitted);
        match &rig.device.log[submitted] {
            HalaDeviceCall::QueueSubmit { command_buffer, wait_semaphore, signal_semaphore, fence, .. } => {
                assert_eq!(*command_buffer, rig.set.raw[slot]);
                assert_eq!(*fence, fences[slot]);
                assert_eq!(*wait_semaphore, available[slot]);
                assert_eq!(*signal_semaphore, finished[slot]);
            }
            other => panic!("not a submission: {:?}", other),
        }
        assert_eq!(rig.context.swapchain().unwrap().current_image_index(), (frame + 1) % 3);
    }
    assert_eq!(rig.device.log.iter().filter(|call| kind_of(call) == "submit").count(), 1);
}

#[test]
fn no_slot_is_submitted_twice_without_a_wait_whatever_the_order_of_images() {
    let mut rig = rig(4, HalaFormat::UNDEFINED);
    let order = [3u32, 1, 1, 0, 2, 3, 3, 0, 1, 2, 2, 2];
    for image in order {
        rig.device.next_image = image;
        let slot = rig.prepare().unwrap();
        assert_eq!(slot, image as usize);
        assert!(!rig.context.is_in_flight(slot));
        rig.record(slot);
        rig.submit_and_present(slot).unwrap();
        assert!(rig.context.is_in_flight(slot));
    }
}

#[test]
fn an_out_of_date_surface_is_reported_as_recoverable() {
    let mut rig = rig(3, HalaFormat::UNDEFINED);
    rig.device.failing = Some(("acquire", -1_000_001_004));
    let e = rig.prepare().unwrap_err();
    assert_eq!(e.message(), "Failed to acquire next image.");
    assert!(e.is_device_lost());
    assert_eq!(rig.context.frame_phase(), HalaFramePhase::Idle);

    rig.device.failing = Some(("present", -1_000_001_004));
    let slot = rig.prepare().unwrap();
    rig.record(slot);
    let e = rig.submit_and_present(slot).unwrap_err();
    assert_eq!(e.message(), "Failed to present queue.");
    assert!(e.is_device_lost());
    assert_eq!(rig.context.swapchain().unwrap().current_image_index(), 0);
    assert!(rig.context.is_in_flight(slot));
    assert_eq!(rig.context.frame_phase(), HalaFramePhase::Idle);
}

#[test]
fn every_failing_step_of_a_frame_has_its_own_error() {
    for (kind, message) in [
        ("queue_wait_idle", "Failed to wait for queue idle."),
        ("acquire", "Failed to acquire next image."),
        ("wait_for_fence", "Failed to wait for fence."),
        ("reset_fence", "Failed to reset fence."),
    ] {
        let mut rig = rig(2, HalaFormat::UNDEFINED);
        rig.device.failing = Some((kind, -2));
        let e = rig.prepare().unwrap_err();
        assert_eq!(e.message(), message);
        assert_eq!(e.vulkan_code(), Some(-2));
        assert!(!e.is_device_lost());
        assert_eq!(rig.context.frame_phase(), HalaFramePhase::Idle);
    }
    let mut rig = rig(2, HalaFormat::UNDEFINED);
    let slot = rig.prepare().unwrap();
    rig.record(slot);
    rig.device.failing = Some(("submit", -1));
    let e = rig.submit_and_present(slot).unwrap_err();
    assert_eq!(e.message(), "Failed to submit queue.");
    assert!(!rig.context.is_in_flight(slot));
    assert_eq!(rig.context.swapchain().unwrap().current_image_index(), 0);
}

#[test]
fn the_frame_cycle_refuses_what_is_out_of_step() {
    let mut rig = rig(2, HalaFormat::UNDEFINED);
    let out_of_step = |step: HalaFrameStep| match step {
        HalaFrameStep::Failed(e) => e.message() == "The frame cycle is out of step.",
        _ => false,
    };
    assert!(out_of_step(rig.context.prepare_frame(HalaFrameReply::Done)));
    assert!(out_of_step(rig.context.submit_and_present_frame(0, &rig.set, HalaFrameReply::Start)));
    assert!(rig.context.record_graphics_command_buffer(0, &rig.set).is_err());
    assert!(rig.context.record_presentation(0, &rig.set).is_err());
    assert!(rig.context.record_rendering(0, &rig.set, None, None, None, None).is_err());
    assert_eq!(rig.context.frame_phase(), HalaFramePhase::Idle);

    assert!(matches!(rig.context.prepare_frame(HalaFrameReply::Start), HalaFrameStep::Call(_)));
    assert!(out_of_step(rig.context.prepare_frame(HalaFrameReply::Start)));
    assert!(matches!(rig.context.prepare_frame(HalaFrameReply::Done), HalaFrameStep::Call(HalaDeviceCall::AcquireNextImage { .. })));
    match rig.context.prepare_frame(HalaFrameReply::ImageIndex(2)) {
        HalaFrameStep::Failed(e) => assert_eq!(e.message(), "The acquired image is not one of the swapchain."),
        other => panic!("accepted: {:?}", other),
    }
    assert_eq!(rig.context.frame_phase(), HalaFramePhase::Idle);

    let slot = rig.prepare().unwrap();
    assert!(out_of_step(rig.context.submit_and_present_frame(1 - slot, &rig.set, HalaFrameReply::Start)));
    assert!(rig.context.record_graphics_command_buffer(1 - slot, &rig.set).is_err());
    let short = HalaCommandBufferSet::new(Vec::new(), HalaCommandBufferType(0));
    assert!(out_of_step(rig.context.submit_and_present_frame(slot, &short, HalaFrameReply::Start)));
    assert!(out_of_step(rig.context.prepare_frame(HalaFrameReply::Start)));
    assert_eq!(rig.context.frame_phase(), HalaFramePhase::Recording);
}

impl Rig {
    fn wait_for_teardown(&mut self, width: u32, height: u32) -> Result<Vec<HalaDeviceCall>, HalaGfxError> {
        let wait = self.context.reset_swapchain(width, height);
        assert_eq!(wait, HalaDeviceCall::DeviceWaitIdle);
        let outcome = self.device.perform(&wait).map(|_| ());
        self.context.teardown_swapchain(outcome)
    }
}

#[test]
fn a_resize_destroys_and_remakes_the_whole_swapchain() {
    let mut rig = rig(3, HalaFormat::D24_UNORM_S8_UINT);
    for _ in 0..2 {
        let slot = rig.prepare().unwrap();
        rig.record(slot);
        rig.submit_and_present(slot).unwrap();
    }
    let old_views = rig.context.swapchain().unwrap().image_views().clone();
    let old_fences = rig.context.swapchain().unwrap().draw_fences().clone();
    let old_swapchain = rig.context.swapchain().unwrap().swapchain();
    let created_before = rig.device.created;
    let live_before = rig.device.live.len();

    let wait = rig.context.reset_swapchain(1920, 1080);
    assert_eq!(wait, HalaDeviceCall::DeviceWaitIdle);
    assert_eq!(rig.context.frame_phase(), HalaFramePhase::Resizing);
    assert_eq!(rig.context.resize_progress(), HalaResizeProgress::Waiting { width: 1920, height: 1080 });
    assert_eq!((rig.context.gpu_req().width, rig.context.gpu_req().height), (1280, 720));
    assert!(rig.context.has_swapchain());
    assert!(matches!(rig.context.prepare_frame(HalaFrameReply::Start), HalaFrameStep::Failed(_)));
    rig.device.perform(&wait).unwrap();
    let teardown = rig.context.teardown_swapchain(Ok(())).unwrap();
    assert_eq!(teardown.len(), 4 * 3 + 3 + 1);
    assert_eq!(teardown.last().unwrap(), &HalaDeviceCall::Destroy { kind: HalaObjectKind::Swapchain, handle: old_swapchain });
    assert_eq!(rig.context.resize_progress(), HalaResizeProgress::TornDown);
    assert_eq!((rig.context.gpu_req().width, rig.context.gpu_req().height), (1920, 1080));
    assert!(!rig.context.has_swapchain() && rig.context.swapchain().is_none());
    for call in teardown.iter() {
        rig.device.perform(call).unwrap();
    }
    assert_eq!(rig.device.destroyed, 4 * 3 + 3 + 1);
    assert_eq!(rig.device.live.len(), live_before - 16);
    for view in old_views.iter() {
        assert!(!rig.device.live.contains(&(HalaObjectKind::ImageView, *view)));
    }
    for fence in old_fences.iter() {
        assert!(!rig.device.live.contains(&(HalaObjectKind::Fence, *fence)));
    }
    assert!(rig.device.lifecycle.values().all(|state| *state != Lifecycle::Pending));

    let (width, height) = (rig.context.gpu_req().width, rig.context.gpu_req().height);
    let remade = swapchain(&mut rig.device, 3, HalaFormat::D24_UNORM_S8_UINT, width, height);
    assert_eq!(rig.device.created - created_before, rig.device.destroyed);
    rig.context.finish_reset_swapchain(remade).unwrap();
    assert_eq!(rig.context.resize_progress(), HalaResizeProgress::Settled);
    assert_eq!(rig.context.swapchain().unwrap().dims(), (1920, 1080));
    assert!(rig.context.swapchain().unwrap().swapchain() != old_swapchain);
    assert_eq!(rig.context.frame_phase(), HalaFramePhase::Idle);
    assert_eq!(rig.context.swapchain().unwrap().current_image_index(), 0);
    assert!((0..3).all(|slot| !rig.context.is_in_flight(slot)));
    assert_eq!(rig.device.live.len(), live_before);

    rig.device.next_image = 0;
    let slot = rig.prepare().unwrap();
    rig.record(slot);
    rig.submit_and_present(slot).unwrap();

    let all = rig.context.destroy();
    for call in all.iter() {
        rig.device.perform(call).unwrap();
    }
    assert!(rig.device.live.is_empty());
    assert_eq!(rig.device.created, rig.device.destroyed);
}

#[test]
fn a_resize_is_finished_only_after_the_teardown() {
    let mut rig = rig(2, HalaFormat::UNDEFINED);
    let fresh = swapchain(&mut rig.device, 2, HalaFormat::UNDEFINED, 64, 64);
    let e = rig.context.finish_reset_swapchain(fresh).unwrap_err();
    assert_eq!(e.message(), "The swapchain has not been torn down.");
    assert_eq!(rig.context.frame_phase(), HalaFramePhase::Idle);
    let e = rig.context.teardown_swapchain(Ok(())).unwrap_err();
    assert_eq!(e.message(), "No resize is under way.");
    assert_eq!(rig.context.resize_progress(), HalaResizeProgress::Settled);

    let _ = rig.context.reset_swapchain(64, 64);
    let fresh = swapchain(&mut rig.device, 2, HalaFormat::UNDEFINED, 64, 64);
    let e = rig.context.finish_reset_swapchain(fresh).unwrap_err();
    assert_eq!(e.message(), "The swapchain has not been torn down.");
    assert_eq!(rig.context.frame_phase(), HalaFramePhase::Resizing);
    assert_eq!(rig.context.swapchain().unwrap().num_of_images(), 2);
}

#[test]
fn a_failed_wait_leaves_the_context_as_it_was() {
    let mut rig = rig(2, HalaFormat::D32_SFLOAT);
    let slot = rig.prepare().unwrap();
    let handle = rig.context.swapchain().unwrap().swapchain();
    let fences = rig.context.swapchain().unwrap().draw_fences().clone();
    let requirements = rig.context.gpu_req().clone();
    let live_before = rig.device.live.len();
    assert_eq!(rig.context.frame_phase(), HalaFramePhase::Recording);

    rig.device.failing = Some(("device_wait_idle", -4));
    let e = rig.wait_for_teardown(1920, 1080).unwrap_err();
    assert_eq!(e.message(), "Failed to wait idle.");
    assert_eq!(e.vulkan_code(), Some(-4));
    assert!(e.is_device_lost());
    assert_eq!(rig.device.destroyed, 0);
    assert_eq!(rig.device.live.len(), live_before);
    assert_eq!(rig.context.gpu_req(), &requirements);
    assert_eq!((rig.context.gpu_req().width, rig.context.gpu_req().height), (1280, 720));
    assert_eq!(rig.context.resize_progress(), HalaResizeProgress::Settled);
    assert_eq!(rig.context.frame_phase(), HalaFramePhase::Recording);
    assert_eq!(rig.context.swapchain().unwrap().swapchain(), handle);
    assert_eq!(rig.context.swapchain().unwrap().draw_fences(), &fences);
    let fresh = swapchain(&mut rig.device, 4, HalaFormat::UNDEFINED, 64, 64);
    assert!(rig.context.finish_reset_swapchain(fresh).is_err());
    assert_eq!(rig.context.swapchain().unwrap().num_of_images(), 2);

    rig.device.failing = None;
    rig.record(slot);
    rig.submit_and_present(slot).unwrap();
}

#[test]
fn a_torn_down_swapchain_is_never_destroyed_again() {
    let mut rig = rig(2, HalaFormat::D24_UNORM_S8_UINT);
    let slot = rig.prepare().unwrap();
    rig.record(slot);
    rig.submit_and_present(slot).unwrap();
    let old: Vec<HalaDeviceCall> = rig.context.swapchain().unwrap().destroy();

    let teardown = rig.wait_for_teardown(800, 600).unwrap();
    assert_eq!(teardown, old);
    for call in teardown.iter() {
        rig.device.perform(call).unwrap();
    }
    let destroyed = rig.device.destroyed;
    assert_eq!(destroyed, 4 * 2 + 3 + 1);
    assert!(rig.context.swapchain().is_none());
    assert!(matches!(rig.context.prepare_frame(HalaFrameReply::Start), HalaFrameStep::Failed(_)));
    assert!(!rig.context.may_record(slot, &rig.set));

    let again = rig.wait_for_teardown(1024, 768).unwrap();
    assert!(again.is_empty());
    assert_eq!((rig.context.gpu_req().width, rig.context.gpu_req().height), (1024, 768));
    rig.device.failing = Some(("device_wait_idle", -2));
    let e = rig.wait_for_teardown(1, 1).unwrap_err();
    assert_eq!(e.vulkan_code(), Some(-2));
    assert_eq!(rig.context.resize_progress(), HalaResizeProgress::TornDown);
    assert_eq!((rig.context.gpu_req().width, rig.context.gpu_req().height), (1024, 768));
    rig.device.failing = None;
    assert_eq!(rig.device.destroyed, destroyed);

    let all = rig.context.destroy();
    assert!(all.iter().all(|call| !old.contains(call)));
    assert_eq!(all.len(), 1 + 6 + 4);
    for call in all.iter() {
        rig.device.perform(call).unwrap();
    }
    assert!(rig.device.live.is_empty());
    assert_eq!(rig.device.created, rig.device.destroyed);
}

#[test]
fn a_context_refuses_requirements_that_exclude_each_other() {
    let mut device = Device::new(2);
    let swapchain = swapchain(&mut device, 2, HalaFormat::UNDEFINED, 8, 8);
    let mut gpu_req = HalaGPURequirements::default();
    gpu_req.require_10bits_output = true;
    gpu_req.require_srgb_surface = true;
    assert_eq!(
        HalaContext::validate(&gpu_req).unwrap_err().message(),
        "10bits output and sRGB surface can't be required at the same time."
    );
    assert_eq!(HalaContext::timestamp_query_count(&swapchain), 4);
    let parts = HalaContextParts {
        name: "test".to_string(),
        gpu_req,
        instance: 1,
        surface: 2,
        device: 3,
        logical_device: logical_device(),
        pools: HalaCommandPools::new(4, 5, 6),
        short_time_pools: HalaCommandPools::new(7, 8, 9),
        timestamp_query_pool: HalaQueryPool::new(10, 4),
        swapchain,
    };
    let e = HalaContext::new(parts).unwrap_err();
    assert_eq!(e.message(), "10bits output and sRGB surface can't be required at the same time.");
    assert!(HalaContext::validate(&HalaGPURequirements::default()).is_ok());
    assert_eq!(HalaContext::frame_time_queries(3), (6, 2));
}

#[test]
fn a_context_gives_up_what_depends_on_another_object_first() {
    let rig = rig(1, HalaFormat::UNDEFINED);
    let calls = rig.context.destroy();
    let kinds: Vec<HalaObjectKind> = calls
        .iter()
        .map(|call| match call {
            HalaDeviceCall::Destroy { kind, .. } => *kind,
            other => panic!("not a destruction: {:?}", other),
        })
        .collect();
    let pool = HalaObjectKind::CommandPool;
    let semaphore = HalaObjectKind::Semaphore;
    assert_eq!(
        kinds,
        vec![
            HalaObjectKind::QueryPool,
            pool,
            pool,
            pool,
            pool,
            pool,
            pool,
            HalaObjectKind::Fence,
            semaphore,
            semaphore,
            HalaObjectKind::ImageView,
            HalaObjectKind::Swapchain,
            HalaObjectKind::Surface,
            HalaObjectKind::Allocation,
            HalaObjectKind::Device,
            HalaObjectKind::Instance,
        ]
    );
    assert_eq!(rig.context.name(), "test");
}

#[test]
fn a_swapchain_needs_a_whole_ring() {
    let parts = |images: usize, views: usize, fences: usize| HalaSwapchainParts {
        swapchain: 1,
        images: vec![2; images],
        image_views: vec![3; views],
        format: HalaFormat(HalaFormat::B8G8R8A8_UNORM),
        color_space: 0,
        width: 4,
        height: 4,
        present_mode: 2,
        depth_stencil_format: HalaFormat(HalaFormat::D32_SFLOAT_S8_UINT),
        depth_stencil_image: 4,
        depth_stencil_image_view: 5,
        depth_stencil_memory: 6,
        image_availables: vec![7; images],
        render_finisheds: vec![8; images],
        draw_fences: vec![9; fences],
    };
    for (images, views, fences) in [(0, 0, 0), (2, 1, 2), (2, 2, 3)] {
        let e = HalaSwapchain::new(parts(images, views, fences)).unwrap_err();
        assert_eq!(e.message(), "The swapchain needs one view, two semaphores and one fence for each image.");
    }
    let mut swapchain = HalaSwapchain::new(parts(2, 2, 2)).unwrap();
    assert!(swapchain.has_stencil());
    assert_eq!(swapchain.num_of_images(), 2);
    assert_eq!(swapchain.depth_stencil_format(), HalaFormat(HalaFormat::D32_SFLOAT_S8_UINT));
    assert_eq!(swapchain.current_image_index(), 0);
    swapchain.advance();
    assert_eq!(swapchain.current_image_index(), 1);
    swapchain.advance();
    assert_eq!(swapchain.current_image_index(), 0);
    assert_eq!(swapchain.destroy().len(), 4 * 2 + 3 + 1);
    assert_eq!(swapchain.wait_for_fence(1), HalaDeviceCall::WaitForFence { fence: 9, timeout: u64::MAX });
    assert_eq!(swapchain.reset_fence(0), HalaDeviceCall::ResetFence { fence: 9 });
    let stencil_only = HalaSwapchain::new(HalaSwapchainParts { depth_stencil_format: HalaFormat(HalaFormat::S8_UINT), ..parts(1, 1, 1) }).unwrap();
    assert!(!stencil_only.has_stencil());
}

#[test]
fn an_acceleration_structure_exists_only_after_its_build() {
    let mut device = Device::new(2);
    let set = HalaCommandBufferSet::new(device.command_buffers(1), HalaCommandBufferType(HalaCommandBufferType::GRAPHICS));
    let buffer = device.buffer(64, HalaMemoryLocation::GpuOnly);
    let scratch = HalaAccelerationStructure::scratch_address(1000, 128).unwrap();
    let mut build = HalaAccelerationStructure::build(&logical_device(), &set, 77, scratch);
    assert_eq!(build.calls().len(), 6);
    assert_eq!(
        build.calls()[1],
        HalaDeviceCall::Record { command_buffer: set.raw[0], command: HalaCommand::BuildAccelerationStructure { acceleration_structure: 77, scratch_address: 1024 } }
    );
    assert_eq!(build.calls()[4], HalaDeviceCall::QueueWaitIdle { queue: HalaQueue { family_index: 0, queue_index: 0 } });
    let e = HalaAccelerationStructure::new(77, buffer, 0x5000, &build).unwrap_err();
    assert_eq!(e.message(), "The acceleration structure has not been built.");
    device.run(&mut build).unwrap();
    let built = HalaAccelerationStructure::new(77, buffer, 0x5000, &build).unwrap();
    assert_eq!((built.raw, built.address, built.buffer), (77, 0x5000, buffer));
    assert_eq!(
        built.destroy(),
        vec![
            HalaDeviceCall::Destroy { kind: HalaObjectKind::AccelerationStructure, handle: 77 },
            HalaDeviceCall::Destroy { kind: HalaObjectKind::Buffer, handle: buffer.raw },
            HalaDeviceCall::Destroy { kind: HalaObjectKind::Allocation, handle: buffer.raw },
        ]
    );
}
