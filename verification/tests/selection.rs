use hala_gfx::error::{HalaErrorSource, HalaGfxError};
use hala_gfx::format::HalaFormat;
use hala_gfx::image::HalaImageUsageFlags;
use hala_gfx::logical_device::HalaLogicalDevice;
use hala_gfx::physical_device::{
    HalaMemoryType, HalaPhysicalDevice, HalaPhysicalDeviceProperties, HalaQueueFamily,
    DEVICE_TYPE_CPU, DEVICE_TYPE_DISCRETE_GPU, DEVICE_TYPE_INTEGRATED_GPU, DEVICE_TYPE_VIRTUAL_GPU,
};
use hala_gfx::swapchain::{
    HalaSurfaceCapabilities, HalaSurfaceFormat, HalaSwapchain, PRESENT_MODE_FIFO,
    PRESENT_MODE_FIFO_RELAXED, PRESENT_MODE_IMMEDIATE, PRESENT_MODE_MAILBOX,
};
use hala_gfx::{HalaGPURequirements, HalaGPUType};

fn family(index: u32, queue_count: u32, queue_flags: u32, supports_present: bool) -> HalaQueueFamily {
    HalaQueueFamily { index, queue_count, queue_flags, supports_present }
}

fn capabilities(min: u32, max: u32, width: u32, height: u32) -> HalaSurfaceCapabilities {
    HalaSurfaceCapabilities {
        min_image_count: min,
        max_image_count: max,
        current_width: width,
        current_height: height,
        current_transform: 1,
    }
}

fn surface_format(format: i32, color_space: i32) -> HalaSurfaceFormat {
    HalaSurfaceFormat { format: HalaFormat(format), color_space }
}

#[test]
fn device_lost_and_out_of_date_are_recoverable() {
    let lost = HalaGfxError::new("Failed to present queue.", Some(HalaErrorSource::Vulkan(-4)));
    assert!(lost.is_device_lost());
    assert_eq!(lost.message(), "Failed to present queue.");
    assert_eq!(lost.to_string(), "Failed to present queue.");
    assert_eq!(lost.vulkan_code(), Some(-4));
    let out_of_date = HalaGfxError::vulkan("Failed to acquire next image.", -1_000_001_004);
    assert!(out_of_date.is_device_lost());
    assert_eq!(ash::vk::Result::ERROR_OUT_OF_DATE_KHR.as_raw(), -1_000_001_004);
    assert_eq!(ash::vk::Result::ERROR_DEVICE_LOST.as_raw(), -4);
}

#[test]
fn every_other_error_is_fatal() {
    for code in [0, -1, -2, -3, -5, 1_000_001_003, -1_000_001_003, -1_000_000_000, i32::MIN, i32::MAX] {
        assert!(!HalaGfxError::vulkan("Failed to submit queue.", code).is_device_lost());
    }
    assert!(!HalaGfxError::new("Failed to find a graphics queue.", None).is_device_lost());
    let other = HalaGfxError::new("Failed to allocate buffer.", Some(HalaErrorSource::Other("out of memory".to_string())));
    assert!(!other.is_device_lost());
    assert_eq!(other.vulkan_code(), None);
    assert!(other.source().is_some());
}

#[test]
fn queue_families_are_chosen_by_capability() {
    let families = [
        family(0, 16, 0x1 | 0x2 | 0x4, true),
        family(1, 2, 0x4, false),
        family(2, 8, 0x2 | 0x4, false),
    ];
    let chosen = HalaLogicalDevice::find_queue_family_indices(&families).unwrap();
    assert_eq!(chosen, ((0, 16), (2, 8), (2, 8)));
}

#[test]
fn graphics_family_is_the_first_with_the_most_queues() {
    let families = [
        family(0, 1, 0x1 | 0x4 | 0x2, false),
        family(1, 4, 0x1 | 0x4 | 0x2, true),
        family(2, 8, 0x1, true),
        family(3, 8, 0x1, true),
        family(4, 0, 0x1, true),
    ];
    let chosen = HalaLogicalDevice::find_queue_family_indices(&families).unwrap();
    assert_eq!(chosen.0, (2, 8));
    assert_eq!(chosen.1, (0, 1));
    assert_eq!(chosen.2, (0, 1));
}

#[test]
fn transfer_family_avoids_video_and_optical_flow_queues() {
    let families = [
        family(0, 4, 0x1 | 0x2 | 0x4, true),
        family(1, 8, 0x4 | 0x20, false),
        family(2, 8, 0x4 | 0x40, false),
        family(3, 8, 0x4 | 0x100, false),
        family(4, 1, 0x4, false),
    ];
    let chosen = HalaLogicalDevice::find_queue_family_indices(&families).unwrap();
    assert_eq!(chosen.1, (4, 1));
    assert_eq!(chosen.2, (0, 4));
}

#[test]
fn missing_queue_families_are_reported_in_order() {
    let e = HalaLogicalDevice::find_queue_family_indices(&[]).unwrap_err();
    assert_eq!(e.message(), "Failed to find a graphics queue.");
    let e = HalaLogicalDevice::find_queue_family_indices(&[family(0, 1, 0x2 | 0x4, true)]).unwrap_err();
    assert_eq!(e.message(), "Failed to find a graphics queue.");
    let e = HalaLogicalDevice::find_queue_family_indices(&[family(0, 1, 0x1, true)]).unwrap_err();
    assert_eq!(e.message(), "Failed to find a transfer queue.");
    let e = HalaLogicalDevice::find_queue_family_indices(&[family(0, 1, 0x1 | 0x4, true)]).unwrap_err();
    assert_eq!(e.message(), "Failed to find a compute queue.");
}

#[test]
fn present_mode_follows_the_requirements() {
    let formats = [surface_format(HalaFormat::B8G8R8A8_UNORM, 0)];
    let caps = capabilities(2, 8, 1920, 1080);
    let mut req = HalaGPURequirements::default();
    let info = HalaSwapchain::create_swapchain(&req, &caps, &[PRESENT_MODE_MAILBOX, PRESENT_MODE_FIFO], &formats, 3).unwrap();
    assert_eq!(info.present_mode, PRESENT_MODE_FIFO);
    let e = HalaSwapchain::create_swapchain(&req, &caps, &[PRESENT_MODE_MAILBOX], &formats, 3).unwrap_err();
    assert_eq!(e.message(), "Failed to find a FIFO present mode.");

    req.is_low_latency = true;
    let info = HalaSwapchain::create_swapchain(&req, &caps, &[PRESENT_MODE_FIFO, PRESENT_MODE_MAILBOX], &formats, 3).unwrap();
    assert_eq!(info.present_mode, PRESENT_MODE_MAILBOX);
    let info = HalaSwapchain::create_swapchain(&req, &caps, &[PRESENT_MODE_FIFO, PRESENT_MODE_FIFO_RELAXED], &formats, 3).unwrap();
    assert_eq!(info.present_mode, PRESENT_MODE_FIFO_RELAXED);
    let info = HalaSwapchain::create_swapchain(&req, &caps, &[], &formats, 3).unwrap();
    assert_eq!(info.present_mode, PRESENT_MODE_FIFO);

    req.is_immediate = true;
    let info = HalaSwapchain::create_swapchain(&req, &caps, &[PRESENT_MODE_FIFO, PRESENT_MODE_IMMEDIATE], &formats, 3).unwrap();
    assert_eq!(info.present_mode, PRESENT_MODE_IMMEDIATE);
    let e = HalaSwapchain::create_swapchain(&req, &caps, &[PRESENT_MODE_FIFO, PRESENT_MODE_MAILBOX], &formats, 3).unwrap_err();
    assert_eq!(e.message(), "Failed to find a immediate present mode.");
    assert_eq!(ash::vk::PresentModeKHR::IMMEDIATE.as_raw(), PRESENT_MODE_IMMEDIATE);
    assert_eq!(ash::vk::PresentModeKHR::MAILBOX.as_raw(), PRESENT_MODE_MAILBOX);
    assert_eq!(ash::vk::PresentModeKHR::FIFO.as_raw(), PRESENT_MODE_FIFO);
    assert_eq!(ash::vk::PresentModeKHR::FIFO_RELAXED.as_raw(), PRESENT_MODE_FIFO_RELAXED);
}

#[test]
fn surface_format_follows_the_order_of_preference() {
    let caps = capabilities(2, 8, 1920, 1080);
    let modes = [PRESENT_MODE_FIFO];
    let mut req = HalaGPURequirements::default();
    let formats = [
        surface_format(HalaFormat::R5G6B5_UNORM_PACK16, 0),
        surface_format(HalaFormat::B8G8R8A8_UNORM, 0),
        surface_format(HalaFormat::B8G8R8A8_SRGB, 0),
        surface_format(HalaFormat::R8G8B8A8_UNORM, 7),
        surface_format(HalaFormat::R8G8B8A8_SNORM, 0),
        surface_format(HalaFormat::A2B10G10R10_UNORM_PACK32, 0),
    ];
    let info = HalaSwapchain::create_swapchain(&req, &caps, &modes, &formats, 0).unwrap();
    assert_eq!(info.format, HalaFormat(HalaFormat::R8G8B8A8_SNORM));
    req.require_srgb_surface = true;
    let info = HalaSwapchain::create_swapchain(&req, &caps, &modes, &formats, 0).unwrap();
    assert_eq!(info.format, HalaFormat(HalaFormat::B8G8R8A8_SRGB));
    req.require_srgb_surface = false;
    req.require_10bits_output = true;
    let info = HalaSwapchain::create_swapchain(&req, &caps, &modes, &formats, 0).unwrap();
    assert_eq!(info.format, HalaFormat(HalaFormat::A2B10G10R10_UNORM_PACK32));
    let info = HalaSwapchain::create_swapchain(&req, &caps, &modes, &formats[..3], 0).unwrap();
    assert_eq!(info.format, HalaFormat(HalaFormat::R5G6B5_UNORM_PACK16));
    req.require_10bits_output = false;
    let info = HalaSwapchain::create_swapchain(&req, &caps, &modes, &formats[..1], 0).unwrap();
    assert_eq!(info.format, HalaFormat(HalaFormat::R5G6B5_UNORM_PACK16));
}

#[test]
fn swapchain_asks_for_three_images_within_the_limits_of_the_surface() {
    let formats = [surface_format(HalaFormat::B8G8R8A8_UNORM, 0)];
    let modes = [PRESENT_MODE_FIFO];
    let req = HalaGPURequirements::default();
    for (min, max, expected) in [(1u32, 0u32, 3u32), (2, 8, 3), (4, 8, 4), (1, 2, 2), (3, 3, 3), (5, 0, 5)] {
        let info = HalaSwapchain::create_swapchain(&req, &capabilities(min, max, 1920, 1080), &modes, &formats, 0).unwrap();
        assert_eq!(info.min_image_count, expected);
    }
    let info = HalaSwapchain::create_swapchain(&req, &capabilities(2, 8, 800, 2000), &modes, &formats, 5).unwrap();
    assert_eq!((info.width, info.height), (800, 720));
    assert_eq!(info.queue_family_index, 5);
    assert_eq!(info.pre_transform, 1);
    assert_eq!(info.image_array_layers, 1);
    assert_eq!(info.color_space, 0);
    assert_eq!(
        info.image_usage.as_raw(),
        HalaImageUsageFlags::COLOR_ATTACHMENT | HalaImageUsageFlags::TRANSFER_DST
    );
}

#[test]
fn depth_stencil_format_follows_the_requirements() {
    let mut req = HalaGPURequirements::default();
    let info = HalaSwapchain::create_depth_stencil(&req, 0x200, 640, 480, 2).unwrap().unwrap();
    assert_eq!(info.format, HalaFormat(HalaFormat::D32_SFLOAT));
    assert_eq!(info.aspect_mask.as_raw(), 2);
    assert_eq!((info.width, info.height), (640, 480));
    assert_eq!(info.image_usage.as_raw(), HalaImageUsageFlags::DEPTH_STENCIL_ATTACHMENT);
    req.require_stencil = true;
    let info = HalaSwapchain::create_depth_stencil(&req, 0x3ff, 640, 480, 2).unwrap().unwrap();
    assert_eq!(info.format, HalaFormat(HalaFormat::D24_UNORM_S8_UINT));
    assert_eq!(info.aspect_mask.as_raw(), 2 | 4);
    req.require_depth = false;
    let info = HalaSwapchain::create_depth_stencil(&req, 0x200, 640, 480, 2).unwrap().unwrap();
    assert_eq!(info.format, HalaFormat(HalaFormat::S8_UINT));
    assert_eq!(info.aspect_mask.as_raw(), 4);
    let e = HalaSwapchain::create_depth_stencil(&req, 0x1ff, 640, 480, 2).unwrap_err();
    assert_eq!(e.message(), "Failed to find a depth stencil format.");
    req.require_stencil = false;
    assert!(HalaSwapchain::create_depth_stencil(&req, 0, 640, 480, 2).unwrap().is_none());
    assert_eq!(HalaSwapchain::choose_depth_stencil_format(&req).0, HalaFormat(HalaFormat::UNDEFINED));
    assert!(!HalaSwapchain::wants_depth_stencil(&req));
    req.require_stencil = true;
    assert!(HalaSwapchain::wants_depth_stencil(&req));
    assert!(HalaSwapchain::wants_depth_stencil(&HalaGPURequirements::default()));
}

#[test]
fn a_format_that_falls_short_of_the_requirements_is_reported() {
    let mut req = HalaGPURequirements::default();
    let formats = [
        surface_format(HalaFormat::R5G6B5_UNORM_PACK16, 0),
        surface_format(HalaFormat::B8G8R8A8_UNORM, 0),
        surface_format(HalaFormat::B8G8R8A8_SRGB, 0),
        surface_format(HalaFormat::A2B10G10R10_UNORM_PACK32, 7),
    ];
    let fallback = |req: &HalaGPURequirements, formats: &[hala_gfx::HalaSurfaceFormat]| HalaSwapchain::format_fallback(req, formats);
    assert_eq!(fallback(&req, &formats), hala_gfx::HalaFormatFallback::AsAskedFor);
    assert_eq!(fallback(&req, &formats[..1]), hala_gfx::HalaFormatFallback::NoEightBitFormat);
    req.require_srgb_surface = true;
    assert_eq!(fallback(&req, &formats), hala_gfx::HalaFormatFallback::AsAskedFor);
    assert_eq!(fallback(&req, &formats[..2]), hala_gfx::HalaFormatFallback::NotSrgb);
    assert_eq!(fallback(&req, &formats[..1]), hala_gfx::HalaFormatFallback::NoEightBitFormat);
    req.require_srgb_surface = false;
    req.require_10bits_output = true;
    assert_eq!(fallback(&req, &formats), hala_gfx::HalaFormatFallback::NoTenBitFormat);
    let ten = [surface_format(HalaFormat::A2R10G10B10_UNORM_PACK32, 0)];
    assert_eq!(fallback(&req, &ten), hala_gfx::HalaFormatFallback::AsAskedFor);
}

#[test]
fn default_requirements_ask_for_a_gpu_with_depth() {
    let req = HalaGPURequirements::default();
    assert_eq!((req.width, req.height), (1280, 720));
    assert_eq!(req.version, (1, 2, 0));
    assert!(req.is_gpu && req.require_depth);
    assert_eq!(req.gpu_types, vec![HalaGPUType::Discrete, HalaGPUType::Integrated]);
    assert!(!req.require_stencil && !req.require_ray_tracing && !req.is_immediate && !req.is_low_latency);
    let copy = req.clone();
    assert_eq!(copy.gpu_types, req.gpu_types);
    assert_eq!((copy.width, copy.height, copy.version), (1280, 720, (1, 2, 0)));
}

fn device(device_type: i32, api_version: u32) -> HalaPhysicalDeviceProperties {
    HalaPhysicalDeviceProperties { device_type, api_version }
}

#[test]
fn physical_device_needs_the_version_that_is_asked_for() {
    let req = HalaGPURequirements::default();
    let packed = ash::vk::make_api_version(0, 1, 2, 0);
    assert_eq!(packed, 4_202_496);
    assert!(HalaPhysicalDevice::is_suitable(&req, &device(DEVICE_TYPE_DISCRETE_GPU, packed)));
    assert!(HalaPhysicalDevice::is_suitable(&req, &device(DEVICE_TYPE_DISCRETE_GPU, packed + 5)));
    assert!(!HalaPhysicalDevice::is_suitable(&req, &device(DEVICE_TYPE_DISCRETE_GPU, packed - 1)));
    assert!(!HalaPhysicalDevice::is_suitable(&req, &device(DEVICE_TYPE_DISCRETE_GPU, 2)));
}

#[test]
fn physical_device_prefers_the_first_discrete_gpu() {
    let req = HalaGPURequirements::default();
    let new = ash::vk::make_api_version(0, 1, 3, 0);
    let old = ash::vk::make_api_version(0, 1, 1, 0);
    let devices = [
        device(DEVICE_TYPE_INTEGRATED_GPU, new),
        device(DEVICE_TYPE_DISCRETE_GPU, old),
        device(DEVICE_TYPE_DISCRETE_GPU, new),
        device(DEVICE_TYPE_DISCRETE_GPU, new),
    ];
    assert_eq!(HalaPhysicalDevice::select(&req, &devices).unwrap(), 2);
    let devices = [
        device(DEVICE_TYPE_INTEGRATED_GPU, new),
        device(DEVICE_TYPE_CPU, new),
        device(DEVICE_TYPE_VIRTUAL_GPU, new),
        device(DEVICE_TYPE_INTEGRATED_GPU, new),
        device(0, new),
        device(DEVICE_TYPE_INTEGRATED_GPU, old),
    ];
    assert_eq!(HalaPhysicalDevice::select(&req, &devices).unwrap(), 4);
    let e = HalaPhysicalDevice::select(&req, &devices[1..3]).unwrap_err();
    assert_eq!(e.message(), "Failed to find a suitable physical device.");
    let mut any = HalaGPURequirements::default();
    any.is_gpu = false;
    assert_eq!(HalaPhysicalDevice::select(&any, &devices[1..3]).unwrap(), 1);
    assert_eq!(ash::vk::PhysicalDeviceType::DISCRETE_GPU.as_raw(), DEVICE_TYPE_DISCRETE_GPU);
    assert_eq!(ash::vk::PhysicalDeviceType::INTEGRATED_GPU.as_raw(), DEVICE_TYPE_INTEGRATED_GPU);
    assert_eq!(ash::vk::PhysicalDeviceType::VIRTUAL_GPU.as_raw(), DEVICE_TYPE_VIRTUAL_GPU);
    assert_eq!(ash::vk::PhysicalDeviceType::CPU.as_raw(), DEVICE_TYPE_CPU);
}

#[test]
fn memory_type_is_the_first_allowed_with_the_properties() {
    let types = vec![
        HalaMemoryType { property_flags: 0x1, heap_index: 0 },
        HalaMemoryType { property_flags: 0x6, heap_index: 1 },
        HalaMemoryType { property_flags: 0x7, heap_index: 1 },
        HalaMemoryType { property_flags: 0x1, heap_index: 0 },
    ];
    let device = HalaPhysicalDevice::new(1, device(DEVICE_TYPE_DISCRETE_GPU, 0), types, true, "gpu".to_string());
    assert_eq!(device.find_memory_type_index(0b1111, 0x1), Some(0));
    assert_eq!(device.find_memory_type_index(0b1110, 0x1), Some(2));
    assert_eq!(device.find_memory_type_index(0b1010, 0x1), Some(3));
    assert_eq!(device.find_memory_type_index(0b1111, 0x6), Some(1));
    assert_eq!(device.find_memory_type_index(0b1111, 0x8), None);
    assert_eq!(device.find_memory_type_index(0, 0x1), None);
    assert_eq!(device.find_memory_type_index(0xffff_fff0, 0x1), None);
}
