//! The swapchain: what it is created with, its ring of images with their
//! semaphores and fences, and the calls of one frame.

use crate::barrier::HalaImageAspectFlags;
use crate::command_buffer::HalaCommandBufferSet;
use crate::device::{HalaDeviceCall, HalaObjectKind, HalaQueue};
use crate::error::{HalaGfxError, HalaGfxErrorView};
use crate::format::HalaFormat;
use crate::image::HalaImageUsageFlags;
use crate::logical_device::HalaLogicalDevice;
use crate::pipeline::HalaPipelineStageFlags;
use crate::HalaGPURequirements;
use vstd::prelude::*;

verus! {

/// A pair of format and colour space that the surface can present.
#[derive(Clone, Copy, PartialEq, Eq, Structural, Debug)]
pub struct HalaSurfaceFormat {
    pub format: HalaFormat,
    /// The raw colour space.
    pub color_space: i32,
}

/// What the surface reports of itself when a swapchain is created.
#[derive(Clone, Copy, PartialEq, Eq, Structural, Debug)]
pub struct HalaSurfaceCapabilities {
    pub min_image_count: u32,
    /// The largest number of images; zero means that there is no limit.
    pub max_image_count: u32,
    pub current_width: u32,
    pub current_height: u32,
    /// The raw current transform of the surface.
    pub current_transform: u32,
}

/// What a swapchain is created from.
#[derive(Clone, Copy, PartialEq, Eq, Structural, Debug)]
pub struct HalaSwapchainCreateInfo {
    pub min_image_count: u32,
    pub format: HalaFormat,
    pub color_space: i32,
    pub width: u32,
    pub height: u32,
    pub image_array_layers: u32,
    pub image_usage: HalaImageUsageFlags,
    pub queue_family_index: u32,
    pub pre_transform: u32,
    pub present_mode: i32,
}

/// What the depth and stencil image of a swapchain is created from.
#[derive(Clone, Copy, PartialEq, Eq, Structural, Debug)]
pub struct HalaDepthStencilCreateInfo {
    pub format: HalaFormat,
    pub aspect_mask: HalaImageAspectFlags,
    pub width: u32,
    pub height: u32,
    pub image_usage: HalaImageUsageFlags,
    pub queue_family_index: u32,
}

/// The present mode that shows an image at once, tearing allowed.
pub const PRESENT_MODE_IMMEDIATE: i32 = 0;

/// The present mode that keeps the newest image for the next blank.
pub const PRESENT_MODE_MAILBOX: i32 = 1;

/// The present mode that queues images and shows one at each blank.
pub const PRESENT_MODE_FIFO: i32 = 2;

/// The queueing present mode that shows a late image at once.
pub const PRESENT_MODE_FIFO_RELAXED: i32 = 3;

/// The non-linear sRGB colour space.
pub const COLOR_SPACE_SRGB_NONLINEAR: i32 = 0;

/// The format feature bit of a depth and stencil attachment.
pub const FORMAT_FEATURE_DEPTH_STENCIL_ATTACHMENT: u32 = 0x200;

/// The four classes of 8-bit formats in the order in which they are
/// preferred, and the class of the 10-bit formats.
pub const FORMAT_CLASS_RGBA8_SRGB: u8 = 0;

pub const FORMAT_CLASS_BGRA8_SRGB: u8 = 1;

pub const FORMAT_CLASS_RGBA8: u8 = 2;

pub const FORMAT_CLASS_BGRA8: u8 = 3;

pub const FORMAT_CLASS_10BITS: u8 = 4;

/// Whether a format belongs to a class.
pub open spec fn spec_format_in_class(format: i32, class: u8) -> bool {
    if class == FORMAT_CLASS_RGBA8_SRGB {
        format == HalaFormat::R8G8B8A8_SRGB
    } else if class == FORMAT_CLASS_BGRA8_SRGB {
        format == HalaFormat::B8G8R8A8_SRGB
    } else if class == FORMAT_CLASS_RGBA8 {
        format == HalaFormat::R8G8B8A8_UINT || format == HalaFormat::R8G8B8A8_UNORM || format
            == HalaFormat::R8G8B8A8_SINT || format == HalaFormat::R8G8B8A8_SNORM
    } else if class == FORMAT_CLASS_BGRA8 {
        format == HalaFormat::B8G8R8A8_UINT || format == HalaFormat::B8G8R8A8_UNORM || format
            == HalaFormat::B8G8R8A8_SINT || format == HalaFormat::B8G8R8A8_SNORM
    } else if class == FORMAT_CLASS_10BITS {
        format == HalaFormat::A2B10G10R10_UNORM_PACK32 || format
            == HalaFormat::A2B10G10R10_SINT_PACK32 || format
            == HalaFormat::A2B10G10R10_SNORM_PACK32 || format
            == HalaFormat::A2B10G10R10_UINT_PACK32 || format
            == HalaFormat::A2R10G10B10_UNORM_PACK32 || format
            == HalaFormat::A2R10G10B10_SINT_PACK32 || format
            == HalaFormat::A2R10G10B10_SNORM_PACK32 || format
            == HalaFormat::A2R10G10B10_UINT_PACK32
    } else {
        false
    }
}

/// Whether a surface format is one of a class, in the non-linear sRGB
/// colour space.
pub open spec fn spec_surface_format_in_class(format: HalaSurfaceFormat, class: u8) -> bool {
    spec_format_in_class(format.format.0, class) && format.color_space
        == COLOR_SPACE_SRGB_NONLINEAR
}

/// The first surface format of a class at or after position `from`.
pub open spec fn spec_first_in_class(formats: Seq<HalaSurfaceFormat>, class: u8, from: int) -> Option<
    HalaFormat,
>
    decreases formats.len() - from,
{
    if from < 0 || from >= formats.len() {
        None
    } else if spec_surface_format_in_class(formats[from], class) {
        Some(formats[from].format)
    } else {
        spec_first_in_class(formats, class, from + 1)
    }
}

/// The first surface format found when the classes from `class` on are
/// tried in the order of preference.
pub open spec fn spec_first_in_classes(formats: Seq<HalaSurfaceFormat>, class: u8) -> Option<
    HalaFormat,
>
    decreases FORMAT_CLASS_10BITS - class,
{
    if class >= FORMAT_CLASS_10BITS {
        None
    } else {
        match spec_first_in_class(formats, class, 0) {
            Some(format) => Some(format),
            None => spec_first_in_classes(formats, (class + 1) as u8),
        }
    }
}

/// The format of the swapchain images. With 10-bit output asked for it is
/// the first 10-bit format of the surface. Otherwise it is the first format
/// of the most preferred class that the surface offers: the sRGB classes,
/// where an sRGB surface is asked for, then the other 8-bit classes. Where
/// the surface offers none of these, its first format is taken.
pub open spec fn spec_choose_format(
    require_10bits_output: bool,
    require_srgb_surface: bool,
    formats: Seq<HalaSurfaceFormat>,
) -> HalaFormat {
    let found = if require_10bits_output {
        spec_first_in_class(formats, FORMAT_CLASS_10BITS, 0)
    } else if require_srgb_surface {
        spec_first_in_classes(formats, FORMAT_CLASS_RGBA8_SRGB)
    } else {
        spec_first_in_classes(formats, FORMAT_CLASS_RGBA8)
    };
    match found {
        Some(format) => format,
        None => formats[0].format,
    }
}

/// How the format of the swapchain images falls short of what was asked
/// for.
#[derive(Clone, Copy, PartialEq, Eq, Structural, Debug)]
pub enum HalaFormatFallback {
    /// The format is one of those asked for.
    AsAskedFor,
    /// 10-bit output was asked for and the surface offers no 10-bit format:
    /// its first format is taken.
    NoTenBitFormat,
    /// The surface offers no 8-bit format of the known classes: its first
    /// format is taken.
    NoEightBitFormat,
    /// An sRGB surface was asked for and the surface offers none: another
    /// 8-bit format is taken.
    NotSrgb,
}

/// How the format that `spec_choose_format` takes falls short of what was
/// asked for.
pub open spec fn spec_format_fallback(
    require_10bits_output: bool,
    require_srgb_surface: bool,
    formats: Seq<HalaSurfaceFormat>,
) -> HalaFormatFallback {
    if require_10bits_output {
        match spec_first_in_class(formats, FORMAT_CLASS_10BITS, 0) {
            Some(_) => HalaFormatFallback::AsAskedFor,
            None => HalaFormatFallback::NoTenBitFormat,
        }
    } else if require_srgb_surface {
        match spec_first_in_classes(formats, FORMAT_CLASS_RGBA8_SRGB) {
            Some(format) => if format.0 != HalaFormat::R8G8B8A8_SRGB && format.0
                != HalaFormat::B8G8R8A8_SRGB {
                HalaFormatFallback::NotSrgb
            } else {
                HalaFormatFallback::AsAskedFor
            },
            None => HalaFormatFallback::NoEightBitFormat,
        }
    } else {
        match spec_first_in_classes(formats, FORMAT_CLASS_RGBA8) {
            Some(_) => HalaFormatFallback::AsAskedFor,
            None => HalaFormatFallback::NoEightBitFormat,
        }
    }
}

/// The present mode of the swapchain, or the error that reports that the
/// surface lacks the mode asked for. An immediate swapchain needs the
/// immediate mode. A low-latency swapchain takes the mailbox mode, else the
/// relaxed queue, else the queue. Any other swapchain needs the queue.
pub open spec fn spec_choose_present_mode(
    is_immediate: bool,
    is_low_latency: bool,
    present_modes: Seq<i32>,
) -> Result<i32, HalaGfxErrorView> {
    if is_immediate {
        if present_modes.contains(PRESENT_MODE_IMMEDIATE) {
            Ok(PRESENT_MODE_IMMEDIATE)
        } else {
            Err(HalaGfxError::spec_plain("Failed to find a immediate present mode."@))
        }
    } else if is_low_latency {
        if present_modes.contains(PRESENT_MODE_MAILBOX) {
            Ok(PRESENT_MODE_MAILBOX)
        } else if present_modes.contains(PRESENT_MODE_FIFO_RELAXED) {
            Ok(PRESENT_MODE_FIFO_RELAXED)
        } else {
            Ok(PRESENT_MODE_FIFO)
        }
    } else if present_modes.contains(PRESENT_MODE_FIFO) {
        Ok(PRESENT_MODE_FIFO)
    } else {
        Err(HalaGfxError::spec_plain("Failed to find a FIFO present mode."@))
    }
}

/// The number of images asked of the surface: three, unless the surface
/// needs more or allows fewer.
pub open spec fn spec_image_count(capabilities: HalaSurfaceCapabilities) -> u32 {
    let wanted = if capabilities.min_image_count > 3 {
        capabilities.min_image_count
    } else {
        3u32
    };
    if capabilities.max_image_count != 0 && capabilities.max_image_count < wanted {
        capabilities.max_image_count
    } else {
        wanted
    }
}

/// The smaller of two lengths.
pub open spec fn spec_min_u32(a: u32, b: u32) -> u32 {
    if a <= b {
        a
    } else {
        b
    }
}

/// What a swapchain is created from, or the error that reports why none
/// can be.
pub open spec fn spec_create_swapchain(
    gpu_req: HalaGPURequirements,
    capabilities: HalaSurfaceCapabilities,
    present_modes: Seq<i32>,
    formats: Seq<HalaSurfaceFormat>,
    graphics_queue_family_index: u32,
) -> Result<HalaSwapchainCreateInfo, HalaGfxErrorView> {
    match spec_choose_present_mode(gpu_req.is_immediate, gpu_req.is_low_latency, present_modes) {
        Err(e) => Err(e),
        Ok(present_mode) => Ok(
            HalaSwapchainCreateInfo {
                min_image_count: spec_image_count(capabilities),
                format: spec_choose_format(
                    gpu_req.require_10bits_output,
                    gpu_req.require_srgb_surface,
                    formats,
                ),
                color_space: COLOR_SPACE_SRGB_NONLINEAR,
                width: spec_min_u32(gpu_req.width, capabilities.current_width),
                height: spec_min_u32(gpu_req.height, capabilities.current_height),
                image_array_layers: 1,
                image_usage: HalaImageUsageFlags(
                    HalaImageUsageFlags::COLOR_ATTACHMENT | HalaImageUsageFlags::TRANSFER_DST,
                ),
                queue_family_index: graphics_queue_family_index,
                pre_transform: capabilities.current_transform,
                present_mode,
            },
        ),
    }
}

/// The format and the aspects of the depth and stencil image that the
/// requirements ask for; the undefined format and no aspect where they ask
/// for neither depth nor stencil.
pub open spec fn spec_depth_stencil_format(require_depth: bool, require_stencil: bool) -> (
    HalaFormat,
    HalaImageAspectFlags,
) {
    if require_depth && require_stencil {
        (
            HalaFormat(HalaFormat::D24_UNORM_S8_UINT),
            HalaImageAspectFlags(HalaImageAspectFlags::DEPTH | HalaImageAspectFlags::STENCIL),
        )
    } else if require_depth {
        (HalaFormat(HalaFormat::D32_SFLOAT), HalaImageAspectFlags(HalaImageAspectFlags::DEPTH))
    } else if require_stencil {
        (HalaFormat(HalaFormat::S8_UINT), HalaImageAspectFlags(HalaImageAspectFlags::STENCIL))
    } else {
        (HalaFormat(HalaFormat::UNDEFINED), HalaImageAspectFlags(0))
    }
}

/// Whether a depth and stencil format carries stencil bits beside depth
/// bits.
pub open spec fn spec_has_stencil(format: HalaFormat) -> bool {
    format.0 == HalaFormat::D16_UNORM_S8_UINT || format.0 == HalaFormat::D24_UNORM_S8_UINT
        || format.0 == HalaFormat::D32_SFLOAT_S8_UINT
}

/// Whether a depth and stencil format carries stencil bits beside depth
/// bits.
pub fn format_has_stencil(format: HalaFormat) -> (has: bool)
    ensures
        has == spec_has_stencil(format),
{
    let raw = format.as_raw();
    raw == HalaFormat::D16_UNORM_S8_UINT || raw == HalaFormat::D24_UNORM_S8_UINT || raw
        == HalaFormat::D32_SFLOAT_S8_UINT
}

/// The calls that destroy one object of a kind for each handle of a list,
/// in the order of the list.
pub open spec fn spec_destroy_each(kind: HalaObjectKind, handles: Seq<u64>) -> Seq<HalaDeviceCall> {
    Seq::new(handles.len(), |i: int| HalaDeviceCall::Destroy { kind, handle: handles[i] })
}

/// Appends the calls that destroy one object of a kind for each handle.
fn push_destroy_each(calls: &mut Vec<HalaDeviceCall>, kind: HalaObjectKind, handles: &Vec<u64>)
    ensures
        final(calls)@ == old(calls)@ + spec_destroy_each(kind, handles@),
{
    let mut i: usize = 0;
    while i < handles.len()
        invariant
            i <= handles@.len(),
            calls@ == old(calls)@ + spec_destroy_each(kind, handles@.subrange(0, i as int)),
        decreases handles@.len() - i,
    {
        calls.push(HalaDeviceCall::Destroy { kind, handle: handles[i] });
        i = i + 1;
    }
}

/// Whether a list of raw present modes holds a mode.
fn contains_mode(present_modes: &[i32], mode: i32) -> (found: bool)
    ensures
        found == present_modes@.contains(mode),
{
    let mut i: usize = 0;
    while i < present_modes.len()
        invariant
            i <= present_modes@.len(),
            forall|j: int| 0 <= j < i ==> present_modes@[j] != mode,
        decreases present_modes@.len() - i,
    {
        if present_modes[i] == mode {
            return true;
        }
        i = i + 1;
    }
    false
}

/// Whether a format belongs to a class.
fn format_in_class(format: HalaFormat, class: u8) -> (found: bool)
    ensures
        found == spec_format_in_class(format.0, class),
{
    let raw: i32 = format.as_raw();
    if class == FORMAT_CLASS_RGBA8_SRGB {
        raw == HalaFormat::R8G8B8A8_SRGB
    } else if class == FORMAT_CLASS_BGRA8_SRGB {
        raw == HalaFormat::B8G8R8A8_SRGB
    } else if class == FORMAT_CLASS_RGBA8 {
        raw == HalaFormat::R8G8B8A8_UINT || raw == HalaFormat::R8G8B8A8_UNORM || raw
            == HalaFormat::R8G8B8A8_SINT || raw == HalaFormat::R8G8B8A8_SNORM
    } else if class == FORMAT_CLASS_BGRA8 {
        raw == HalaFormat::B8G8R8A8_UINT || raw == HalaFormat::B8G8R8A8_UNORM || raw
            == HalaFormat::B8G8R8A8_SINT || raw == HalaFormat::B8G8R8A8_SNORM
    } else if class == FORMAT_CLASS_10BITS {
        raw == HalaFormat::A2B10G10R10_UNORM_PACK32 || raw == HalaFormat::A2B10G10R10_SINT_PACK32
            || raw == HalaFormat::A2B10G10R10_SNORM_PACK32 || raw
            == HalaFormat::A2B10G10R10_UINT_PACK32 || raw == HalaFormat::A2R10G10B10_UNORM_PACK32
            || raw == HalaFormat::A2R10G10B10_SINT_PACK32 || raw
            == HalaFormat::A2R10G10B10_SNORM_PACK32 || raw == HalaFormat::A2R10G10B10_UINT_PACK32
    } else {
        false
    }
}

/// The first surface format of a class.
fn first_in_class(formats: &[HalaSurfaceFormat], class: u8) -> (found: Option<HalaFormat>)
    ensures
        found == spec_first_in_class(formats@, class, 0),
{
    let mut i: usize = 0;
    while i < formats.len()
        invariant
            i <= formats@.len(),
            spec_first_in_class(formats@, class, 0) == spec_first_in_class(formats@, class, i as int),
        decreases formats@.len() - i,
    {
        let candidate = formats[i];
        if format_in_class(candidate.format, class) && candidate.color_space
            == COLOR_SPACE_SRGB_NONLINEAR {
            return Some(candidate.format);
        }
        i = i + 1;
    }
    None
}

/// The first surface format found when the classes from `class` on are
/// tried in the order of preference.
fn first_in_classes(formats: &[HalaSurfaceFormat], class: u8) -> (found: Option<HalaFormat>)
    ensures
        found == spec_first_in_classes(formats@, class),
{
    let mut current: u8 = class;
    while current < FORMAT_CLASS_10BITS
        invariant
            spec_first_in_classes(formats@, class) == spec_first_in_classes(formats@, current),
        decreases FORMAT_CLASS_10BITS - current,
    {
        match first_in_class(formats, current) {
            Some(format) => {
                return Some(format);
            },
            None => {},
        }
        current = current + 1;
    }
    None
}

/// The swapchain: the ring of presentable images with, for each slot of the
/// ring, the semaphore that tells when the image is available, the
/// semaphore that tells when rendering has finished and the fence that
/// tells when the frame has been consumed.
#[derive(Debug)]
pub struct HalaSwapchain {
    swapchain: u64,
    images: Vec<u64>,
    image_views: Vec<u64>,
    format: HalaFormat,
    color_space: i32,
    width: u32,
    height: u32,
    present_mode: i32,
    depth_stencil_format: HalaFormat,
    depth_stencil_image: u64,
    depth_stencil_image_view: u64,
    depth_stencil_memory: u64,
    has_stencil: bool,
    num_of_images: usize,
    current_image_index: usize,
    image_availables: Vec<u64>,
    render_finisheds: Vec<u64>,
    draw_fences: Vec<u64>,
}

/// The native handles and the properties that a swapchain is made of.
#[derive(Debug)]
pub struct HalaSwapchainParts {
    pub swapchain: u64,
    pub images: Vec<u64>,
    pub image_views: Vec<u64>,
    pub format: HalaFormat,
    pub color_space: i32,
    pub width: u32,
    pub height: u32,
    pub present_mode: i32,
    /// The undefined format where the swapchain has no depth and stencil
    /// image.
    pub depth_stencil_format: HalaFormat,
    pub depth_stencil_image: u64,
    pub depth_stencil_image_view: u64,
    pub depth_stencil_memory: u64,
    pub image_availables: Vec<u64>,
    pub render_finisheds: Vec<u64>,
    pub draw_fences: Vec<u64>,
}

impl HalaSwapchainParts {
    /// The ring has at least one slot, and there is one view, one pair of
    /// semaphores and one fence for each image.
    pub open spec fn spec_is_ring(self) -> bool {
        &&& self.images@.len() > 0
        &&& self.image_views@.len() == self.images@.len()
        &&& self.image_availables@.len() == self.images@.len()
        &&& self.render_finisheds@.len() == self.images@.len()
        &&& self.draw_fences@.len() == self.images@.len()
    }
}

impl HalaSwapchain {
    #[verifier::type_invariant]
    spec fn inv(&self) -> bool {
        &&& self.num_of_images > 0
        &&& self.images@.len() == self.num_of_images
        &&& self.image_views@.len() == self.num_of_images
        &&& self.image_availables@.len() == self.num_of_images
        &&& self.render_finisheds@.len() == self.num_of_images
        &&& self.draw_fences@.len() == self.num_of_images
        &&& self.current_image_index < self.num_of_images
        &&& self.has_stencil == spec_has_stencil(self.depth_stencil_format)
    }

    /// The handle of the swapchain.
    pub closed spec fn spec_swapchain(&self) -> u64 {
        self.swapchain
    }

    /// The images of the ring.
    pub closed spec fn spec_images(&self) -> Seq<u64> {
        self.images@
    }

    /// The views of the images of the ring.
    pub closed spec fn spec_image_views(&self) -> Seq<u64> {
        self.image_views@
    }

    /// The semaphores that tell when an image is available, one for each
    /// slot.
    pub closed spec fn spec_image_availables(&self) -> Seq<u64> {
        self.image_availables@
    }

    /// The semaphores that tell when rendering has finished, one for each
    /// slot.
    pub closed spec fn spec_render_finisheds(&self) -> Seq<u64> {
        self.render_finisheds@
    }

    /// The fences that tell when a frame has been consumed, one for each
    /// slot.
    pub closed spec fn spec_draw_fences(&self) -> Seq<u64> {
        self.draw_fences@
    }

    /// The number of slots of the ring.
    pub closed spec fn spec_num_of_images(&self) -> int {
        self.num_of_images as int
    }

    /// The slot whose semaphores the current frame uses.
    pub closed spec fn spec_current_image_index(&self) -> int {
        self.current_image_index as int
    }

    /// The format of the depth and stencil image; undefined where there is
    /// none.
    pub closed spec fn spec_depth_stencil_format(&self) -> HalaFormat {
        self.depth_stencil_format
    }

    /// The handles of the depth and stencil image, of its view and of its
    /// memory.
    pub closed spec fn spec_depth_stencil_handles(&self) -> (u64, u64, u64) {
        (self.depth_stencil_image, self.depth_stencil_image_view, self.depth_stencil_memory)
    }

    /// The width and the height of the images.
    pub closed spec fn spec_extent(&self) -> (u32, u32) {
        (self.width, self.height)
    }

    /// The format of the images.
    pub closed spec fn spec_format(&self) -> HalaFormat {
        self.format
    }

    /// The raw present mode of the swapchain and the raw colour space of
    /// its images.
    pub closed spec fn spec_presentation(&self) -> (i32, i32) {
        (self.present_mode, self.color_space)
    }

    /// What holds of every swapchain: the ring has a slot, every slot has
    /// its image, view, semaphores and fence, and the current slot is one
    /// of the ring.
    pub open spec fn spec_ring(&self) -> bool {
        &&& self.spec_num_of_images() > 0
        &&& self.spec_images().len() == self.spec_num_of_images()
        &&& self.spec_image_views().len() == self.spec_num_of_images()
        &&& self.spec_image_availables().len() == self.spec_num_of_images()
        &&& self.spec_render_finisheds().len() == self.spec_num_of_images()
        &&& self.spec_draw_fences().len() == self.spec_num_of_images()
        &&& 0 <= self.spec_current_image_index() < self.spec_num_of_images()
    }

    /// Whether this swapchain is `other` but for the slot in use: the same
    /// handles of the swapchain, its images and views, its semaphores and
    /// fences and its depth and stencil image, and the same format, extent
    /// and presentation.
    pub open spec fn spec_same_ring(&self, other: &HalaSwapchain) -> bool {
        &&& self.spec_swapchain() == other.spec_swapchain()
        &&& self.spec_images() == other.spec_images()
        &&& self.spec_image_views() == other.spec_image_views()
        &&& self.spec_image_availables() == other.spec_image_availables()
        &&& self.spec_render_finisheds() == other.spec_render_finisheds()
        &&& self.spec_draw_fences() == other.spec_draw_fences()
        &&& self.spec_num_of_images() == other.spec_num_of_images()
        &&& self.spec_depth_stencil_format() == other.spec_depth_stencil_format()
        &&& self.spec_depth_stencil_handles() == other.spec_depth_stencil_handles()
        &&& self.spec_extent() == other.spec_extent()
        &&& self.spec_format() == other.spec_format()
        &&& self.spec_presentation() == other.spec_presentation()
    }

    /// Chooses what the swapchain is created from: the present mode and the
    /// format among those that the surface offers, three images unless the
    /// surface needs more or allows fewer, and the extent asked for, cut
    /// down to the extent of the surface. The surface offers at least one
    /// format.
    pub fn create_swapchain(
        gpu_req: &HalaGPURequirements,
        capabilities: &HalaSurfaceCapabilities,
        present_modes: &[i32],
        formats: &[HalaSurfaceFormat],
        graphics_queue_family_index: u32,
    ) -> (result: Result<HalaSwapchainCreateInfo, HalaGfxError>)
        requires
            formats@.len() > 0,
        ensures
            match spec_create_swapchain(
                *gpu_req,
                *capabilities,
                present_modes@,
                formats@,
                graphics_queue_family_index,
            ) {
                Ok(info) => result == Ok::<_, HalaGfxError>(info),
                Err(refusal) => result matches Err(e) && e@ == refusal,
            },
    {
        let present_mode: i32 = if gpu_req.is_immediate {
            if contains_mode(present_modes, PRESENT_MODE_IMMEDIATE) {
                PRESENT_MODE_IMMEDIATE
            } else {
                return Err(HalaGfxError::new("Failed to find a immediate present mode.", None));
            }
        } else if gpu_req.is_low_latency {
            if contains_mode(present_modes, PRESENT_MODE_MAILBOX) {
                PRESENT_MODE_MAILBOX
            } else if contains_mode(present_modes, PRESENT_MODE_FIFO_RELAXED) {
                PRESENT_MODE_FIFO_RELAXED
            } else {
                PRESENT_MODE_FIFO
            }
        } else if contains_mode(present_modes, PRESENT_MODE_FIFO) {
            PRESENT_MODE_FIFO
        } else {
            return Err(HalaGfxError::new("Failed to find a FIFO present mode.", None));
        };
        let found = if gpu_req.require_10bits_output {
            first_in_class(formats, FORMAT_CLASS_10BITS)
        } else if gpu_req.require_srgb_surface {
            first_in_classes(formats, FORMAT_CLASS_RGBA8_SRGB)
        } else {
            first_in_classes(formats, FORMAT_CLASS_RGBA8)
        };
        let format = match found {
            Some(format) => format,
            None => formats[0].format,
        };
        let wanted: u32 = if capabilities.min_image_count > 3 {
            capabilities.min_image_count
        } else {
            3
        };
        let min_image_count: u32 = if capabilities.max_image_count != 0
            && capabilities.max_image_count < wanted {
            capabilities.max_image_count
        } else {
            wanted
        };
        Ok(
            HalaSwapchainCreateInfo {
                min_image_count,
                format,
                color_space: COLOR_SPACE_SRGB_NONLINEAR,
                width: if gpu_req.width <= capabilities.current_width {
                    gpu_req.width
                } else {
                    capabilities.current_width
                },
                height: if gpu_req.height <= capabilities.current_height {
                    gpu_req.height
                } else {
                    capabilities.current_height
                },
                image_array_layers: 1,
                image_usage: HalaImageUsageFlags::from_raw(
                    HalaImageUsageFlags::COLOR_ATTACHMENT | HalaImageUsageFlags::TRANSFER_DST,
                ),
                queue_family_index: graphics_queue_family_index,
                pre_transform: capabilities.current_transform,
                present_mode,
            },
        )
    }

    /// How the format that `create_swapchain` takes among `formats` falls
    /// short of what the requirements ask for.
    pub fn format_fallback(gpu_req: &HalaGPURequirements, formats: &[HalaSurfaceFormat]) -> (fallback:
        HalaFormatFallback)
        ensures
            fallback == spec_format_fallback(
                gpu_req.require_10bits_output,
                gpu_req.require_srgb_surface,
                formats@,
            ),
    {
        if gpu_req.require_10bits_output {
            match first_in_class(formats, FORMAT_CLASS_10BITS) {
                Some(_) => HalaFormatFallback::AsAskedFor,
                None => HalaFormatFallback::NoTenBitFormat,
            }
        } else if gpu_req.require_srgb_surface {
            match first_in_classes(formats, FORMAT_CLASS_RGBA8_SRGB) {
                Some(format) => {
                    let raw: i32 = format.as_raw();
                    if raw != HalaFormat::R8G8B8A8_SRGB && raw != HalaFormat::B8G8R8A8_SRGB {
                        HalaFormatFallback::NotSrgb
                    } else {
                        HalaFormatFallback::AsAskedFor
                    }
                },
                None => HalaFormatFallback::NoEightBitFormat,
            }
        } else {
            match first_in_classes(formats, FORMAT_CLASS_RGBA8) {
                Some(_) => HalaFormatFallback::AsAskedFor,
                None => HalaFormatFallback::NoEightBitFormat,
            }
        }
    }

    /// Whether the requirements ask for a depth and stencil image at all.
    /// Where they ask for none, nothing needs to be known of the device to
    /// say so.
    pub fn wants_depth_stencil(gpu_req: &HalaGPURequirements) -> (wanted: bool)
        ensures
            wanted == (gpu_req.require_depth || gpu_req.require_stencil),
    {
        gpu_req.require_depth || gpu_req.require_stencil
    }

    /// The format and the aspects of the depth and stencil image that the
    /// requirements ask for.
    pub fn choose_depth_stencil_format(gpu_req: &HalaGPURequirements) -> (chosen: (
        HalaFormat,
        HalaImageAspectFlags,
    ))
        ensures
            chosen == spec_depth_stencil_format(gpu_req.require_depth, gpu_req.require_stencil),
    {
        if gpu_req.require_depth && gpu_req.require_stencil {
            (
                HalaFormat::from_raw(HalaFormat::D24_UNORM_S8_UINT),
                HalaImageAspectFlags::from_raw(
                    HalaImageAspectFlags::DEPTH | HalaImageAspectFlags::STENCIL,
                ),
            )
        } else if gpu_req.require_depth {
            (
                HalaFormat::from_raw(HalaFormat::D32_SFLOAT),
                HalaImageAspectFlags::from_raw(HalaImageAspectFlags::DEPTH),
            )
        } else if gpu_req.require_stencil {
            (
                HalaFormat::from_raw(HalaFormat::S8_UINT),
                HalaImageAspectFlags::from_raw(HalaImageAspectFlags::STENCIL),
            )
        } else {
            (HalaFormat::from_raw(HalaFormat::UNDEFINED), HalaImageAspectFlags::empty())
        }
    }

    /// What the depth and stencil image is created from, if the
    /// requirements ask for one. `optimal_tiling_features` are the raw
    /// features that the device reports for the format of
    /// `choose_depth_stencil_format` in optimal tiling; a format that cannot
    /// be a depth and stencil attachment is refused. Where the requirements
    /// ask for no such image the features are not looked at.
    pub fn create_depth_stencil(
        gpu_req: &HalaGPURequirements,
        optimal_tiling_features: u32,
        width: u32,
        height: u32,
        graphics_queue_family_index: u32,
    ) -> (result: Result<Option<HalaDepthStencilCreateInfo>, HalaGfxError>)
        ensures
            !gpu_req.require_depth && !gpu_req.require_stencil ==> result == Ok::<
                _,
                HalaGfxError,
            >(None::<HalaDepthStencilCreateInfo>),
            (gpu_req.require_depth || gpu_req.require_stencil) && optimal_tiling_features
                & FORMAT_FEATURE_DEPTH_STENCIL_ATTACHMENT == 0 ==> (result matches Err(e) && e@
                == HalaGfxError::spec_plain("Failed to find a depth stencil format."@)),
            (gpu_req.require_depth || gpu_req.require_stencil) && optimal_tiling_features
                & FORMAT_FEATURE_DEPTH_STENCIL_ATTACHMENT != 0 ==> result == Ok::<_, HalaGfxError>(
                Some(
                    HalaDepthStencilCreateInfo {
                        format: spec_depth_stencil_format(
                            gpu_req.require_depth,
                            gpu_req.require_stencil,
                        ).0,
                        aspect_mask: spec_depth_stencil_format(
                            gpu_req.require_depth,
                            gpu_req.require_stencil,
                        ).1,
                        width,
                        height,
                        image_usage: HalaImageUsageFlags(
                            HalaImageUsageFlags::DEPTH_STENCIL_ATTACHMENT,
                        ),
                        queue_family_index: graphics_queue_family_index,
                    },
                ),
            ),
    {
        if !gpu_req.require_depth && !gpu_req.require_stencil {
            return Ok(None);
        }
        let (format, aspect_mask) = Self::choose_depth_stencil_format(gpu_req);
        if optimal_tiling_features & FORMAT_FEATURE_DEPTH_STENCIL_ATTACHMENT == 0 {
            return Err(HalaGfxError::new("Failed to find a depth stencil format.", None));
        }
        Ok(
            Some(
                HalaDepthStencilCreateInfo {
                    format,
                    aspect_mask,
                    width,
                    height,
                    image_usage: HalaImageUsageFlags::from_raw(
                        HalaImageUsageFlags::DEPTH_STENCIL_ATTACHMENT,
                    ),
                    queue_family_index: graphics_queue_family_index,
                },
            ),
        )
    }

    /// The swapchain made of the given parts, with the first slot as the
    /// current one. Parts that do not form a ring are refused.
    pub fn new(parts: HalaSwapchainParts) -> (result: Result<Self, HalaGfxError>)
        ensures
            !parts.spec_is_ring() ==> (result matches Err(e) && e@ == HalaGfxError::spec_plain(
                "The swapchain needs one view, two semaphores and one fence for each image."@,
            )),
            parts.spec_is_ring() ==> (result matches Ok(swapchain) && {
                &&& swapchain.spec_swapchain() == parts.swapchain
                &&& swapchain.spec_images() == parts.images@
                &&& swapchain.spec_image_views() == parts.image_views@
                &&& swapchain.spec_image_availables() == parts.image_availables@
                &&& swapchain.spec_render_finisheds() == parts.render_finisheds@
                &&& swapchain.spec_draw_fences() == parts.draw_fences@
                &&& swapchain.spec_num_of_images() == parts.images@.len()
                &&& swapchain.spec_current_image_index() == 0
                &&& swapchain.spec_depth_stencil_format() == parts.depth_stencil_format
                &&& swapchain.spec_depth_stencil_handles() == (
                    parts.depth_stencil_image,
                    parts.depth_stencil_image_view,
                    parts.depth_stencil_memory,
                )
                &&& swapchain.spec_extent() == (parts.width, parts.height)
                &&& swapchain.spec_format() == parts.format
                &&& swapchain.spec_presentation() == (parts.present_mode, parts.color_space)
            }),
    {
        let count: usize = parts.images.len();
        if count == 0 || parts.image_views.len() != count || parts.image_availables.len() != count
            || parts.render_finisheds.len() != count || parts.draw_fences.len() != count {
            return Err(
                HalaGfxError::new(
                    "The swapchain needs one view, two semaphores and one fence for each image.",
                    None,
                ),
            );
        }
        let has_stencil = format_has_stencil(parts.depth_stencil_format);
        Ok(
            HalaSwapchain {
                swapchain: parts.swapchain,
                images: parts.images,
                image_views: parts.image_views,
                format: parts.format,
                color_space: parts.color_space,
                width: parts.width,
                height: parts.height,
                present_mode: parts.present_mode,
                depth_stencil_format: parts.depth_stencil_format,
                depth_stencil_image: parts.depth_stencil_image,
                depth_stencil_image_view: parts.depth_stencil_image_view,
                depth_stencil_memory: parts.depth_stencil_memory,
                has_stencil,
                num_of_images: count,
                current_image_index: 0,
                image_availables: parts.image_availables,
                render_finisheds: parts.render_finisheds,
                draw_fences: parts.draw_fences,
            },
        )
    }

    /// The number of slots of the ring.
    pub fn num_of_images(&self) -> (count: usize)
        ensures
            count == self.spec_num_of_images(),
            count > 0,
            self.spec_ring(),
    {
        proof {
            use_type_invariant(self);
        }
        self.num_of_images
    }

    /// The slot whose semaphores the current frame uses.
    pub fn current_image_index(&self) -> (index: usize)
        ensures
            index == self.spec_current_image_index(),
            index < self.spec_num_of_images(),
    {
        proof {
            use_type_invariant(self);
        }
        self.current_image_index
    }

    /// The handle of the swapchain.
    pub fn swapchain(&self) -> (handle: u64)
        ensures
            handle == self.spec_swapchain(),
    {
        self.swapchain
    }

    /// The images of the ring.
    pub fn images(&self) -> (images: &Vec<u64>)
        ensures
            images@ == self.spec_images(),
            images@.len() == self.spec_num_of_images(),
    {
        proof {
            use_type_invariant(self);
        }
        &self.images
    }

    /// The views of the images of the ring.
    pub fn image_views(&self) -> (views: &Vec<u64>)
        ensures
            views@ == self.spec_image_views(),
            views@.len() == self.spec_num_of_images(),
    {
        proof {
            use_type_invariant(self);
        }
        &self.image_views
    }

    /// The fences of the ring.
    pub fn draw_fences(&self) -> (fences: &Vec<u64>)
        ensures
            fences@ == self.spec_draw_fences(),
            fences@.len() == self.spec_num_of_images(),
    {
        proof {
            use_type_invariant(self);
        }
        &self.draw_fences
    }

    /// The semaphores that tell when an image is available.
    pub fn image_availables(&self) -> (semaphores: &Vec<u64>)
        ensures
            semaphores@ == self.spec_image_availables(),
            semaphores@.len() == self.spec_num_of_images(),
    {
        proof {
            use_type_invariant(self);
        }
        &self.image_availables
    }

    /// The semaphores that tell when rendering has finished.
    pub fn render_finisheds(&self) -> (semaphores: &Vec<u64>)
        ensures
            semaphores@ == self.spec_render_finisheds(),
            semaphores@.len() == self.spec_num_of_images(),
    {
        proof {
            use_type_invariant(self);
        }
        &self.render_finisheds
    }

    /// The format of the images.
    pub fn format(&self) -> (format: HalaFormat)
        ensures
            format == self.spec_format(),
    {
        self.format
    }

    /// The width and the height of the images.
    pub fn dims(&self) -> (extent: (u32, u32))
        ensures
            extent == self.spec_extent(),
    {
        (self.width, self.height)
    }

    /// The raw present mode of the swapchain.
    pub fn present_mode(&self) -> (mode: i32)
        ensures
            mode == self.spec_presentation().0,
    {
        self.present_mode
    }

    /// The raw colour space of the images.
    pub fn color_space(&self) -> (space: i32)
        ensures
            space == self.spec_presentation().1,
    {
        self.color_space
    }

    /// The format of the depth and stencil image; undefined where there is
    /// none.
    pub fn depth_stencil_format(&self) -> (format: HalaFormat)
        ensures
            format == self.spec_depth_stencil_format(),
    {
        self.depth_stencil_format
    }

    /// The handle of the depth and stencil image.
    pub fn depth_stencil_image(&self) -> (handle: u64)
        ensures
            handle == self.spec_depth_stencil_handles().0,
    {
        self.depth_stencil_image
    }

    /// The handle of the view of the depth and stencil image.
    pub fn depth_stencil_image_view(&self) -> (handle: u64)
        ensures
            handle == self.spec_depth_stencil_handles().1,
    {
        self.depth_stencil_image_view
    }

    /// Whether the depth and stencil image carries stencil bits beside
    /// depth bits.
    pub fn has_stencil(&self) -> (has: bool)
        ensures
            has == spec_has_stencil(self.spec_depth_stencil_format()),
    {
        proof {
            use_type_invariant(self);
        }
        self.has_stencil
    }

    /// The calls that ask for the next image: wait until the first graphics
    /// queue is idle, then acquire, without a time limit, signalling the
    /// image-available semaphore of the current slot and no fence.
    pub fn acquire_next_image(&self, logical_device: &HalaLogicalDevice) -> (calls: (
        HalaDeviceCall,
        HalaDeviceCall,
    ))
        ensures
            calls.0 == (HalaDeviceCall::QueueWaitIdle {
                queue: HalaQueue {
                    family_index: logical_device.graphics_queue_family_index,
                    queue_index: 0,
                },
            }),
            calls.1 == (HalaDeviceCall::AcquireNextImage {
                swapchain: self.spec_swapchain(),
                timeout: u64::MAX,
                semaphore: self.spec_image_availables()[self.spec_current_image_index()],
                fence: 0,
            }),
    {
        proof {
            use_type_invariant(self);
        }
        (
            logical_device.graphics_wait(0),
            HalaDeviceCall::AcquireNextImage {
                swapchain: self.swapchain,
                timeout: u64::MAX,
                semaphore: self.image_availables[self.current_image_index],
                fence: 0,
            },
        )
    }

    /// The call that blocks, without a time limit, until the fence of the
    /// slot `command_buffer_index` is signalled.
    pub fn wait_for_fence(&self, command_buffer_index: usize) -> (call: HalaDeviceCall)
        requires
            command_buffer_index < self.spec_num_of_images(),
        ensures
            call == (HalaDeviceCall::WaitForFence {
                fence: self.spec_draw_fences()[command_buffer_index as int],
                timeout: u64::MAX,
            }),
    {
        proof {
            use_type_invariant(self);
        }
        HalaDeviceCall::WaitForFence {
            fence: self.draw_fences[command_buffer_index],
            timeout: u64::MAX,
        }
    }

    /// The call that resets the fence of the slot `command_buffer_index`.
    pub fn reset_fence(&self, command_buffer_index: usize) -> (call: HalaDeviceCall)
        requires
            command_buffer_index < self.spec_num_of_images(),
        ensures
            call == (HalaDeviceCall::ResetFence {
                fence: self.spec_draw_fences()[command_buffer_index as int],
            }),
    {
        proof {
            use_type_invariant(self);
        }
        HalaDeviceCall::ResetFence { fence: self.draw_fences[command_buffer_index] }
    }

    /// The submission of a frame: the command buffer of the slot
    /// `command_buffer_index` goes to the graphics queue `queue_index`. It
    /// waits at the colour attachment output stage for the image-available
    /// semaphore of the current slot, and signals the render-finished
    /// semaphore of the current slot and the fence of its own slot.
    pub fn submit(
        &self,
        command_buffers: &HalaCommandBufferSet,
        command_buffer_index: usize,
        queue_index: u32,
        logical_device: &HalaLogicalDevice,
    ) -> (call: HalaDeviceCall)
        requires
            command_buffer_index < self.spec_num_of_images(),
            command_buffer_index < command_buffers.raw@.len(),
        ensures
            call == (HalaDeviceCall::QueueSubmit {
                queue: HalaQueue {
                    family_index: logical_device.graphics_queue_family_index,
                    queue_index,
                },
                command_buffer: command_buffers.raw@[command_buffer_index as int],
                wait_semaphore: self.spec_image_availables()[self.spec_current_image_index()],
                wait_stage_mask: HalaPipelineStageFlags(
                    HalaPipelineStageFlags::COLOR_ATTACHMENT_OUTPUT,
                ),
                signal_semaphore: self.spec_render_finisheds()[self.spec_current_image_index()],
                fence: self.spec_draw_fences()[command_buffer_index as int],
            }),
    {
        proof {
            use_type_invariant(self);
        }
        HalaDeviceCall::QueueSubmit {
            queue: logical_device.get_graphics_queue(queue_index),
            command_buffer: command_buffers.raw[command_buffer_index],
            wait_semaphore: self.image_availables[self.current_image_index],
            wait_stage_mask: HalaPipelineStageFlags::from_raw(
                HalaPipelineStageFlags::COLOR_ATTACHMENT_OUTPUT,
            ),
            signal_semaphore: self.render_finisheds[self.current_image_index],
            fence: self.draw_fences[command_buffer_index],
        }
    }

    /// The presentation of the image `image_index` on the first graphics
    /// queue, once the render-finished semaphore of the current slot is
    /// signalled.
    pub fn present(&self, image_index: u32, logical_device: &HalaLogicalDevice) -> (call:
        HalaDeviceCall)
        ensures
            call == (HalaDeviceCall::QueuePresent {
                queue: HalaQueue {
                    family_index: logical_device.graphics_queue_family_index,
                    queue_index: 0,
                },
                swapchain: self.spec_swapchain(),
                image_index,
                wait_semaphore: self.spec_render_finisheds()[self.spec_current_image_index()],
            }),
    {
        proof {
            use_type_invariant(self);
        }
        HalaDeviceCall::QueuePresent {
            queue: logical_device.get_graphics_queue(0),
            swapchain: self.swapchain,
            image_index,
            wait_semaphore: self.render_finisheds[self.current_image_index],
        }
    }

    /// Moves on to the next slot of the ring, the first following the last.
    /// This is done once a frame has been presented.
    pub fn advance(&mut self)
        ensures
            final(self).spec_current_image_index() == (old(self).spec_current_image_index() + 1)
                % old(self).spec_num_of_images(),
            final(self).spec_swapchain() == old(self).spec_swapchain(),
            final(self).spec_images() == old(self).spec_images(),
            final(self).spec_image_views() == old(self).spec_image_views(),
            final(self).spec_image_availables() == old(self).spec_image_availables(),
            final(self).spec_render_finisheds() == old(self).spec_render_finisheds(),
            final(self).spec_draw_fences() == old(self).spec_draw_fences(),
            final(self).spec_num_of_images() == old(self).spec_num_of_images(),
            final(self).spec_depth_stencil_format() == old(self).spec_depth_stencil_format(),
            final(self).spec_depth_stencil_handles() == old(self).spec_depth_stencil_handles(),
            final(self).spec_extent() == old(self).spec_extent(),
            final(self).spec_format() == old(self).spec_format(),
            final(self).spec_presentation() == old(self).spec_presentation(),
            final(self).spec_ring(),
        no_unwind
    {
        proof {
            use_type_invariant(&*self);
        }
        let next: usize = if self.current_image_index + 1 == self.num_of_images {
            0
        } else {
            self.current_image_index + 1
        };
        assert(next == (self.current_image_index + 1) % (self.num_of_images as int)) by {
            if self.current_image_index + 1 == self.num_of_images {
            } else {
                vstd::arithmetic::div_mod::lemma_small_mod(
                    (self.current_image_index + 1) as nat,
                    self.num_of_images as nat,
                );
            }
        }
        self.current_image_index = next;
    }

    /// The calls that destroy what the swapchain owns, in this order: the
    /// fences, the image-available semaphores, the render-finished
    /// semaphores, then the view, the image and the memory of the depth and
    /// stencil image where there is one, then the views of the images, and
    /// last the swapchain itself.
    pub open spec fn spec_destroy(&self) -> Seq<HalaDeviceCall> {
        spec_destroy_each(HalaObjectKind::Fence, self.spec_draw_fences()) + spec_destroy_each(
            HalaObjectKind::Semaphore,
            self.spec_image_availables(),
        ) + spec_destroy_each(HalaObjectKind::Semaphore, self.spec_render_finisheds()) + (
        if self.spec_depth_stencil_format().0 != HalaFormat::UNDEFINED {
            seq![
                HalaDeviceCall::Destroy {
                    kind: HalaObjectKind::ImageView,
                    handle: self.spec_depth_stencil_handles().1,
                },
                HalaDeviceCall::Destroy {
                    kind: HalaObjectKind::Image,
                    handle: self.spec_depth_stencil_handles().0,
                },
                HalaDeviceCall::Destroy {
                    kind: HalaObjectKind::DeviceMemory,
                    handle: self.spec_depth_stencil_handles().2,
                },
            ]
        } else {
            Seq::<HalaDeviceCall>::empty()
        }) + spec_destroy_each(HalaObjectKind::ImageView, self.spec_image_views()) + seq![
            HalaDeviceCall::Destroy {
                kind: HalaObjectKind::Swapchain,
                handle: self.spec_swapchain(),
            },
        ]
    }

    /// Gives the swapchain up: the calls that destroy everything that it
    /// owns, each object once.
    pub fn destroy(&self) -> (calls: Vec<HalaDeviceCall>)
        ensures
            calls@ == self.spec_destroy(),
    {
        let mut calls: Vec<HalaDeviceCall> = Vec::new();
        push_destroy_each(&mut calls, HalaObjectKind::Fence, &self.draw_fences);
        push_destroy_each(&mut calls, HalaObjectKind::Semaphore, &self.image_availables);
        push_destroy_each(&mut calls, HalaObjectKind::Semaphore, &self.render_finisheds);
        if self.depth_stencil_format.as_raw() != HalaFormat::UNDEFINED {
            calls.push(
                HalaDeviceCall::Destroy {
                    kind: HalaObjectKind::ImageView,
                    handle: self.depth_stencil_image_view,
                },
            );
            calls.push(
                HalaDeviceCall::Destroy {
                    kind: HalaObjectKind::Image,
                    handle: self.depth_stencil_image,
                },
            );
            calls.push(
                HalaDeviceCall::Destroy {
                    kind: HalaObjectKind::DeviceMemory,
                    handle: self.depth_stencil_memory,
                },
            );
        }
        push_destroy_each(&mut calls, HalaObjectKind::ImageView, &self.image_views);
        calls.push(HalaDeviceCall::Destroy {
            kind: HalaObjectKind::Swapchain,
            handle: self.swapchain,
        });
        calls
    }
}

/// A swapchain of `n` images gives up `4 n + 1` objects, and three more
/// where it has a depth and stencil image: as many as were created for it.
pub proof fn lemma_destroy_count(swapchain: &HalaSwapchain)
    requires
        swapchain.spec_ring(),
    ensures
        swapchain.spec_destroy().len() == 4 * swapchain.spec_num_of_images() + 1 + (
        if swapchain.spec_depth_stencil_format().0 != HalaFormat::UNDEFINED {
            3int
        } else {
            0int
        }),
{
}

} // verus!
