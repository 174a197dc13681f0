//! Sets of command buffers and the vocabulary of commands that are recorded
//! into them.

use crate::barrier::{
    HalaBufferBarrierInfo, HalaImageBarrierInfo, HalaImageLayout, HalaMemoryBarrierInfo,
};
use crate::buffer::HalaBuffer;
use crate::acceleration_structure::HalaIndexType;
use crate::device::{
    spec_is_begin_rendering, spec_is_buffer_barriers, spec_is_free_command_buffers,
    spec_is_image_barriers, spec_is_memory_barriers, HalaClearValue, HalaCommand, HalaDeviceCall,
    HalaRenderingAttachmentInfo, HalaRenderingView,
};
use crate::descriptor_set::HalaDescriptorSet;
use crate::format::HalaFormat;
use crate::image::HalaImage;
use crate::pipeline::{
    HalaCompareOp, HalaComputePipeline, HalaGraphicsPipeline, HalaPipelineStageFlags2,
    HalaRayTracingPipeline, HalaStencilFaceFlags, HalaStencilOp,
};
use crate::pools::HalaCommandPools;
use crate::query::HalaQueryPool;
use crate::renderpass::{
    HalaAttachmentLoadOp, HalaAttachmentStoreOp, HalaFrameBufferSet, HalaPipelineBindPoint,
    HalaRenderPass,
};
use crate::shader::HalaShaderStageFlags;
use crate::shader_binding_table::HalaShaderBindingTable;
use crate::swapchain::{format_has_stencil, spec_has_stencil, HalaSwapchain};
use vstd::slice::slice_to_vec;
use vstd::prelude::*;

verus! {

/// The command buffer type.
#[derive(Clone, Copy, PartialEq, Eq, Structural, PartialOrd, Ord, Hash, Debug)]
pub struct HalaCommandBufferType(pub i32);

impl Default for HalaCommandBufferType {
    fn default() -> (value: Self)
        ensures
            value.0 == 0,
    {
        Self(0)
    }
}

impl HalaCommandBufferType {
    pub const GRAPHICS: i32 = 0;
    pub const TRANSFER: i32 = 1;
    pub const COMPUTE: i32 = 2;

    /// The value with the given raw code.
    pub fn from_raw(x: i32) -> (value: Self)
        ensures
            value.0 == x,
    {
        Self(x)
    }

    /// The raw code of the value.
    pub fn as_raw(self) -> (x: i32)
        ensures
            x == self.0,
    {
        self.0
    }
}

impl HalaCommandBufferType {
    /// The name that the type is shown by: the name of its queue family, or
    /// `UNKNOWN` for a value that is none of the three.
    pub open spec fn spec_name(self) -> Seq<char> {
        if self.0 == HalaCommandBufferType::GRAPHICS {
            "GRAPHICS"@
        } else if self.0 == HalaCommandBufferType::TRANSFER {
            "TRANSFER"@
        } else if self.0 == HalaCommandBufferType::COMPUTE {
            "COMPUTE"@
        } else {
            "UNKNOWN"@
        }
    }

    /// The name that the type is shown by.
    pub fn name(self) -> (name: &'static str)
        ensures
            name@ == self.spec_name(),
    {
        if self.0 == HalaCommandBufferType::GRAPHICS {
            "GRAPHICS"
        } else if self.0 == HalaCommandBufferType::TRANSFER {
            "TRANSFER"
        } else if self.0 == HalaCommandBufferType::COMPUTE {
            "COMPUTE"
        } else {
            "UNKNOWN"
        }
    }
}

/// The command buffer level.
#[derive(Clone, Copy, PartialEq, Eq, Structural, PartialOrd, Ord, Hash, Debug)]
pub struct HalaCommandBufferLevel(pub i32);

impl Default for HalaCommandBufferLevel {
    fn default() -> (value: Self)
        ensures
            value.0 == 0,
    {
        Self(0)
    }
}

impl HalaCommandBufferLevel {
    pub const PRIMARY: i32 = 0;
    pub const SECONDARY: i32 = 1;

    /// The value with the given raw code.
    pub fn from_raw(x: i32) -> (value: Self)
        ensures
            value.0 == x,
    {
        Self(x)
    }

    /// The raw code of the value.
    pub fn as_raw(self) -> (x: i32)
        ensures
            x == self.0,
    {
        self.0
    }
}

/// The command buffer usage flags.
#[derive(Clone, Copy, PartialEq, Eq, Structural, PartialOrd, Ord, Hash, Debug)]
pub struct HalaCommandBufferUsageFlags(pub u32);

impl Default for HalaCommandBufferUsageFlags {
    fn default() -> (value: Self)
        ensures
            value.0 == 0,
    {
        Self(0)
    }
}

impl HalaCommandBufferUsageFlags {
    pub const ONE_TIME_SUBMIT: u32 = 1;
    pub const RENDER_PASS_CONTINUE: u32 = 2;
    pub const SIMULTANEOUS_USE: u32 = 4;

    /// The value with no bit set.
    pub fn empty() -> (value: Self)
        ensures
            value.0 == 0,
    {
        Self(0)
    }

    /// The value with the given raw bits.
    pub fn from_raw(x: u32) -> (value: Self)
        ensures
            value.0 == x,
    {
        Self(x)
    }

    /// The raw bits of the value.
    pub fn as_raw(self) -> (x: u32)
        ensures
            x == self.0,
    {
        self.0
    }

    /// Whether no bit is set.
    pub fn is_empty(self) -> (b: bool)
        ensures
            b == (self.0 == 0),
    {
        self.0 == 0
    }

    /// Whether the two values share a bit.
    pub fn intersects(self, other: Self) -> (b: bool)
        ensures
            b == (self.0 & other.0 != 0),
    {
        self.0 & other.0 != 0
    }

    /// Whether every bit of `other` is set in `self`.
    pub fn contains(self, other: Self) -> (b: bool)
        ensures
            b == (self.0 & other.0 == other.0),
    {
        self.0 & other.0 == other.0
    }
}

impl core::ops::BitOr for HalaCommandBufferUsageFlags {
    type Output = Self;

    fn bitor(self, rhs: Self) -> (value: Self) {
        Self(self.0 | rhs.0)
    }
}

impl vstd::std_specs::ops::BitOrSpecImpl for HalaCommandBufferUsageFlags {
    open spec fn obeys_bitor_spec() -> bool {
        true
    }

    open spec fn bitor_req(self, rhs: Self) -> bool {
        true
    }

    open spec fn bitor_spec(self, rhs: Self) -> Self {
        Self(self.0 | rhs.0)
    }
}

impl core::ops::BitAnd for HalaCommandBufferUsageFlags {
    type Output = Self;

    fn bitand(self, rhs: Self) -> (value: Self) {
        Self(self.0 & rhs.0)
    }
}

impl vstd::std_specs::ops::BitAndSpecImpl for HalaCommandBufferUsageFlags {
    open spec fn obeys_bitand_spec() -> bool {
        true
    }

    open spec fn bitand_req(self, rhs: Self) -> bool {
        true
    }

    open spec fn bitand_spec(self, rhs: Self) -> Self {
        Self(self.0 & rhs.0)
    }
}

impl core::ops::BitXor for HalaCommandBufferUsageFlags {
    type Output = Self;

    fn bitxor(self, rhs: Self) -> (value: Self) {
        Self(self.0 ^ rhs.0)
    }
}

impl vstd::std_specs::ops::BitXorSpecImpl for HalaCommandBufferUsageFlags {
    open spec fn obeys_bitxor_spec() -> bool {
        true
    }

    open spec fn bitxor_req(self, rhs: Self) -> bool {
        true
    }

    open spec fn bitxor_spec(self, rhs: Self) -> Self {
        Self(self.0 ^ rhs.0)
    }
}

impl core::ops::Not for HalaCommandBufferUsageFlags {
    type Output = Self;

    fn not(self) -> (value: Self) {
        Self(!self.0)
    }
}

impl vstd::std_specs::ops::NotSpecImpl for HalaCommandBufferUsageFlags {
    open spec fn obeys_not_spec() -> bool {
        true
    }

    open spec fn not_req(self) -> bool {
        true
    }

    open spec fn not_spec(self) -> Self {
        Self(!self.0)
    }
}

/// The subpass contents.
#[derive(Clone, Copy, PartialEq, Eq, Structural, PartialOrd, Ord, Hash, Debug)]
pub struct HalaSubpassContents(pub i32);

impl Default for HalaSubpassContents {
    fn default() -> (value: Self)
        ensures
            value.0 == 0,
    {
        Self(0)
    }
}

impl HalaSubpassContents {
    pub const INLINE: i32 = 0;
    pub const SECONDARY_COMMAND_BUFFERS: i32 = 1;
    pub const SECONDARY_COMMAND_BUFFERS_INLINE: i32 = 1000451000;

    /// The value with the given raw code.
    pub fn from_raw(x: i32) -> (value: Self)
        ensures
            value.0 == x,
    {
        Self(x)
    }

    /// The raw code of the value.
    pub fn as_raw(self) -> (x: i32)
        ensures
            x == self.0,
    {
        self.0
    }
}

/// The layout of an image that is used as an attachment of a dynamic
/// rendering pass.
pub const IMAGE_LAYOUT_ATTACHMENT_OPTIMAL: i32 = 1_000_314_001;

/// The bit pattern of the depth that a depth attachment is cleared to where
/// the caller names none: the floating-point number one.
pub const DEFAULT_CLEAR_DEPTH_BITS: u32 = 0x3f80_0000;

/// The command buffer set: an ordered sequence of command buffers of one
/// type, drawn from the pool of that type.
#[derive(Clone, Debug)]
pub struct HalaCommandBufferSet {
    /// The native handles of the command buffers.
    pub raw: Vec<u64>,
    pub command_buffer_type: HalaCommandBufferType,
}

/// The load operation of an attachment: clear, where a clear value is
/// given; else whatever is cheapest.
pub open spec fn spec_load_op(clear: bool) -> HalaAttachmentLoadOp {
    if clear {
        HalaAttachmentLoadOp(HalaAttachmentLoadOp::CLEAR)
    } else {
        HalaAttachmentLoadOp(HalaAttachmentLoadOp::DONT_CARE)
    }
}

/// The colour attachment of a rendering pass on an image view. The clear
/// colour is given by the bit patterns of its four components; without one
/// the attachment is not cleared, and its clear colour is all zeros.
pub open spec fn spec_color_attachment(image_view: u64, clear: Option<(u32, u32, u32, u32)>) -> HalaRenderingAttachmentInfo {
    HalaRenderingAttachmentInfo {
        image_view,
        image_layout: HalaImageLayout(IMAGE_LAYOUT_ATTACHMENT_OPTIMAL),
        load_op: spec_load_op(clear is Some),
        store_op: HalaAttachmentStoreOp(HalaAttachmentStoreOp::STORE),
        clear_value: match clear {
            Some((red, green, blue, alpha)) => HalaClearValue::Color { red, green, blue, alpha },
            None => HalaClearValue::Color { red: 0, green: 0, blue: 0, alpha: 0 },
        },
    }
}

/// The depth or the stencil attachment of a rendering pass on an image
/// view: the attachment is cleared if `clear` holds, and its clear value is
/// made of the depth and the stencil value, one and zero standing in for
/// what is not given.
pub open spec fn spec_depth_stencil_attachment(
    image_view: u64,
    clear: bool,
    depth: Option<u32>,
    stencil: Option<u32>,
) -> HalaRenderingAttachmentInfo {
    HalaRenderingAttachmentInfo {
        image_view,
        image_layout: HalaImageLayout(IMAGE_LAYOUT_ATTACHMENT_OPTIMAL),
        load_op: spec_load_op(clear),
        store_op: HalaAttachmentStoreOp(HalaAttachmentStoreOp::DONT_CARE),
        clear_value: HalaClearValue::DepthStencil {
            depth: match depth {
                Some(bits) => bits,
                None => DEFAULT_CLEAR_DEPTH_BITS,
            },
            stencil: match stencil {
                Some(value) => value,
                None => 0,
            },
        },
    }
}

/// The colour attachment of a rendering pass on an image view.
fn color_attachment(image_view: u64, clear: Option<(u32, u32, u32, u32)>) -> (attachment:
    HalaRenderingAttachmentInfo)
    ensures
        attachment == spec_color_attachment(image_view, clear),
{
    HalaRenderingAttachmentInfo {
        image_view,
        image_layout: HalaImageLayout::from_raw(IMAGE_LAYOUT_ATTACHMENT_OPTIMAL),
        load_op: if clear.is_some() {
            HalaAttachmentLoadOp::from_raw(HalaAttachmentLoadOp::CLEAR)
        } else {
            HalaAttachmentLoadOp::from_raw(HalaAttachmentLoadOp::DONT_CARE)
        },
        store_op: HalaAttachmentStoreOp::from_raw(HalaAttachmentStoreOp::STORE),
        clear_value: match clear {
            Some((red, green, blue, alpha)) => HalaClearValue::Color { red, green, blue, alpha },
            None => HalaClearValue::Color { red: 0, green: 0, blue: 0, alpha: 0 },
        },
    }
}

/// The depth or the stencil attachment of a rendering pass on an image
/// view.
fn depth_stencil_attachment(
    image_view: u64,
    clear: bool,
    depth: Option<u32>,
    stencil: Option<u32>,
) -> (attachment: HalaRenderingAttachmentInfo)
    ensures
        attachment == spec_depth_stencil_attachment(image_view, clear, depth, stencil),
{
    HalaRenderingAttachmentInfo {
        image_view,
        image_layout: HalaImageLayout::from_raw(IMAGE_LAYOUT_ATTACHMENT_OPTIMAL),
        load_op: if clear {
            HalaAttachmentLoadOp::from_raw(HalaAttachmentLoadOp::CLEAR)
        } else {
            HalaAttachmentLoadOp::from_raw(HalaAttachmentLoadOp::DONT_CARE)
        },
        store_op: HalaAttachmentStoreOp::from_raw(HalaAttachmentStoreOp::DONT_CARE),
        clear_value: HalaClearValue::DepthStencil {
            depth: match depth {
                Some(bits) => bits,
                None => DEFAULT_CLEAR_DEPTH_BITS,
            },
            stencil: match stencil {
                Some(value) => value,
                None => 0,
            },
        },
    }
}

impl HalaCommandBufferSet {
    /// The rendering pass on the image `index` of a swapchain: one colour
    /// attachment on the view of the image, and the depth and the stencil
    /// attachment on the view of the depth and stencil image, as far as the
    /// swapchain has depth and stencil.
    pub open spec fn spec_swapchain_rendering(
        swapchain: &HalaSwapchain,
        index: int,
        render_area: (i32, i32, u32, u32),
        color_clear_value: Option<(u32, u32, u32, u32)>,
        depth_clear_value: Option<u32>,
        stencil_clear_value: Option<u32>,
    ) -> HalaRenderingView {
        let view = swapchain.spec_depth_stencil_handles().1;
        HalaRenderingView {
            x: render_area.0,
            y: render_area.1,
            width: render_area.2,
            height: render_area.3,
            layer_count: 1,
            color_attachments: seq![
                spec_color_attachment(swapchain.spec_image_views()[index], color_clear_value),
            ],
            depth_attachment: if swapchain.spec_depth_stencil_format().0 != HalaFormat::UNDEFINED {
                Some(
                    spec_depth_stencil_attachment(
                        view,
                        depth_clear_value is Some,
                        depth_clear_value,
                        stencil_clear_value,
                    ),
                )
            } else {
                None
            },
            stencil_attachment: if spec_has_stencil(swapchain.spec_depth_stencil_format()) {
                Some(
                    spec_depth_stencil_attachment(
                        view,
                        stencil_clear_value is Some,
                        depth_clear_value,
                        stencil_clear_value,
                    ),
                )
            } else {
                None
            },
        }
    }

    /// The rendering pass on render targets: one colour attachment for each
    /// colour image that has a clear value beside it, in their order, and
    /// the depth and the stencil attachment on the view of the depth image,
    /// as far as there is one and its format has stencil bits.
    pub open spec fn spec_target_rendering(
        color_images: Seq<&HalaImage>,
        depth_image: Option<&HalaImage>,
        render_area: (i32, i32, u32, u32),
        color_clear_values: Seq<Option<(u32, u32, u32, u32)>>,
        depth_clear_value: Option<u32>,
        stencil_clear_value: Option<u32>,
    ) -> HalaRenderingView {
        let count = if color_images.len() <= color_clear_values.len() {
            color_images.len()
        } else {
            color_clear_values.len()
        };
        HalaRenderingView {
            x: render_area.0,
            y: render_area.1,
            width: render_area.2,
            height: render_area.3,
            layer_count: 1,
            color_attachments: Seq::new(
                count,
                |i: int| spec_color_attachment(color_images[i].view, color_clear_values[i]),
            ),
            depth_attachment: match depth_image {
                Some(image) => Some(
                    spec_depth_stencil_attachment(
                        image.view,
                        depth_clear_value is Some,
                        depth_clear_value,
                        stencil_clear_value,
                    ),
                ),
                None => None,
            },
            stencil_attachment: match depth_image {
                Some(image) => if spec_has_stencil(image.format) {
                    Some(
                        spec_depth_stencil_attachment(
                            image.view,
                            stencil_clear_value is Some,
                            depth_clear_value,
                            stencil_clear_value,
                        ),
                    )
                } else {
                    None
                },
                None => None,
            },
        }
    }

    /// The set of the command buffers with the given handles.
    pub fn new(raw: Vec<u64>, buffer_type: HalaCommandBufferType) -> (set: Self)
        ensures
            set.raw@ == raw@,
            set.command_buffer_type == buffer_type,
    {
        HalaCommandBufferSet { raw, command_buffer_type: buffer_type }
    }

    /// The call that gives the set up: all its command buffers go back, in
    /// one call, to the pool of their type. For a set of an unknown type
    /// there is no such pool and no call.
    pub fn free(&self, command_pools: &HalaCommandPools) -> (call: Option<HalaDeviceCall>)
        ensures
            match command_pools.spec_pool_for(self.command_buffer_type) {
                Some(pool) => call matches Some(freeing) && spec_is_free_command_buffers(
                    freeing,
                    pool,
                    self.raw@,
                ),
                None => call is None,
            },
    {
        match command_pools.pool_for(self.command_buffer_type) {
            Some(pool) => Some(
                HalaDeviceCall::FreeCommandBuffers {
                    command_pool: pool,
                    command_buffers: slice_to_vec(self.raw.as_slice()),
                },
            ),
            None => None,
        }
    }

    /// The call that resets the command buffer at `index`.
    pub fn reset(&self, index: usize, release_resources: bool) -> (call: HalaDeviceCall)
        requires
            index < self.raw@.len(),
        ensures
            call == (HalaDeviceCall::ResetCommandBuffer {
                command_buffer: self.raw@[index as int],
                release_resources,
            }),
    {
        HalaDeviceCall::ResetCommandBuffer { command_buffer: self.raw[index], release_resources }
    }

    /// The call that begins the command buffer at `index`.
    pub fn begin(&self, index: usize, usage_flags: HalaCommandBufferUsageFlags) -> (call:
        HalaDeviceCall)
        requires
            index < self.raw@.len(),
        ensures
            call == (HalaDeviceCall::BeginCommandBuffer {
                command_buffer: self.raw@[index as int],
                usage_flags,
            }),
    {
        HalaDeviceCall::BeginCommandBuffer { command_buffer: self.raw[index], usage_flags }
    }

    /// The call that ends the command buffer at `index`.
    pub fn end(&self, index: usize) -> (call: HalaDeviceCall)
        requires
            index < self.raw@.len(),
        ensures
            call == (HalaDeviceCall::EndCommandBuffer { command_buffer: self.raw@[index as int] }),
    {
        HalaDeviceCall::EndCommandBuffer { command_buffer: self.raw[index] }
    }

    /// The command that resets a range of queries of a pool.
    pub fn reset_query_pool(
        &self,
        index: usize,
        query_pool: &HalaQueryPool,
        first_query: u32,
        query_count: u32,
    ) -> (call: HalaDeviceCall)
        requires
            index < self.raw@.len(),
        ensures
            call == (HalaDeviceCall::Record {
                command_buffer: self.raw@[index as int],
                command: HalaCommand::ResetQueryPool {
                    query_pool: query_pool.raw,
                    first_query,
                    query_count,
                },
            }),
    {
        HalaDeviceCall::Record {
            command_buffer: self.raw[index],
            command: HalaCommand::ResetQueryPool {
                query_pool: query_pool.raw,
                first_query,
                query_count,
            },
        }
    }

    /// The command that writes a timestamp into a query once the given
    /// stages have run.
    pub fn write_timestamp(
        &self,
        index: usize,
        stage_flags: HalaPipelineStageFlags2,
        query_pool: &HalaQueryPool,
        query: u32,
    ) -> (call: HalaDeviceCall)
        requires
            index < self.raw@.len(),
        ensures
            call == (HalaDeviceCall::Record {
                command_buffer: self.raw@[index as int],
                command: HalaCommand::WriteTimestamp {
                    stage_flags,
                    query_pool: query_pool.raw,
                    query,
                },
            }),
    {
        HalaDeviceCall::Record {
            command_buffer: self.raw[index],
            command: HalaCommand::WriteTimestamp { stage_flags, query_pool: query_pool.raw, query },
        }
    }

    /// The command that begins rendering into the image `index` of the
    /// swapchain. A clear value that is given clears its attachment; the
    /// colour is given by the bit patterns of its components, the depth by
    /// its bit pattern.
    pub fn begin_rendering(
        &self,
        index: usize,
        swapchain: &HalaSwapchain,
        render_area: (i32, i32, u32, u32),
        color_clear_value: Option<(u32, u32, u32, u32)>,
        depth_clear_value: Option<u32>,
        stencil_clear_value: Option<u32>,
    ) -> (call: HalaDeviceCall)
        requires
            index < self.raw@.len(),
            index < swapchain.spec_num_of_images(),
        ensures
            spec_is_begin_rendering(
                call,
                self.raw@[index as int],
                Self::spec_swapchain_rendering(
                    swapchain,
                    index as int,
                    render_area,
                    color_clear_value,
                    depth_clear_value,
                    stencil_clear_value,
                ),
            ),
    {
        let has_depth = swapchain.depth_stencil_format().as_raw() != HalaFormat::UNDEFINED;
        let has_stencil = swapchain.has_stencil();
        let view = swapchain.depth_stencil_image_view();
        let mut color_attachments: Vec<HalaRenderingAttachmentInfo> = Vec::new();
        color_attachments.push(color_attachment(swapchain.image_views()[index], color_clear_value));
        let depth_attachment = if has_depth {
            Some(
                depth_stencil_attachment(
                    view,
                    depth_clear_value.is_some(),
                    depth_clear_value,
                    stencil_clear_value,
                ),
            )
        } else {
            None
        };
        let stencil_attachment = if has_stencil {
            Some(
                depth_stencil_attachment(
                    view,
                    stencil_clear_value.is_some(),
                    depth_clear_value,
                    stencil_clear_value,
                ),
            )
        } else {
            None
        };
        HalaDeviceCall::Record {
            command_buffer: self.raw[index],
            command: HalaCommand::BeginRendering {
                x: render_area.0,
                y: render_area.1,
                width: render_area.2,
                height: render_area.3,
                layer_count: 1,
                color_attachments,
                depth_attachment,
                stencil_attachment,
            },
        }
    }

    /// The clear values of a render pass: the colour, and behind it the
    /// depth and the stencil value if the render pass has a depth and
    /// stencil attachment. Floating-point numbers are given by their bit
    /// patterns.
    pub open spec fn spec_render_pass_clear_values(
        render_pass: &HalaRenderPass,
        clear_values: ((u32, u32, u32, u32), u32, u32),
    ) -> Seq<HalaClearValue> {
        let color = HalaClearValue::Color {
            red: clear_values.0.0,
            green: clear_values.0.1,
            blue: clear_values.0.2,
            alpha: clear_values.0.3,
        };
        if render_pass.depth_stencil_attachment_descs@.len() == 0 {
            seq![color]
        } else {
            seq![
                color,
                HalaClearValue::DepthStencil { depth: clear_values.1, stencil: clear_values.2 },
            ]
        }
    }

    /// The command that begins a render pass on the framebuffer `index`.
    pub fn begin_render_pass(
        &self,
        index: usize,
        render_pass: &HalaRenderPass,
        framebuffers: &HalaFrameBufferSet,
        render_area: (i32, i32, u32, u32),
        clear_values: ((u32, u32, u32, u32), u32, u32),
        subpass_contents: HalaSubpassContents,
    ) -> (call: HalaDeviceCall)
        requires
            index < self.raw@.len(),
            index < framebuffers.raw@.len(),
        ensures
            call matches HalaDeviceCall::Record {
                command_buffer,
                command: HalaCommand::BeginRenderPass {
                    render_pass: pass,
                    framebuffer,
                    x,
                    y,
                    width,
                    height,
                    clear_values: values,
                    contents,
                },
            } && command_buffer == self.raw@[index as int] && pass == render_pass.raw
                && framebuffer == framebuffers.raw@[index as int] && (x, y, width, height)
                == render_area && values@ == Self::spec_render_pass_clear_values(
                render_pass,
                clear_values,
            ) && contents == subpass_contents,
    {
        let mut values: Vec<HalaClearValue> = Vec::new();
        values.push(
            HalaClearValue::Color {
                red: clear_values.0.0,
                green: clear_values.0.1,
                blue: clear_values.0.2,
                alpha: clear_values.0.3,
            },
        );
        if render_pass.depth_stencil_attachment_descs.len() != 0 {
            values.push(
                HalaClearValue::DepthStencil { depth: clear_values.1, stencil: clear_values.2 },
            );
        }
        HalaDeviceCall::Record {
            command_buffer: self.raw[index],
            command: HalaCommand::BeginRenderPass {
                render_pass: render_pass.raw,
                framebuffer: framebuffers.raw[index],
                x: render_area.0,
                y: render_area.1,
                width: render_area.2,
                height: render_area.3,
                clear_values: values,
                contents: subpass_contents,
            },
        }
    }

    /// The command that ends the render pass.
    pub fn end_render_pass(&self, index: usize) -> (call: HalaDeviceCall)
        requires
            index < self.raw@.len(),
        ensures
            call == (HalaDeviceCall::Record {
                command_buffer: self.raw@[index as int],
                command: HalaCommand::EndRenderPass,
            }),
    {
        HalaDeviceCall::Record { command_buffer: self.raw[index], command: HalaCommand::EndRenderPass }
    }

    /// The command that begins rendering on render targets.
    pub fn begin_rendering_with_rt(
        &self,
        index: usize,
        color_images: &[&HalaImage],
        depth_image: Option<&HalaImage>,
        render_area: (i32, i32, u32, u32),
        color_clear_values: &[Option<(u32, u32, u32, u32)>],
        depth_clear_value: Option<u32>,
        stencil_clear_value: Option<u32>,
    ) -> (call: HalaDeviceCall)
        requires
            index < self.raw@.len(),
        ensures
            spec_is_begin_rendering(
                call,
                self.raw@[index as int],
                Self::spec_target_rendering(
                    color_images@,
                    depth_image,
                    render_area,
                    color_clear_values@,
                    depth_clear_value,
                    stencil_clear_value,
                ),
            ),
    {
        let count = if color_images.len() <= color_clear_values.len() {
            color_images.len()
        } else {
            color_clear_values.len()
        };
        let mut color_attachments: Vec<HalaRenderingAttachmentInfo> = Vec::new();
        let mut i: usize = 0;
        while i < count
            invariant
                i <= count,
                count <= color_images@.len(),
                count <= color_clear_values@.len(),
                color_attachments@.len() == i,
                forall|k: int|
                    0 <= k < i ==> color_attachments@[k] == spec_color_attachment(
                        color_images@[k].view,
                        color_clear_values@[k],
                    ),
            decreases count - i,
        {
            color_attachments.push(color_attachment(color_images[i].view, color_clear_values[i]));
            i = i + 1;
        }
        assert(color_attachments@ =~= Self::spec_target_rendering(
            color_images@,
            depth_image,
            render_area,
            color_clear_values@,
            depth_clear_value,
            stencil_clear_value,
        ).color_attachments);
        let depth_attachment = match depth_image {
            Some(image) => Some(
                depth_stencil_attachment(
                    image.view,
                    depth_clear_value.is_some(),
                    depth_clear_value,
                    stencil_clear_value,
                ),
            ),
            None => None,
        };
        let stencil_attachment = match depth_image {
            Some(image) => if format_has_stencil(image.format) {
                Some(
                    depth_stencil_attachment(
                        image.view,
                        stencil_clear_value.is_some(),
                        depth_clear_value,
                        stencil_clear_value,
                    ),
                )
            } else {
                None
            },
            None => None,
        };
        HalaDeviceCall::Record {
            command_buffer: self.raw[index],
            command: HalaCommand::BeginRendering {
                x: render_area.0,
                y: render_area.1,
                width: render_area.2,
                height: render_area.3,
                layer_count: 1,
                color_attachments,
                depth_attachment,
                stencil_attachment,
            },
        }
    }

    /// The command that ends rendering.
    pub fn end_rendering(&self, index: usize) -> (call: HalaDeviceCall)
        requires
            index < self.raw@.len(),
        ensures
            call == (HalaDeviceCall::Record {
                command_buffer: self.raw@[index as int],
                command: HalaCommand::EndRendering,
            }),
    {
        HalaDeviceCall::Record {
            command_buffer: self.raw[index],
            command: HalaCommand::EndRendering,
        }
    }

    /// The command that draws vertices.
    pub fn draw(
        &self,
        index: usize,
        vertex_count: u32,
        instance_count: u32,
        first_vertex: u32,
        first_instance: u32,
    ) -> (call: HalaDeviceCall)
        requires
            index < self.raw@.len(),
        ensures
            call == (HalaDeviceCall::Record {
                command_buffer: self.raw@[index as int],
                command: HalaCommand::Draw {
                    vertex_count,
                    instance_count,
                    first_vertex,
                    first_instance,
                },
            }),
    {
        HalaDeviceCall::Record {
            command_buffer: self.raw[index],
            command: HalaCommand::Draw {
                vertex_count,
                instance_count,
                first_vertex,
                first_instance,
            },
        }
    }

    /// The command that draws indexed vertices.
    pub fn draw_indexed(
        &self,
        index: usize,
        index_count: u32,
        instance_count: u32,
        first_index: u32,
        vertex_offset: i32,
        first_instance: u32,
    ) -> (call: HalaDeviceCall)
        requires
            index < self.raw@.len(),
        ensures
            call == (HalaDeviceCall::Record {
                command_buffer: self.raw@[index as int],
                command: HalaCommand::DrawIndexed {
                    index_count,
                    instance_count,
                    first_index,
                    vertex_offset,
                    first_instance,
                },
            }),
    {
        HalaDeviceCall::Record {
            command_buffer: self.raw[index],
            command: HalaCommand::DrawIndexed {
                index_count,
                instance_count,
                first_index,
                vertex_offset,
                first_instance,
            },
        }
    }

    /// The command that dispatches compute work groups.
    pub fn dispatch(
        &self,
        index: usize,
        group_count_x: u32,
        group_count_y: u32,
        group_count_z: u32,
    ) -> (call: HalaDeviceCall)
        requires
            index < self.raw@.len(),
        ensures
            call == (HalaDeviceCall::Record {
                command_buffer: self.raw@[index as int],
                command: HalaCommand::Dispatch { group_count_x, group_count_y, group_count_z },
            }),
    {
        HalaDeviceCall::Record {
            command_buffer: self.raw[index],
            command: HalaCommand::Dispatch { group_count_x, group_count_y, group_count_z },
        }
    }

    /// The barriers of `set_swapchain_image_barrier`: the colour barrier on
    /// the image `index` of the swapchain and, where the swapchain has a
    /// depth and stencil image, the other barrier on that image.
    pub open spec fn spec_swapchain_image_barriers(
        swapchain: &HalaSwapchain,
        index: int,
        color_barrier_info: HalaImageBarrierInfo,
        depth_stencil_barrier_info: HalaImageBarrierInfo,
    ) -> Seq<HalaImageBarrierInfo> {
        let color = HalaImageBarrierInfo {
            image: swapchain.spec_images()[index],
            ..color_barrier_info
        };
        let depth_stencil = HalaImageBarrierInfo {
            image: swapchain.spec_depth_stencil_handles().0,
            ..depth_stencil_barrier_info
        };
        if swapchain.spec_depth_stencil_format().0 == HalaFormat::UNDEFINED {
            seq![color]
        } else {
            seq![color, depth_stencil]
        }
    }

    /// The command that sets the barriers on the images of a swapchain: the
    /// colour barrier on the image `index`, and the depth and stencil
    /// barrier on the depth and stencil image where the swapchain has one.
    /// The image named in a barrier makes no difference.
    pub fn set_swapchain_image_barrier(
        &self,
        index: usize,
        swapchain: &HalaSwapchain,
        color_barrier_info: &HalaImageBarrierInfo,
        depth_stencil_barrier_info: &HalaImageBarrierInfo,
    ) -> (call: HalaDeviceCall)
        requires
            index < self.raw@.len(),
            index < swapchain.spec_num_of_images(),
        ensures
            spec_is_image_barriers(
                call,
                self.raw@[index as int],
                Self::spec_swapchain_image_barriers(
                    swapchain,
                    index as int,
                    *color_barrier_info,
                    *depth_stencil_barrier_info,
                ),
            ),
    {
        let mut barriers: Vec<HalaImageBarrierInfo> = Vec::new();
        let mut color = *color_barrier_info;
        color.image = swapchain.images()[index];
        barriers.push(color);
        if swapchain.depth_stencil_format().as_raw() != HalaFormat::UNDEFINED {
            let mut depth_stencil = *depth_stencil_barrier_info;
            depth_stencil.image = swapchain.depth_stencil_image();
            barriers.push(depth_stencil);
        }
        assert(barriers@ =~= Self::spec_swapchain_image_barriers(
            swapchain,
            index as int,
            *color_barrier_info,
            *depth_stencil_barrier_info,
        ));
        HalaDeviceCall::Record {
            command_buffer: self.raw[index],
            command: HalaCommand::PipelineBarrier {
                image_barriers: barriers,
                buffer_barriers: Vec::new(),
                memory_barriers: Vec::new(),
            },
        }
    }

    /// The command that sets image barriers, all in one pipeline barrier.
    pub fn set_image_barriers(&self, index: usize, barriers: &[HalaImageBarrierInfo]) -> (call:
        HalaDeviceCall)
        requires
            index < self.raw@.len(),
        ensures
            spec_is_image_barriers(call, self.raw@[index as int], barriers@),
    {
        HalaDeviceCall::Record {
            command_buffer: self.raw[index],
            command: HalaCommand::PipelineBarrier {
                image_barriers: slice_to_vec(barriers),
                buffer_barriers: Vec::new(),
                memory_barriers: Vec::new(),
            },
        }
    }

    /// The command that sets buffer barriers, all in one pipeline barrier.
    pub fn set_buffer_barriers(&self, index: usize, barriers: &[HalaBufferBarrierInfo]) -> (call:
        HalaDeviceCall)
        requires
            index < self.raw@.len(),
        ensures
            spec_is_buffer_barriers(call, self.raw@[index as int], barriers@),
    {
        HalaDeviceCall::Record {
            command_buffer: self.raw[index],
            command: HalaCommand::PipelineBarrier {
                image_barriers: Vec::new(),
                buffer_barriers: slice_to_vec(barriers),
                memory_barriers: Vec::new(),
            },
        }
    }

    /// The command that sets memory barriers, all in one pipeline barrier.
    pub fn set_memory_barriers(&self, index: usize, barriers: &[HalaMemoryBarrierInfo]) -> (call:
        HalaDeviceCall)
        requires
            index < self.raw@.len(),
        ensures
            spec_is_memory_barriers(call, self.raw@[index as int], barriers@),
    {
        HalaDeviceCall::Record {
            command_buffer: self.raw[index],
            command: HalaCommand::PipelineBarrier {
                image_barriers: Vec::new(),
                buffer_barriers: Vec::new(),
                memory_barriers: slice_to_vec(barriers),
            },
        }
    }

    /// The command that copies an image into an image of a swapchain, over
    /// the extent of the source.
    pub fn copy_image_2_swapchain(
        &self,
        index: usize,
        src_image: &HalaImage,
        src_image_layout: HalaImageLayout,
        dst_swapchain: &HalaSwapchain,
        dst_swapchain_layout: HalaImageLayout,
        dst_swapchain_index: usize,
    ) -> (call: HalaDeviceCall)
        requires
            index < self.raw@.len(),
            dst_swapchain_index < dst_swapchain.spec_num_of_images(),
        ensures
            call == (HalaDeviceCall::Record {
                command_buffer: self.raw@[index as int],
                command: HalaCommand::CopyImage {
                    src_image: src_image.raw,
                    src_image_layout,
                    dst_image: dst_swapchain.spec_images()[dst_swapchain_index as int],
                    dst_image_layout: dst_swapchain_layout,
                    width: src_image.width,
                    height: src_image.height,
                },
            }),
    {
        HalaDeviceCall::Record {
            command_buffer: self.raw[index],
            command: HalaCommand::CopyImage {
                src_image: src_image.raw,
                src_image_layout,
                dst_image: dst_swapchain.images()[dst_swapchain_index],
                dst_image_layout: dst_swapchain_layout,
                width: src_image.width,
                height: src_image.height,
            },
        }
    }

    /// The command that copies an image into another, over the extent of
    /// the source.
    pub fn copy_image_2_image(
        &self,
        index: usize,
        src_image: &HalaImage,
        src_image_layout: HalaImageLayout,
        dst_image: &HalaImage,
        dst_image_layout: HalaImageLayout,
    ) -> (call: HalaDeviceCall)
        requires
            index < self.raw@.len(),
        ensures
            call == (HalaDeviceCall::Record {
                command_buffer: self.raw@[index as int],
                command: HalaCommand::CopyImage {
                    src_image: src_image.raw,
                    src_image_layout,
                    dst_image: dst_image.raw,
                    dst_image_layout,
                    width: src_image.width,
                    height: src_image.height,
                },
            }),
    {
        HalaDeviceCall::Record {
            command_buffer: self.raw[index],
            command: HalaCommand::CopyImage {
                src_image: src_image.raw,
                src_image_layout,
                dst_image: dst_image.raw,
                dst_image_layout,
                width: src_image.width,
                height: src_image.height,
            },
        }
    }

    /// The command that copies a buffer into an image, over the extent of
    /// the image.
    pub fn copy_buffer_2_image(
        &self,
        index: usize,
        src_buffer: &HalaBuffer,
        dst_image: &HalaImage,
        dst_image_layout: HalaImageLayout,
    ) -> (call: HalaDeviceCall)
        requires
            index < self.raw@.len(),
        ensures
            call == (HalaDeviceCall::Record {
                command_buffer: self.raw@[index as int],
                command: HalaCommand::CopyBufferToImage {
                    src_buffer: src_buffer.raw,
                    dst_image: dst_image.raw,
                    dst_image_layout,
                    width: dst_image.width,
                    height: dst_image.height,
                    depth: dst_image.depth,
                },
            }),
    {
        HalaDeviceCall::Record {
            command_buffer: self.raw[index],
            command: HalaCommand::CopyBufferToImage {
                src_buffer: src_buffer.raw,
                dst_image: dst_image.raw,
                dst_image_layout,
                width: dst_image.width,
                height: dst_image.height,
                depth: dst_image.depth,
            },
        }
    }

    /// The command that copies an image into a buffer, over the extent of
    /// the image.
    pub fn copy_image_2_buffer(
        &self,
        index: usize,
        src_image: &HalaImage,
        src_image_layout: HalaImageLayout,
        dst_buffer: &HalaBuffer,
    ) -> (call: HalaDeviceCall)
        requires
            index < self.raw@.len(),
        ensures
            call == (HalaDeviceCall::Record {
                command_buffer: self.raw@[index as int],
                command: HalaCommand::CopyImageToBuffer {
                    src_image: src_image.raw,
                    src_image_layout,
                    dst_buffer: dst_buffer.raw,
                    width: src_image.width,
                    height: src_image.height,
                    depth: src_image.depth,
                },
            }),
    {
        HalaDeviceCall::Record {
            command_buffer: self.raw[index],
            command: HalaCommand::CopyImageToBuffer {
                src_image: src_image.raw,
                src_image_layout,
                dst_buffer: dst_buffer.raw,
                width: src_image.width,
                height: src_image.height,
                depth: src_image.depth,
            },
        }
    }

    /// The command that copies the whole of the source buffer into another
    /// buffer: as many bytes as the source holds, between the two offsets.
    pub fn copy_buffer_2_buffer(
        &self,
        index: usize,
        src_buffer: &HalaBuffer,
        src_offset: u64,
        dst_buffer: &HalaBuffer,
        dst_offset: u64,
    ) -> (call: HalaDeviceCall)
        requires
            index < self.raw@.len(),
        ensures
            call == (HalaDeviceCall::Record {
                command_buffer: self.raw@[index as int],
                command: HalaCommand::CopyBuffer {
                    src_buffer: src_buffer.raw,
                    dst_buffer: dst_buffer.raw,
                    src_offset,
                    dst_offset,
                    size: src_buffer.size,
                },
            }),
    {
        HalaDeviceCall::Record {
            command_buffer: self.raw[index],
            command: HalaCommand::CopyBuffer {
                src_buffer: src_buffer.raw,
                dst_buffer: dst_buffer.raw,
                src_offset,
                dst_offset,
                size: src_buffer.size,
            },
        }
    }

    /// The command that switches the depth test on or off.
    pub fn enable_depth_test(&self, index: usize, enable: bool) -> (call: HalaDeviceCall)
        requires
            index < self.raw@.len(),
        ensures
            call == (HalaDeviceCall::Record {
                command_buffer: self.raw@[index as int],
                command: HalaCommand::SetDepthTestEnable {
                    enable,
                },
            }),
    {
        HalaDeviceCall::Record {
            command_buffer: self.raw[index],
            command: HalaCommand::SetDepthTestEnable {
                enable,
            },
        }
    }

    /// The command that switches writing of depth on or off.
    pub fn enable_depth_write(&self, index: usize, enable: bool) -> (call: HalaDeviceCall)
        requires
            index < self.raw@.len(),
        ensures
            call == (HalaDeviceCall::Record {
                command_buffer: self.raw@[index as int],
                command: HalaCommand::SetDepthWriteEnable {
                    enable,
                },
            }),
    {
        HalaDeviceCall::Record {
            command_buffer: self.raw[index],
            command: HalaCommand::SetDepthWriteEnable {
                enable,
            },
        }
    }

    /// The command that sets the comparison of the depth test.
    pub fn set_depth_compare_op(&self, index: usize, op: HalaCompareOp) -> (call: HalaDeviceCall)
        requires
            index < self.raw@.len(),
        ensures
            call == (HalaDeviceCall::Record {
                command_buffer: self.raw@[index as int],
                command: HalaCommand::SetDepthCompareOp {
                    op,
                },
            }),
    {
        HalaDeviceCall::Record {
            command_buffer: self.raw[index],
            command: HalaCommand::SetDepthCompareOp {
                op,
            },
        }
    }

    /// The command that switches the stencil test on or off.
    pub fn enable_stencil_test(&self, index: usize, enable: bool) -> (call: HalaDeviceCall)
        requires
            index < self.raw@.len(),
        ensures
            call == (HalaDeviceCall::Record {
                command_buffer: self.raw@[index as int],
                command: HalaCommand::SetStencilTestEnable {
                    enable,
                },
            }),
    {
        HalaDeviceCall::Record {
            command_buffer: self.raw[index],
            command: HalaCommand::SetStencilTestEnable {
                enable,
            },
        }
    }

    /// The command that sets the stencil operations of the given faces.
    pub fn set_stencil_op(
        &self,
        index: usize,
        face_mask: HalaStencilFaceFlags,
        fail_op: HalaStencilOp,
        pass_op: HalaStencilOp,
        depth_fail_op: HalaStencilOp,
        compare_op: HalaCompareOp,
    ) -> (call: HalaDeviceCall)
        requires
            index < self.raw@.len(),
        ensures
            call == (HalaDeviceCall::Record {
                command_buffer: self.raw@[index as int],
                command: HalaCommand::SetStencilOp {
                    face_mask,
                    fail_op,
                    pass_op,
                    depth_fail_op,
                    compare_op,
                },
            }),
    {
        HalaDeviceCall::Record {
            command_buffer: self.raw[index],
            command: HalaCommand::SetStencilOp {
                face_mask,
                fail_op,
                pass_op,
                depth_fail_op,
                compare_op,
            },
        }
    }

    /// The command that sets the stencil compare mask of the given faces.
    pub fn set_stencil_compare_mask(
        &self,
        index: usize,
        face_mask: HalaStencilFaceFlags,
        compare_mask: u32,
    ) -> (call: HalaDeviceCall)
        requires
            index < self.raw@.len(),
        ensures
            call == (HalaDeviceCall::Record {
                command_buffer: self.raw@[index as int],
                command: HalaCommand::SetStencilCompareMask {
                    face_mask,
                    compare_mask,
                },
            }),
    {
        HalaDeviceCall::Record {
            command_buffer: self.raw[index],
            command: HalaCommand::SetStencilCompareMask {
                face_mask,
                compare_mask,
            },
        }
    }

    /// The command that sets the stencil write mask of the given faces.
    pub fn set_stencil_write_mask(
        &self,
        index: usize,
        face_mask: HalaStencilFaceFlags,
        write_mask: u32,
    ) -> (call: HalaDeviceCall)
        requires
            index < self.raw@.len(),
        ensures
            call == (HalaDeviceCall::Record {
                command_buffer: self.raw@[index as int],
                command: HalaCommand::SetStencilWriteMask {
                    face_mask,
                    write_mask,
                },
            }),
    {
        HalaDeviceCall::Record {
            command_buffer: self.raw[index],
            command: HalaCommand::SetStencilWriteMask {
                face_mask,
                write_mask,
            },
        }
    }

    /// The command that sets the stencil reference of the given faces.
    pub fn set_stencil_reference(
        &self,
        index: usize,
        face_mask: HalaStencilFaceFlags,
        reference: u32,
    ) -> (call: HalaDeviceCall)
        requires
            index < self.raw@.len(),
        ensures
            call == (HalaDeviceCall::Record {
                command_buffer: self.raw@[index as int],
                command: HalaCommand::SetStencilReference {
                    face_mask,
                    reference,
                },
            }),
    {
        HalaDeviceCall::Record {
            command_buffer: self.raw[index],
            command: HalaCommand::SetStencilReference {
                face_mask,
                reference,
            },
        }
    }

    /// The command that draws with parameters read from a buffer.
    pub fn draw_indirect(
        &self,
        index: usize,
        buffer: &HalaBuffer,
        offset: u64,
        draw_count: u32,
        stride: u32,
    ) -> (call: HalaDeviceCall)
        requires
            index < self.raw@.len(),
        ensures
            call == (HalaDeviceCall::Record {
                command_buffer: self.raw@[index as int],
                command: HalaCommand::DrawIndirect {
                    buffer: buffer.raw,
                    offset,
                    draw_count,
                    stride,
                },
            }),
    {
        HalaDeviceCall::Record {
            command_buffer: self.raw[index],
            command: HalaCommand::DrawIndirect {
                buffer: buffer.raw,
                offset,
                draw_count,
                stride,
            },
        }
    }

    /// The command that draws indexed vertices with parameters read from a buffer.
    pub fn draw_indexed_indirect(
        &self,
        index: usize,
        buffer: &HalaBuffer,
        offset: u64,
        draw_count: u32,
        stride: u32,
    ) -> (call: HalaDeviceCall)
        requires
            index < self.raw@.len(),
        ensures
            call == (HalaDeviceCall::Record {
                command_buffer: self.raw@[index as int],
                command: HalaCommand::DrawIndexedIndirect {
                    buffer: buffer.raw,
                    offset,
                    draw_count,
                    stride,
                },
            }),
    {
        HalaDeviceCall::Record {
            command_buffer: self.raw[index],
            command: HalaCommand::DrawIndexedIndirect {
                buffer: buffer.raw,
                offset,
                draw_count,
                stride,
            },
        }
    }

    /// The command that draws with parameters and a draw count read from buffers.
    pub fn draw_indirect_count(
        &self,
        index: usize,
        buffer: &HalaBuffer,
        offset: u64,
        count_buffer: &HalaBuffer,
        count_buffer_offset: u64,
        max_draw_count: u32,
        stride: u32,
    ) -> (call: HalaDeviceCall)
        requires
            index < self.raw@.len(),
        ensures
            call == (HalaDeviceCall::Record {
                command_buffer: self.raw@[index as int],
                command: HalaCommand::DrawIndirectCount {
                    buffer: buffer.raw,
                    offset,
                    count_buffer: count_buffer.raw,
                    count_buffer_offset,
                    max_draw_count,
                    stride,
                },
            }),
    {
        HalaDeviceCall::Record {
            command_buffer: self.raw[index],
            command: HalaCommand::DrawIndirectCount {
                buffer: buffer.raw,
                offset,
                count_buffer: count_buffer.raw,
                count_buffer_offset,
                max_draw_count,
                stride,
            },
        }
    }

    /// The command that draws indexed vertices with parameters and a draw count read from buffers.
    pub fn draw_indexed_indirect_count(
        &self,
        index: usize,
        buffer: &HalaBuffer,
        offset: u64,
        count_buffer: &HalaBuffer,
        count_buffer_offset: u64,
        max_draw_count: u32,
        stride: u32,
    ) -> (call: HalaDeviceCall)
        requires
            index < self.raw@.len(),
        ensures
            call == (HalaDeviceCall::Record {
                command_buffer: self.raw@[index as int],
                command: HalaCommand::DrawIndexedIndirectCount {
                    buffer: buffer.raw,
                    offset,
                    count_buffer: count_buffer.raw,
                    count_buffer_offset,
                    max_draw_count,
                    stride,
                },
            }),
    {
        HalaDeviceCall::Record {
            command_buffer: self.raw[index],
            command: HalaCommand::DrawIndexedIndirectCount {
                buffer: buffer.raw,
                offset,
                count_buffer: count_buffer.raw,
                count_buffer_offset,
                max_draw_count,
                stride,
            },
        }
    }

    /// The command that draws mesh task work groups.
    pub fn draw_mesh_tasks(
        &self,
        index: usize,
        group_count_x: u32,
        group_count_y: u32,
        group_count_z: u32,
    ) -> (call: HalaDeviceCall)
        requires
            index < self.raw@.len(),
        ensures
            call == (HalaDeviceCall::Record {
                command_buffer: self.raw@[index as int],
                command: HalaCommand::DrawMeshTasks {
                    group_count_x,
                    group_count_y,
                    group_count_z,
                },
            }),
    {
        HalaDeviceCall::Record {
            command_buffer: self.raw[index],
            command: HalaCommand::DrawMeshTasks {
                group_count_x,
                group_count_y,
                group_count_z,
            },
        }
    }

    /// The command that draws mesh tasks with parameters read from a buffer.
    pub fn draw_mesh_tasks_indirect(
        &self,
        index: usize,
        buffer: &HalaBuffer,
        offset: u64,
        draw_count: u32,
        stride: u32,
    ) -> (call: HalaDeviceCall)
        requires
            index < self.raw@.len(),
        ensures
            call == (HalaDeviceCall::Record {
                command_buffer: self.raw@[index as int],
                command: HalaCommand::DrawMeshTasksIndirect {
                    buffer: buffer.raw,
                    offset,
                    draw_count,
                    stride,
                },
            }),
    {
        HalaDeviceCall::Record {
            command_buffer: self.raw[index],
            command: HalaCommand::DrawMeshTasksIndirect {
                buffer: buffer.raw,
                offset,
                draw_count,
                stride,
            },
        }
    }

    /// The command that draws mesh tasks with parameters and a draw count read from buffers.
    pub fn draw_mesh_tasks_indirect_count(
        &self,
        index: usize,
        buffer: &HalaBuffer,
        offset: u64,
        count_buffer: &HalaBuffer,
        count_buffer_offset: u64,
        max_draw_count: u32,
        stride: u32,
    ) -> (call: HalaDeviceCall)
        requires
            index < self.raw@.len(),
        ensures
            call == (HalaDeviceCall::Record {
                command_buffer: self.raw@[index as int],
                command: HalaCommand::DrawMeshTasksIndirectCount {
                    buffer: buffer.raw,
                    offset,
                    count_buffer: count_buffer.raw,
                    count_buffer_offset,
                    max_draw_count,
                    stride,
                },
            }),
    {
        HalaDeviceCall::Record {
            command_buffer: self.raw[index],
            command: HalaCommand::DrawMeshTasksIndirectCount {
                buffer: buffer.raw,
                offset,
                count_buffer: count_buffer.raw,
                count_buffer_offset,
                max_draw_count,
                stride,
            },
        }
    }

    /// The command that dispatches compute work groups whose counts are read from a buffer.
    pub fn dispatch_indirect(
        &self,
        index: usize,
        buffer: &HalaBuffer,
        offset: u64,
    ) -> (call: HalaDeviceCall)
        requires
            index < self.raw@.len(),
        ensures
            call == (HalaDeviceCall::Record {
                command_buffer: self.raw@[index as int],
                command: HalaCommand::DispatchIndirect {
                    buffer: buffer.raw,
                    offset,
                },
            }),
    {
        HalaDeviceCall::Record {
            command_buffer: self.raw[index],
            command: HalaCommand::DispatchIndirect {
                buffer: buffer.raw,
                offset,
            },
        }
    }

    /// The command that binds a graphics pipeline.
    pub fn bind_graphics_pipeline(
        &self,
        index: usize,
        pipeline: &HalaGraphicsPipeline,
    ) -> (call: HalaDeviceCall)
        requires
            index < self.raw@.len(),
        ensures
            call == (HalaDeviceCall::Record {
                command_buffer: self.raw@[index as int],
                command: HalaCommand::BindPipeline {
                    bind_point: HalaPipelineBindPoint(HalaPipelineBindPoint::GRAPHICS),
                    pipeline: pipeline.raw,
                },
            }),
    {
        HalaDeviceCall::Record {
            command_buffer: self.raw[index],
            command: HalaCommand::BindPipeline {
                bind_point: HalaPipelineBindPoint(HalaPipelineBindPoint::GRAPHICS),
                pipeline: pipeline.raw,
            },
        }
    }

    /// The command that binds a ray tracing pipeline.
    pub fn bind_ray_tracing_pipeline(
        &self,
        index: usize,
        pipeline: &HalaRayTracingPipeline,
    ) -> (call: HalaDeviceCall)
        requires
            index < self.raw@.len(),
        ensures
            call == (HalaDeviceCall::Record {
                command_buffer: self.raw@[index as int],
                command: HalaCommand::BindPipeline {
                    bind_point: HalaPipelineBindPoint(HalaPipelineBindPoint::RAY_TRACING),
                    pipeline: pipeline.raw,
                },
            }),
    {
        HalaDeviceCall::Record {
            command_buffer: self.raw[index],
            command: HalaCommand::BindPipeline {
                bind_point: HalaPipelineBindPoint(HalaPipelineBindPoint::RAY_TRACING),
                pipeline: pipeline.raw,
            },
        }
    }

    /// The command that binds a compute pipeline.
    pub fn bind_compute_pipeline(
        &self,
        index: usize,
        pipeline: &HalaComputePipeline,
    ) -> (call: HalaDeviceCall)
        requires
            index < self.raw@.len(),
        ensures
            call == (HalaDeviceCall::Record {
                command_buffer: self.raw@[index as int],
                command: HalaCommand::BindPipeline {
                    bind_point: HalaPipelineBindPoint(HalaPipelineBindPoint::COMPUTE),
                    pipeline: pipeline.raw,
                },
            }),
    {
        HalaDeviceCall::Record {
            command_buffer: self.raw[index],
            command: HalaCommand::BindPipeline {
                bind_point: HalaPipelineBindPoint(HalaPipelineBindPoint::COMPUTE),
                pipeline: pipeline.raw,
            },
        }
    }

    /// The command that traces rays over an extent, with the four regions of
    /// a shader binding table.
    pub fn trace_rays(
        &self,
        index: usize,
        sbt: &HalaShaderBindingTable,
        width: u32,
        height: u32,
        depth: u32,
    ) -> (call: HalaDeviceCall)
        requires
            index < self.raw@.len(),
        ensures
            call == (HalaDeviceCall::Record {
                command_buffer: self.raw@[index as int],
                command: HalaCommand::TraceRays {
                    raygen_region: sbt.raygen_region,
                    miss_region: sbt.miss_region,
                    hit_region: sbt.hit_region,
                    callable_region: sbt.callable_region,
                    width,
                    height,
                    depth,
                },
            }),
    {
        HalaDeviceCall::Record {
            command_buffer: self.raw[index],
            command: HalaCommand::TraceRays {
                raygen_region: sbt.raygen_region,
                miss_region: sbt.miss_region,
                hit_region: sbt.hit_region,
                callable_region: sbt.callable_region,
                width,
                height,
                depth,
            },
        }
    }

    /// The command that traces rays over an extent read from device memory,
    /// with the four regions of a shader binding table.
    pub fn trace_rays_indirect(
        &self,
        index: usize,
        sbt: &HalaShaderBindingTable,
        indirect_device_address: u64,
    ) -> (call: HalaDeviceCall)
        requires
            index < self.raw@.len(),
        ensures
            call == (HalaDeviceCall::Record {
                command_buffer: self.raw@[index as int],
                command: HalaCommand::TraceRaysIndirect {
                    raygen_region: sbt.raygen_region,
                    miss_region: sbt.miss_region,
                    hit_region: sbt.hit_region,
                    callable_region: sbt.callable_region,
                    indirect_device_address,
                },
            }),
    {
        HalaDeviceCall::Record {
            command_buffer: self.raw[index],
            command: HalaCommand::TraceRaysIndirect {
                raygen_region: sbt.raygen_region,
                miss_region: sbt.miss_region,
                hit_region: sbt.hit_region,
                callable_region: sbt.callable_region,
                indirect_device_address,
            },
        }
    }

    /// The command that sets the stack size of the ray tracing pipeline.
    pub fn set_ray_tracing_pipeline_stack_size(
        &self,
        index: usize,
        pipeline_stack_size: u32,
    ) -> (call: HalaDeviceCall)
        requires
            index < self.raw@.len(),
        ensures
            call == (HalaDeviceCall::Record {
                command_buffer: self.raw@[index as int],
                command: HalaCommand::SetRayTracingPipelineStackSize {
                    pipeline_stack_size,
                },
            }),
    {
        HalaDeviceCall::Record {
            command_buffer: self.raw[index],
            command: HalaCommand::SetRayTracingPipelineStackSize {
                pipeline_stack_size,
            },
        }
    }

    /// The command that closes the debug label opened last.
    pub fn end_debug_label(&self, index: usize) -> (call: HalaDeviceCall)
        requires
            index < self.raw@.len(),
        ensures
            call == (HalaDeviceCall::Record {
                command_buffer: self.raw@[index as int],
                command: HalaCommand::EndDebugLabel,
            }),
    {
        HalaDeviceCall::Record {
            command_buffer: self.raw[index],
            command: HalaCommand::EndDebugLabel,
        }
    }

    /// The command that sets scissor rectangles, each given by its corner
    /// and its extent.
    pub fn set_scissor(
        &self,
        index: usize,
        first_scissor: u32,
        scissors: &[(i32, i32, u32, u32)],
    ) -> (call: HalaDeviceCall)
        requires
            index < self.raw@.len(),
        ensures
            call matches HalaDeviceCall::Record {
                command_buffer,
                command: HalaCommand::SetScissor { first_scissor: first, scissors: rectangles },
            } && command_buffer == self.raw@[index as int] && first == first_scissor
                && rectangles@ == scissors@,
    {
        HalaDeviceCall::Record {
            command_buffer: self.raw[index],
            command: HalaCommand::SetScissor { first_scissor, scissors: slice_to_vec(scissors) },
        }
    }

    /// The command that updates push constants with the given bytes.
    pub fn push_constants(
        &self,
        index: usize,
        pipeline_layout: u64,
        shader_stage: HalaShaderStageFlags,
        offset: u32,
        data: &[u8],
    ) -> (call: HalaDeviceCall)
        requires
            index < self.raw@.len(),
        ensures
            call matches HalaDeviceCall::Record {
                command_buffer,
                command: HalaCommand::PushConstants {
                    pipeline_layout: layout,
                    stage_flags,
                    offset: at,
                    data: bytes,
                },
            } && command_buffer == self.raw@[index as int] && layout == pipeline_layout
                && stage_flags == shader_stage && at == offset && bytes@ == data@,
    {
        HalaDeviceCall::Record {
            command_buffer: self.raw[index],
            command: HalaCommand::PushConstants {
                pipeline_layout,
                stage_flags: shader_stage,
                offset,
                data: slice_to_vec(data),
            },
        }
    }

    /// The handles of a list of buffers.
    fn buffer_handles(buffers: &[HalaBuffer]) -> (handles: Vec<u64>)
        ensures
            handles@ == Seq::new(buffers@.len(), |i: int| buffers@[i].raw),
    {
        let mut handles: Vec<u64> = Vec::new();
        let mut i: usize = 0;
        while i < buffers.len()
            invariant
                i <= buffers@.len(),
                handles@ == Seq::new(i as nat, |j: int| buffers@[j].raw),
            decreases buffers@.len() - i,
        {
            handles.push(buffers[i].raw);
            i = i + 1;
        }
        handles
    }

    /// The command that binds vertex buffers, each from its offset on.
    pub fn bind_vertex_buffers(
        &self,
        index: usize,
        first_binding: u32,
        buffers: &[HalaBuffer],
        offsets: &[u64],
    ) -> (call: HalaDeviceCall)
        requires
            index < self.raw@.len(),
        ensures
            call matches HalaDeviceCall::Record {
                command_buffer,
                command: HalaCommand::BindVertexBuffers {
                    first_binding: first,
                    buffers: handles,
                    offsets: starts,
                },
            } && command_buffer == self.raw@[index as int] && first == first_binding && handles@
                == Seq::new(buffers@.len(), |i: int| buffers@[i].raw) && starts@ == offsets@,
    {
        HalaDeviceCall::Record {
            command_buffer: self.raw[index],
            command: HalaCommand::BindVertexBuffers {
                first_binding,
                buffers: Self::buffer_handles(buffers),
                offsets: slice_to_vec(offsets),
            },
        }
    }

    /// The command that binds the first of the buffers, from the first of
    /// the offsets on, as the index buffer. There is at least one buffer and
    /// one offset.
    pub fn bind_index_buffers(
        &self,
        index: usize,
        buffers: &[HalaBuffer],
        offsets: &[u64],
        index_type: HalaIndexType,
    ) -> (call: HalaDeviceCall)
        requires
            index < self.raw@.len(),
            buffers@.len() > 0,
            offsets@.len() > 0,
        ensures
            call == (HalaDeviceCall::Record {
                command_buffer: self.raw@[index as int],
                command: HalaCommand::BindIndexBuffer {
                    buffer: buffers@[0].raw,
                    offset: offsets@[0],
                    index_type,
                },
            }),
    {
        HalaDeviceCall::Record {
            command_buffer: self.raw[index],
            command: HalaCommand::BindIndexBuffer {
                buffer: buffers[0].raw,
                offset: offsets[0],
                index_type,
            },
        }
    }

    /// The handle that a descriptor set binds in the frame `index`: its
    /// only handle where the set is static, else the handle of the frame.
    pub open spec fn spec_descriptor_set_handle(set: HalaDescriptorSet, index: int) -> u64 {
        if set.is_static {
            set.raw@[0]
        } else {
            set.raw@[index]
        }
    }

    /// Whether a descriptor set has a handle to bind in the frame `index`.
    pub open spec fn spec_descriptor_set_is_bindable(set: HalaDescriptorSet, index: int) -> bool {
        if set.is_static {
            set.raw@.len() > 0
        } else {
            index < set.raw@.len()
        }
    }

    /// The command that binds descriptor sets at a bind point, each set with
    /// its only handle where it is static and with the handle of the frame
    /// `index` else.
    fn bind_descriptor_sets(
        &self,
        index: usize,
        bind_point: HalaPipelineBindPoint,
        pipeline_layout: u64,
        first_set: u32,
        descriptor_sets: &[HalaDescriptorSet],
        dynamic_offsets: &[u32],
    ) -> (call: HalaDeviceCall)
        requires
            index < self.raw@.len(),
            forall|i: int|
                0 <= i < descriptor_sets@.len() ==> Self::spec_descriptor_set_is_bindable(
                    #[trigger] descriptor_sets@[i],
                    index as int,
                ),
        ensures
            call matches HalaDeviceCall::Record {
                command_buffer,
                command: HalaCommand::BindDescriptorSets {
                    bind_point: point,
                    pipeline_layout: layout,
                    first_set: first,
                    descriptor_sets: handles,
                    dynamic_offsets: offsets,
                },
            } && command_buffer == self.raw@[index as int] && point == bind_point && layout
                == pipeline_layout && first == first_set && handles@ == Seq::new(
                descriptor_sets@.len(),
                |i: int| Self::spec_descriptor_set_handle(descriptor_sets@[i], index as int),
            ) && offsets@ == dynamic_offsets@,
    {
        let mut handles: Vec<u64> = Vec::new();
        let mut i: usize = 0;
        while i < descriptor_sets.len()
            invariant
                i <= descriptor_sets@.len(),
                forall|i: int|
                    0 <= i < descriptor_sets@.len() ==> Self::spec_descriptor_set_is_bindable(
                        #[trigger] descriptor_sets@[i],
                        index as int,
                    ),
                handles@ == Seq::new(
                    i as nat,
                    |j: int| Self::spec_descriptor_set_handle(descriptor_sets@[j], index as int),
                ),
            decreases descriptor_sets@.len() - i,
        {
            let set = &descriptor_sets[i];
            let handle: u64 = if set.is_static {
                set.raw[0]
            } else {
                set.raw[index]
            };
            handles.push(handle);
            i = i + 1;
        }
        HalaDeviceCall::Record {
            command_buffer: self.raw[index],
            command: HalaCommand::BindDescriptorSets {
                bind_point,
                pipeline_layout,
                first_set,
                descriptor_sets: handles,
                dynamic_offsets: slice_to_vec(dynamic_offsets),
            },
        }
    }

    /// The command that binds descriptor sets for a graphics pipeline.
    pub fn bind_graphics_descriptor_sets(
        &self,
        index: usize,
        pipeline: &HalaGraphicsPipeline,
        first_set: u32,
        descriptor_sets: &[HalaDescriptorSet],
        dynamic_offsets: &[u32],
    ) -> (call: HalaDeviceCall)
        requires
            index < self.raw@.len(),
            forall|i: int|
                0 <= i < descriptor_sets@.len() ==> Self::spec_descriptor_set_is_bindable(
                    #[trigger] descriptor_sets@[i],
                    index as int,
                ),
        ensures
            call matches HalaDeviceCall::Record {
                command_buffer,
                command: HalaCommand::BindDescriptorSets {
                    bind_point,
                    pipeline_layout,
                    first_set: first,
                    descriptor_sets: handles,
                    dynamic_offsets: offsets,
                },
            } && command_buffer == self.raw@[index as int] && bind_point == HalaPipelineBindPoint(
                HalaPipelineBindPoint::GRAPHICS,
            ) && pipeline_layout == pipeline.layout && first == first_set && handles@ == Seq::new(
                descriptor_sets@.len(),
                |i: int| Self::spec_descriptor_set_handle(descriptor_sets@[i], index as int),
            ) && offsets@ == dynamic_offsets@,
    {
        self.bind_descriptor_sets(
            index,
            HalaPipelineBindPoint(HalaPipelineBindPoint::GRAPHICS),
            pipeline.layout,
            first_set,
            descriptor_sets,
            dynamic_offsets,
        )
    }

    /// The command that binds descriptor sets for a ray tracing pipeline.
    pub fn bind_ray_tracing_descriptor_sets(
        &self,
        index: usize,
        pipeline: &HalaRayTracingPipeline,
        first_set: u32,
        descriptor_sets: &[HalaDescriptorSet],
        dynamic_offsets: &[u32],
    ) -> (call: HalaDeviceCall)
        requires
            index < self.raw@.len(),
            forall|i: int|
                0 <= i < descriptor_sets@.len() ==> Self::spec_descriptor_set_is_bindable(
                    #[trigger] descriptor_sets@[i],
                    index as int,
                ),
        ensures
            call matches HalaDeviceCall::Record {
                command_buffer,
                command: HalaCommand::BindDescriptorSets {
                    bind_point,
                    pipeline_layout,
                    first_set: first,
                    descriptor_sets: handles,
                    dynamic_offsets: offsets,
                },
            } && command_buffer == self.raw@[index as int] && bind_point == HalaPipelineBindPoint(
                HalaPipelineBindPoint::RAY_TRACING,
            ) && pipeline_layout == pipeline.layout && first == first_set && handles@ == Seq::new(
                descriptor_sets@.len(),
                |i: int| Self::spec_descriptor_set_handle(descriptor_sets@[i], index as int),
            ) && offsets@ == dynamic_offsets@,
    {
        self.bind_descriptor_sets(
            index,
            HalaPipelineBindPoint(HalaPipelineBindPoint::RAY_TRACING),
            pipeline.layout,
            first_set,
            descriptor_sets,
            dynamic_offsets,
        )
    }

    /// The command that binds descriptor sets for a compute pipeline.
    pub fn bind_compute_descriptor_sets(
        &self,
        index: usize,
        pipeline: &HalaComputePipeline,
        first_set: u32,
        descriptor_sets: &[HalaDescriptorSet],
        dynamic_offsets: &[u32],
    ) -> (call: HalaDeviceCall)
        requires
            index < self.raw@.len(),
            forall|i: int|
                0 <= i < descriptor_sets@.len() ==> Self::spec_descriptor_set_is_bindable(
                    #[trigger] descriptor_sets@[i],
                    index as int,
                ),
        ensures
            call matches HalaDeviceCall::Record {
                command_buffer,
                command: HalaCommand::BindDescriptorSets {
                    bind_point,
                    pipeline_layout,
                    first_set: first,
                    descriptor_sets: handles,
                    dynamic_offsets: offsets,
                },
            } && command_buffer == self.raw@[index as int] && bind_point == HalaPipelineBindPoint(
                HalaPipelineBindPoint::COMPUTE,
            ) && pipeline_layout == pipeline.layout && first == first_set && handles@ == Seq::new(
                descriptor_sets@.len(),
                |i: int| Self::spec_descriptor_set_handle(descriptor_sets@[i], index as int),
            ) && offsets@ == dynamic_offsets@,
    {
        self.bind_descriptor_sets(
            index,
            HalaPipelineBindPoint(HalaPipelineBindPoint::COMPUTE),
            pipeline.layout,
            first_set,
            descriptor_sets,
            dynamic_offsets,
        )
    }
}

} // verus!
