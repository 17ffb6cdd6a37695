//! Swapchain policy: which surface format and present mode to use, how large
//! the images are, how many to ask for, and what to build for each image.
//!
//! Formats, colour spaces, present modes and flag words are carried as the
//! raw numbers the graphics API assigns them; handles as their 64-bit value.

use crate::img::{create_image_view, image_view_request, ImageViewRequest, IMAGE_ASPECT_COLOR};
use vstd::prelude::*;

verus! {

/// Raw value of the "undefined" pixel format.
pub const FORMAT_UNDEFINED: i32 = 0;

/// Raw value of the 8-bit BGRA unsigned-normalised pixel format.
pub const FORMAT_B8G8R8A8_UNORM: i32 = 44;

/// Raw value of the sRGB non-linear colour space.
pub const COLOR_SPACE_SRGB_NONLINEAR: i32 = 0;

/// Raw value of the "immediate" present mode.
pub const PRESENT_MODE_IMMEDIATE: i32 = 0;

/// Raw value of the "mailbox" present mode.
pub const PRESENT_MODE_MAILBOX: i32 = 1;

/// Raw value of the "fifo" present mode.
pub const PRESENT_MODE_FIFO: i32 = 2;

/// Image usage bit: colour attachment.
pub const IMAGE_USAGE_COLOR_ATTACHMENT: u32 = 0x10;

/// Composite alpha bit: opaque.
pub const COMPOSITE_ALPHA_OPAQUE: u32 = 0x1;

/// Width and height in pixels.
#[derive(Clone, Copy, PartialEq, Eq, Structural, Debug)]
pub struct Extent2D {
    pub width: u32,
    pub height: u32,
}

/// A pixel format together with the colour space it is presented in.
#[derive(Clone, Copy, PartialEq, Eq, Structural, Debug)]
pub struct SurfaceFormat {
    pub format: i32,
    pub color_space: i32,
}

/// What the surface reports about the swapchains it accepts.
#[derive(Clone, Copy, PartialEq, Eq, Structural, Debug)]
pub struct SurfaceCapabilities {
    pub min_image_count: u32,
    pub max_image_count: u32,
    pub min_image_extent: Extent2D,
    pub max_image_extent: Extent2D,
    pub current_transform: u32,
}

/// How the images of a swapchain are shared between queue families.
#[derive(Clone, Copy, PartialEq, Eq, Structural, Debug)]
pub enum SharingMode {
    Exclusive,
    Concurrent,
}

/// Everything that is asked of the surface when a swapchain is created.
#[derive(Clone, Copy, PartialEq, Eq, Structural, Debug)]
pub struct SwapchainRequest {
    pub min_image_count: u32,
    pub format: SurfaceFormat,
    pub extent: Extent2D,
    pub array_layers: u32,
    pub usage: u32,
    pub pre_transform: u32,
    pub composite_alpha: u32,
    pub present_mode: i32,
    pub clipped: bool,
    pub sharing_mode: SharingMode,
    pub graphics_family_index: u32,
    pub present_family_index: u32,
}

/// A framebuffer to create: a colour view and the depth view, bound to a
/// render pass.
#[derive(Clone, Copy, PartialEq, Eq, Structural, Debug)]
pub struct FramebufferRequest {
    pub color_view: u64,
    pub depth_view: u64,
    pub render_pass: u64,
    pub width: u32,
    pub height: u32,
    pub layers: u32,
}

/// The format that is used when the surface leaves the choice open, and that
/// is preferred among the formats a surface offers.
pub open spec fn preferred_format() -> SurfaceFormat {
    SurfaceFormat { format: FORMAT_B8G8R8A8_UNORM, color_space: COLOR_SPACE_SRGB_NONLINEAR }
}

/// Whether the surface reports the single entry that stands for "any format".
pub open spec fn leaves_format_open(formats: Seq<SurfaceFormat>) -> bool {
    formats.len() == 1 && formats[0].format == FORMAT_UNDEFINED
}

/// `value` brought into `[low, high]`: `low` where it is below, `high` where
/// it is above.
pub open spec fn clamped(value: u32, low: u32, high: u32) -> u32 {
    if value < low {
        low
    } else if value > high {
        high
    } else {
        value
    }
}

/// `desired` with each dimension brought into the range the surface reports.
pub open spec fn clamped_extent(desired: Extent2D, caps: SurfaceCapabilities) -> Extent2D {
    Extent2D {
        width: clamped(desired.width, caps.min_image_extent.width, caps.max_image_extent.width),
        height: clamped(
            desired.height,
            caps.min_image_extent.height,
            caps.max_image_extent.height,
        ),
    }
}

/// Whether the surface's smallest extent does not exceed its largest.
pub open spec fn extent_range_valid(caps: SurfaceCapabilities) -> bool {
    &&& caps.min_image_extent.width <= caps.max_image_extent.width
    &&& caps.min_image_extent.height <= caps.max_image_extent.height
}

/// Whether `extent` lies between the surface's smallest and largest extent.
pub open spec fn extent_within(extent: Extent2D, caps: SurfaceCapabilities) -> bool {
    &&& caps.min_image_extent.width <= extent.width <= caps.max_image_extent.width
    &&& caps.min_image_extent.height <= extent.height <= caps.max_image_extent.height
}

/// One image more than the surface's minimum, capped at its maximum.
pub open spec fn requested_image_count(caps: SurfaceCapabilities) -> int {
    if caps.min_image_count + 1 <= caps.max_image_count {
        caps.min_image_count + 1
    } else {
        caps.max_image_count as int
    }
}

/// The swapchain to ask for, given the extent already clamped.
pub open spec fn swapchain_request(
    extent: Extent2D,
    caps: SurfaceCapabilities,
    format: SurfaceFormat,
    present_mode: i32,
    graphics_family_index: u32,
    present_family_index: u32,
) -> SwapchainRequest {
    SwapchainRequest {
        min_image_count: requested_image_count(caps) as u32,
        format,
        extent,
        array_layers: 1,
        usage: IMAGE_USAGE_COLOR_ATTACHMENT,
        pre_transform: caps.current_transform,
        composite_alpha: COMPOSITE_ALPHA_OPAQUE,
        present_mode,
        clipped: true,
        sharing_mode: SharingMode::Concurrent,
        graphics_family_index,
        present_family_index,
    }
}

/// Picks the surface format.
///
/// Where the surface leaves the choice open, or offers the preferred format,
/// that format is taken; otherwise the first one offered.
pub fn choose_swapchain_format(formats: &[SurfaceFormat]) -> (chosen: SurfaceFormat)
    requires
        formats@.len() > 0,
    ensures
        leaves_format_open(formats@) ==> chosen == preferred_format(),
        formats@.contains(preferred_format()) ==> chosen == preferred_format(),
        !leaves_format_open(formats@) && !formats@.contains(preferred_format()) ==> chosen
            == formats@[0],
{
    let preferred = SurfaceFormat {
        format: FORMAT_B8G8R8A8_UNORM,
        color_space: COLOR_SPACE_SRGB_NONLINEAR,
    };
    if formats.len() == 1 && formats[0].format == FORMAT_UNDEFINED {
        return preferred;
    }
    let mut i: usize = 0;
    while i < formats.len()
        invariant
            i <= formats@.len(),
            preferred == preferred_format(),
            forall|j: int| 0 <= j < i ==> formats@[j] != preferred,
        decreases formats@.len() - i,
    {
        if formats[i].format == FORMAT_B8G8R8A8_UNORM && formats[i].color_space
            == COLOR_SPACE_SRGB_NONLINEAR {
            assert(formats@[i as int] == preferred);
            return formats[i];
        }
        i = i + 1;
    }
    formats[0]
}

/// Picks the present mode: mailbox where it is offered, else fifo where that
/// is offered, else immediate.
pub fn choose_swapchain_present_mode(present_modes: &[i32]) -> (chosen: i32)
    ensures
        present_modes@.contains(PRESENT_MODE_MAILBOX) ==> chosen == PRESENT_MODE_MAILBOX,
        !present_modes@.contains(PRESENT_MODE_MAILBOX) && present_modes@.contains(
            PRESENT_MODE_FIFO,
        ) ==> chosen == PRESENT_MODE_FIFO,
        !present_modes@.contains(PRESENT_MODE_MAILBOX) && !present_modes@.contains(
            PRESENT_MODE_FIFO,
        ) ==> chosen == PRESENT_MODE_IMMEDIATE,
{
    let mut chosen: i32 = PRESENT_MODE_IMMEDIATE;
    let mut i: usize = 0;
    while i < present_modes.len()
        invariant
            i <= present_modes@.len(),
            forall|j: int| 0 <= j < i ==> present_modes@[j] != PRESENT_MODE_MAILBOX,
            chosen == PRESENT_MODE_FIFO <==> exists|j: int|
                0 <= j < i && present_modes@[j] == PRESENT_MODE_FIFO,
            chosen == PRESENT_MODE_FIFO || chosen == PRESENT_MODE_IMMEDIATE,
        decreases present_modes@.len() - i,
    {
        let mode: i32 = present_modes[i];
        if mode == PRESENT_MODE_MAILBOX {
            return mode;
        } else if mode == PRESENT_MODE_FIFO {
            chosen = mode;
        }
        i = i + 1;
    }
    chosen
}

/// Brings `value` into `[low, high]`.
pub fn clamp_dimension(value: u32, low: u32, high: u32) -> (r: u32)
    ensures
        r == clamped(value, low, high),
        low <= high ==> low <= r <= high,
{
    if value < low {
        low
    } else if value > high {
        high
    } else {
        value
    }
}

/// Brings the desired extent into the range the surface reports.
///
/// Where the surface's minimum does not exceed its maximum, the result lies
/// between the two in each dimension.
pub fn clamp_extent(desired: Extent2D, caps: &SurfaceCapabilities) -> (extent: Extent2D)
    ensures
        extent == clamped_extent(desired, *caps),
        extent_range_valid(*caps) ==> extent_within(extent, *caps),
        extent_within(desired, *caps) ==> extent == desired,
{
    Extent2D {
        width: clamp_dimension(
            desired.width,
            caps.min_image_extent.width,
            caps.max_image_extent.width,
        ),
        height: clamp_dimension(
            desired.height,
            caps.min_image_extent.height,
            caps.max_image_extent.height,
        ),
    }
}

/// Number of images to ask for: one more than the minimum, capped at the
/// maximum.
pub fn image_count(caps: &SurfaceCapabilities) -> (count: u32)
    ensures
        count == requested_image_count(*caps),
{
    if caps.min_image_count < caps.max_image_count {
        caps.min_image_count + 1
    } else {
        caps.max_image_count
    }
}

/// Clamps `swapchain_extent` into the surface's range and describes the
/// swapchain to create with it: colour-attachment images of one layer, shared
/// concurrently between the graphics and the present family, opaque, clipped.
pub fn create_swapchain_khr(
    swapchain_extent: &mut Extent2D,
    caps: &SurfaceCapabilities,
    surface_format: SurfaceFormat,
    present_mode: i32,
    graphics_family_index: u32,
    present_family_index: u32,
) -> (request: SwapchainRequest)
    ensures
        *final(swapchain_extent) == clamped_extent(*old(swapchain_extent), *caps),
        request == swapchain_request(
            *final(swapchain_extent),
            *caps,
            surface_format,
            present_mode,
            graphics_family_index,
            present_family_index,
        ),
        extent_within(*final(swapchain_extent), *caps) || !extent_range_valid(*caps),
{
    let extent = clamp_extent(*swapchain_extent, caps);
    *swapchain_extent = extent;
    SwapchainRequest {
        min_image_count: image_count(caps),
        format: surface_format,
        extent,
        array_layers: 1,
        usage: IMAGE_USAGE_COLOR_ATTACHMENT,
        pre_transform: caps.current_transform,
        composite_alpha: COMPOSITE_ALPHA_OPAQUE,
        present_mode,
        clipped: true,
        sharing_mode: SharingMode::Concurrent,
        graphics_family_index,
        present_family_index,
    }
}

/// One colour view per swapchain image, in the order of the images.
pub fn swapchain_image_views(images: &[u64], format: i32) -> (views: Vec<ImageViewRequest>)
    ensures
        views@.len() == images@.len(),
        forall|i: int|
            0 <= i < images@.len() ==> views@[i] == image_view_request(
                images@[i],
                format,
                IMAGE_ASPECT_COLOR,
            ),
{
    let mut views: Vec<ImageViewRequest> = Vec::new();
    let mut i: usize = 0;
    while i < images.len()
        invariant
            i <= images@.len(),
            views@.len() == i,
            forall|j: int|
                0 <= j < i ==> views@[j] == image_view_request(
                    images@[j],
                    format,
                    IMAGE_ASPECT_COLOR,
                ),
        decreases images@.len() - i,
    {
        views.push(create_image_view(images[i], format, IMAGE_ASPECT_COLOR));
        i = i + 1;
    }
    views
}

/// One framebuffer per image view, in the order of the views: the view as
/// colour attachment and the shared depth view, of the swapchain's extent.
pub fn create_swapchain_framebuffers(
    image_views: &[u64],
    depth_image_view: u64,
    render_pass: u64,
    extent: Extent2D,
) -> (framebuffers: Vec<FramebufferRequest>)
    ensures
        framebuffers@.len() == image_views@.len(),
        forall|i: int|
            0 <= i < image_views@.len() ==> framebuffers@[i] == (FramebufferRequest {
                color_view: image_views@[i],
                depth_view: depth_image_view,
                render_pass,
                width: extent.width,
                height: extent.height,
                layers: 1,
            }),
{
    let mut framebuffers: Vec<FramebufferRequest> = Vec::new();
    let mut i: usize = 0;
    while i < image_views.len()
        invariant
            i <= image_views@.len(),
            framebuffers@.len() == i,
            forall|j: int|
                0 <= j < i ==> framebuffers@[j] == (FramebufferRequest {
                    color_view: image_views@[j],
                    depth_view: depth_image_view,
                    render_pass,
                    width: extent.width,
                    height: extent.height,
                    layers: 1,
                }),
        decreases image_views@.len() - i,
    {
        framebuffers.push(
            FramebufferRequest {
                color_view: image_views[i],
                depth_view: depth_image_view,
                render_pass,
                width: extent.width,
                height: extent.height,
                layers: 1,
            },
        );
        i = i + 1;
    }
    framebuffers
}

/// Whatever extent is asked for, the clamped extent lies within what the
/// surface reports, provided the surface's range is not empty; and an extent
/// already within it is kept.
pub proof fn lemma_clamped_extent_within(desired: Extent2D, caps: SurfaceCapabilities)
    requires
        extent_range_valid(caps),
    ensures
        extent_within(clamped_extent(desired, caps), caps),
        extent_within(desired, caps) ==> clamped_extent(desired, caps) == desired,
        clamped_extent(clamped_extent(desired, caps), caps) == clamped_extent(desired, caps),
{
}

} // verus!
