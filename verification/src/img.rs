//! Images and image views: what is asked of the device for a texture, a depth
//! buffer or a view on a swapchain image.

use crate::swapchain::SharingMode;
use vstd::prelude::*;

verus! {

/// Raw value of the two-dimensional image type, and of the view type.
pub const IMAGE_TYPE_2D: i32 = 1;

/// Raw value of the undefined image layout.
pub const IMAGE_LAYOUT_UNDEFINED: i32 = 0;

/// Raw value of the layout for sampling in a shader.
pub const IMAGE_LAYOUT_SHADER_READ_ONLY_OPTIMAL: i32 = 5;

/// Raw value of the layout for being written by a transfer.
pub const IMAGE_LAYOUT_TRANSFER_DST_OPTIMAL: i32 = 7;

/// Raw value of the 8-bit RGBA sRGB pixel format.
pub const FORMAT_R8G8B8A8_SRGB: i32 = 43;

/// Sample count bit: one sample per pixel.
pub const SAMPLE_COUNT_1: u32 = 0x1;

/// Image usage bit: destination of a transfer.
pub const IMAGE_USAGE_TRANSFER_DST: u32 = 0x2;

/// Image usage bit: sampled in a shader.
pub const IMAGE_USAGE_SAMPLED: u32 = 0x4;

/// Image usage bit: depth-stencil attachment.
pub const IMAGE_USAGE_DEPTH_STENCIL_ATTACHMENT: u32 = 0x20;

/// Image aspect bit: colour.
pub const IMAGE_ASPECT_COLOR: u32 = 0x1;

/// Image aspect bit: depth.
pub const IMAGE_ASPECT_DEPTH: u32 = 0x2;

/// An image to create.
#[derive(Clone, Copy, PartialEq, Eq, Structural, Debug)]
pub struct ImageRequest {
    pub image_type: i32,
    pub width: u32,
    pub height: u32,
    pub depth: u32,
    pub mip_levels: u32,
    pub array_layers: u32,
    pub format: i32,
    pub tiling: i32,
    pub initial_layout: i32,
    pub usage: u32,
    pub sharing_mode: SharingMode,
    pub samples: u32,
    pub flags: u32,
}

/// A two-dimensional view to create on one image.
#[derive(Clone, Copy, PartialEq, Eq, Structural, Debug)]
pub struct ImageViewRequest {
    pub image: u64,
    pub view_type: i32,
    pub format: i32,
    pub aspect_mask: u32,
    pub base_mip_level: u32,
    pub level_count: u32,
    pub base_array_layer: u32,
    pub layer_count: u32,
}

/// The two-dimensional image of one mip level, one layer and one sample per
/// pixel, in undefined layout, used by one queue family at a time.
pub open spec fn image_request(width: u32, height: u32, usage: u32, format: i32, tiling: i32)
    -> ImageRequest {
    ImageRequest {
        image_type: IMAGE_TYPE_2D,
        width,
        height,
        depth: 1,
        mip_levels: 1,
        array_layers: 1,
        format,
        tiling,
        initial_layout: IMAGE_LAYOUT_UNDEFINED,
        usage,
        sharing_mode: SharingMode::Exclusive,
        samples: SAMPLE_COUNT_1,
        flags: 0,
    }
}

/// The view on `image`: the whole of its single mip level and layer.
pub open spec fn image_view_request(image: u64, format: i32, aspect_mask: u32) -> ImageViewRequest {
    ImageViewRequest {
        image,
        view_type: IMAGE_TYPE_2D,
        format,
        aspect_mask,
        base_mip_level: 0,
        level_count: 1,
        base_array_layer: 0,
        layer_count: 1,
    }
}

/// Describes the image to create. Its memory is chosen from the requirements
/// the device reports for it, see [`crate::buffer::allocate_memory`].
pub fn create_image(width: u32, height: u32, usage: u32, format: i32, tiling: i32) -> (request:
    ImageRequest)
    ensures
        request == image_request(width, height, usage, format, tiling),
{
    ImageRequest {
        image_type: IMAGE_TYPE_2D,
        width,
        height,
        depth: 1,
        mip_levels: 1,
        array_layers: 1,
        format,
        tiling,
        initial_layout: IMAGE_LAYOUT_UNDEFINED,
        usage,
        sharing_mode: SharingMode::Exclusive,
        samples: SAMPLE_COUNT_1,
        flags: 0,
    }
}

/// Describes the view to create on `image`.
pub fn create_image_view(image: u64, format: i32, aspect_mask: u32) -> (request: ImageViewRequest)
    ensures
        request == image_view_request(image, format, aspect_mask),
{
    ImageViewRequest {
        image,
        view_type: IMAGE_TYPE_2D,
        format,
        aspect_mask,
        base_mip_level: 0,
        level_count: 1,
        base_array_layer: 0,
        layer_count: 1,
    }
}

} // verus!
