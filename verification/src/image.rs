//! Describing an image before it is created.

use vstd::prelude::*;

use crate::extent::Extent3d;
use crate::native::{
    format_r8g8b8a8_unorm, image_layout_undefined, image_tiling_linear, image_type_2d,
    image_type_3d, image_usage_color_attachment, sample_count_1, sharing_mode_exclusive,
    FORMAT_R8G8B8A8_UNORM, IMAGE_LAYOUT_UNDEFINED, IMAGE_TILING_LINEAR, IMAGE_TYPE_2D,
    IMAGE_TYPE_3D, IMAGE_USAGE_COLOR_ATTACHMENT, SAMPLE_COUNT_1, SHARING_MODE_EXCLUSIVE,
};

verus! {

/// The dimensionality of an image.
#[allow(non_camel_case_types)]
#[derive(Clone, Copy, Debug, Eq, PartialEq)]
pub enum ImageType {
    /// A two-dimensional image.
    e2D,
    /// A three-dimensional image.
    e3D,
}

impl ImageType {
    /// The raw `VkImageType` that stands for this dimensionality.
    pub open spec fn raw(self) -> i32 {
        match self {
            ImageType::e2D => IMAGE_TYPE_2D,
            ImageType::e3D => IMAGE_TYPE_3D,
        }
    }

    /// Converts the dimensionality into its raw `VkImageType`.
    pub fn as_raw(self) -> (raw: i32)
        ensures
            raw == self.raw(),
    {
        match self {
            ImageType::e2D => image_type_2d(),
            ImageType::e3D => image_type_3d(),
        }
    }
}

/// Type, extent and level counts of an image that is yet to be created.
#[derive(Clone, Copy, Debug, Eq, PartialEq)]
pub struct ImageDescriptor {
    pub image_type: ImageType,
    pub extent: Extent3d,
    pub mip_levels: u32,
    pub array_layers: u32,
}

/// The values an image is created with, as the driver takes them.
#[derive(Clone, Copy, Debug, Eq, PartialEq)]
pub struct ImageCreateParams {
    /// Raw `VkImageType`.
    pub image_type: i32,
    pub extent: Extent3d,
    pub mip_levels: u32,
    pub array_layers: u32,
    /// Raw `VkFormat`.
    pub format: i32,
    /// Raw `VkImageTiling`.
    pub tiling: i32,
    /// Raw `VkImageLayout` the image starts in.
    pub initial_layout: i32,
    /// Raw `VkImageUsageFlags`.
    pub usage: u32,
    /// Raw `VkSharingMode`.
    pub sharing_mode: i32,
    /// Raw `VkSampleCountFlags`.
    pub samples: u32,
}

impl ImageDescriptor {
    /// A descriptor of a 100 by 100 two-dimensional image with one mip
    /// level and one array layer.
    pub fn new() -> (descriptor: Self)
        ensures
            descriptor == (ImageDescriptor {
                image_type: ImageType::e2D,
                extent: Extent3d { width: 100, height: 100, depth: 1 },
                mip_levels: 1,
                array_layers: 1,
            }),
    {
        ImageDescriptor {
            image_type: ImageType::e2D,
            extent: Extent3d::new(100, 100, 1),
            mip_levels: 1,
            array_layers: 1,
        }
    }

    /// The same descriptor with its image type replaced.
    pub fn image_type(self, image_type: ImageType) -> (descriptor: Self)
        ensures
            descriptor == (ImageDescriptor { image_type, ..self }),
    {
        ImageDescriptor { image_type, ..self }
    }

    /// The same descriptor with its extent replaced.
    pub fn extent(self, extent: Extent3d) -> (descriptor: Self)
        ensures
            descriptor == (ImageDescriptor { extent, ..self }),
    {
        ImageDescriptor { extent, ..self }
    }

    /// The values the described image is created with.  Type, extent and
    /// level counts come from the descriptor; every image is a linearly
    /// tiled, single-sampled RGBA8 colour attachment that starts in the
    /// undefined layout and is owned by one queue family.
    pub fn create_params(&self) -> (params: ImageCreateParams)
        ensures
            params == (ImageCreateParams {
                image_type: self.image_type.raw(),
                extent: self.extent,
                mip_levels: self.mip_levels,
                array_layers: self.array_layers,
                format: FORMAT_R8G8B8A8_UNORM,
                tiling: IMAGE_TILING_LINEAR,
                initial_layout: IMAGE_LAYOUT_UNDEFINED,
                usage: IMAGE_USAGE_COLOR_ATTACHMENT,
                sharing_mode: SHARING_MODE_EXCLUSIVE,
                samples: SAMPLE_COUNT_1,
            }),
    {
        ImageCreateParams {
            image_type: self.image_type.as_raw(),
            extent: self.extent,
            mip_levels: self.mip_levels,
            array_layers: self.array_layers,
            format: format_r8g8b8a8_unorm(),
            tiling: image_tiling_linear(),
            initial_layout: image_layout_undefined(),
            usage: image_usage_color_attachment(),
            sharing_mode: sharing_mode_exclusive(),
            samples: sample_count_1(),
        }
    }
}

} // verus!
