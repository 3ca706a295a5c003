use nexg::{
    BufferCreateParams, BufferDescriptor, BufferUsage, Extent3d, ImageCreateParams,
    ImageDescriptor, ImageType,
};

#[test]
fn empty_buffer_descriptor_has_no_size_and_vertex_usage() {
    let descriptor = BufferDescriptor::empty();
    assert_eq!(descriptor.size, 0);
    assert_eq!(descriptor.usage, BufferUsage::Vertex);
}

#[test]
fn buffer_size_replaces_only_the_size() {
    let descriptor = BufferDescriptor::empty().size(4096);
    assert_eq!(descriptor, BufferDescriptor { size: 4096, usage: BufferUsage::Vertex });
    let again = descriptor.size(12);
    assert_eq!(again.size, 12);
    assert_eq!(again.usage, descriptor.usage);
}

#[test]
fn buffer_usage_replaces_only_the_usage() {
    let descriptor = BufferDescriptor::empty().size(64).usage(BufferUsage::Vertex);
    assert_eq!(descriptor.size, 64);
    assert_eq!(descriptor.usage, BufferUsage::Vertex);
}

#[test]
fn buffer_size_accepts_the_largest_value() {
    let descriptor = BufferDescriptor::empty().size(usize::MAX);
    assert_eq!(descriptor.size, usize::MAX);
    assert_eq!(descriptor.create_params().size, usize::MAX as u64);
}

#[test]
fn vertex_usage_is_the_vertex_buffer_bit() {
    assert_eq!(BufferUsage::Vertex.as_raw(), 0x80);
    assert_eq!(BufferUsage::Vertex.as_raw(), ash::vk::BufferUsageFlags::VERTEX_BUFFER.as_raw());
}

#[test]
fn buffer_create_params_carry_size_usage_and_exclusive_sharing() {
    let params = BufferDescriptor::empty().size(256).create_params();
    assert_eq!(params, BufferCreateParams { size: 256, usage: 0x80, sharing_mode: 0 });
    assert_eq!(params.sharing_mode, ash::vk::SharingMode::EXCLUSIVE.as_raw());
}

#[test]
fn extent_new_keeps_each_dimension() {
    let extent = Extent3d::new(640, 480, 3);
    assert_eq!(extent, Extent3d { width: 640, height: 480, depth: 3 });
}

#[test]
fn new_image_descriptor_is_a_small_flat_image() {
    let descriptor = ImageDescriptor::new();
    assert_eq!(descriptor.image_type, ImageType::e2D);
    assert_eq!(descriptor.extent, Extent3d::new(100, 100, 1));
    assert_eq!(descriptor.mip_levels, 1);
    assert_eq!(descriptor.array_layers, 1);
}

#[test]
fn image_type_replaces_only_the_type() {
    let descriptor = ImageDescriptor::new().image_type(ImageType::e3D);
    assert_eq!(descriptor.image_type, ImageType::e3D);
    assert_eq!(descriptor.extent, Extent3d::new(100, 100, 1));
    assert_eq!(descriptor.mip_levels, 1);
    assert_eq!(descriptor.array_layers, 1);
}

#[test]
fn image_extent_replaces_only_the_extent() {
    let descriptor = ImageDescriptor::new().image_type(ImageType::e3D).extent(Extent3d::new(8, 4, 2));
    assert_eq!(descriptor.image_type, ImageType::e3D);
    assert_eq!(descriptor.extent, Extent3d { width: 8, height: 4, depth: 2 });
    assert_eq!(descriptor.mip_levels, 1);
    assert_eq!(descriptor.array_layers, 1);
}

#[test]
fn image_types_are_the_native_enumerants() {
    assert_eq!(ImageType::e2D.as_raw(), 1);
    assert_eq!(ImageType::e3D.as_raw(), 2);
    assert_eq!(ImageType::e2D.as_raw(), ash::vk::ImageType::TYPE_2D.as_raw());
    assert_eq!(ImageType::e3D.as_raw(), ash::vk::ImageType::TYPE_3D.as_raw());
}

#[test]
fn image_create_params_of_the_default_descriptor() {
    let params = ImageDescriptor::new().create_params();
    assert_eq!(
        params,
        ImageCreateParams {
            image_type: 1,
            extent: Extent3d { width: 100, height: 100, depth: 1 },
            mip_levels: 1,
            array_layers: 1,
            format: 37,
            tiling: 1,
            initial_layout: 0,
            usage: 0x10,
            sharing_mode: 0,
            samples: 1,
        }
    );
}

#[test]
fn image_create_params_follow_the_descriptor() {
    let descriptor = ImageDescriptor {
        image_type: ImageType::e3D,
        extent: Extent3d::new(16, 32, 64),
        mip_levels: 5,
        array_layers: 7,
    };
    let params = descriptor.create_params();
    assert_eq!(params.image_type, 2);
    assert_eq!(params.extent, Extent3d::new(16, 32, 64));
    assert_eq!(params.mip_levels, 5);
    assert_eq!(params.array_layers, 7);
}

#[test]
fn image_create_params_use_the_native_constants() {
    let params = ImageDescriptor::new().create_params();
    assert_eq!(params.format, ash::vk::Format::R8G8B8A8_UNORM.as_raw());
    assert_eq!(params.tiling, ash::vk::ImageTiling::LINEAR.as_raw());
    assert_eq!(params.initial_layout, ash::vk::ImageLayout::UNDEFINED.as_raw());
    assert_eq!(params.usage, ash::vk::ImageUsageFlags::COLOR_ATTACHMENT.as_raw());
    assert_eq!(params.sharing_mode, ash::vk::SharingMode::EXCLUSIVE.as_raw());
    assert_eq!(params.samples, ash::vk::SampleCountFlags::TYPE_1.as_raw());
}
