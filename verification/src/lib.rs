//! Verified core of a thin convenience layer over the Vulkan API.
//!
//! Everything that decides or computes something lives here and is proved
//! against its contract: resource descriptors, the choice of a memory type
//! for an allocation, the decoding of packed API versions, and the mapping
//! of native results onto the library's error type.  Calls into the driver
//! itself are made by the embedding code, which hands over plain values.

pub mod buffer;
pub mod error;
pub mod extent;
pub mod image;
pub mod instance;
pub mod mem;
pub mod native;
pub mod version;

pub use crate::buffer::{BufferCreateParams, BufferDescriptor, BufferUsage};
pub use crate::error::{non_empty, wrap_native, NxError, NxResult};
pub use crate::extent::Extent3d;
pub use crate::image::{ImageCreateParams, ImageDescriptor, ImageType};
pub use crate::instance::{
    default_connector, enumerate_connecters, DeviceConnecter, DeviceFeature, InstanceBuilder,
    InstanceCreateParams, InstanceFeature,
};
pub use crate::mem::{
    plan_memory, select_memory_type, MemoryPlan, MemoryRequirements, MemoryType,
};
pub use crate::version::{version_string, vulkan_version};
