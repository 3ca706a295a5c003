//! Describing a buffer before it is created.

use vstd::prelude::*;

use crate::native::{
    sharing_mode_exclusive, vertex_buffer_bits, SHARING_MODE_EXCLUSIVE, VERTEX_BUFFER,
};

verus! {

/// What a buffer is used for.
#[derive(Clone, Copy, Debug, Eq, PartialEq)]
pub enum BufferUsage {
    /// The buffer is a source of vertex data.
    Vertex,
}

impl BufferUsage {
    /// The raw `VkBufferUsageFlags` that stand for this usage.
    pub open spec fn raw(self) -> u32 {
        match self {
            BufferUsage::Vertex => VERTEX_BUFFER,
        }
    }

    /// Converts the usage into its raw `VkBufferUsageFlags`.
    pub fn as_raw(self) -> (bits: u32)
        ensures
            bits == self.raw(),
    {
        match self {
            BufferUsage::Vertex => vertex_buffer_bits(),
        }
    }
}

/// Size and usage of a buffer that is yet to be created.
#[derive(Clone, Copy, Debug, Eq, PartialEq)]
pub struct BufferDescriptor {
    pub size: usize,
    pub usage: BufferUsage,
}

/// The values a buffer is created with, as the driver takes them.
#[derive(Clone, Copy, Debug, Eq, PartialEq)]
pub struct BufferCreateParams {
    /// Size of the buffer in bytes.
    pub size: u64,
    /// Raw `VkBufferUsageFlags`.
    pub usage: u32,
    /// Raw `VkSharingMode`.
    pub sharing_mode: i32,
}

impl BufferDescriptor {
    /// A descriptor of an empty vertex buffer.
    pub fn empty() -> (descriptor: Self)
        ensures
            descriptor == (BufferDescriptor { size: 0, usage: BufferUsage::Vertex }),
    {
        BufferDescriptor { size: 0, usage: BufferUsage::Vertex }
    }

    /// The same descriptor with its size replaced.
    pub fn size(self, size: usize) -> (descriptor: Self)
        ensures
            descriptor == (BufferDescriptor { size, usage: self.usage }),
    {
        BufferDescriptor { size, usage: self.usage }
    }

    /// The same descriptor with its usage replaced.
    pub fn usage(self, usage: BufferUsage) -> (descriptor: Self)
        ensures
            descriptor == (BufferDescriptor { size: self.size, usage }),
    {
        BufferDescriptor { size: self.size, usage }
    }

    /// The values the described buffer is created with: its size in bytes,
    /// the flags of its usage, and exclusive ownership by one queue family.
    pub fn create_params(&self) -> (params: BufferCreateParams)
        ensures
            params == (BufferCreateParams {
                size: self.size as u64,
                usage: self.usage.raw(),
                sharing_mode: SHARING_MODE_EXCLUSIVE,
            }),
    {
        BufferCreateParams {
            size: self.size as u64,
            usage: self.usage.as_raw(),
            sharing_mode: sharing_mode_exclusive(),
        }
    }
}

} // verus!
