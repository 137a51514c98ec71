//! The GPU device: the entry point through which buffers, textures and
//! queues are obtained.
//!
//! A real backend would negotiate with a platform API here; this crate
//! keeps the resource bookkeeping, which always succeeds, and leaves the
//! native objects to the backend layer.

use vstd::prelude::*;

use crate::buffer::{Buffer, BufferAccess, BufferUsage};
use crate::queue::Queue;
use crate::texture::{Texture, TextureDescriptor};

verus! {

/// A handle to the GPU device.
#[derive(Debug)]
pub struct Device {}

impl Device {
    /// Opens the device. Without a platform backend there is nothing to
    /// negotiate, so this always succeeds.
    pub fn new() -> (r: Result<Self, &'static str>)
        ensures
            r is Ok,
    {
        Ok(Device {})
    }

    /// Creates a buffer of the given size, usage and access mode.
    pub fn create_buffer(&self, size: usize, usage: BufferUsage, access: BufferAccess) -> (r:
        Result<Buffer, &'static str>)
        ensures
            r matches Ok(b) && b == (Buffer { size, usage, access }),
    {
        Ok(Buffer::new(size, usage, access))
    }

    /// Releases a buffer. The description is simply dropped; freeing GPU
    /// memory is the backend's job.
    pub fn destroy_buffer(&self, buffer: Buffer) {
        let _ = buffer;
    }

    /// Creates a texture with the given description.
    pub fn create_texture(&self, descriptor: &TextureDescriptor) -> (r: Result<
        Texture,
        &'static str,
    >)
        ensures
            r matches Ok(t) && t.descriptor == *descriptor,
    {
        Ok(Texture::new(descriptor))
    }

    /// Releases a texture. The description is simply dropped; freeing GPU
    /// memory is the backend's job.
    pub fn destroy_texture(&self, texture: Texture) {
        let _ = texture;
    }

    /// Hands out the device's graphics queue.
    pub fn get_queue(&self) -> (r: Result<Queue, &'static str>)
        ensures
            r is Ok,
    {
        Ok(Queue {})
    }

    /// The device's name. Without a platform backend the name is a fixed
    /// generic one.
    pub fn get_device_name(&self) -> (r: String)
        ensures
            r@ == "Generic GPU Device"@,
    {
        String::from_str("Generic GPU Device")
    }
}

} // verus!
