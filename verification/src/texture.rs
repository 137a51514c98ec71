//! Texture descriptions: format, extent, mip and sample counts, and
//! usage. Creating a texture records its description; the storage itself
//! belongs to a platform backend outside this crate.

use vstd::prelude::*;

use crate::pipeline::TextureFormat;

verus! {

/// Everything a backend needs to know to create a texture.
#[derive(Debug, Clone, Copy)]
pub struct TextureDescriptor {
    pub format: TextureFormat,
    pub width: u32,
    pub height: u32,
    pub depth_or_array_layers: u32,
    pub mip_level_count: u32,
    pub sample_count: u32,
    pub usage: TextureUsage,
}

/// What a texture is used for.
#[derive(Debug, Clone, Copy, PartialEq, Eq, Structural)]
pub enum TextureUsage {
    Sampled,
    StorageBinding,
    RenderAttachment,
    TransferSrc,
    TransferDst,
}

/// A texture: its description, held for the backend that will realize it.
#[derive(Debug, Clone, Copy)]
pub struct Texture {
    pub descriptor: TextureDescriptor,
}

impl Texture {
    /// Records a texture with the given description.
    pub fn new(descriptor: &TextureDescriptor) -> (t: Self)
        ensures
            t.descriptor == *descriptor,
    {
        Texture { descriptor: *descriptor }
    }

    /// Accepts a data upload into the texture. The transfer itself is the
    /// backend's job; the description is left unchanged.
    pub fn upload_data(&mut self, data: &[u8], offset: u64, size: u64) -> (r: Result<
        (),
        &'static str,
    >)
        ensures
            *final(self) == *old(self),
            r is Ok,
    {
        let _ = data;
        let _ = offset;
        let _ = size;
        Ok(())
    }
}

} // verus!
