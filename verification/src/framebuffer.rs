//! Framebuffer descriptions: the color attachments, the optional
//! depth/stencil attachment, and the extent. Creating a framebuffer
//! records its description; the native object belongs to a platform
//! backend outside this crate.

use vstd::prelude::*;

use crate::texture::Texture;

verus! {

/// Everything a backend needs to know to create a framebuffer. The
/// attachments are held by value, so a framebuffer never outlives what
/// it points at.
#[derive(Debug, Clone)]
pub struct FramebufferDescriptor {
    pub color_attachments: Vec<Option<Texture>>,
    pub depth_stencil_attachment: Option<Texture>,
    pub width: u32,
    pub height: u32,
}

/// A framebuffer: its description, held for the backend that will
/// realize it.
#[derive(Debug)]
pub struct Framebuffer {
    pub descriptor: FramebufferDescriptor,
}

impl Framebuffer {
    /// Records a framebuffer with the given description. Without a
    /// platform backend there is nothing that can fail.
    pub fn new(descriptor: FramebufferDescriptor) -> (r: Result<Self, &'static str>)
        ensures
            r matches Ok(fb) && fb.descriptor == descriptor,
    {
        Ok(Framebuffer { descriptor })
    }
}

} // verus!
