//! Render pass state: how a color attachment is loaded, stored and
//! cleared, and the pass object built from such attachments.
//!
//! The depth/stencil side of a pass carries a floating-point clear depth
//! and lives with the backend layer, not here.

use vstd::prelude::*;

use crate::color::Color;
use crate::texture::Texture;

verus! {

/// What happens to an attachment's contents when a pass begins.
#[derive(Debug, Clone, Copy, PartialEq, Eq, Structural)]
pub enum LoadOp {
    Load,
    Clear,
    DontCare,
}

/// What happens to an attachment's contents when a pass ends.
#[derive(Debug, Clone, Copy, PartialEq, Eq, Structural)]
pub enum StoreOp {
    Store,
    DontCare,
}

/// One color attachment of a render pass: the texture written, how it is
/// loaded and stored, an optional multisample resolve target, and the
/// color used when the load operation clears.
#[derive(Debug, Clone)]
pub struct RenderPassColorAttachmentDescriptor {
    pub attachment: Texture,
    pub load_op: LoadOp,
    pub store_op: StoreOp,
    pub resolve_target: Option<Texture>,
    pub clear_value: Option<Color>,
}

/// A render pass realized on the device. The native object belongs to a
/// platform backend outside this crate.
#[derive(Debug)]
pub struct RenderPass {}

impl RenderPass {
    /// Records a render pass. Without a platform backend there is
    /// nothing that can fail.
    pub fn new() -> (r: Result<Self, &'static str>)
        ensures
            r is Ok,
    {
        Ok(RenderPass {})
    }
}

} // verus!
