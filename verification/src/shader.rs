//! Shader descriptions: an optional label, the module's source bytes and
//! the pipeline stage it serves. Compilation belongs to a platform
//! backend outside this crate; creating a shader records its description.

use vstd::prelude::*;

verus! {

/// Everything a backend needs to know to build a shader module.
#[derive(Debug, Clone)]
pub struct ShaderDescriptor {
    pub label: Option<String>,
    pub source: ShaderSource,
    pub stage: ShaderStage,
}

/// The form a shader module's source arrives in.
#[derive(Debug, Clone)]
pub enum ShaderSource {
    SpirV(Vec<u8>),
}

/// The pipeline stage a shader serves.
#[derive(Debug, Clone, Copy, PartialEq, Eq, Structural)]
pub enum ShaderStage {
    Vertex,
    Fragment,
    Compute,
}

/// A shader: its description, held for the backend that will compile it.
#[derive(Debug, Clone)]
pub struct Shader {
    pub descriptor: ShaderDescriptor,
}

impl Shader {
    /// Records a shader with the given description.
    pub fn new(descriptor: ShaderDescriptor) -> (s: Self)
        ensures
            s.descriptor == descriptor,
    {
        Shader { descriptor }
    }
}

} // verus!
