//! The render handler: the mutable slot that holds the pipeline and the
//! shader pair currently in use. Submitting commands through it talks to
//! a platform backend and lives with the backend layer.

use vstd::prelude::*;

use crate::pipeline::Pipeline;
use crate::shader::Shader;

verus! {

/// The rendering state a frame is driven from: the bound pipeline and
/// the bound vertex and fragment shaders, each optional until set.
#[derive(Debug)]
pub struct RenderHandler {
    pub pipeline: Option<Pipeline>,
    pub vertex_shader: Option<Shader>,
    pub fragment_shader: Option<Shader>,
}

impl RenderHandler {
    /// A handler with nothing bound yet.
    pub fn new() -> (h: Self)
        ensures
            h.pipeline is None,
            h.vertex_shader is None,
            h.fragment_shader is None,
    {
        RenderHandler { pipeline: None, vertex_shader: None, fragment_shader: None }
    }

    /// Binds a pipeline, leaving the shaders as they were.
    pub fn set_pipeline(&mut self, pipeline: Pipeline)
        ensures
            final(self).pipeline == Some(pipeline),
            final(self).vertex_shader == old(self).vertex_shader,
            final(self).fragment_shader == old(self).fragment_shader,
    {
        self.pipeline = Some(pipeline);
    }

    /// Binds the vertex and fragment shaders, leaving the pipeline as it
    /// was.
    pub fn set_shaders(&mut self, vertex_shader: Shader, fragment_shader: Shader)
        ensures
            final(self).pipeline == old(self).pipeline,
            final(self).vertex_shader == Some(vertex_shader),
            final(self).fragment_shader == Some(fragment_shader),
    {
        self.vertex_shader = Some(vertex_shader);
        self.fragment_shader = Some(fragment_shader);
    }
}

} // verus!
