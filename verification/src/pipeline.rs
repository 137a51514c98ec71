//! Render pipeline state: vertex layouts, primitive assembly, depth and
//! stencil state, multisampling, blending, color write masks and texture
//! formats, together with the pipeline object they describe.
//!
//! Rasterization settings that carry floating-point bias values, and the
//! full pipeline descriptor that embeds them, live with the backend
//! layer, not here.

use vstd::prelude::*;

use crate::commands::CompareFunction;
use crate::shader::Shader;

verus! {

/// One vertex attribute: where the shader reads it, its byte offset in
/// the vertex and its format.
#[derive(Debug, Clone, Copy)]
pub struct VertexAttributeDescriptor {
    pub location: u32,
    pub offset: u32,
    pub format: VertexFormat,
}

/// The data format of one vertex attribute.
#[derive(Debug, Clone, Copy, PartialEq, Eq, Structural)]
pub enum VertexFormat {
    Float32x3,
    Float32x2,
    Float32x4,
    Uint32,
    Sint32,
}

/// The layout of one vertex buffer: its stride, its step mode and its
/// attributes.
#[derive(Debug, Clone)]
pub struct VertexBufferLayoutDescriptor {
    pub stride: u32,
    pub step_mode: VertexStepMode,
    pub attributes: Vec<VertexAttributeDescriptor>,
}

/// Whether a vertex buffer advances per vertex or per instance.
#[derive(Debug, Clone, Copy, PartialEq, Eq, Structural)]
pub enum VertexStepMode {
    Vertex,
    Instance,
}

/// How a stream of vertices is assembled into primitives.
#[derive(Debug, Clone, Copy, PartialEq, Eq, Structural)]
pub enum PrimitiveTopology {
    PointList,
    LineList,
    LineStrip,
    TriangleList,
    TriangleStrip,
}

/// Which winding order counts as the front of a triangle.
#[derive(Debug, Clone, Copy, PartialEq, Eq, Structural)]
pub enum FrontFace {
    Clockwise,
    CounterClockwise,
}

/// Which faces are culled before rasterization.
#[derive(Debug, Clone, Copy, PartialEq, Eq, Structural)]
pub enum CullMode {
    Disabled,
    Front,
    Back,
}

/// How polygons are filled.
#[derive(Debug, Clone, Copy, PartialEq, Eq, Structural)]
pub enum PolygonMode {
    Fill,
    Line,
    Point,
}

/// Depth and stencil testing state.
#[derive(Debug, Clone, Copy)]
pub struct DepthStencilStateDescriptor {
    pub format: DepthStencilFormat,
    pub depth_write_enabled: bool,
    pub depth_compare: CompareFunction,
    pub stencil_front: StencilFaceState,
    pub stencil_back: StencilFaceState,
    pub stencil_read_mask: u32,
    pub stencil_write_mask: u32,
}

/// The format of a depth/stencil attachment.
#[derive(Debug, Clone, Copy, PartialEq, Eq, Structural)]
pub enum DepthStencilFormat {
    Depth32Float,
    Depth24PlusStencil8,
}

/// Stencil behavior for one face orientation.
#[derive(Debug, Clone, Copy, PartialEq, Eq, Structural)]
pub struct StencilFaceState {
    pub compare: CompareFunction,
    pub fail_op: StencilOperation,
    pub depth_fail_op: StencilOperation,
    pub pass_op: StencilOperation,
}

/// What happens to a stencil value on a test outcome.
#[derive(Debug, Clone, Copy, PartialEq, Eq, Structural)]
pub enum StencilOperation {
    Keep,
    Zero,
    Replace,
    IncrementClamp,
    DecrementClamp,
    Invert,
    IncrementWrap,
    DecrementWrap,
}

/// Multisampling state: sample count, sample mask, and alpha-to-coverage.
#[derive(Debug, Clone, Copy)]
pub struct MultisampleStateDescriptor {
    pub count: u32,
    pub mask: u32,
    pub alpha_to_coverage_enabled: bool,
}

/// Blend settings for the color and alpha components of one target.
#[derive(Debug, Clone, Copy)]
pub struct BlendStateDescriptor {
    pub color: BlendComponent,
    pub alpha: BlendComponent,
}

/// A factor applied to a source or destination term during blending.
#[derive(Debug, Clone, Copy, PartialEq, Eq, Structural)]
pub enum BlendFactor {
    Zero,
    One,
    Src,
    OneMinusSrc,
    Dst,
    OneMinusDst,
    SrcAlpha,
    OneMinusSrcAlpha,
    DstAlpha,
    OneMinusDstAlpha,
    Constant,
    OneMinusConstant,
    SrcAlphaSaturated,
    Src1,
    OneMinusSrc1,
    Src1Alpha,
    OneMinusSrc1Alpha,
}

/// How the two blend terms are combined.
#[derive(Debug, Clone, Copy, PartialEq, Eq, Structural)]
pub enum BlendOperation {
    Add,
    Subtract,
    ReverseSubtract,
    Min,
    Max,
}

/// One blend equation: its two factors and its operation.
#[derive(Debug, Clone, Copy)]
pub struct BlendComponent {
    pub src_factor: BlendFactor,
    pub dst_factor: BlendFactor,
    pub operation: BlendOperation,
}

/// The vertex stage of a pipeline: its shader module, entry point and
/// vertex buffer layouts.
#[derive(Debug, Clone)]
pub struct VertexStateDescriptor {
    pub module: Option<Shader>,
    pub entry_point: String,
    pub buffers: Vec<VertexBufferLayoutDescriptor>,
}

/// The fragment stage of a pipeline: its shader module, entry point and
/// color targets.
#[derive(Debug, Clone)]
pub struct FragmentStateDescriptor {
    pub module: Option<Shader>,
    pub entry_point: String,
    pub targets: Vec<ColorTargetStateDescriptor>,
}

/// Primitive assembly state.
#[derive(Debug, Clone, Copy)]
pub struct PrimitiveStateDescriptor {
    pub topology: PrimitiveTopology,
    pub strip_index_format: Option<IndexFormat>,
    pub front_face: FrontFace,
    pub cull_mode: CullMode,
    pub unclipped_depth: bool,
    pub conservative: bool,
}

/// The width of the entries of a strip index buffer.
#[derive(Debug, Clone, Copy, PartialEq, Eq, Structural)]
pub enum IndexFormat {
    Uint16,
    Uint32,
}

/// One color target: its format, optional blending and write mask.
#[derive(Debug, Clone)]
pub struct ColorTargetStateDescriptor {
    pub format: TextureFormat,
    pub blend: Option<BlendStateDescriptor>,
    pub write_mask: ColorWrite,
}

/// The format of a texture or color target.
#[derive(Debug, Clone, Copy, PartialEq, Eq, Structural)]
pub enum TextureFormat {
    Rgba8Unorm,
    Rgba8Snorm,
    Rgba8Uint,
    Rgba8Sint,
    Rgba16Float,
    Rgba16Unorm,
    Rgba16Snorm,
    Rgba16Uint,
    Rgba16Sint,
    Rgba32Float,
    R32Float,
    R32Uint,
    R32Sint,
    Depth32Float,
    Depth24PlusStencil8,
}

/// A mask of the color channels a target lets writes through: one bit
/// each for red, green, blue and alpha.
#[derive(Debug, Clone, Copy, PartialEq, Eq, PartialOrd, Ord, Hash, Structural)]
pub struct ColorWrite {
    pub bits: u32,
}

impl ColorWrite {
    /// The mask that lets no channel through.
    pub fn empty() -> (m: Self)
        ensures
            m.bits == 0u32,
    {
        ColorWrite { bits: 0b0000 }
    }

    /// The mask for the red channel alone.
    pub fn red() -> (m: Self)
        ensures
            m.bits == 0b0001u32,
    {
        ColorWrite { bits: 0b0001 }
    }

    /// The mask for the green channel alone.
    pub fn green() -> (m: Self)
        ensures
            m.bits == 0b0010u32,
    {
        ColorWrite { bits: 0b0010 }
    }

    /// The mask for the blue channel alone.
    pub fn blue() -> (m: Self)
        ensures
            m.bits == 0b0100u32,
    {
        ColorWrite { bits: 0b0100 }
    }

    /// The mask for the alpha channel alone.
    pub fn alpha() -> (m: Self)
        ensures
            m.bits == 0b1000u32,
    {
        ColorWrite { bits: 0b1000 }
    }

    /// The mask that lets every channel through.
    pub fn all() -> (m: Self)
        ensures
            m.bits == 0b1111u32,
    {
        ColorWrite { bits: 0b1111 }
    }

    /// The raw bits of the mask.
    pub fn bits(&self) -> (r: u32)
        ensures
            r == self.bits,
    {
        self.bits
    }

    /// The union of two masks: a channel passes when either mask lets
    /// it through.
    pub fn union(self, other: Self) -> (m: Self)
        ensures
            m.bits == self.bits | other.bits,
    {
        ColorWrite { bits: self.bits | other.bits }
    }

    /// The intersection of two masks: a channel passes only when both
    /// masks let it through.
    pub fn intersection(self, other: Self) -> (m: Self)
        ensures
            m.bits == self.bits & other.bits,
    {
        ColorWrite { bits: self.bits & other.bits }
    }

    /// Whether every channel of `other` also passes this mask.
    pub fn contains(self, other: Self) -> (r: bool)
        ensures
            r == (self.bits & other.bits == other.bits),
    {
        self.bits & other.bits == other.bits
    }
}

/// A pipeline realized on the device. The native object belongs to a
/// platform backend outside this crate.
#[derive(Debug)]
pub struct Pipeline {}

} // verus!
