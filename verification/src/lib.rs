//! Value types for the numerical foundation of a graphics pipeline.
//!
//! The heart of the crate is the color model: color values at several
//! integer precisions (8, 10 and 12 bits per channel, each with and without
//! an alpha channel), lossless alpha-dropping conversions, bit-depth
//! narrowing, and saturating arithmetic on the 8-bit type. Every operation
//! carries a contract that pins its result down exactly.
//!
//! Around the color model stand the plain descriptor and state types that a
//! rendering backend consumes: buffers, textures, shaders, framebuffers,
//! render passes, pipeline state and a render handler. Their constructors
//! and bookkeeping are verified as well.

pub mod buffer;
pub mod color;
pub mod commands;
pub mod device;
pub mod framebuffer;
pub mod pipeline;
pub mod queue;
pub mod render_handler;
pub mod render_pass;
pub mod shader;
pub mod texture;
