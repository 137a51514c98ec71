//! GPU buffer descriptions: a buffer's size, usage and access mode, and
//! the bounds checks that guard data transfers into and out of it.
//!
//! The actual transfer belongs to a platform backend outside this crate;
//! here only the bookkeeping is kept, and the bounds logic is verified.

use vstd::prelude::*;

verus! {

/// What a buffer is used for.
#[derive(Debug, Clone, Copy, PartialEq, Eq, Structural)]
pub enum BufferUsage {
    Vertex,
    Index,
    Uniform,
    Storage,
}

/// How a buffer may be accessed.
#[derive(Debug, Clone, Copy, PartialEq, Eq, Structural)]
pub enum BufferAccess {
    Read,
    Write,
    ReadWrite,
}

/// A GPU buffer: its size in bytes, its purpose and its access mode.
#[derive(Debug)]
pub struct Buffer {
    pub size: usize,
    pub usage: BufferUsage,
    pub access: BufferAccess,
}

impl Buffer {
    /// Builds a buffer description from its size, usage and access mode.
    pub fn new(size: usize, usage: BufferUsage, access: BufferAccess) -> (b: Self)
        ensures
            b == (Buffer { size, usage, access }),
    {
        Buffer { size, usage, access }
    }

    /// Accepts an upload of `data` at `offset` when it lies within the
    /// buffer, and rejects it otherwise. The transfer itself is the
    /// backend's job; the buffer description is left unchanged.
    pub fn upload_data(&mut self, offset: usize, data: &[u8]) -> (r: Result<(), &'static str>)
        ensures
            *final(self) == *old(self),
            r is Ok <==> offset + data@.len() <= old(self).size,
            r matches Err(m) ==> m@ == "upload would run past the end of the buffer"@,
    {
        if offset > self.size || data.len() > self.size - offset {
            return Err("upload would run past the end of the buffer");
        }
        Ok(())
    }

    /// Accepts a read of `length` bytes at `offset` when the range lies
    /// within the buffer, and rejects it otherwise. Without a backend
    /// there is no stored content, so an accepted read yields no bytes.
    pub fn read_data(&self, offset: usize, length: usize) -> (r: Result<Vec<u8>, &'static str>)
        ensures
            r is Ok <==> offset + length <= self.size,
            r matches Ok(bytes) ==> bytes@ == Seq::<u8>::empty(),
            r matches Err(m) ==> m@ == "read range runs past the end of the buffer"@,
    {
        if offset > self.size || length > self.size - offset {
            return Err("read range runs past the end of the buffer");
        }
        Ok(Vec::new())
    }
}

} // verus!
