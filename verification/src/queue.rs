//! The device queue that command buffers are submitted to. Submission
//! itself talks to a platform backend and lives with the backend layer;
//! the queue handle is kept here so the device can hand it out.

use vstd::prelude::*;

verus! {

/// A handle to the device's graphics queue.
#[derive(Debug)]
pub struct Queue {}

} // verus!
