//! A paravirtualized GPU driver core: command dispatch onto three
//! independently owned command queues, per-job completion tracking, and a
//! safety gate that bounds caller-supplied buffers before submission.

pub mod gpu;
pub mod laws;
pub mod security;
