//! Verified core of a small OpenGL rendering bootstrap.
//!
//! The library decides which native graphics calls are issued, in which order and
//! with which arguments; the host performs them on a live context and reports back
//! what the driver answered. Native calls themselves are global-state calls: binding
//! a buffer, a vertex array or a program changes the single current selection that
//! later calls depend on.
pub mod native;
pub mod diagnostic;
pub mod shader;
pub mod program;
pub mod geometry;
pub mod frame;
