//! Presentation-surface manager for a single-buffer rendering context.
//!
//! The surface owns at most one renderbuffer and one framebuffer at a time.
//! Reconfiguration rebuilds the framebuffer, reuses the renderbuffer object,
//! and reprovisions its storage; teardown releases both exactly once. All
//! decisions (what to allocate, what to release, what to hand out) are made
//! here and verified; the caller executes the resulting native calls on its
//! rendering context.

pub mod conv;
pub mod fbo_list;
pub mod laws;
pub mod surface;
pub mod types;
