//! Frame lifecycle management for a swapchain-based renderer.
//!
//! The library decides; the caller performs the GPU work. Each step of a
//! frame (surface query, render-target rebuild, image acquisition, submission
//! and presentation) is reported back to [`lifecycle::FrameLifecycle`], which
//! keeps the render targets, the synchronisation chain and the draw recorder
//! consistent.
pub mod recorder;
pub mod drawer;
pub mod targets;
pub mod sync;
pub mod lifecycle;
pub mod laws;
pub mod benchmarks;
