//! A verified model of a Vulkan-style frame loop: the frame-in-flight
//! resource ring, the swapchain-recreation state machine, and the
//! configuration policy for rebuilding a swapchain after a resize.
//!
//! The library holds the decision logic only. The calls into the GPU
//! driver and the windowing system are performed by the surrounding
//! application, which feeds their outcomes back into the state machine.

pub mod attachments;
pub mod device;
pub mod driver;
pub mod extent;
pub mod orchestrator;
pub mod ring;
pub mod settings;
pub mod swapchain;
pub mod trace;

pub use extent::Extent2D;
