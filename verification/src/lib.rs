//! Verified core of a swapchain-driven renderer: the frame-resource
//! lifecycle and synchronization engine.
//!
//! The library models every GPU-facing decision as plain data with proved
//! contracts: swapchain format and extent selection, the per-image frame
//! resource pool with its fence/command-pool discipline, the round-robin
//! semaphore counter, the frame-loop state machine with its
//! recreate-on-resize policy, and a ledger that balances every resource
//! creation against its destruction. A thin unverified shell performs the
//! actual device calls and feeds their outcomes back into the machine.

pub mod buffer;
pub mod definitions;
pub mod descriptor;
pub mod device;
pub mod framebuffer;
pub mod geometry;
pub mod ledger;
pub mod pipeline;
pub mod render_pass;
pub mod renderer;
pub mod swapchain;

pub use geometry::Vertex;
