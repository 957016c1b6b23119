//! Core of a real-time renderer built on an explicit graphics API: the
//! declarative pass/pipeline catalog, the render-target registry, the
//! framebuffer/descriptor-set provisioner, and the frame-synchronization and
//! swapchain-recreation state machine.
//!
//! Everything here is plain data and decision logic.  The device calls that
//! carry these decisions out (allocation, command recording, submission,
//! presentation) live outside this crate; they hand back plain events
//! (acquire and present outcomes) that drive the state machine.

pub mod constants;
pub mod vk_types;
pub mod texture;
pub mod render_target;
pub mod shader_buffer;
pub mod render_pass;
pub mod mesh;
pub mod frame_sync;
pub mod framebuffer;
pub mod post_process;
pub mod material;
pub mod model;
pub mod fft;
pub mod renderer;
