//! Decision logic for bootstrapping a GPU rendering context: which physical
//! device and queue family to use, how the swapchain is configured, what the
//! context asks the driver for, how driver diagnostics are reported, and in
//! which order the created objects may be released.
pub mod device;
pub mod diagnostics;
pub mod error;
pub mod instance;
pub mod lifecycle;
pub mod swapchain;
