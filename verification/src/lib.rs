//! Decision logic of a small point-cloud renderer: the choices made while
//! setting up the device and swapchain, and the per-frame state machine that
//! decides when the swapchain is recreated, when framebuffers are rebuilt and
//! which framebuffer a frame is drawn into.
pub mod frame;
pub mod setup;
