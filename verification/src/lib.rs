//! A minimal real-time presentation platform layer: an off-screen pixel
//! surface, a window-message pump, device-state polling, and the frame loop
//! that ties them together. The operating-system calls themselves (window
//! creation, blitting, device queries) live outside this crate; everything
//! here works on plain values and is verified.

pub mod driver;
pub mod error;
pub mod events;
pub mod input;
pub mod surface;
pub mod window;
