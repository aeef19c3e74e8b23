//! Window-state core of a windowing abstraction: geometry, the lock-guarded
//! state of one window, the handle applications hold, and the builder that
//! describes a window before it exists.

pub mod builder;
pub mod error;
pub mod frame_buffer;
pub mod geometry;
pub mod state;
pub mod sync;
pub mod window;
