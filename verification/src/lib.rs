//! Lifecycle rules for the backend sidecar of a desktop shell.
//!
//! The shell launches one auxiliary executable when it starts and must end it
//! when a window closes or the application is torn down. This crate holds the
//! rules of that lifecycle: which window events end the backend, and the slot
//! that owns the child's handle and gives it up for termination at most once.
//! Spawning and killing the process are the caller's business; the slot is
//! generic in the handle it keeps.

pub mod backend;
pub mod lifecycle;
pub mod window;

pub use backend::BackendProcess;
pub use window::WindowEvent;
