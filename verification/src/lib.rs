//! The navigation, state and health core of a desktop browser shell.
//!
//! The rendering engine, the persistent store and the window toolkit are
//! collaborators that live outside this crate. What is here is the part that
//! decides: per-tab history with a cursor, the registry of open tabs, the
//! metrics collector and the health verdict derived from it.

pub mod address;
pub mod clock;
pub mod error;
pub mod health;
pub mod history;
pub mod ipc;
pub mod metrics;
pub mod navigation;
pub mod renderer;
pub mod shared;
pub mod state;
pub mod text;
pub mod waker;
