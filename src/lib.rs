//! Verified core of a status-bar menu, a keyboard event tap and the callback
//! bridge that lets a native toolkit reach Rust behaviours.
//!
//! The native calls themselves live with the application; this crate holds
//! the state and the decisions that those calls follow.
pub mod bridge;
pub mod tap;
pub mod tray;
