//! Pseudoterminal allocation and configuration.
//!
//! The crate opens a linked controller/user descriptor pair from the
//! pseudoterminal multiplexer, optionally applies terminal-mode and
//! window-size settings to the user side, and returns both descriptors with
//! close-on-exec set.  Beside the allocator stand two independent helpers: an
//! installer that makes an already-open descriptor the calling process's
//! controlling terminal and standard streams, and a planner for discarding
//! all descriptors at or above a threshold before replacing the process
//! image.

use vstd::prelude::*;

pub mod closer;
pub mod login;
pub mod pty;
mod sys;

pub use closer::{close_targets, closefrom_plan, parse_fd_name};
pub use login::{descriptor_is_retained, login_tty};
pub use pty::{open_user, open_user_fallback, openpty, peer_error_falls_back, Pty};
pub use sys::raw_of;

verus! {

/// A raw operating-system error code, surfaced verbatim: the crate performs
/// no translation, wrapping, or retry.
#[derive(Clone, Copy, Debug, PartialEq, Eq, Structural)]
pub struct OsError {
    /// The platform's `errno` value for the failure.
    pub code: i32,
}

/// Row/column/pixel dimensions applied to the user descriptor at allocation
/// time; when omitted, the platform default (typically zero/unset) applies.
#[derive(Clone, Copy, Debug, PartialEq, Eq, Structural)]
pub struct WindowSize {
    /// Terminal height in character rows.
    pub rows: u16,
    /// Terminal width in character columns.
    pub cols: u16,
    /// Terminal width in pixels.
    pub xpixel: u16,
    /// Terminal height in pixels.
    pub ypixel: u16,
}

} // verus!
