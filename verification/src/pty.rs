//! The allocator: opens a linked controller/user pseudoterminal pair.
//!
//! Allocation is three discrete steps against the multiplexer: open a new
//! controller with read-write, no-controlling-terminal and close-on-exec
//! semantics requested atomically; grant and unlock the paired user device;
//! then open the user side, preferring a single-syscall peer open and
//! falling back to a path lookup exactly when the fast path reports an
//! unsupported operation or a denied permission.  Optional terminal-mode and
//! window-size settings are applied to the just-opened user descriptor.

use vstd::prelude::*;

use crate::sys::{
    grant_user, nosys_code, open_controller, open_device, peer_open, perm_code, raw_of,
    set_attributes_now, set_window_size, unlock_user, user_device_name,
};
use crate::{OsError, WindowSize};

verus! {

/// A pair of descriptors representing a pseudoterminal.  Both refer to the
/// same underlying device: writes on one side become reads on the other,
/// subject to the line discipline applied to the user side.
pub struct Pty {
    /// The controller of the pseudoterminal.
    pub controller: rustix::fd::OwnedFd,
    /// The user side of the pseudoterminal that applications can connect
    /// to and be controlled by.
    pub user: rustix::fd::OwnedFd,
}

/// Decides whether a failure of the fast peer open selects the path-based
/// fallback: exactly the codes for an unsupported operation and a denied
/// permission do; every other failure is fatal and propagates.
pub fn peer_error_falls_back(code: i32, unsupported: i32, denied: i32) -> (fall_back: bool)
    ensures
        fall_back <==> (code == unsupported || code == denied),
{
    code == unsupported || code == denied
}

/// Opens the user side of the pseudoterminal behind `controller` by looking
/// up the user device's path and opening it by name with the same atomic
/// flags as the controller.  This is the whole of the user-side open on
/// platforms whose sandboxing policy kills processes that attempt the fast
/// peer-open syscall.
pub fn open_user_fallback(controller: &rustix::fd::OwnedFd) -> (r: Result<
    rustix::fd::OwnedFd,
    OsError,
>)
    ensures
        r matches Ok(fd) ==> 0 <= raw_of(fd) && raw_of(fd) != raw_of(*controller),
{
    let name = match user_device_name(controller) {
        Ok(name) => name,
        Err(e) => return Err(e),
    };
    open_device(controller, &name)
}

/// Opens the user side of the pseudoterminal behind `controller`: first the
/// single-syscall peer open, which is atomic and avoids a name lookup; on an
/// "unsupported" or "permission denied" failure, the path-based fallback
/// instead.  Any other failure of the fast path propagates immediately.
pub fn open_user(controller: &rustix::fd::OwnedFd) -> (r: Result<rustix::fd::OwnedFd, OsError>)
    ensures
        r matches Ok(fd) ==> 0 <= raw_of(fd) && raw_of(fd) != raw_of(*controller),
{
    match peer_open(controller) {
        Ok(fd) => Ok(fd),
        Err(e) => {
            if peer_error_falls_back(e.code, nosys_code(), perm_code()) {
                open_user_fallback(controller)
            } else {
                Err(e)
            }
        },
    }
}

/// Opens a pseudoterminal.
///
/// The optional `termios` and `winsize` settings are applied to the user
/// descriptor once it is open; when omitted, the platform defaults apply.
/// On success both descriptors have close-on-exec set, which each opening
/// call requested atomically, and are distinct, which the contract states.
/// On failure the underlying error code is returned verbatim and every
/// partially opened descriptor is closed before returning, so nothing
/// leaks.
pub fn openpty(termios: Option<&rustix::termios::Termios>, winsize: Option<&WindowSize>) -> (r:
    Result<Pty, OsError>)
    ensures
        r matches Ok(p) ==> 0 <= raw_of(p.controller) && 0 <= raw_of(p.user) && raw_of(
            p.controller,
        ) != raw_of(p.user),
{
    let controller = match open_controller() {
        Ok(fd) => fd,
        Err(e) => return Err(e),
    };
    if let Err(e) = grant_user(&controller) {
        return Err(e);
    }
    if let Err(e) = unlock_user(&controller) {
        return Err(e);
    }
    let user = match open_user(&controller) {
        Ok(fd) => fd,
        Err(e) => return Err(e),
    };
    if let Some(settings) = termios {
        if let Err(e) = set_attributes_now(&user, settings) {
            return Err(e);
        }
    }
    if let Some(size) = winsize {
        if let Err(e) = set_window_size(&user, size) {
            return Err(e);
        }
    }
    Ok(Pty { controller, user })
}

} // verus!
