//! The trusted boundary to the operating system.
//!
//! Every function here is an `external_body` wrapper around one call into
//! the `rustix` crate (or, for [`forget_descriptor`], the standard library).
//! Verus believes each wrapper's contract without reading its body, so each
//! contract states only what the wrapped call's source and documentation
//! plainly give, and each doc comment names the call relied on.

use vstd::prelude::*;

use crate::{OsError, WindowSize};

verus! {

#[verifier::external_type_specification]
#[verifier::external_body]
pub struct ExOwnedFd(rustix::fd::OwnedFd);

#[verifier::external_type_specification]
#[verifier::external_body]
pub struct ExTermios(rustix::termios::Termios);

#[verifier::external_type_specification]
#[verifier::external_body]
pub struct ExCString(rustix::ffi::CString);

/// The numeric identity of an owned descriptor: the value that
/// `rustix::fd::AsRawFd::as_raw_fd` reports for it, fixed for as long as the
/// descriptor is owned.
pub uninterp spec fn raw_of(fd: rustix::fd::OwnedFd) -> int;

/// Relies on `rustix::fd::AsRawFd::as_raw_fd`: reports the descriptor's
/// number.
#[verifier::external_body]
pub(crate) fn raw_descriptor(fd: &rustix::fd::OwnedFd) -> (r: i32)
    ensures
        r as int == raw_of(*fd),
{
    rustix::fd::AsRawFd::as_raw_fd(fd)
}

/// Relies on `rustix::pty::openpt`: opens a new controller-side
/// pseudoterminal from the multiplexer, with read-write, no-controlling-
/// terminal and close-on-exec semantics (`RDWR | NOCTTY | CLOEXEC`)
/// requested atomically at open time.  A successful open returns a
/// nonnegative descriptor.
#[verifier::external_body]
pub(crate) fn open_controller() -> (r: Result<rustix::fd::OwnedFd, OsError>)
    ensures
        r matches Ok(fd) ==> 0 <= raw_of(fd),
{
    let flags = rustix::pty::OpenptFlags::RDWR
        | rustix::pty::OpenptFlags::NOCTTY
        | rustix::pty::OpenptFlags::CLOEXEC;
    rustix::pty::openpt(flags).map_err(|e| OsError { code: e.raw_os_error() })
}

/// Relies on `rustix::pty::grantpt`: grants access permissions on the user
/// device paired with `controller`.
#[verifier::external_body]
pub(crate) fn grant_user(controller: &rustix::fd::OwnedFd) -> (r: Result<(), OsError>)
{
    rustix::pty::grantpt(controller).map_err(|e| OsError { code: e.raw_os_error() })
}

/// Relies on `rustix::pty::unlockpt`: unlocks the user device paired with
/// `controller` (pseudoterminals are created locked).
#[verifier::external_body]
pub(crate) fn unlock_user(controller: &rustix::fd::OwnedFd) -> (r: Result<(), OsError>)
{
    rustix::pty::unlockpt(controller).map_err(|e| OsError { code: e.raw_os_error() })
}

/// Relies on `rustix::pty::ioctl_tiocgptpeer`: opens the user side of the
/// pseudoterminal behind `controller` in a single syscall, with the same
/// `RDWR | NOCTTY | CLOEXEC` flags as the controller.  A success returns a
/// newly allocated nonnegative descriptor, necessarily distinct from the
/// still-open controller's.
#[verifier::external_body]
pub(crate) fn peer_open(controller: &rustix::fd::OwnedFd) -> (r: Result<
    rustix::fd::OwnedFd,
    OsError,
>)
    ensures
        r matches Ok(fd) ==> 0 <= raw_of(fd) && raw_of(fd) != raw_of(*controller),
{
    let flags = rustix::pty::OpenptFlags::RDWR
        | rustix::pty::OpenptFlags::NOCTTY
        | rustix::pty::OpenptFlags::CLOEXEC;
    rustix::pty::ioctl_tiocgptpeer(controller, flags).map_err(|e| OsError {
        code: e.raw_os_error(),
    })
}

/// Relies on `rustix::pty::ptsname`: looks up the path of the user device
/// paired with `controller`.
#[verifier::external_body]
pub(crate) fn user_device_name(controller: &rustix::fd::OwnedFd) -> (r: Result<
    rustix::ffi::CString,
    OsError,
>)
{
    rustix::pty::ptsname(controller, Vec::new()).map_err(|e| OsError { code: e.raw_os_error() })
}

/// Relies on `rustix::fs::openat`: opens the named user device with the same
/// `RDWR | NOCTTY | CLOEXEC` flags as the controller.  A success returns a
/// newly allocated nonnegative descriptor, necessarily distinct from the
/// still-open controller's; the controller is passed for that statement
/// alone.
#[verifier::external_body]
#[allow(unused_variables)]
pub(crate) fn open_device(controller: &rustix::fd::OwnedFd, name: &rustix::ffi::CString) -> (r:
    Result<rustix::fd::OwnedFd, OsError>)
    ensures
        r matches Ok(fd) ==> 0 <= raw_of(fd) && raw_of(fd) != raw_of(*controller),
{
    let flags = rustix::fs::OFlags::RDWR | rustix::fs::OFlags::NOCTTY
        | rustix::fs::OFlags::CLOEXEC;
    rustix::fs::openat(rustix::fs::CWD, name, flags, rustix::fs::Mode::empty()).map_err(
        |e| OsError { code: e.raw_os_error() },
    )
}

/// Relies on `rustix::io::Errno::NOSYS`: the platform's code for a request
/// the kernel does not support.
#[verifier::external_body]
pub(crate) fn nosys_code() -> i32 {
    rustix::io::Errno::NOSYS.raw_os_error()
}

/// Relies on `rustix::io::Errno::PERM`: the platform's code for a denied
/// permission.
#[verifier::external_body]
pub(crate) fn perm_code() -> i32 {
    rustix::io::Errno::PERM.raw_os_error()
}

/// Relies on `rustix::termios::tcsetattr` with `OptionalActions::Now`:
/// applies the terminal-mode settings to the descriptor immediately.
#[verifier::external_body]
pub(crate) fn set_attributes_now(
    fd: &rustix::fd::OwnedFd,
    settings: &rustix::termios::Termios,
) -> (r: Result<(), OsError>)
{
    rustix::termios::tcsetattr(fd, rustix::termios::OptionalActions::Now, settings).map_err(
        |e| OsError { code: e.raw_os_error() },
    )
}

/// Relies on `rustix::termios::tcsetwinsize`: applies the window-size record
/// to the descriptor.
#[verifier::external_body]
pub(crate) fn set_window_size(fd: &rustix::fd::OwnedFd, size: &WindowSize) -> (r: Result<
    (),
    OsError,
>)
{
    let winsize = rustix::termios::Winsize {
        ws_row: size.rows,
        ws_col: size.cols,
        ws_xpixel: size.xpixel,
        ws_ypixel: size.ypixel,
    };
    rustix::termios::tcsetwinsize(fd, winsize).map_err(|e| OsError { code: e.raw_os_error() })
}

/// Relies on `rustix::process::setsid`: makes the calling process the leader
/// of a new session, when it is not already a process-group leader.
#[verifier::external_body]
pub(crate) fn create_session() -> (r: Result<(), OsError>)
{
    match rustix::process::setsid() {
        Ok(_) => Ok(()),
        Err(e) => Err(OsError { code: e.raw_os_error() }),
    }
}

/// Relies on `rustix::process::ioctl_tiocsctty`: makes the given descriptor
/// the calling process's controlling terminal.
#[verifier::external_body]
pub(crate) fn set_controlling_terminal(fd: &rustix::fd::OwnedFd) -> (r: Result<(), OsError>)
{
    rustix::process::ioctl_tiocsctty(fd).map_err(|e| OsError { code: e.raw_os_error() })
}

/// Relies on `rustix::stdio::dup2_stdin`: duplicates the descriptor onto the
/// standard-input slot, replacing whatever occupied it.
#[verifier::external_body]
pub(crate) fn dup_to_stdin(fd: &rustix::fd::OwnedFd) -> (r: Result<(), OsError>)
{
    rustix::stdio::dup2_stdin(fd).map_err(|e| OsError { code: e.raw_os_error() })
}

/// Relies on `rustix::stdio::dup2_stdout`: duplicates the descriptor onto
/// the standard-output slot, replacing whatever occupied it.
#[verifier::external_body]
pub(crate) fn dup_to_stdout(fd: &rustix::fd::OwnedFd) -> (r: Result<(), OsError>)
{
    rustix::stdio::dup2_stdout(fd).map_err(|e| OsError { code: e.raw_os_error() })
}

/// Relies on `rustix::stdio::dup2_stderr`: duplicates the descriptor onto
/// the standard-error slot, replacing whatever occupied it.
#[verifier::external_body]
pub(crate) fn dup_to_stderr(fd: &rustix::fd::OwnedFd) -> (r: Result<(), OsError>)
{
    rustix::stdio::dup2_stderr(fd).map_err(|e| OsError { code: e.raw_os_error() })
}

/// Relies on `core::mem::forget`: releases ownership of the descriptor
/// without closing it, so that a slot it was duplicated onto stays open.
#[verifier::external_body]
pub(crate) fn forget_descriptor(fd: rustix::fd::OwnedFd) {
    core::mem::forget(fd);
}

/// Relies on `rustix::fs::open`: opens the process's descriptor directory
/// `/dev/fd` for reading the live descriptor set.
#[verifier::external_body]
pub(crate) fn open_fd_dir() -> (r: Result<rustix::fd::OwnedFd, OsError>)
{
    let flags = rustix::fs::OFlags::RDONLY | rustix::fs::OFlags::DIRECTORY
        | rustix::fs::OFlags::CLOEXEC;
    rustix::fs::open("/dev/fd", flags, rustix::fs::Mode::empty()).map_err(
        |e| OsError { code: e.raw_os_error() },
    )
}

/// Relies on `rustix::fs::RawDir`: enumerates the open directory and hands
/// back each entry's name as bytes, in reading order; `None` when an entry
/// cannot be read.
#[verifier::external_body]
pub(crate) fn read_dir_names(dir: &rustix::fd::OwnedFd) -> (r: Option<Vec<Vec<u8>>>)
{
    let mut buf = [core::mem::MaybeUninit::<u8>::uninit(); 1024];
    let mut iter = rustix::fs::RawDir::new(dir, &mut buf);
    let mut names: Vec<Vec<u8>> = Vec::new();
    loop {
        match iter.next() {
            None => return Some(names),
            Some(Ok(entry)) => names.push(entry.file_name().to_bytes().to_vec()),
            Some(Err(_)) => return None,
        }
    }
}

} // verus!
