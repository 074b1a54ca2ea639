//! The installer: makes a descriptor the controlling terminal and the
//! standard streams of the calling process.

use vstd::prelude::*;

use crate::sys::{
    create_session, dup_to_stderr, dup_to_stdin, dup_to_stdout, forget_descriptor,
    raw_descriptor, set_controlling_terminal,
};
use crate::OsError;

verus! {

/// The installer's disposal rule for the descriptor it consumed: one whose
/// own number is a standard slot (input, output or error) is retained —
/// closing it would close a slot it was just duplicated into — while any
/// other is closed, its role now fulfilled by the duplicated slots.
pub fn descriptor_is_retained(raw: i32) -> (retained: bool)
    ensures
        retained <==> raw <= 2,
{
    raw <= 2
}

/// Prepares for a login on the given terminal, consuming the descriptor:
/// the calling process becomes session leader of a new session, `fd`
/// becomes that session's controlling terminal, and `fd` is duplicated onto
/// the standard input, output and error slots, replacing whatever occupied
/// them.
///
/// The failure policy is asymmetric by design.  Becoming session leader is
/// best-effort: a failure (the caller is already a session leader, say) is
/// ignored.  Establishing the controlling terminal is mandatory: its error
/// is returned and the rest of the operation is abandoned.  The three
/// duplications are again best-effort: a caller invoking this right after a
/// fork, before any of the standard slots are open, expects some of them to
/// fail harmlessly.  Note that on slots that are already meaningfully
/// populated the duplications silently clobber whatever was there.
pub fn login_tty(fd: rustix::fd::OwnedFd) -> (r: Result<(), OsError>)
{
    // Best-effort: a failure to create a new session is ignored.
    let _ = create_session();

    // Mandatory: without the controlling-terminal relationship the
    // operation has failed, and the consumed descriptor is closed on the
    // way out.
    if let Err(e) = set_controlling_terminal(&fd) {
        return Err(e);
    }

    // Best-effort: each duplication failure is ignored.
    let _ = dup_to_stdin(&fd);
    let _ = dup_to_stdout(&fd);
    let _ = dup_to_stderr(&fd);

    // Take ownership, then decide disposal: the policy depends on the
    // descriptor's numeric identity, not on control flow.
    if descriptor_is_retained(raw_descriptor(&fd)) {
        forget_descriptor(fd);
    }
    Ok(())
}

} // verus!
