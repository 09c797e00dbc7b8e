//! Ending the running program.
use vstd::prelude::*;
use crate::errno::{ErrNo, GENERAL};
use crate::request::{exit_message, req_exit};
use crate::syscall::Syscall;

verus! {

/// Writes the request to end the program with `code`. The kernel then
/// stops the program; the caller only waits.
pub fn exit(msg: &mut Syscall, code: ErrNo)
    ensures
        *final(msg) == exit_message(*old(msg), code),
{
    req_exit(msg, code);
}

/// Writes the request to end the program with the generic error code.
pub fn abort(msg: &mut Syscall)
    ensures
        *final(msg) == exit_message(*old(msg), GENERAL),
{
    exit(msg, GENERAL);
}

} // verus!
