//! User-space side of the system-call protocol: writing a request into the
//! shared message.
//!
//! Signalling the kernel and waiting for its answer is done by the caller;
//! the answer is then read from `result`.
use vstd::prelude::*;
use crate::abi::fd_number;
use crate::errno::ErrNo;
use crate::syscall::{
    syscall_number, IoCtlSyscall, RMapSyscall, RSyncSyscall, RUnmapSyscall, ReadSyscall, Syscall,
    SyscallNum,
};

verus! {

/// The message after a request with number `num` and first three arguments
/// `a0`, `a1`, `a2` was written over `msg`; the other fields stay.
pub open spec fn with_request3(msg: Syscall, num: SyscallNum, a0: usize, a1: usize, a2: usize) -> Syscall {
    Syscall {
        num: syscall_number(num),
        args: [a0, a1, a2, msg.args[3], msg.args[4], msg.args[5]],
        result: msg.result,
    }
}

/// The message after an exit request with `code`.
pub open spec fn exit_message(msg: Syscall, code: ErrNo) -> Syscall {
    with_request3(msg, SyscallNum::Exit, code as usize, msg.args[1], msg.args[2])
}

/// The message after a read request.
pub open spec fn read_message(msg: Syscall, req: ReadSyscall) -> Syscall {
    with_request3(msg, SyscallNum::Read, fd_number(req.fd), req.buf, req.len)
}

/// The message after a mapping request.
pub open spec fn r_map_message(msg: Syscall, req: RMapSyscall) -> Syscall {
    with_request3(msg, SyscallNum::RMap, req.addr, req.len, fd_number(req.fd))
}

/// The message after an un-mapping request.
pub open spec fn r_unmap_message(msg: Syscall, req: RUnmapSyscall) -> Syscall {
    with_request3(msg, SyscallNum::RUnmap, req.desc as usize, msg.args[1], msg.args[2])
}

/// The message after a sync request.
pub open spec fn r_sync_message(msg: Syscall, req: RSyncSyscall) -> Syscall {
    with_request3(msg, SyscallNum::RSync, req.desc as usize, msg.args[1], msg.args[2])
}

/// The message after a device-control request.
pub open spec fn ioctl_message(msg: Syscall, req: IoCtlSyscall) -> Syscall {
    Syscall {
        num: syscall_number(SyscallNum::IoCtl),
        args: [fd_number(req.fd), req.op, req.in_arg, req.out_arg, msg.args[4], msg.args[5]],
        result: msg.result,
    }
}

/// Writes an exit request with `code` into the message.
pub fn req_exit(msg: &mut Syscall, code: ErrNo)
    ensures
        *final(msg) == exit_message(*old(msg), code),
{
    msg.args[0] = code as usize;
    msg.num = SyscallNum::Exit.to_usize();
    assert(msg.args =~= exit_message(*old(msg), code).args);
}

/// Writes a read request into the message.
pub fn req_r_read(msg: &mut Syscall, req: ReadSyscall)
    ensures
        *final(msg) == read_message(*old(msg), req),
{
    msg.args[0] = req.fd.to_usize();
    msg.args[1] = req.buf;
    msg.args[2] = req.len;
    msg.num = SyscallNum::Read.to_usize();
    assert(msg.args =~= read_message(*old(msg), req).args);
}

/// Writes a mapping request into the message.
pub fn req_r_map(msg: &mut Syscall, req: RMapSyscall)
    ensures
        *final(msg) == r_map_message(*old(msg), req),
{
    msg.args[0] = req.addr;
    msg.args[1] = req.len;
    msg.args[2] = req.fd.to_usize();
    msg.num = SyscallNum::RMap.to_usize();
    assert(msg.args =~= r_map_message(*old(msg), req).args);
}

/// Writes an un-mapping request into the message.
pub fn req_r_unmap(msg: &mut Syscall, req: RUnmapSyscall)
    ensures
        *final(msg) == r_unmap_message(*old(msg), req),
{
    msg.args[0] = req.desc as usize;
    msg.num = SyscallNum::RUnmap.to_usize();
    assert(msg.args =~= r_unmap_message(*old(msg), req).args);
}

/// Writes a sync request into the message.
pub fn req_r_sync(msg: &mut Syscall, req: RSyncSyscall)
    ensures
        *final(msg) == r_sync_message(*old(msg), req),
{
    msg.args[0] = req.desc as usize;
    msg.num = SyscallNum::RSync.to_usize();
    assert(msg.args =~= r_sync_message(*old(msg), req).args);
}

/// Writes a device-control request into the message.
pub fn req_ioctl(msg: &mut Syscall, req: IoCtlSyscall)
    ensures
        *final(msg) == ioctl_message(*old(msg), req),
{
    msg.args[0] = req.fd.to_usize();
    msg.args[1] = req.op;
    msg.args[2] = req.in_arg;
    msg.args[3] = req.out_arg;
    msg.num = SyscallNum::IoCtl.to_usize();
    assert(msg.args =~= ioctl_message(*old(msg), req).args);
}

} // verus!
