//! The kernel's handling of one request: the request in the shared message
//! is decoded and answered against the descriptor table, and the kernel is
//! told what is left to do outside: wait for a key, flush a region, write a
//! device's size, restart the program, or only send the answer back.
use vstd::prelude::*;
use crate::abi::FileDescriptor;
use crate::dispatch::{
    arg_is_fd, ioctl_of_message, num_of_message, pack_response, r_map_of_message,
    r_sync_of_message, r_unmap_of_message, read_of_message, response_message, unpack_exit_args,
    unpack_ioctl, unpack_num, unpack_r_map, unpack_r_sync, unpack_r_unmap, unpack_read,
};
use crate::errno::{ErrNo, OK};
use crate::kernel_syscall::{
    call_is_answered, ioctl_reply, ioctl_supported, read_answer, syscall_ioctl, syscall_read, IoCtlReply,
};
use crate::rd_table::{
    desc_key, map_accepted, map_answer, map_done, sync_answer, unmap_answer, unmap_done, RdTable,
    RdTableEntry,
};
use crate::syscall::{syscall_number, Syscall, SyscallNum};

verus! {

/// What the kernel does after deciding on a request.
#[derive(PartialEq, Eq, Structural, Clone, Copy, Debug)]
pub enum KernelAction {
    /// Nothing: the request gets no answer.
    Ignore,
    /// Restart the user program, which exited with this code; no answer.
    Restart(ErrNo),
    /// Send the answer back.
    Answer,
    /// Wait for a key event, write it to this user address, then send the
    /// answer back.
    DeliverKeyThenAnswer(usize),
    /// Flush this region to the character display and wait until that is
    /// done, then send the answer back.
    FlushThenAnswer(RdTableEntry),
    /// Write this reply to this user address, then send the answer back.
    WriteReplyThenAnswer(usize, IoCtlReply),
}

/// Whether the kernel can serve the request in `msg` with the table `t`:
/// the call number is known, a descriptor word names a device, a region to
/// register finds a free descriptor, a sync names a registered descriptor
/// and a device-control request is one the kernel supports.
pub open spec fn request_servable(t: RdTable, msg: Syscall) -> bool {
    match num_of_message(msg) {
        Ok(SyscallNum::Null) => true,
        Ok(SyscallNum::Exit) => true,
        Ok(SyscallNum::Read) => arg_is_fd(msg, 0),
        Ok(SyscallNum::RMap) => arg_is_fd(msg, 2) && (map_accepted(r_map_of_message(msg))
            ==> t.entries().dom().len() < 4),
        Ok(SyscallNum::RUnmap) => true,
        Ok(SyscallNum::RSync) => t.entries().dom().contains(desc_key(r_sync_of_message(msg).desc)),
        Ok(SyscallNum::IoCtl) => arg_is_fd(msg, 0) && ioctl_supported(ioctl_of_message(msg)),
        Err(_) => false,
    }
}

/// What serving the request in `m` with table `t` gives: the table `u`, the
/// message `n` and the action `act`. The null call and exit are not
/// answered; every other call gets its handler's answer in the message.
pub open spec fn request_served(
    t: RdTable,
    m: Syscall,
    u: RdTable,
    n: Syscall,
    act: KernelAction,
) -> bool {
    match num_of_message(m) {
        Ok(SyscallNum::Null) => u == t && n == m && act == KernelAction::Ignore,
        Ok(SyscallNum::Exit) => u == t && n == m && act == KernelAction::Restart(
            m.args[0] as isize,
        ),
        Ok(SyscallNum::Read) => {
            let req = read_of_message(m);
            &&& u == t
            &&& n == response_message(m, SyscallNum::Read, read_answer(req))
            &&& act == if read_answer(req) >= 0 {
                KernelAction::DeliverKeyThenAnswer(req.buf)
            } else {
                KernelAction::Answer
            }
        },
        Ok(SyscallNum::RMap) => {
            let req = r_map_of_message(m);
            &&& map_done(t, u, req)
            &&& n == response_message(m, SyscallNum::RMap, map_answer(t, req))
            &&& act == KernelAction::Answer
        },
        Ok(SyscallNum::RUnmap) => {
            let desc = r_unmap_of_message(m).desc;
            &&& unmap_done(t, u, desc)
            &&& n == response_message(m, SyscallNum::RUnmap, unmap_answer(t.entries(), desc))
            &&& act == KernelAction::Answer
        },
        Ok(SyscallNum::RSync) => {
            let answer = sync_answer(t.entries(), r_sync_of_message(m).desc);
            &&& u == t
            &&& n == response_message(m, SyscallNum::RSync, answer.0)
            &&& act == match answer.1 {
                Some(e) => KernelAction::FlushThenAnswer(e),
                None => KernelAction::Answer,
            }
        },
        Ok(SyscallNum::IoCtl) => {
            let req = ioctl_of_message(m);
            &&& u == t
            &&& n == response_message(m, SyscallNum::IoCtl, OK)
            &&& act == KernelAction::WriteReplyThenAnswer(req.out_arg, ioctl_reply(req))
        },
        Err(_) => false,
    }
}

/// Whether the kernel can serve the request in `msg` with `table`.
pub fn request_is_servable(table: &RdTable, msg: &Syscall) -> (b: bool)
    requires
        table.wf(),
    ensures
        b == request_servable(*table, *msg),
{
    match unpack_num(msg) {
        Err(_) => false,
        Ok(SyscallNum::Null) => true,
        Ok(SyscallNum::Exit) => true,
        Ok(SyscallNum::Read) => FileDescriptor::try_from_primitive(msg.args[0]).is_some(),
        Ok(SyscallNum::RMap) => {
            if FileDescriptor::try_from_primitive(msg.args[2]).is_none() {
                false
            } else {
                let req = unpack_r_map(msg);
                !(req.fd == FileDescriptor::DisplayChar && req.addr != 0) || table.used() < 4
            }
        },
        Ok(SyscallNum::RUnmap) => true,
        Ok(SyscallNum::RSync) => table.get(unpack_r_sync(msg).desc as usize).is_some(),
        Ok(SyscallNum::IoCtl) => {
            if FileDescriptor::try_from_primitive(msg.args[0]).is_none() {
                false
            } else {
                let req = unpack_ioctl(msg);
                req.fd != FileDescriptor::KeyEvents && req.op == 0
            }
        },
    }
}

/// Serves the request in `msg`: decodes it, answers it with its handler,
/// which may change `table`, writes the answer into `msg` when the call
/// gets one, and returns what is left to do outside.
pub fn handle_request(table: &mut RdTable, msg: &mut Syscall) -> (act: KernelAction)
    requires
        old(table).wf(),
        request_servable(*old(table), *old(msg)),
    ensures
        final(table).wf(),
        request_served(*old(table), *old(msg), *final(table), *final(msg), act),
{
    let m: Syscall = *msg;
    let num = match unpack_num(&m) {
        Ok(n) => n,
        Err(_) => {
            return KernelAction::Ignore;
        },
    };
    match num {
        SyscallNum::Null => KernelAction::Ignore,
        SyscallNum::Exit => KernelAction::Restart(unpack_exit_args(&m)),
        SyscallNum::Read => {
            let req = unpack_read(&m);
            let result = syscall_read(&req);
            pack_response(msg, SyscallNum::Read, result);
            if result >= 0 {
                KernelAction::DeliverKeyThenAnswer(req.buf)
            } else {
                KernelAction::Answer
            }
        },
        SyscallNum::RMap => {
            let req = unpack_r_map(&m);
            let result = table.syscall_r_map(req);
            pack_response(msg, SyscallNum::RMap, result);
            KernelAction::Answer
        },
        SyscallNum::RUnmap => {
            let req = unpack_r_unmap(&m);
            let result = table.syscall_r_unmap(req);
            pack_response(msg, SyscallNum::RUnmap, result);
            KernelAction::Answer
        },
        SyscallNum::RSync => {
            let req = unpack_r_sync(&m);
            let (result, flush) = table.syscall_r_sync(req);
            pack_response(msg, SyscallNum::RSync, result);
            match flush {
                Some(e) => KernelAction::FlushThenAnswer(e),
                None => KernelAction::Answer,
            }
        },
        SyscallNum::IoCtl => {
            let req = unpack_ioctl(&m);
            let (reply, code) = syscall_ioctl(&req);
            pack_response(msg, SyscallNum::IoCtl, code);
            KernelAction::WriteReplyThenAnswer(req.out_arg, reply)
        },
    }
}

/// The calls that get an answer are exactly those whose serving sends one:
/// an answered call leaves an action that sends the answer back, with the
/// message naming the call and keeping its arguments; the null call and
/// exit leave the message as it was and send nothing.
pub proof fn law_answered_calls_get_answer(
    t: RdTable,
    m: Syscall,
    u: RdTable,
    n: Syscall,
    act: KernelAction,
    num: SyscallNum,
)
    requires
        num_of_message(m) == Ok::<SyscallNum, usize>(num),
        request_served(t, m, u, n, act),
    ensures
        call_is_answered(num) <==> (act != KernelAction::Ignore && !(act is Restart)),
        call_is_answered(num) ==> n.num == syscall_number(num) && n.args == m.args,
        !call_is_answered(num) ==> n == m,
{
}

} // verus!
