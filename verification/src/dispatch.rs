//! Kernel side of the system-call protocol: reading a request out of the
//! shared message and writing the answer back.
use vstd::prelude::*;
use crate::abi::{fd_from_number, FileDescriptor};
use crate::errno::ErrNo;
use crate::request::{
    exit_message, ioctl_message, r_map_message, r_sync_message, r_unmap_message, read_message,
};
use crate::syscall::{
    syscall_from_number, syscall_number, IoCtlSyscall, RMapSyscall, RSyncSyscall, RUnmapSyscall,
    ReadSyscall, Syscall, SyscallNum,
};

verus! {

/// The message as the kernel leaves it before a program starts.
pub open spec fn zeroed_message() -> Syscall {
    Syscall { num: 0, args: [0usize, 0usize, 0usize, 0usize, 0usize, 0usize], result: isize::MIN }
}

/// The system call that a message asks for, or its unknown number.
pub open spec fn num_of_message(msg: Syscall) -> Result<SyscallNum, usize> {
    match syscall_from_number(msg.num) {
        Some(n) => Ok(n),
        None => Err(msg.num),
    }
}

/// Whether argument word `i` of the message names a file descriptor.
pub open spec fn arg_is_fd(msg: Syscall, i: int) -> bool {
    fd_from_number(msg.args[i]) is Some
}

/// The read request that a message carries.
pub open spec fn read_of_message(msg: Syscall) -> ReadSyscall {
    ReadSyscall { fd: fd_from_number(msg.args[0]).unwrap(), buf: msg.args[1], len: msg.args[2] }
}

/// The mapping request that a message carries.
pub open spec fn r_map_of_message(msg: Syscall) -> RMapSyscall {
    RMapSyscall { addr: msg.args[0], len: msg.args[1], fd: fd_from_number(msg.args[2]).unwrap() }
}

/// The sync request that a message carries.
pub open spec fn r_sync_of_message(msg: Syscall) -> RSyncSyscall {
    RSyncSyscall { desc: msg.args[0] as isize }
}

/// The un-mapping request that a message carries.
pub open spec fn r_unmap_of_message(msg: Syscall) -> RUnmapSyscall {
    RUnmapSyscall { desc: msg.args[0] as isize }
}

/// The device-control request that a message carries.
pub open spec fn ioctl_of_message(msg: Syscall) -> IoCtlSyscall {
    IoCtlSyscall {
        fd: fd_from_number(msg.args[0]).unwrap(),
        op: msg.args[1],
        in_arg: msg.args[2],
        out_arg: msg.args[3],
    }
}

/// The message after the kernel answered call `num` with `result`.
pub open spec fn response_message(msg: Syscall, num: SyscallNum, result: isize) -> Syscall {
    Syscall { num: syscall_number(num), args: msg.args, result }
}

/// Clears the message: no call, every argument zero and no answer yet.
pub fn zero_syscall_data(msg: &mut Syscall)
    ensures
        *final(msg) == zeroed_message(),
{
    msg.num = 0;
    msg.result = isize::MIN;
    let mut i: usize = 0;
    while i < 6
        invariant
            0 <= i <= 6,
            msg.num == 0,
            msg.result == isize::MIN,
            forall|j: int| 0 <= j < i ==> msg.args[j] == 0,
        decreases 6 - i,
    {
        msg.args[i] = 0;
        i = i + 1;
    }
    assert(msg.args =~= zeroed_message().args);
}

/// The system call that the message asks for; `Err` holds the number when
/// it stands for none.
pub fn unpack_num(msg: &Syscall) -> (res: Result<SyscallNum, usize>)
    ensures
        res == num_of_message(*msg),
{
    match SyscallNum::try_from_primitive(msg.num) {
        Some(n) => Ok(n),
        None => Err(msg.num),
    }
}

/// The exit code of an exit request.
pub fn unpack_exit_args(msg: &Syscall) -> (code: ErrNo)
    ensures
        code == msg.args[0] as isize,
{
    msg.args[0] as isize
}

/// The read request in the message.
pub fn unpack_read(msg: &Syscall) -> (req: ReadSyscall)
    requires
        arg_is_fd(*msg, 0),
    ensures
        req == read_of_message(*msg),
{
    let fd = FileDescriptor::try_from_primitive(msg.args[0]).unwrap();
    ReadSyscall { fd, buf: msg.args[1], len: msg.args[2] }
}

/// The mapping request in the message.
pub fn unpack_r_map(msg: &Syscall) -> (req: RMapSyscall)
    requires
        arg_is_fd(*msg, 2),
    ensures
        req == r_map_of_message(*msg),
{
    let fd = FileDescriptor::try_from_primitive(msg.args[2]).unwrap();
    RMapSyscall { addr: msg.args[0], len: msg.args[1], fd }
}

/// The sync request in the message.
pub fn unpack_r_sync(msg: &Syscall) -> (req: RSyncSyscall)
    ensures
        req == r_sync_of_message(*msg),
{
    RSyncSyscall { desc: msg.args[0] as isize }
}

/// The un-mapping request in the message.
pub fn unpack_r_unmap(msg: &Syscall) -> (req: RUnmapSyscall)
    ensures
        req == r_unmap_of_message(*msg),
{
    RUnmapSyscall { desc: msg.args[0] as isize }
}

/// The device-control request in the message.
pub fn unpack_ioctl(msg: &Syscall) -> (req: IoCtlSyscall)
    requires
        arg_is_fd(*msg, 0),
    ensures
        req == ioctl_of_message(*msg),
{
    let fd = FileDescriptor::try_from_primitive(msg.args[0]).unwrap();
    IoCtlSyscall { fd, op: msg.args[1], in_arg: msg.args[2], out_arg: msg.args[3] }
}

/// Writes the kernel's answer `result` to call `num` into the message.
pub fn pack_response(msg: &mut Syscall, num: SyscallNum, result: isize)
    ensures
        *final(msg) == response_message(*old(msg), num, result),
{
    msg.result = result;
    msg.num = num.to_usize();
}

/// A word that went through the message as a descriptor number comes back
/// unchanged.
proof fn lemma_isize_word_roundtrip(x: isize)
    ensures
        (x as usize) as isize == x,
{
    assert((x as usize) as isize == x) by (bit_vector);
}

/// What user space writes for an exit request, the kernel reads back: the
/// call is `Exit` and the code is the one sent.
pub proof fn law_exit_roundtrip(msg: Syscall, code: ErrNo)
    ensures
        num_of_message(exit_message(msg, code)) == Ok::<SyscallNum, usize>(SyscallNum::Exit),
        exit_message(msg, code).args[0] as isize == code,
{
    lemma_isize_word_roundtrip(code);
}

/// What user space writes for a read request, the kernel reads back.
pub proof fn law_read_roundtrip(msg: Syscall, req: ReadSyscall)
    ensures
        num_of_message(read_message(msg, req)) == Ok::<SyscallNum, usize>(SyscallNum::Read),
        arg_is_fd(read_message(msg, req), 0),
        read_of_message(read_message(msg, req)) == req,
{
}

/// What user space writes for a mapping request, the kernel reads back.
pub proof fn law_r_map_roundtrip(msg: Syscall, req: RMapSyscall)
    ensures
        num_of_message(r_map_message(msg, req)) == Ok::<SyscallNum, usize>(SyscallNum::RMap),
        arg_is_fd(r_map_message(msg, req), 2),
        r_map_of_message(r_map_message(msg, req)) == req,
{
}

/// What user space writes for an un-mapping request, the kernel reads back.
pub proof fn law_r_unmap_roundtrip(msg: Syscall, req: RUnmapSyscall)
    ensures
        num_of_message(r_unmap_message(msg, req)) == Ok::<SyscallNum, usize>(SyscallNum::RUnmap),
        r_unmap_of_message(r_unmap_message(msg, req)) == req,
{
    lemma_isize_word_roundtrip(req.desc);
}

/// What user space writes for a sync request, the kernel reads back.
pub proof fn law_r_sync_roundtrip(msg: Syscall, req: RSyncSyscall)
    ensures
        num_of_message(r_sync_message(msg, req)) == Ok::<SyscallNum, usize>(SyscallNum::RSync),
        r_sync_of_message(r_sync_message(msg, req)) == req,
{
    lemma_isize_word_roundtrip(req.desc);
}

/// What user space writes for a device-control request, the kernel reads back.
pub proof fn law_ioctl_roundtrip(msg: Syscall, req: IoCtlSyscall)
    ensures
        num_of_message(ioctl_message(msg, req)) == Ok::<SyscallNum, usize>(SyscallNum::IoCtl),
        arg_is_fd(ioctl_message(msg, req), 0),
        ioctl_of_message(ioctl_message(msg, req)) == req,
{
}

/// The answer the kernel writes is what user space reads, and the message
/// then names the call that was answered.
pub proof fn law_response_roundtrip(msg: Syscall, num: SyscallNum, result: isize)
    ensures
        response_message(msg, num, result).result == result,
        num_of_message(response_message(msg, num, result)) == Ok::<SyscallNum, usize>(num),
{
}

/// A cleared message asks for the null call and carries no answer.
pub proof fn law_zeroed_is_null()
    ensures
        num_of_message(zeroed_message()) == Ok::<SyscallNum, usize>(SyscallNum::Null),
        zeroed_message().result == isize::MIN,
{
}

} // verus!
