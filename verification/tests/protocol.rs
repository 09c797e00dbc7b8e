use ntrixos::abi::FileDescriptor;
use ntrixos::dispatch::{
    pack_response, unpack_exit_args, unpack_ioctl, unpack_num, unpack_r_map, unpack_r_sync,
    unpack_r_unmap, unpack_read, zero_syscall_data,
};
use ntrixos::request::{req_exit, req_ioctl, req_r_map, req_r_read, req_r_sync, req_r_unmap};
use ntrixos::syscall::{
    IoCtlSyscall, RMapSyscall, RSyncSyscall, RUnmapSyscall, ReadSyscall, Syscall, SyscallNum,
};

fn fresh() -> Syscall {
    let mut msg = Syscall { num: 9, args: [7; 6], result: 42 };
    zero_syscall_data(&mut msg);
    msg
}

#[test]
fn zeroed_message_is_null_call() {
    let msg = fresh();
    assert_eq!(msg.num, 0);
    assert_eq!(msg.args, [0; 6]);
    assert_eq!(msg.result, isize::MIN);
    assert_eq!(unpack_num(&msg), Ok(SyscallNum::Null));
}

#[test]
fn read_request_roundtrip() {
    let mut msg = fresh();
    let req = ReadSyscall { fd: FileDescriptor::KeyEvents, buf: 0x2000_0000, len: 4 };
    req_r_read(&mut msg, req);
    assert_eq!(msg.args[0], 0);
    assert_eq!(unpack_num(&msg), Ok(SyscallNum::Read));
    assert_eq!(unpack_read(&msg), req);
}

#[test]
fn r_map_request_roundtrip() {
    let mut msg = fresh();
    let req = RMapSyscall { addr: 0x2000_1000, len: 300, fd: FileDescriptor::DisplayChar };
    req_r_map(&mut msg, req);
    assert_eq!(msg.args[2], 2);
    assert_eq!(unpack_num(&msg), Ok(SyscallNum::RMap));
    assert_eq!(unpack_r_map(&msg), req);
}

#[test]
fn unmap_and_sync_roundtrip_negative_descriptor() {
    let mut msg = fresh();
    req_r_unmap(&mut msg, RUnmapSyscall { desc: -3 });
    assert_eq!(unpack_num(&msg), Ok(SyscallNum::RUnmap));
    assert_eq!(unpack_r_unmap(&msg), RUnmapSyscall { desc: -3 });
    req_r_sync(&mut msg, RSyncSyscall { desc: 2 });
    assert_eq!(unpack_num(&msg), Ok(SyscallNum::RSync));
    assert_eq!(unpack_r_sync(&msg), RSyncSyscall { desc: 2 });
}

#[test]
fn ioctl_request_roundtrip() {
    let mut msg = fresh();
    let req = IoCtlSyscall { fd: FileDescriptor::Display, op: 0, in_arg: 0, out_arg: 0x2000_0040 };
    req_ioctl(&mut msg, req);
    assert_eq!(unpack_num(&msg), Ok(SyscallNum::IoCtl));
    assert_eq!(unpack_ioctl(&msg), req);
}

#[test]
fn exit_code_roundtrip() {
    let mut msg = fresh();
    req_exit(&mut msg, -1);
    assert_eq!(unpack_num(&msg), Ok(SyscallNum::Exit));
    assert_eq!(unpack_exit_args(&msg), -1);
}

#[test]
fn response_is_read_back() {
    let mut msg = fresh();
    req_r_read(&mut msg, ReadSyscall { fd: FileDescriptor::KeyEvents, buf: 8, len: 4 });
    pack_response(&mut msg, SyscallNum::Read, 4);
    assert_eq!(msg.result, 4);
    assert_eq!(unpack_num(&msg), Ok(SyscallNum::Read));
}

#[test]
fn unknown_call_number_is_reported() {
    let mut msg = fresh();
    msg.num = 77;
    assert_eq!(unpack_num(&msg), Err(77));
}
