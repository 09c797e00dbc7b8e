use ntrixos::abi::FileDescriptor;
use ntrixos::char_display::CharDisplay;
use ntrixos::dispatch::{unpack_exit_args, unpack_ioctl, unpack_num, unpack_r_map, unpack_r_sync, unpack_r_unmap, unpack_read};
use ntrixos::display_types::{CharCell, DisplayCharStat};
use ntrixos::errno::{GENERAL, OK};
use ntrixos::fd::FileDesc;
use ntrixos::keyboard_types::{Action, KeyEvent, KeyKind, Modifiers};
use ntrixos::process::{abort, exit};
use ntrixos::syscall::{IoCtlSyscall, RMapSyscall, RSyncSyscall, RUnmapSyscall, ReadSyscall, Syscall, SyscallNum};
use ntrixos::user_keyboard::KeyboardRaw;

fn msg() -> Syscall {
    Syscall { num: 0, args: [0; 6], result: 0 }
}

#[test]
fn read_request_and_outcome() {
    let fd = FileDesc::from_fd(FileDescriptor::KeyEvents);
    let mut m = msg();
    fd.read_request(&mut m, 0x400, 16);
    assert_eq!(unpack_num(&m), Ok(SyscallNum::Read));
    assert_eq!(unpack_read(&m), ReadSyscall { fd: FileDescriptor::KeyEvents, buf: 0x400, len: 16 });
    assert_eq!(fd.read(4), Ok(4));
    assert_eq!(fd.read(-7), Err(GENERAL));
    fd.flush();
}

#[test]
fn map_sync_unmap_requests_and_outcomes() {
    let mut fd = FileDesc::from_fd(FileDescriptor::DisplayChar);
    let mut m = msg();
    fd.r_map_request(&mut m, 0x2000, 300);
    assert_eq!(unpack_r_map(&m), RMapSyscall { addr: 0x2000, len: 300, fd: FileDescriptor::DisplayChar });
    assert_eq!(fd.r_map(2), Ok(2));
    assert_eq!(fd.r_map(-1), Err(-1));
    fd.r_sync_request(&mut m, 2);
    assert_eq!(unpack_r_sync(&m), RSyncSyscall { desc: 2 });
    assert_eq!(fd.r_sync(0), Ok(()));
    assert_eq!(fd.r_sync(-1), Err(-1));
    fd.r_unmap_request(&mut m, 2);
    assert_eq!(unpack_r_unmap(&m), RUnmapSyscall { desc: 2 });
    assert_eq!(fd.r_unmap(0), Ok(()));
    assert_eq!(fd.r_unmap(-1), Err(-1));
}

#[test]
fn ioctl_request_and_outcome() {
    let fd = FileDesc::from_fd(FileDescriptor::Display);
    let mut m = msg();
    fd.ioctl_request(&mut m, 0, 0, 0x80);
    assert_eq!(unpack_ioctl(&m), IoCtlSyscall { fd: FileDescriptor::Display, op: 0, in_arg: 0, out_arg: 0x80 });
    assert_eq!(fd.ioctl(OK), Ok(()));
    assert_eq!(fd.ioctl(1), Err(1));
}

#[test]
fn exit_and_abort_requests() {
    let mut m = msg();
    exit(&mut m, 0);
    assert_eq!(unpack_num(&m), Ok(SyscallNum::Exit));
    assert_eq!(unpack_exit_args(&m), 0);
    abort(&mut m);
    assert_eq!(unpack_exit_args(&m), GENERAL);
}

#[test]
fn char_display_is_claimed_once() {
    let flag = portable_atomic::AtomicBool::new(false);
    let d = CharDisplay::init(&flag);
    assert!(d.is_some());
    assert!(CharDisplay::init(&flag).is_none());
    d.unwrap().release(&flag);
    assert!(CharDisplay::init(&flag).is_some());
    assert!(CharDisplay::from_claim(false).is_none());
}

#[test]
fn char_display_buffer_lifecycle() {
    let display = CharDisplay::from_claim(true).unwrap();
    let mut m = msg();
    display.register_buffer_request(&mut m, 0x3000, 300);
    assert_eq!(unpack_r_map(&m), RMapSyscall { addr: 0x3000, len: 300, fd: FileDescriptor::DisplayChar });
    let cells = vec![CharCell::from_u8_lossy(0); 300];
    assert!(display.register_buffer(-1, cells.clone()).is_err());
    let mut buf = display.register_buffer(1, cells).unwrap();
    assert_eq!(buf.ref_desc(), 1);
    buf.buffer_mut()[5] = CharCell::from_u8_lossy(b'k');
    assert_eq!(buf.buffer()[5], CharCell::from_u8_lossy(b'k'));
    buf.with_buffer_flushed(&mut m, |cells| cells[6] = CharCell::from_u8_lossy(b'j'));
    assert_eq!(buf.buffer()[6], CharCell::from_u8_lossy(b'j'));
    assert_eq!(unpack_r_sync(&m), RSyncSyscall { desc: 1 });
    m = msg();
    buf.sync(&mut m);
    assert_eq!(unpack_r_sync(&m), RSyncSyscall { desc: 1 });
    let back = buf.release(&mut m);
    assert_eq!(unpack_r_unmap(&m), RUnmapSyscall { desc: 1 });
    assert_eq!(back.len(), 300);
}

#[test]
fn char_display_stat_request_and_outcome() {
    let mut m = msg();
    CharDisplay::get_stat_request(&mut m, 0x90);
    assert_eq!(unpack_ioctl(&m), IoCtlSyscall { fd: FileDescriptor::DisplayChar, op: 0, in_arg: 0, out_arg: 0x90 });
    let stat = DisplayCharStat { rows: 15, cols: 20 };
    assert_eq!(CharDisplay::get_stat(OK, stat), Ok(stat));
    assert_eq!(CharDisplay::get_stat(-1, stat), Err(-1));
}

#[test]
fn key_read_outcomes() {
    let kb = KeyboardRaw::new();
    let mut m = msg();
    kb.read_key_request(&mut m, 0x500);
    assert_eq!(unpack_read(&m), ReadSyscall { fd: FileDescriptor::KeyEvents, buf: 0x500, len: 4 });
    let e = KeyEvent { kind: KeyKind::Char, code: b'a', action: Action::Press, modifiers: Modifiers { bits: 0 } };
    assert_eq!(kb.read_key_blocking(Ok(4), &[0, b'a', 0, 0]), Ok(e));
    assert_eq!(kb.read_key_blocking(Ok(3), &[0, b'a', 0, 0]), Err(GENERAL));
    assert_eq!(kb.read_key_blocking(Err(-5), &[0, b'a', 0, 0]), Err(-5));
    assert_eq!(kb.read_key_blocking(Ok(4), &[9, b'a', 0, 0]), Err(GENERAL));
}
