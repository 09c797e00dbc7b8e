use ntrixos::abi::{FileDescriptor, KComType};
use ntrixos::display_driver::{
    display_char_stat, display_stat, ControlPacket, DisplayDriver, DisplayMode,
    DisplayModeResolution, FlushRow,
};
use ntrixos::display_types::{display_buffer_size, BufferMode, DisplayCharStat, DisplayStat};
use ntrixos::errno::OK;
use ntrixos::kernel_syscall::{syscall_ioctl, syscall_read, IoCtlReply};
use ntrixos::rd_table::{RawPtr, RdTable, RdTableEntry};
use ntrixos::syscall::{IoCtlSyscall, RMapSyscall, RSyncSyscall, RUnmapSyscall, ReadSyscall};

fn map_req(addr: usize) -> RMapSyscall {
    RMapSyscall { addr, len: 300, fd: FileDescriptor::DisplayChar }
}

#[test]
fn map_sync_unmap_cycle() {
    let mut t = RdTable::new();
    assert_eq!(t.used(), 0);
    let d = t.syscall_r_map(map_req(0x2000_0000));
    assert_eq!(d, 0);
    assert_eq!(t.used(), 1);
    let entry = RdTableEntry { addr: RawPtr(0x2000_0000), len: 300, fd: FileDescriptor::DisplayChar };
    assert_eq!(t.get(0), Some(entry));
    assert_eq!(t.syscall_r_sync(RSyncSyscall { desc: d }), (0, Some(entry)));
    assert_eq!(t.syscall_r_unmap(RUnmapSyscall { desc: d }), 0);
    assert_eq!(t.syscall_r_unmap(RUnmapSyscall { desc: d }), -1);
    assert_eq!(t.get(0), None);
}

#[test]
fn map_refuses_null_address_and_other_devices() {
    let mut t = RdTable::new();
    assert_eq!(t.syscall_r_map(map_req(0)), -1);
    let other = RMapSyscall { addr: 0x100, len: 1, fd: FileDescriptor::Display };
    assert_eq!(t.syscall_r_map(other), -1);
    assert_eq!(t.get(0), None);
}

#[test]
fn freed_descriptor_is_reused() {
    let mut t = RdTable::new();
    assert_eq!(t.syscall_r_map(map_req(0x10)), 0);
    assert_eq!(t.syscall_r_map(map_req(0x20)), 1);
    assert_eq!(t.syscall_r_map(map_req(0x30)), 2);
    assert_eq!(t.syscall_r_unmap(RUnmapSyscall { desc: 1 }), 0);
    assert_eq!(t.syscall_r_map(map_req(0x40)), 1);
    assert_eq!(t.get(1).map(|e| e.addr.as_ptr()), Some(0x40));
}

#[test]
fn unmap_of_negative_descriptor_is_refused() {
    let mut t = RdTable::new();
    t.syscall_r_map(map_req(0x10));
    assert_eq!(t.syscall_r_unmap(RUnmapSyscall { desc: -1 }), -1);
    assert!(t.get(0).is_some());
}

#[test]
fn clear_forgets_regions() {
    let mut t = RdTable::new();
    t.syscall_r_map(map_req(0x10));
    t.clear();
    assert_eq!(t.get(0), None);
    assert_eq!(t.syscall_r_map(map_req(0x50)), 0);
}

#[test]
fn raw_ptr_rejects_zero() {
    assert_eq!(RawPtr::new(0), None);
    assert_eq!(RawPtr::new(8).map(|p| p.as_ptr()), Some(8));
}

#[test]
fn read_answers() {
    let keys = ReadSyscall { fd: FileDescriptor::KeyEvents, buf: 0x100, len: 4 };
    assert_eq!(syscall_read(&keys), 4);
    let big = ReadSyscall { fd: FileDescriptor::KeyEvents, buf: 0x100, len: 64 };
    assert_eq!(syscall_read(&big), 4);
    let small = ReadSyscall { fd: FileDescriptor::KeyEvents, buf: 0x100, len: 3 };
    assert_eq!(syscall_read(&small), -1);
    let display = ReadSyscall { fd: FileDescriptor::Display, buf: 0x100, len: 64 };
    assert_eq!(syscall_read(&display), -1);
    let chars = ReadSyscall { fd: FileDescriptor::DisplayChar, buf: 0x100, len: 64 };
    assert_eq!(syscall_read(&chars), -1);
}

#[test]
fn ioctl_reports_display_sizes() {
    let px = IoCtlSyscall { fd: FileDescriptor::Display, op: 0, in_arg: 0, out_arg: 0x40 };
    assert_eq!(syscall_ioctl(&px), (IoCtlReply::DisplayStat(DisplayStat { width: 160, height: 120 }), OK));
    let ch = IoCtlSyscall { fd: FileDescriptor::DisplayChar, op: 0, in_arg: 0, out_arg: 0x40 };
    assert_eq!(
        syscall_ioctl(&ch),
        (IoCtlReply::DisplayCharStat(DisplayCharStat { rows: 15, cols: 20 }), OK)
    );
}

#[test]
fn driver_starts_in_text_mode() {
    let (d, packet) = DisplayDriver::init();
    let mode = DisplayMode::new(DisplayModeResolution::R160x120, true);
    assert_eq!(packet, ControlPacket::SetMode(mode));
    assert_eq!(d.get_stat(), display_stat());
    assert_eq!(d.get_char_stat(), Some(display_char_stat()));
}

#[test]
fn set_mode_sends_packet_but_keeps_mode() {
    let (mut d, _) = DisplayDriver::init();
    let pixel_only = DisplayMode::new(DisplayModeResolution::R160x120, false);
    assert_eq!(d.set_mode(pixel_only), ControlPacket::SetMode(pixel_only));
    assert_eq!(d.get_char_stat(), Some(DisplayCharStat { rows: 15, cols: 20 }));
    assert_eq!(d.reset(), ControlPacket::SetMode(DisplayMode::new(DisplayModeResolution::R160x120, true)));
}

#[test]
fn flush_char_sends_every_row() {
    let (d, _) = DisplayDriver::init();
    let rows = d.flush_char(300);
    assert_eq!(rows.len(), 15);
    assert_eq!(rows[0], FlushRow { row: 0, start: 0, end: 20 });
    assert_eq!(rows[14], FlushRow { row: 14, start: 280, end: 300 });
}

#[test]
fn resolution_sizes() {
    let r = DisplayModeResolution::R160x120;
    assert_eq!((r.width(), r.height()), (160, 120));
    assert!(DisplayMode::new(r, true).chars_enabled());
}

#[test]
fn kcom_words() {
    assert_eq!(KComType::Syscall.to_u32(), 0);
    assert_eq!(KComType::try_from_primitive(0), Some(KComType::Syscall));
    assert_eq!(KComType::try_from_primitive(1), None);
    assert_eq!(FileDescriptor::try_from_primitive(2), Some(FileDescriptor::DisplayChar));
    assert_eq!(FileDescriptor::try_from_primitive(3), None);
    assert_eq!(FileDescriptor::KeyEvents.to_usize(), 0);
}

#[test]
fn freed_descriptors_are_reused_oldest_first() {
    let mut t = RdTable::new();
    for a in [0x10, 0x20, 0x30] {
        t.syscall_r_map(map_req(a));
    }
    assert_eq!(t.syscall_r_unmap(RUnmapSyscall { desc: 0 }), 0);
    assert_eq!(t.syscall_r_unmap(RUnmapSyscall { desc: 1 }), 0);
    assert_eq!(t.syscall_r_map(map_req(0x40)), 0);
    assert_eq!(t.syscall_r_map(map_req(0x50)), 1);
    assert_eq!(t.syscall_r_map(map_req(0x60)), 3);
    assert_eq!(t.used(), 4);
}

#[test]
fn last_descriptor_is_given_back_to_the_end() {
    let mut t = RdTable::new();
    t.syscall_r_map(map_req(0x10));
    t.syscall_r_map(map_req(0x20));
    assert_eq!(t.syscall_r_unmap(RUnmapSyscall { desc: 1 }), 0);
    assert_eq!(t.syscall_r_map(map_req(0x30)), 1);
}

#[test]
fn display_buffer_sizes() {
    assert_eq!(display_buffer_size(BufferMode::Pixel, 160, 120, 0, 0, 2), 20 * 120);
    assert_eq!(display_buffer_size(BufferMode::Pixel, 161, 2, 0, 0, 2), 21 * 2);
    assert_eq!(display_buffer_size(BufferMode::Character, 0, 0, 15, 20, 2), 600);
}
