use ntrixos::abi::FileDescriptor;
use ntrixos::display_types::{DisplayCharStat, DisplayStat};
use ntrixos::kernel::{handle_request, request_is_servable, KernelAction};
use ntrixos::kernel_syscall::IoCtlReply;
use ntrixos::rd_table::{RawPtr, RdTable, RdTableEntry};
use ntrixos::syscall::Syscall;

fn message(num: usize, args: [usize; 6]) -> Syscall {
    Syscall { num, args, result: isize::MIN }
}

#[test]
fn null_call_is_ignored() {
    let mut t = RdTable::new();
    let mut m = message(0, [7, 0, 0, 0, 0, 0]);
    assert!(request_is_servable(&t, &m));
    assert_eq!(handle_request(&mut t, &mut m), KernelAction::Ignore);
    assert_eq!(m.num, 0);
    assert_eq!(m.result, isize::MIN);
}

#[test]
fn exit_asks_for_restart_without_answer() {
    let mut t = RdTable::new();
    let mut m = message(1, [usize::MAX, 0, 0, 0, 0, 0]);
    assert_eq!(handle_request(&mut t, &mut m), KernelAction::Restart(-1));
    assert_eq!(m.result, isize::MIN);
}

#[test]
fn read_of_keyboard_waits_for_a_key() {
    let mut t = RdTable::new();
    let mut m = message(2, [0, 0x2000_0100, 4, 0, 0, 0]);
    assert!(request_is_servable(&t, &m));
    assert_eq!(handle_request(&mut t, &mut m), KernelAction::DeliverKeyThenAnswer(0x2000_0100));
    assert_eq!(m.num, 2);
    assert_eq!(m.result, 4);
}

#[test]
fn read_into_small_buffer_is_answered_at_once() {
    let mut t = RdTable::new();
    let mut m = message(2, [0, 0x2000_0100, 3, 0, 0, 0]);
    assert_eq!(handle_request(&mut t, &mut m), KernelAction::Answer);
    assert_eq!(m.result, -1);
}

#[test]
fn map_sync_unmap_through_requests() {
    let mut t = RdTable::new();
    let mut m = message(3, [0x2000_0000, 300, 2, 0, 0, 0]);
    assert!(request_is_servable(&t, &m));
    assert_eq!(handle_request(&mut t, &mut m), KernelAction::Answer);
    assert_eq!(m.num, 3);
    assert_eq!(m.result, 0);
    let entry = RdTableEntry { addr: RawPtr(0x2000_0000), len: 300, fd: FileDescriptor::DisplayChar };
    let mut s = message(5, [0, 0, 0, 0, 0, 0]);
    assert!(request_is_servable(&t, &s));
    assert_eq!(handle_request(&mut t, &mut s), KernelAction::FlushThenAnswer(entry));
    assert_eq!(s.result, 0);
    let mut u = message(4, [0, 0, 0, 0, 0, 0]);
    assert_eq!(handle_request(&mut t, &mut u), KernelAction::Answer);
    assert_eq!(u.result, 0);
    let mut again = message(4, [0, 0, 0, 0, 0, 0]);
    assert_eq!(handle_request(&mut t, &mut again), KernelAction::Answer);
    assert_eq!(again.result, -1);
    assert!(!request_is_servable(&t, &s));
}

#[test]
fn map_of_other_device_is_refused() {
    let mut t = RdTable::new();
    let mut m = message(3, [0x2000_0000, 300, 1, 0, 0, 0]);
    assert_eq!(handle_request(&mut t, &mut m), KernelAction::Answer);
    assert_eq!(m.result, -1);
    assert_eq!(t.used(), 0);
}

#[test]
fn fifth_mapping_cannot_be_served() {
    let mut t = RdTable::new();
    for i in 0..4usize {
        let mut m = message(3, [0x100 * (i + 1), 1, 2, 0, 0, 0]);
        assert!(request_is_servable(&t, &m));
        handle_request(&mut t, &mut m);
        assert_eq!(m.result, i as isize);
    }
    let full = message(3, [0x900, 1, 2, 0, 0, 0]);
    assert!(!request_is_servable(&t, &full));
    let refused = message(3, [0, 1, 2, 0, 0, 0]);
    assert!(request_is_servable(&t, &refused));
}

#[test]
fn ioctl_writes_display_sizes() {
    let mut t = RdTable::new();
    let mut m = message(6, [1, 0, 0, 0x2000_0200, 0, 0]);
    assert!(request_is_servable(&t, &m));
    assert_eq!(
        handle_request(&mut t, &mut m),
        KernelAction::WriteReplyThenAnswer(
            0x2000_0200,
            IoCtlReply::DisplayStat(DisplayStat { width: 160, height: 120 })
        )
    );
    assert_eq!(m.result, 0);
    let mut c = message(6, [2, 0, 0, 0x2000_0300, 0, 0]);
    assert_eq!(
        handle_request(&mut t, &mut c),
        KernelAction::WriteReplyThenAnswer(
            0x2000_0300,
            IoCtlReply::DisplayCharStat(DisplayCharStat { rows: 15, cols: 20 })
        )
    );
}

#[test]
fn unservable_requests_are_recognised() {
    let t = RdTable::new();
    assert!(!request_is_servable(&t, &message(7, [0; 6])));
    assert!(!request_is_servable(&t, &message(2, [3, 0, 0, 0, 0, 0])));
    assert!(!request_is_servable(&t, &message(6, [0, 0, 0, 0, 0, 0])));
    assert!(!request_is_servable(&t, &message(6, [1, 1, 0, 0, 0, 0])));
    assert!(!request_is_servable(&t, &message(5, [0, 0, 0, 0, 0, 0])));
}

#[test]
fn cleared_table_hands_out_descriptor_zero_again() {
    let mut t = RdTable::new();
    let mut m = message(3, [0x10, 1, 2, 0, 0, 0]);
    handle_request(&mut t, &mut m);
    let mut m2 = message(3, [0x20, 1, 2, 0, 0, 0]);
    handle_request(&mut t, &mut m2);
    assert_eq!(m2.result, 1);
    t.clear();
    let mut m3 = message(3, [0x30, 1, 2, 0, 0, 0]);
    handle_request(&mut t, &mut m3);
    assert_eq!(m3.result, 0);
}
