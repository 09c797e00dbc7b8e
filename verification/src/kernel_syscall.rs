//! The kernel's answers to the read and device-control requests.
//!
//! Waiting for a key event and writing answers into user memory is the
//! caller's part; these functions decide what is answered.
use vstd::prelude::*;
use crate::abi::FileDescriptor;
use crate::display_driver::{display_char_stat, display_stat};
use crate::display_types::{DisplayCharOperation, DisplayCharStat, DisplayOperation, DisplayStat};
use crate::errno::{ErrNo, OK};
use crate::keyboard_types::KEY_EVENT_SIZE;
use crate::syscall::{IoCtlSyscall, ReadSyscall, SyscallNum};

verus! {

/// The answer to a read request: one key event of its wire size when the
/// keyboard is read into a buffer large enough for it, -1 otherwise.
pub open spec fn read_answer(req: ReadSyscall) -> isize {
    if req.fd == FileDescriptor::KeyEvents && req.len >= KEY_EVENT_SIZE {
        KEY_EVENT_SIZE as isize
    } else {
        -1isize
    }
}

/// The answer to a read request. A non-negative answer means one key event
/// is written to the buffer; the displays cannot be read.
pub fn syscall_read(req: &ReadSyscall) -> (result: isize)
    ensures
        result == read_answer(*req),
{
    match req.fd {
        FileDescriptor::Display => -1,
        FileDescriptor::DisplayChar => -1,
        FileDescriptor::KeyEvents => {
            if req.len < KEY_EVENT_SIZE {
                -1
            } else {
                KEY_EVENT_SIZE as isize
            }
        },
    }
}

/// What a device-control request writes to its output argument.
#[derive(PartialEq, Eq, Structural, Clone, Copy, Debug)]
pub enum IoCtlReply {
    DisplayStat(DisplayStat),
    DisplayCharStat(DisplayCharStat),
}

/// Whether the kernel handles a device-control request: the size query of
/// one of the two displays.
pub open spec fn ioctl_supported(req: IoCtlSyscall) -> bool {
    req.fd != FileDescriptor::KeyEvents && req.op == 0
}

/// What the kernel writes to the output argument of a supported
/// device-control request: the size of the display it names.
pub open spec fn ioctl_reply(req: IoCtlSyscall) -> IoCtlReply {
    if req.fd == FileDescriptor::Display {
        IoCtlReply::DisplayStat(DisplayStat { width: 160, height: 120 })
    } else {
        IoCtlReply::DisplayCharStat(DisplayCharStat { rows: 15, cols: 20 })
    }
}

/// Answers a device-control request: the display's size, written to the
/// output argument, and the answer `OK`.
pub fn syscall_ioctl(req: &IoCtlSyscall) -> (r: (IoCtlReply, ErrNo))
    requires
        ioctl_supported(*req),
    ensures
        req.fd == FileDescriptor::Display ==> r.0 == IoCtlReply::DisplayStat(
            DisplayStat { width: 160, height: 120 },
        ),
        req.fd == FileDescriptor::DisplayChar ==> r.0 == IoCtlReply::DisplayCharStat(
            DisplayCharStat { rows: 15, cols: 20 },
        ),
        r.1 == OK,
        r.0 == ioctl_reply(*req),
{
    match req.fd {
        FileDescriptor::Display => {
            let op = DisplayOperation::try_from_primitive(req.op).unwrap();
            match op {
                DisplayOperation::GetStat => (IoCtlReply::DisplayStat(display_stat()), OK),
            }
        },
        FileDescriptor::DisplayChar => {
            let op = DisplayCharOperation::try_from_primitive(req.op).unwrap();
            match op {
                DisplayCharOperation::GetStat => (
                    IoCtlReply::DisplayCharStat(display_char_stat()),
                    OK,
                ),
            }
        },
        FileDescriptor::KeyEvents => {
            proof {
                assert(false);
            }
            (IoCtlReply::DisplayStat(display_stat()), OK)
        },
    }
}

/// Whether a call gets an answer from the kernel: every call but the null
/// call, which is ignored, and exit, after which the program is restarted.
pub open spec fn call_is_answered(num: SyscallNum) -> bool {
    num != SyscallNum::Null && num != SyscallNum::Exit
}

/// Whether the kernel answers a call.
pub fn answers_call(num: SyscallNum) -> (b: bool)
    ensures
        b == call_is_answered(num),
{
    match num {
        SyscallNum::Null => false,
        SyscallNum::Exit => false,
        _ => true,
    }
}

} // verus!
