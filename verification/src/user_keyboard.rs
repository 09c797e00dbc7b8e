//! Reading key events in a user program.
use vstd::prelude::*;
use crate::abi::FileDescriptor;
use crate::errno::{KernelResult, GENERAL};
use crate::fd::FileDesc;
use crate::keyboard_types::{key_event_of_bytes, KeyEvent, KEY_EVENT_SIZE};
use crate::fd::read_outcome;
use crate::kernel_syscall::read_answer;
use crate::key_tracker::{wire_event, KeyEvent as DriverKeyEvent};
use crate::keyboard_types::key_event_bytes;
use crate::request::read_message;
use crate::syscall::{ReadSyscall, Syscall};

verus! {

/// What reading a key event gives: the read's own error, a general error
/// when the kernel did not deliver exactly one event or delivered bytes
/// that are no event, otherwise the event.
pub open spec fn key_read_outcome(read: KernelResult<usize>, bytes: Seq<u8>) -> KernelResult<
    KeyEvent,
> {
    match read {
        Err(e) => Err(e),
        Ok(n) => if n != KEY_EVENT_SIZE {
            Err(GENERAL)
        } else {
            match key_event_of_bytes(bytes) {
                Some(ev) => Ok(ev),
                None => Err(GENERAL),
            }
        },
    }
}

/// Access to the keyboard device.
pub struct KeyboardRaw {}

impl KeyboardRaw {
    /// The keyboard device.
    pub fn new() -> (k: KeyboardRaw) {
        KeyboardRaw {  }
    }

    /// Writes the request to read one key event into the buffer at `buf`.
    pub fn read_key_request(&self, msg: &mut Syscall, buf: usize)
        ensures
            *final(msg) == read_message(
                *old(msg),
                ReadSyscall { fd: FileDescriptor::KeyEvents, buf, len: KEY_EVENT_SIZE },
            ),
    {
        FileDesc::from_fd(FileDescriptor::KeyEvents).read_request(msg, buf, KEY_EVENT_SIZE);
    }

    /// The key event read, from the read's outcome and the bytes the kernel
    /// wrote to the buffer.
    pub fn read_key_blocking(&self, read: KernelResult<usize>, bytes: &[u8; 4]) -> (r:
        KernelResult<KeyEvent>)
        ensures
            r == key_read_outcome(read, bytes@),
    {
        let n = match read {
            Err(e) => {
                return Err(e);
            },
            Ok(n) => n,
        };
        if n != KEY_EVENT_SIZE {
            Err(GENERAL)
        } else {
            match KeyEvent::from_bytes(bytes) {
                Some(ev) => Ok(ev),
                None => Err(GENERAL),
            }
        }
    }
}

/// A key event that the keyboard driver produced reaches the program
/// unchanged: the kernel answers the program's read request with one event,
/// the read succeeds with the event's size, and the bytes written decode to
/// the event.
pub proof fn law_key_event_delivery(buf: usize, e: DriverKeyEvent)
    ensures
        ({
            let req = ReadSyscall { fd: FileDescriptor::KeyEvents, buf, len: KEY_EVENT_SIZE };
            let answer = read_answer(req);
            &&& answer == KEY_EVENT_SIZE as isize
            &&& read_outcome(answer) == Ok::<usize, isize>(KEY_EVENT_SIZE)
            &&& key_read_outcome(read_outcome(answer), key_event_bytes(wire_event(e)))
                == Ok::<KeyEvent, isize>(wire_event(e))
        }),
{
}

} // verus!
