//! The character display as a user program uses it: claiming the device
//! once, and registering a cell buffer that the kernel flushes on request.
use vstd::prelude::*;
use crate::abi::FileDescriptor;
use crate::display_types::{CharCell, DisplayCharOperation, DisplayCharStat};
use crate::errno::{ErrNo, KernelResult, OK};
use crate::fd::{map_outcome, FileDesc, RefDesc};
use crate::request::{ioctl_message, r_map_message, r_sync_message, r_unmap_message};
use crate::syscall::{IoCtlSyscall, RMapSyscall, RSyncSyscall, RUnmapSyscall, Syscall};

verus! {

#[verifier::external_type_specification]
#[verifier::external_body]
pub struct ExAtomicBool(portable_atomic::AtomicBool);

/// `AtomicBool::compare_exchange(false, true, AcqRel, Acquire)`: whether
/// this call turned the flag from unset to set. Other holders of the flag
/// decide the outcome, so nothing is stated of it.
#[verifier::external_body]
fn claim_flag(flag: &portable_atomic::AtomicBool) -> (claimed: bool) {
    flag.compare_exchange(false, true, portable_atomic::Ordering::AcqRel, portable_atomic::Ordering::Acquire).is_ok()
}

/// `AtomicBool::store(false, Release)`: unsets the flag.
#[verifier::external_body]
fn release_flag(flag: &portable_atomic::AtomicBool) {
    flag.store(false, portable_atomic::Ordering::Release)
}

/// The character display, held by at most one part of the program.
pub struct CharDisplay {}

impl CharDisplay {
    /// Claims the display through the flag that records whether it is
    /// held; `None` when it already is.
    pub fn init(flag: &portable_atomic::AtomicBool) -> (d: Option<CharDisplay>) {
        let claimed = claim_flag(flag);
        Self::from_claim(claimed)
    }

    /// The display when the claim succeeded, `None` otherwise.
    pub fn from_claim(claimed: bool) -> (d: Option<CharDisplay>)
        ensures
            d is Some <==> claimed,
    {
        if claimed {
            Some(CharDisplay {  })
        } else {
            None
        }
    }

    /// Gives the display up: the flag is unset.
    pub fn release(self, flag: &portable_atomic::AtomicBool) {
        release_flag(flag);
    }

    /// Writes the request for the display's size, to be written to the
    /// address `out`.
    pub fn get_stat_request(msg: &mut Syscall, out: usize)
        ensures
            *final(msg) == ioctl_message(
                *old(msg),
                IoCtlSyscall { fd: FileDescriptor::DisplayChar, op: 0, in_arg: 0, out_arg: out },
            ),
    {
        FileDesc::from_fd(FileDescriptor::DisplayChar).ioctl_request(
            msg,
            DisplayCharOperation::GetStat.to_usize(),
            0,
            out,
        );
    }

    /// The display's size, from the kernel's answer and what it wrote.
    pub fn get_stat(code: ErrNo, stat: DisplayCharStat) -> (r: KernelResult<DisplayCharStat>)
        ensures
            code == OK ==> r == Ok::<DisplayCharStat, ErrNo>(stat),
            code != OK ==> r == Err::<DisplayCharStat, ErrNo>(code),
    {
        match FileDesc::from_fd(FileDescriptor::DisplayChar).ioctl(code) {
            Ok(()) => Ok(stat),
            Err(e) => Err(e),
        }
    }

    /// Writes the request to register the `len` cells at the non-zero
    /// address `addr` with the display.
    pub fn register_buffer_request(&self, msg: &mut Syscall, addr: usize, len: usize)
        requires
            addr != 0,
        ensures
            *final(msg) == r_map_message(
                *old(msg),
                RMapSyscall { addr, len, fd: FileDescriptor::DisplayChar },
            ),
    {
        let mut fd = FileDesc::from_fd(FileDescriptor::DisplayChar);
        fd.r_map_request(msg, addr, len);
    }

    /// The registered buffer, from the kernel's answer to the registration.
    pub fn register_buffer(&self, desc: isize, buf: Vec<CharCell>) -> (r: KernelResult<
        CharDisplayBuffer,
    >)
        ensures
            desc >= 0 ==> (r matches Ok(b) && b.spec_ref_desc() == desc && b.spec_cells() == buf@),
            desc < 0 ==> (r matches Err(e) && e == desc),
    {
        CharDisplayBuffer::init(desc, buf)
    }
}

/// A cell buffer registered with the character display.
pub struct CharDisplayBuffer {
    ref_desc: RefDesc,
    inner: Vec<CharCell>,
}

impl CharDisplayBuffer {
    /// The descriptor the kernel gave the buffer.
    pub closed spec fn spec_ref_desc(&self) -> RefDesc {
        self.ref_desc
    }

    /// The buffer's cells.
    pub closed spec fn spec_cells(&self) -> Seq<CharCell> {
        self.inner@
    }

    /// The buffer under the descriptor of a mapping answer, or its error.
    fn init(desc: isize, buf: Vec<CharCell>) -> (r: KernelResult<CharDisplayBuffer>)
        ensures
            desc >= 0 ==> (r matches Ok(b) && b.spec_ref_desc() == desc && b.spec_cells() == buf@),
            desc < 0 ==> (r matches Err(e) && e == desc),
    {
        let mut fd = FileDesc::from_fd(FileDescriptor::DisplayChar);
        let r = fd.r_map(desc);
        assert(r == map_outcome(desc));
        match r {
            Ok(ref_desc) => Ok(CharDisplayBuffer { ref_desc, inner: buf }),
            Err(e) => Err(e),
        }
    }

    /// The descriptor the kernel gave the buffer.
    pub fn ref_desc(&self) -> (d: RefDesc)
        ensures
            d == self.spec_ref_desc(),
    {
        self.ref_desc
    }

    /// The buffer's cells.
    pub fn buffer(&self) -> (cells: &[CharCell])
        ensures
            cells@ == self.spec_cells(),
    {
        self.inner.as_slice()
    }

    /// The buffer's cells, to change them.
    pub fn buffer_mut(&mut self) -> (cells: &mut Vec<CharCell>)
        ensures
            cells@ == old(self).spec_cells(),
            final(self).spec_cells() == final(cells)@,
            final(self).spec_ref_desc() == old(self).spec_ref_desc(),
    {
        &mut self.inner
    }

    /// Writes the request to flush the buffer to the display.
    pub fn sync(&mut self, msg: &mut Syscall)
        ensures
            *final(msg) == r_sync_message(*old(msg), RSyncSyscall { desc: old(self).spec_ref_desc() }),
            final(self).spec_ref_desc() == old(self).spec_ref_desc(),
            final(self).spec_cells() == old(self).spec_cells(),
    {
        FileDesc::from_fd(FileDescriptor::DisplayChar).r_sync_request(msg, self.ref_desc);
    }

    /// Lets `op` change the cells, then writes the request to flush them;
    /// the cells are what `op` left.
    pub fn with_buffer_flushed(&mut self, msg: &mut Syscall, op: impl FnOnce(&mut Vec<CharCell>))
        requires
            forall|cells: &mut Vec<CharCell>| call_requires(op, (cells,)),
        ensures
            *final(msg) == r_sync_message(*old(msg), RSyncSyscall { desc: old(self).spec_ref_desc() }),
            final(self).spec_ref_desc() == old(self).spec_ref_desc(),
            exists|c: &mut Vec<CharCell>|
                (*c)@ == old(self).spec_cells() && (*final(c))@ == final(self).spec_cells()
                    && #[trigger] call_ensures(op, (c,), ()),
    {
        op(&mut self.inner);
        self.sync(msg);
    }

    /// Writes the request to un-register the buffer, and gives the cells
    /// back.
    pub fn release(self, msg: &mut Syscall) -> (cells: Vec<CharCell>)
        ensures
            *final(msg) == r_unmap_message(*old(msg), RUnmapSyscall { desc: self.spec_ref_desc() }),
            cells@ == self.spec_cells(),
    {
        FileDesc::from_fd(FileDescriptor::DisplayChar).r_unmap_request(msg, self.ref_desc);
        self.inner
    }
}

} // verus!
