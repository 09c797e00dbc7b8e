//! User-space file descriptors: the requests they send to the kernel and
//! what its answers mean.
//!
//! Each request is written into the shared system-call message by a
//! `*_request` function; signalling the kernel and waiting for the answer
//! is the caller's part. The answer is then handed to the function named
//! after the request, which says what it means.
use vstd::prelude::*;
use crate::abi::FileDescriptor;
use crate::errno::{ErrNo, KernelResult, GENERAL, OK};
use crate::request::{
    ioctl_message, r_map_message, r_sync_message, r_unmap_message, read_message, req_ioctl,
    req_r_map, req_r_read, req_r_sync, req_r_unmap,
};
use crate::syscall::{IoCtlSyscall, RMapSyscall, RSyncSyscall, RUnmapSyscall, ReadSyscall, Syscall};

verus! {

/// A descriptor of a memory region registered with a device.
pub type RefDesc = isize;

/// What a read answer means: the number of bytes read, or a general error
/// when it is negative.
pub open spec fn read_outcome(out_read: isize) -> KernelResult<usize> {
    if out_read < 0 {
        Err(GENERAL)
    } else {
        Ok(out_read as usize)
    }
}

/// What a mapping answer means: the new descriptor, or the error it is.
pub open spec fn map_outcome(desc: isize) -> KernelResult<RefDesc> {
    if desc >= 0 {
        Ok(desc)
    } else {
        Err(desc)
    }
}

/// What a sync or un-mapping answer means: success unless negative.
pub open spec fn status_outcome(code: isize) -> KernelResult<()> {
    if code >= 0 {
        Ok(())
    } else {
        Err(code)
    }
}

/// What a device-control answer means: success only for `OK`.
pub open spec fn ioctl_outcome(code: isize) -> KernelResult<()> {
    if code == OK {
        Ok(())
    } else {
        Err(code)
    }
}

/// A file descriptor held by a user program.
pub struct FileDesc {
    descriptor: FileDescriptor,
}

impl FileDesc {
    /// The device this descriptor stands for.
    pub closed spec fn spec_descriptor(&self) -> FileDescriptor {
        self.descriptor
    }

    /// The descriptor of a device.
    pub fn from_fd(fd: FileDescriptor) -> (d: Self)
        ensures
            d.spec_descriptor() == fd,
    {
        FileDesc { descriptor: fd }
    }

    /// Flushing needs no request yet: the kernel writes through.
    pub fn flush(&self) {
    }

    /// Writes a request to read at most `len` bytes into the buffer at
    /// `buf`.
    pub fn read_request(&self, msg: &mut Syscall, buf: usize, len: usize)
        ensures
            *final(msg) == read_message(
                *old(msg),
                ReadSyscall { fd: self.spec_descriptor(), buf, len },
            ),
    {
        req_r_read(msg, ReadSyscall { fd: self.descriptor, buf, len });
    }

    /// The outcome of a read, from the kernel's answer.
    pub fn read(&self, out_read: isize) -> (r: KernelResult<usize>)
        ensures
            r == read_outcome(out_read),
    {
        if out_read < 0 {
            return Err(GENERAL);
        }
        Ok(out_read as usize)
    }

    /// Writes a request to register the `len` elements at the non-zero
    /// address `addr` with this device.
    pub fn r_map_request(&mut self, msg: &mut Syscall, addr: usize, len: usize)
        requires
            addr != 0,
        ensures
            final(self).spec_descriptor() == old(self).spec_descriptor(),
            *final(msg) == r_map_message(
                *old(msg),
                RMapSyscall { addr, len, fd: old(self).spec_descriptor() },
            ),
    {
        req_r_map(msg, RMapSyscall { addr, len, fd: self.descriptor });
    }

    /// The outcome of a mapping request, from the kernel's answer.
    pub fn r_map(&mut self, desc: isize) -> (r: KernelResult<RefDesc>)
        ensures
            r == map_outcome(desc),
            final(self).spec_descriptor() == old(self).spec_descriptor(),
    {
        if desc >= 0 {
            Ok(desc)
        } else {
            Err(desc)
        }
    }

    /// Writes a request to sync the region registered under `ref_desc`.
    pub fn r_sync_request(&mut self, msg: &mut Syscall, ref_desc: RefDesc)
        ensures
            final(self).spec_descriptor() == old(self).spec_descriptor(),
            *final(msg) == r_sync_message(*old(msg), RSyncSyscall { desc: ref_desc }),
    {
        req_r_sync(msg, RSyncSyscall { desc: ref_desc });
    }

    /// The outcome of a sync request, from the kernel's answer.
    pub fn r_sync(&mut self, code: isize) -> (r: KernelResult<()>)
        ensures
            r == status_outcome(code),
            final(self).spec_descriptor() == old(self).spec_descriptor(),
    {
        if code >= 0 {
            Ok(())
        } else {
            Err(code)
        }
    }

    /// Writes a request to un-register the region under `ref_desc`.
    pub fn r_unmap_request(&mut self, msg: &mut Syscall, ref_desc: RefDesc)
        ensures
            final(self).spec_descriptor() == old(self).spec_descriptor(),
            *final(msg) == r_unmap_message(*old(msg), RUnmapSyscall { desc: ref_desc }),
    {
        req_r_unmap(msg, RUnmapSyscall { desc: ref_desc });
    }

    /// The outcome of an un-mapping request, from the kernel's answer.
    pub fn r_unmap(&mut self, code: isize) -> (r: KernelResult<()>)
        ensures
            r == status_outcome(code),
            final(self).spec_descriptor() == old(self).spec_descriptor(),
    {
        if code >= 0 {
            Ok(())
        } else {
            Err(code)
        }
    }

    /// Writes a device-control request: operation `op`, with input and
    /// output arguments at the given addresses.
    pub fn ioctl_request(&self, msg: &mut Syscall, op: usize, in_arg: usize, out_arg: usize)
        ensures
            *final(msg) == ioctl_message(
                *old(msg),
                IoCtlSyscall { fd: self.spec_descriptor(), op, in_arg, out_arg },
            ),
    {
        req_ioctl(msg, IoCtlSyscall { fd: self.descriptor, op, in_arg, out_arg });
    }

    /// The outcome of a device-control request, from the kernel's answer.
    pub fn ioctl(&self, code: ErrNo) -> (r: KernelResult<()>)
        ensures
            r == ioctl_outcome(code),
    {
        if code == OK {
            Ok(())
        } else {
            Err(code)
        }
    }
}

/// What the kernel answers to a mapping request is what the program sees:
/// a descriptor below four comes back as itself, a refusal as the general
/// error.
pub proof fn law_map_answer_outcome(key: usize)
    requires
        key < 4,
    ensures
        map_outcome(key as isize) == Ok::<RefDesc, ErrNo>(key as isize),
        map_outcome(-1isize) == Err::<RefDesc, ErrNo>(GENERAL),
        status_outcome(0isize) == Ok::<(), ErrNo>(()),
        status_outcome(-1isize) == Err::<(), ErrNo>(GENERAL),
{
}

} // verus!
