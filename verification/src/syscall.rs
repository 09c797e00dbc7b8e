//! The system-call message that user space and the kernel exchange through
//! shared memory, and the requests it carries.
//!
//! Addresses handed to the kernel are carried as plain machine words.
use vstd::prelude::*;
use crate::abi::FileDescriptor;

verus! {

/// Number of argument words in a system-call message.
pub const NUM_ARGS: usize = 6;

/// The system call that a message asks for.
#[derive(PartialEq, Eq, Structural, Clone, Copy, Debug)]
pub enum SyscallNum {
    Null,
    /// Request early program exit.
    Exit,
    /// Read directly from the given descriptor.
    Read,
    /// Register a user memory mapping to a descriptor.
    RMap,
    /// Un-register a user memory mapping.
    RUnmap,
    /// Sync a user memory mapping with its descriptor.
    RSync,
    /// Manipulate device parameters of a descriptor.
    IoCtl,
}

/// The number that stands for a system call on the wire.
pub open spec fn syscall_number(n: SyscallNum) -> usize {
    match n {
        SyscallNum::Null => 0,
        SyscallNum::Exit => 1,
        SyscallNum::Read => 2,
        SyscallNum::RMap => 3,
        SyscallNum::RUnmap => 4,
        SyscallNum::RSync => 5,
        SyscallNum::IoCtl => 6,
    }
}

/// The system call whose wire number is `n`, if any.
pub open spec fn syscall_from_number(n: usize) -> Option<SyscallNum> {
    if n == 0 {
        Some(SyscallNum::Null)
    } else if n == 1 {
        Some(SyscallNum::Exit)
    } else if n == 2 {
        Some(SyscallNum::Read)
    } else if n == 3 {
        Some(SyscallNum::RMap)
    } else if n == 4 {
        Some(SyscallNum::RUnmap)
    } else if n == 5 {
        Some(SyscallNum::RSync)
    } else if n == 6 {
        Some(SyscallNum::IoCtl)
    } else {
        None
    }
}

impl SyscallNum {
    /// The wire number of this system call.
    pub fn to_usize(self) -> (n: usize)
        ensures
            n == syscall_number(self),
    {
        match self {
            SyscallNum::Null => 0,
            SyscallNum::Exit => 1,
            SyscallNum::Read => 2,
            SyscallNum::RMap => 3,
            SyscallNum::RUnmap => 4,
            SyscallNum::RSync => 5,
            SyscallNum::IoCtl => 6,
        }
    }

    /// The system call whose wire number is `n`, if any.
    pub fn try_from_primitive(n: usize) -> (res: Option<SyscallNum>)
        ensures
            res == syscall_from_number(n),
    {
        if n == 0 {
            Some(SyscallNum::Null)
        } else if n == 1 {
            Some(SyscallNum::Exit)
        } else if n == 2 {
            Some(SyscallNum::Read)
        } else if n == 3 {
            Some(SyscallNum::RMap)
        } else if n == 4 {
            Some(SyscallNum::RUnmap)
        } else if n == 5 {
            Some(SyscallNum::RSync)
        } else if n == 6 {
            Some(SyscallNum::IoCtl)
        } else {
            None
        }
    }
}

/// Decoding the wire number of a system call gives it back.
pub proof fn lemma_syscall_number_roundtrip(n: SyscallNum)
    ensures
        syscall_from_number(syscall_number(n)) == Some(n),
{
}

/// The system-call message in shared memory: the call's number, its
/// argument words and the kernel's answer.
#[derive(Clone, Copy, Debug)]
pub struct Syscall {
    pub num: usize,
    pub args: [usize; 6],
    pub result: isize,
}

/// A read request.
#[derive(PartialEq, Eq, Structural, Clone, Copy, Debug)]
pub struct ReadSyscall {
    pub fd: FileDescriptor,
    /// Address of the buffer to fill.
    pub buf: usize,
    pub len: usize,
}

/// A request to register a user memory mapping.
#[derive(PartialEq, Eq, Structural, Clone, Copy, Debug)]
pub struct RMapSyscall {
    /// Address of the mapped memory.
    pub addr: usize,
    pub len: usize,
    pub fd: FileDescriptor,
}

/// A request to sync a registered mapping.
#[derive(PartialEq, Eq, Structural, Clone, Copy, Debug)]
pub struct RSyncSyscall {
    pub desc: isize,
}

/// A request to un-register a mapping.
#[derive(PartialEq, Eq, Structural, Clone, Copy, Debug)]
pub struct RUnmapSyscall {
    pub desc: isize,
}

/// A device-control request.
#[derive(PartialEq, Eq, Structural, Clone, Copy, Debug)]
pub struct IoCtlSyscall {
    pub fd: FileDescriptor,
    pub op: usize,
    /// Address of the input argument.
    pub in_arg: usize,
    /// Address of the output argument.
    pub out_arg: usize,
}

} // verus!
