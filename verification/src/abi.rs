//! Values shared by the kernel and user programs: file descriptors and the
//! kind of inter-core message.
use vstd::prelude::*;

verus! {

/// A device exposed by the kernel to user programs.
#[derive(PartialEq, Eq, Structural, Clone, Copy, Debug)]
pub enum FileDescriptor {
    KeyEvents,
    Display,
    DisplayChar,
}

/// The number that stands for a file descriptor on the wire.
pub open spec fn fd_number(fd: FileDescriptor) -> usize {
    match fd {
        FileDescriptor::KeyEvents => 0,
        FileDescriptor::Display => 1,
        FileDescriptor::DisplayChar => 2,
    }
}

/// The descriptor whose wire number is `n`, if any.
pub open spec fn fd_from_number(n: usize) -> Option<FileDescriptor> {
    if n == 0 {
        Some(FileDescriptor::KeyEvents)
    } else if n == 1 {
        Some(FileDescriptor::Display)
    } else if n == 2 {
        Some(FileDescriptor::DisplayChar)
    } else {
        None
    }
}

impl FileDescriptor {
    /// The wire number of this descriptor.
    pub fn to_usize(self) -> (n: usize)
        ensures
            n == fd_number(self),
    {
        match self {
            FileDescriptor::KeyEvents => 0,
            FileDescriptor::Display => 1,
            FileDescriptor::DisplayChar => 2,
        }
    }

    /// The descriptor whose wire number is `n`, if there is one.
    pub fn try_from_primitive(n: usize) -> (res: Option<FileDescriptor>)
        ensures
            res == fd_from_number(n),
    {
        if n == 0 {
            Some(FileDescriptor::KeyEvents)
        } else if n == 1 {
            Some(FileDescriptor::Display)
        } else if n == 2 {
            Some(FileDescriptor::DisplayChar)
        } else {
            None
        }
    }
}

/// Kind of a message sent between the two cores.
#[derive(PartialEq, Eq, Structural, Clone, Copy, Debug)]
pub enum KComType {
    Syscall,
}

/// The number that stands for a message kind in the inter-core FIFO.
pub open spec fn kcom_number(k: KComType) -> u32 {
    match k {
        KComType::Syscall => 0,
    }
}

impl KComType {
    /// The FIFO word of this message kind.
    pub fn to_u32(self) -> (w: u32)
        ensures
            w == kcom_number(self),
    {
        match self {
            KComType::Syscall => 0,
        }
    }

    /// The message kind that a FIFO word stands for, if any.
    pub fn try_from_primitive(word: u32) -> (res: Option<KComType>)
        ensures
            res matches Some(k) ==> kcom_number(k) == word,
            res is None <==> word != 0,
    {
        if word == 0 {
            Some(KComType::Syscall)
        } else {
            None
        }
    }
}

/// The table handed to a user program at start.
pub struct KernelAbi {}

/// Decoding the wire number of a descriptor gives it back, and only the
/// numbers of descriptors decode.
pub proof fn lemma_fd_number_roundtrip(fd: FileDescriptor, n: usize)
    ensures
        fd_from_number(fd_number(fd)) == Some(fd),
        fd_from_number(n) matches Some(d) ==> fd_number(d) == n,
{
}

} // verus!
