//! The kernel's table of reference descriptors: user memory regions that a
//! program registered with a device, kept in a `tryslab` slab of four
//! slots, and the kernel's handling of the map, un-map and sync requests.
use vstd::prelude::*;
use crate::abi::FileDescriptor;
use crate::syscall::{RMapSyscall, RSyncSyscall, RUnmapSyscall};

verus! {

/// Number of descriptors the table holds at once.
pub const RD_TABLE_SLOTS: usize = 4;

/// The address of a registered region; never zero.
#[derive(PartialEq, Eq, Structural, Clone, Copy, Debug)]
pub struct RawPtr(pub usize);

impl RawPtr {
    /// The address, when it is not zero.
    pub fn new(addr: usize) -> (p: Option<RawPtr>)
        ensures
            p is Some <==> addr != 0,
            p matches Some(r) ==> r.0 == addr,
    {
        if addr == 0 {
            None
        } else {
            Some(RawPtr(addr))
        }
    }

    /// The address.
    pub fn as_ptr(&self) -> (addr: usize)
        ensures
            addr == self.0,
    {
        self.0
    }
}

/// A registered region: where it starts, its length in elements and the
/// device it belongs to.
#[derive(PartialEq, Eq, Structural, Clone, Copy, Debug)]
pub struct RdTableEntry {
    pub addr: RawPtr,
    pub len: usize,
    pub fd: FileDescriptor,
}

#[verifier::external_type_specification]
#[verifier::external_body]
#[verifier::reject_recursive_types(T)]
pub struct ExDequeSlab<T, const N: usize>(tryslab::heapless::DequeSlab<T, N>);

/// The entries of the slab by key.
pub uninterp spec fn slab_entries(s: tryslab::heapless::DequeSlab<RdTableEntry, 4>) -> Map<
    usize,
    RdTableEntry,
>;

/// The slab's freed slots, in the order they are reused: the slot freed
/// earliest comes first.
pub uninterp spec fn slab_free(s: tryslab::heapless::DequeSlab<RdTableEntry, 4>) -> Seq<usize>;

/// Number of slots the slab has handed out so far and not given back from
/// its end: filled slots and freed slots below the highest filled one.
pub uninterp spec fn slab_slots(s: tryslab::heapless::DequeSlab<RdTableEntry, 4>) -> nat;

/// No freed slot.
pub open spec fn no_free_slots() -> Seq<usize> {
    Seq::empty()
}

/// A table with no entry.
pub open spec fn no_entries() -> Map<usize, RdTableEntry> {
    Map::empty()
}

/// The slab's own invariant, over its entries `m`, its freed slots `free`
/// and the number of slots it has handed out `slots`: at most four slots;
/// every entry under a slot handed out; the freed slots distinct, handed
/// out and empty; and each slot handed out either filled or freed.
pub open spec fn slab_inv(m: Map<usize, RdTableEntry>, free: Seq<usize>, slots: nat) -> bool {
    &&& slots <= 4
    &&& m.dom().finite()
    &&& forall|k: usize| #[trigger] m.dom().contains(k) ==> k < slots
    &&& free.no_duplicates()
    &&& forall|j: int| 0 <= j < free.len() ==> #[trigger] free[j] < slots && !m.dom().contains(free[j])
    &&& m.dom().len() + free.len() == slots
}

/// The invariant of the slab `s`.
pub open spec fn slab_valid(s: tryslab::heapless::DequeSlab<RdTableEntry, 4>) -> bool {
    slab_inv(slab_entries(s), slab_free(s), slab_slots(s))
}

/// `DequeSlab::new`: an empty slab.
#[verifier::external_body]
fn slab_new() -> (s: tryslab::heapless::DequeSlab<RdTableEntry, 4>)
    ensures
        slab_entries(s) == no_entries(),
        slab_free(s) == no_free_slots(),
        slab_slots(s) == 0,
        slab_valid(s),
{
    tryslab::heapless::DequeSlab::new()
}

/// `Slab::try_insert` of `DequeSlab`: stores the entry under the slot freed
/// earliest, or, when none is freed, under a new slot after the last one,
/// and returns that key; fails, leaving the slab as it was, when all four
/// slots are taken.
#[verifier::external_body]
fn slab_try_insert(s: &mut tryslab::heapless::DequeSlab<RdTableEntry, 4>, e: RdTableEntry) -> (r:
    Result<usize, ()>)
    requires
        slab_valid(*old(s)),
    ensures
        slab_valid(*final(s)),
        r is Err <==> slab_entries(*old(s)).dom().len() == 4,
        r is Err ==> slab_entries(*final(s)) == slab_entries(*old(s)),
        r matches Ok(k) ==> k < 4 && !slab_entries(*old(s)).dom().contains(k),
        r matches Ok(k) ==> slab_entries(*final(s)) == slab_entries(*old(s)).insert(k, e),
        r is Err ==> slab_free(*final(s)) == slab_free(*old(s)) && slab_slots(*final(s)) == slab_slots(*old(s)),
        slab_free(*old(s)).len() > 0 ==> (r matches Ok(k) ==> k == slab_free(*old(s))[0]),
        r is Ok && slab_free(*old(s)).len() > 0 ==> slab_free(*final(s)) == slab_free(*old(s)).drop_first(),
        r is Ok && slab_free(*old(s)).len() > 0 ==> slab_slots(*final(s)) == slab_slots(*old(s)),
        slab_free(*old(s)).len() == 0 ==> (r matches Ok(k) ==> k == slab_slots(*old(s))),
        r is Ok && slab_free(*old(s)).len() == 0 ==> slab_free(*final(s)) == slab_free(*old(s)),
        r is Ok && slab_free(*old(s)).len() == 0 ==> slab_slots(*final(s)) == slab_slots(*old(s)) + 1,
{
    tryslab::Slab::try_insert(s, e)
}

/// `Slab::try_remove` of `DequeSlab`: removes and returns the entry under
/// `key`, `None` when there is none.
#[verifier::external_body]
fn slab_try_remove(s: &mut tryslab::heapless::DequeSlab<RdTableEntry, 4>, key: usize) -> (r: Option<
    RdTableEntry,
>)
    requires
        slab_valid(*old(s)),
    ensures
        slab_valid(*final(s)),
        slab_entries(*old(s)).dom().contains(key) ==> r == Some(slab_entries(*old(s))[key]),
        slab_entries(*old(s)).dom().contains(key) ==> slab_entries(*final(s)) == slab_entries(
            *old(s),
        ).remove(key),
        !slab_entries(*old(s)).dom().contains(key) ==> r is None,
        !slab_entries(*old(s)).dom().contains(key) ==> slab_entries(*final(s)) == slab_entries(
            *old(s),
        ),
        !slab_entries(*old(s)).dom().contains(key) ==> slab_free(*final(s)) == slab_free(*old(s)),
        !slab_entries(*old(s)).dom().contains(key) ==> slab_slots(*final(s)) == slab_slots(*old(s)),
        slab_entries(*old(s)).dom().contains(key) && key + 1 == slab_slots(*old(s)) ==> slab_slots(*final(s)) == key,
        slab_entries(*old(s)).dom().contains(key) && key + 1 == slab_slots(*old(s)) ==> slab_free(*final(s)) == slab_free(*old(s)),
        slab_entries(*old(s)).dom().contains(key) && key + 1 != slab_slots(*old(s)) ==> slab_slots(*final(s)) == slab_slots(*old(s)),
        slab_entries(*old(s)).dom().contains(key) && key + 1 != slab_slots(*old(s)) ==> slab_free(*final(s)) == slab_free(*old(s)).push(key),
{
    tryslab::Slab::try_remove(s, key)
}

/// `Slab::get` of `DequeSlab`: the entry under `key`, if any.
#[verifier::external_body]
fn slab_get(s: &tryslab::heapless::DequeSlab<RdTableEntry, 4>, key: usize) -> (r: Option<
    RdTableEntry,
>)
    ensures
        r == (if slab_entries(*s).dom().contains(key) {
            Some(slab_entries(*s)[key])
        } else {
            None
        }),
{
    tryslab::Slab::get(s, key).copied()
}

/// `Slab::used` of `DequeSlab`: the number of entries held, which the slab
/// counts as its slots handed out less its freed ones.
#[verifier::external_body]
fn slab_used(s: &tryslab::heapless::DequeSlab<RdTableEntry, 4>) -> (n: usize)
    requires
        slab_valid(*s),
    ensures
        n == slab_entries(*s).dom().len(),
{
    tryslab::Slab::used(s)
}

/// `Slab::clear` of `DequeSlab`: removes every entry.
#[verifier::external_body]
fn slab_clear(s: &mut tryslab::heapless::DequeSlab<RdTableEntry, 4>)
    ensures
        slab_entries(*final(s)) == no_entries(),
        slab_free(*final(s)) == no_free_slots(),
        slab_slots(*final(s)) == 0,
        slab_valid(*final(s)),
{
    tryslab::Slab::clear(s)
}

/// The kernel's table of reference descriptors.
pub struct RdTable {
    slab: tryslab::heapless::DequeSlab<RdTableEntry, 4>,
}

/// The key a descriptor number names; negative numbers wrap to large keys.
pub open spec fn desc_key(desc: isize) -> usize {
    desc as usize
}

impl RdTable {
    /// The registered regions by descriptor.
    pub closed spec fn entries(&self) -> Map<usize, RdTableEntry> {
        slab_entries(self.slab)
    }

    /// The freed descriptors, in the order they are handed out again.
    pub closed spec fn free_slots(&self) -> Seq<usize> {
        slab_free(self.slab)
    }

    /// The descriptor handed out next when no freed one is waiting.
    pub closed spec fn slot_count(&self) -> nat {
        slab_slots(self.slab)
    }

    /// The descriptor a successful registration gets: the one freed
    /// earliest, or else the next new one.
    pub open spec fn next_desc(&self) -> usize {
        if self.free_slots().len() > 0 {
            self.free_slots()[0]
        } else {
            self.slot_count() as usize
        }
    }

    /// The table's invariant, that of its slab: at most four descriptors
    /// handed out, each registered or freed, and the freed ones distinct.
    pub open spec fn wf(&self) -> bool {
        slab_inv(self.entries(), self.free_slots(), self.slot_count())
    }

    /// An empty table.
    pub fn new() -> (t: RdTable)
        ensures
            t.wf(),
            t.entries() == no_entries(),
            t.free_slots() == no_free_slots(),
            t.slot_count() == 0,
    {
        let t = RdTable { slab: slab_new() };
        assert(t.entries().dom() =~= Set::<usize>::empty());
        t
    }

    /// Forgets every registered region.
    pub fn clear(&mut self)
        ensures
            final(self).wf(),
            final(self).entries() == no_entries(),
            final(self).free_slots() == no_free_slots(),
            final(self).slot_count() == 0,
    {
        slab_clear(&mut self.slab);
        assert(self.entries().dom() =~= Set::<usize>::empty());
    }

    /// The number of registered regions.
    pub fn used(&self) -> (n: usize)
        requires
            self.wf(),
        ensures
            n == self.entries().dom().len(),
    {
        slab_used(&self.slab)
    }

    /// The region registered under `desc`, if any.
    pub fn get(&self, desc: usize) -> (r: Option<RdTableEntry>)
        ensures
            r == (if self.entries().dom().contains(desc) {
                Some(self.entries()[desc])
            } else {
                None
            }),
    {
        slab_get(&self.slab, desc)
    }

    /// Handles a mapping request: a region of the character display at a
    /// non-zero address gets a new descriptor, which is the answer; any
    /// other request is refused with -1 and leaves the table as it was.
    pub fn syscall_r_map(&mut self, req: RMapSyscall) -> (result: isize)
        requires
            old(self).wf(),
            map_accepted(req) ==> old(self).entries().dom().len() < 4,
        ensures
            final(self).wf(),
            result == map_answer(*old(self), req),
            map_done(*old(self), *final(self), req),
            map_accepted(req) ==> 0 <= result < 4 && !old(self).entries().dom().contains(
                result as usize,
            ),
    {
        match req.fd {
            FileDescriptor::DisplayChar => {
                let addr = match RawPtr::new(req.addr) {
                    Some(p) => p,
                    None => {
                        return -1;
                    },
                };
                let inserted = slab_try_insert(
                    &mut self.slab,
                    RdTableEntry { addr, len: req.len, fd: req.fd },
                );
                let key = inserted.unwrap();
                key as isize
            },
            _ => -1,
        }
    }

    /// Handles an un-mapping request: 0 when the descriptor was registered,
    /// which it then no longer is; -1 otherwise.
    pub fn syscall_r_unmap(&mut self, req: RUnmapSyscall) -> (result: isize)
        requires
            old(self).wf(),
        ensures
            final(self).wf(),
            result == unmap_answer(old(self).entries(), req.desc),
            unmap_done(*old(self), *final(self), req.desc),
    {
        let r = slab_try_remove(&mut self.slab, req.desc as usize);
        proof {
            if !old(self).entries().dom().contains(desc_key(req.desc)) {
                assert(old(self).entries().remove(desc_key(req.desc)) =~= old(self).entries());
            }
        }
        match r {
            Some(_) => 0,
            None => -1,
        }
    }

    /// Handles a sync request for a registered descriptor: the region to
    /// flush to the character display and the answer 0 when it belongs to
    /// that display; no region and -1 otherwise.
    pub fn syscall_r_sync(&self, req: RSyncSyscall) -> (r: (isize, Option<RdTableEntry>))
        requires
            self.entries().dom().contains(desc_key(req.desc)),
        ensures
            r == sync_answer(self.entries(), req.desc),
    {
        let rd_ref = self.get(req.desc as usize).unwrap();
        match rd_ref.fd {
            FileDescriptor::DisplayChar => (0, Some(rd_ref)),
            _ => (-1, None),
        }
    }
}

/// Whether a mapping request is one the kernel registers: a region of the
/// character display at a non-zero address.
pub open spec fn map_accepted(req: RMapSyscall) -> bool {
    req.fd == FileDescriptor::DisplayChar && req.addr != 0
}

/// The answer to a mapping request: the descriptor it gets when the kernel
/// registers it, -1 otherwise.
pub open spec fn map_answer(t: RdTable, req: RMapSyscall) -> isize {
    if map_accepted(req) {
        t.next_desc() as isize
    } else {
        -1isize
    }
}

/// How a mapping request changes the table `t` into `u`: a registered
/// request is stored under the descriptor it gets, which leaves the freed
/// ones or, when none was waiting, is added after the others; a refused one
/// changes nothing.
pub open spec fn map_done(t: RdTable, u: RdTable, req: RMapSyscall) -> bool {
    if map_accepted(req) {
        &&& u.entries() == t.entries().insert(t.next_desc(), entry_of_request(req))
        &&& t.free_slots().len() > 0 ==> u.free_slots() == t.free_slots().drop_first()
            && u.slot_count() == t.slot_count()
        &&& t.free_slots().len() == 0 ==> u.free_slots() == t.free_slots() && u.slot_count()
            == t.slot_count() + 1
    } else {
        u == t
    }
}

/// How un-mapping `desc` changes the table `t` into `u`: the descriptor is
/// no longer registered; the last one handed out is taken back, any other
/// one joins the end of the freed ones; an unknown one changes nothing.
pub open spec fn unmap_done(t: RdTable, u: RdTable, desc: isize) -> bool {
    let k = desc_key(desc);
    &&& u.entries() == t.entries().remove(k)
    &&& !t.entries().dom().contains(k) ==> u.free_slots() == t.free_slots() && u.slot_count()
        == t.slot_count()
    &&& t.entries().dom().contains(k) && k + 1 == t.slot_count() ==> u.free_slots()
        == t.free_slots() && u.slot_count() == k
    &&& t.entries().dom().contains(k) && k + 1 != t.slot_count() ==> u.free_slots()
        == t.free_slots().push(k) && u.slot_count() == t.slot_count()
}

/// The entry a mapping request registers.
pub open spec fn entry_of_request(req: RMapSyscall) -> RdTableEntry {
    RdTableEntry { addr: RawPtr(req.addr), len: req.len, fd: req.fd }
}

/// The answer to un-mapping `desc`: 0 when it is registered, -1 otherwise.
pub open spec fn unmap_answer(entries: Map<usize, RdTableEntry>, desc: isize) -> isize {
    if entries.dom().contains(desc_key(desc)) {
        0isize
    } else {
        -1isize
    }
}

/// The answer to syncing the registered descriptor `desc`, with the region
/// to flush.
pub open spec fn sync_answer(entries: Map<usize, RdTableEntry>, desc: isize) -> (
    isize,
    Option<RdTableEntry>,
) {
    if entries[desc_key(desc)].fd == FileDescriptor::DisplayChar {
        (0, Some(entries[desc_key(desc)]))
    } else {
        (-1isize, None)
    }
}

/// A region just registered under a descriptor is the one that a sync of
/// that descriptor flushes.
pub proof fn law_map_then_sync(entries: Map<usize, RdTableEntry>, key: usize, req: RMapSyscall)
    requires
        map_accepted(req),
        key < 4,
    ensures
        sync_answer(entries.insert(key, entry_of_request(req)), key as isize) == (
            0isize,
            Some(entry_of_request(req)),
        ),
{
    assert(desc_key(key as isize) == key) by (bit_vector)
        requires
            key < 4,
    ;
}

/// A descriptor un-maps once: a second un-mapping of it is refused.
pub proof fn law_unmap_twice(entries: Map<usize, RdTableEntry>, desc: isize)
    requires
        entries.dom().contains(desc_key(desc)),
    ensures
        unmap_answer(entries, desc) == 0,
        unmap_answer(entries.remove(desc_key(desc)), desc) == -1,
{
}

/// Un-mapping a descriptor just registered succeeds and leaves the table
/// as it was before the registration.
pub proof fn law_map_then_unmap(entries: Map<usize, RdTableEntry>, key: usize, req: RMapSyscall)
    requires
        key < 4,
        !entries.dom().contains(key),
    ensures
        unmap_answer(entries.insert(key, entry_of_request(req)), key as isize) == 0,
        entries.insert(key, entry_of_request(req)).remove(desc_key(key as isize)) == entries,
{
    assert(desc_key(key as isize) == key) by (bit_vector)
        requires
            key < 4,
    ;
    assert(entries.insert(key, entry_of_request(req)).remove(key) =~= entries);
}

} // verus!
