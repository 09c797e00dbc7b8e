//! The fixed-capacity byte buffer that holds the prompt's text, kept in a
//! `heapless::Vec`. Each function here makes one call into `heapless`; what
//! it states of the call is read from that crate's source.
use vstd::prelude::*;

verus! {

/// Number of bytes the prompt can hold.
pub const PROMPT_BUFFER: usize = 256;

#[verifier::external_type_specification]
#[verifier::external_body]
#[verifier::reject_recursive_types(T)]
pub struct ExHeaplessVec<T, const N: usize>(heapless::Vec<T, N>);

/// The bytes that a prompt buffer holds, in order.
pub uninterp spec fn prompt_bytes(v: heapless::Vec<u8, 256>) -> Seq<u8>;

/// `heapless::Vec::new`: an empty buffer.
#[verifier::external_body]
pub(crate) fn prompt_new() -> (v: heapless::Vec<u8, 256>)
    ensures
        prompt_bytes(v) == Seq::<u8>::empty(),
{
    heapless::Vec::new()
}

/// `heapless::Vec::push`: appends `b` when fewer than 256 bytes are held,
/// otherwise hands `b` back and leaves the buffer as it was.
#[verifier::external_body]
pub(crate) fn prompt_push(v: &mut heapless::Vec<u8, 256>, b: u8) -> (r: Result<(), u8>)
    ensures
        prompt_bytes(*old(v)).len() < 256 ==> r is Ok,
        prompt_bytes(*old(v)).len() < 256 ==> prompt_bytes(*final(v)) == prompt_bytes(*old(v)).push(b),
        prompt_bytes(*old(v)).len() >= 256 ==> (r matches Err(e) && e == b),
        prompt_bytes(*old(v)).len() >= 256 ==> prompt_bytes(*final(v)) == prompt_bytes(*old(v)),
{
    v.push(b)
}

/// `heapless::Vec::pop`: removes and returns the last byte, `None` when the
/// buffer is empty.
#[verifier::external_body]
pub(crate) fn prompt_pop(v: &mut heapless::Vec<u8, 256>) -> (r: Option<u8>)
    ensures
        prompt_bytes(*old(v)).len() > 0 ==> r == Some(prompt_bytes(*old(v)).last()),
        prompt_bytes(*old(v)).len() > 0 ==> prompt_bytes(*final(v)) == prompt_bytes(*old(v)).drop_last(),
        prompt_bytes(*old(v)).len() == 0 ==> r is None,
        prompt_bytes(*old(v)).len() == 0 ==> prompt_bytes(*final(v)) == prompt_bytes(*old(v)),
{
    v.pop()
}

/// `heapless::Vec::clear`: removes every byte.
#[verifier::external_body]
pub(crate) fn prompt_clear(v: &mut heapless::Vec<u8, 256>)
    ensures
        prompt_bytes(*final(v)) == Seq::<u8>::empty(),
{
    v.clear()
}

/// `Clone` of `heapless::Vec`: a buffer with the same bytes.
#[verifier::external_body]
pub(crate) fn prompt_clone(v: &heapless::Vec<u8, 256>) -> (c: heapless::Vec<u8, 256>)
    ensures
        prompt_bytes(c) == prompt_bytes(*v),
{
    v.clone()
}

/// `heapless::Vec::as_slice`: the bytes held, as a slice.
#[verifier::external_body]
pub(crate) fn prompt_as_slice(v: &heapless::Vec<u8, 256>) -> (s: &[u8])
    ensures
        s@ == prompt_bytes(*v),
{
    v.as_slice()
}

} // verus!
