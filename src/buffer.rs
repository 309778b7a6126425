//! The fixed-capacity working buffer, held in a `heapless::Vec`.
use vstd::prelude::*;

verus! {

/// Capacity of the working buffer, in bytes.
pub const BUF_SIZE: usize = 18432;

#[verifier::external_type_specification]
#[verifier::external_body]
#[verifier::reject_recursive_types(T)]
pub struct ExHeaplessVec<T, const N: usize>(heapless::Vec<T, N>);

/// The bytes that a working buffer holds, in order.
pub uninterp spec fn buffer_bytes(v: heapless::Vec<u8, 18432>) -> Seq<u8>;

/// Relies on `heapless::Vec::new`: a new vector holds nothing.
#[verifier::external_body]
pub(crate) fn buf_new() -> (r: heapless::Vec<u8, 18432>)
    ensures
        buffer_bytes(r) == Seq::<u8>::empty(),
{
    heapless::Vec::new()
}

/// Relies on `heapless::Vec::clear`: the vector is left empty.
#[verifier::external_body]
pub(crate) fn buf_clear(v: &mut heapless::Vec<u8, 18432>)
    ensures
        buffer_bytes(*final(v)) == Seq::<u8>::empty(),
{
    v.clear()
}

/// Relies on `heapless::Vec::extend_from_slice`: the bytes are appended when
/// they fit in the capacity; otherwise nothing changes and `Err` comes back.
#[verifier::external_body]
pub(crate) fn buf_extend(v: &mut heapless::Vec<u8, 18432>, other: &[u8]) -> (r: Result<(), ()>)
    ensures
        buffer_bytes(*old(v)).len() + other@.len() <= BUF_SIZE <==> r is Ok,
        r is Ok ==> buffer_bytes(*final(v)) == buffer_bytes(*old(v)) + other@,
        r is Err ==> buffer_bytes(*final(v)) == buffer_bytes(*old(v)),
{
    v.extend_from_slice(other)
}

/// Relies on `heapless::Vec::push`: the byte is appended when the vector is
/// not full; otherwise nothing changes and `Err` hands the byte back.
#[verifier::external_body]
pub(crate) fn buf_push(v: &mut heapless::Vec<u8, 18432>, b: u8) -> (r: Result<(), u8>)
    ensures
        buffer_bytes(*old(v)).len() < BUF_SIZE <==> r is Ok,
        r is Ok ==> buffer_bytes(*final(v)) == buffer_bytes(*old(v)).push(b),
        r is Err ==> r->Err_0 == b && buffer_bytes(*final(v)) == buffer_bytes(*old(v)),
{
    v.push(b)
}

/// Relies on `heapless::Vec::as_slice`: the slice holds the vector's bytes.
#[verifier::external_body]
pub(crate) fn buf_as_slice(v: &heapless::Vec<u8, 18432>) -> (r: &[u8])
    ensures
        r@ == buffer_bytes(*v),
{
    v.as_slice()
}

} // verus!
