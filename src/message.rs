//! The accumulator that reassembles received frames into one message for
//! the main loop, held in a fixed-capacity `heapless::Vec`.
use vstd::prelude::*;

verus! {

/// Bytes that one message can hold.
pub const MESSAGE_CAPACITY: usize = 100;

#[verifier::external_type_specification]
#[verifier::external_body]
#[verifier::reject_recursive_types(T)]
pub struct ExHeaplessVec<T, const N: usize>(heapless::Vec<T, N>);

/// The bytes that a message accumulator holds.
pub uninterp spec fn message_bytes(m: heapless::Vec<u8, 100>) -> Seq<u8>;

/// Relies on `heapless::Vec::new`: an empty vector.
#[verifier::external_body]
pub(crate) fn message_new() -> (r: heapless::Vec<u8, 100>)
    ensures
        message_bytes(r) == Seq::<u8>::empty(),
{
    heapless::Vec::new()
}

/// Relies on `heapless::Vec::extend_from_slice`: appends all of `bytes`
/// when they fit within the capacity, and otherwise changes nothing and
/// reports the failure.
#[verifier::external_body]
pub(crate) fn message_extend(m: &mut heapless::Vec<u8, 100>, bytes: &[u8]) -> (r: bool)
    ensures
        r == (message_bytes(*old(m)).len() + bytes@.len() <= MESSAGE_CAPACITY),
        r ==> message_bytes(*final(m)) == message_bytes(*old(m)) + bytes@,
        !r ==> message_bytes(*final(m)) == message_bytes(*old(m)),
{
    m.extend_from_slice(bytes).is_ok()
}

/// Relies on `heapless::Vec::as_slice`: the bytes held, in order.
#[verifier::external_body]
pub(crate) fn message_slice(m: &heapless::Vec<u8, 100>) -> (r: &[u8])
    ensures
        r@ == message_bytes(*m),
{
    m.as_slice()
}

/// Relies on `heapless::Vec::clear`: nothing is left.
#[verifier::external_body]
pub(crate) fn message_clear(m: &mut heapless::Vec<u8, 100>)
    ensures
        message_bytes(*final(m)) == Seq::<u8>::empty(),
{
    m.clear()
}

} // verus!
