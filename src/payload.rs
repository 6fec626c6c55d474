//! The uplink payload: a fixed-capacity byte buffer that sensor records are
//! appended to, held in a `heapless::Vec`.
use vstd::prelude::*;

verus! {

/// Number of bytes the uplink payload can hold.
pub const PAYLOAD_CAPACITY: usize = 33;

/// Declares `heapless::Vec`, a vector with inline storage for `N` elements,
/// so that it can stand in fields and signatures; its contents are opaque.
#[verifier::external_type_specification]
#[verifier::external_body]
#[verifier::reject_recursive_types(T)]
pub struct ExHeaplessVec<T, const N: usize>(heapless::Vec<T, N>);

/// The bytes held by a payload buffer, in order.
pub uninterp spec fn buffer_bytes(v: heapless::Vec<u8, 33>) -> Seq<u8>;

/// Relies on `heapless::Vec::new`: a new vector is empty.
#[verifier::external_body]
fn buffer_new() -> (r: heapless::Vec<u8, 33>)
    ensures
        buffer_bytes(r) == Seq::<u8>::empty(),
{
    heapless::Vec::new()
}

/// Relies on `heapless::Vec::clear`: it truncates the vector to length zero,
/// and dropping `u8` elements cannot panic.
#[verifier::external_body]
fn buffer_clear(v: &mut heapless::Vec<u8, 33>)
    ensures
        buffer_bytes(*final(v)) == Seq::<u8>::empty(),
    no_unwind
{
    v.clear()
}

/// Relies on `heapless::Vec::extend_from_slice`: when the slice fits in the
/// remaining capacity its elements are appended in order, otherwise nothing
/// changes and `Err(())` is returned. It checks the capacity before writing,
/// so it cannot panic.
#[verifier::external_body]
fn buffer_extend(v: &mut heapless::Vec<u8, 33>, other: &[u8]) -> (r: Result<(), ()>)
    ensures
        buffer_bytes(*old(v)).len() + other@.len() <= 33 ==> (r is Ok && buffer_bytes(*final(v))
            == buffer_bytes(*old(v)) + other@),
        buffer_bytes(*old(v)).len() + other@.len() > 33 ==> (r is Err && buffer_bytes(*final(v))
            == buffer_bytes(*old(v))),
    no_unwind
{
    v.extend_from_slice(other)
}

/// Relies on `heapless::Vec::as_slice`: the slice holds the vector's elements.
#[verifier::external_body]
fn buffer_as_slice(v: &heapless::Vec<u8, 33>) -> (r: &[u8])
    ensures
        r@ == buffer_bytes(*v),
{
    v.as_slice()
}

/// Uplink payload buffer. Its length never exceeds [`PAYLOAD_CAPACITY`].
pub struct Payload {
    buf: heapless::Vec<u8, 33>,
}

impl Payload {
    /// The bytes of the payload.
    pub closed spec fn view(&self) -> Seq<u8> {
        buffer_bytes(self.buf)
    }

    #[verifier::type_invariant]
    spec fn within_capacity(&self) -> bool {
        buffer_bytes(self.buf).len() <= PAYLOAD_CAPACITY
    }

    pub fn new() -> (r: Payload)
        ensures
            r.view() == Seq::<u8>::empty(),
    {
        Payload { buf: buffer_new() }
    }

    pub fn clear(&mut self)
        ensures
            final(self).view() == Seq::<u8>::empty(),
        no_unwind
    {
        buffer_clear(&mut self.buf);
    }

    /// Appends a record. The record must fit in the remaining capacity.
    pub fn append(&mut self, record: &[u8])
        requires
            old(self).view().len() + record@.len() <= PAYLOAD_CAPACITY,
        ensures
            final(self).view() == old(self).view() + record@,
        no_unwind
    {
        let _ = buffer_extend(&mut self.buf, record);
    }

    pub fn as_slice(&self) -> (r: &[u8])
        ensures
            r@ == self.view(),
            r@.len() <= PAYLOAD_CAPACITY,
    {
        proof {
            use_type_invariant(self);
        }
        buffer_as_slice(&self.buf)
    }
}

} // verus!
