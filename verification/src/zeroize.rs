//! A wrapper for byte buffers that zeroes the bytes when it is dropped.

use vstd::prelude::*;

use zeroize::Zeroize;

verus! {

/// All-zero bytes, `len` of them.
pub open spec fn zeros(len: nat) -> Seq<u8> {
    Seq::new(len, |i: int| 0u8)
}

/// Calls the `zeroize` crate's `Zeroize::zeroize` on a byte slice, which writes zero to
/// each byte with volatile writes. Claimed: all bytes are zero afterwards and the length
/// is kept. The crate asserts that the slice holds at most `isize::MAX` bytes, which
/// every slice of bytes does, since no allocation is larger; it opens no invariant.
#[verifier::external_body]
fn zeroize_bytes(bytes: &mut [u8])
    ensures
        final(bytes)@ == zeros(old(bytes)@.len()),
    opens_invariants none
    no_unwind
{
    bytes.zeroize();
}

/// Calls `Vec::as_mut_slice`. Claimed, as std documents: the slice is the whole
/// vector, and what is written through it is what the vector then holds; beyond
/// that, the call opens no invariant and does not unwind, which `drop` needs of
/// every call it makes and which the general specification of `as_mut_slice` does
/// not say.
#[verifier::external_body]
fn vec_bytes_mut(v: &mut Vec<u8>) -> (s: &mut [u8])
    ensures
        s@ == old(v)@,
        final(v)@ == final(s)@,
    opens_invariants none
    no_unwind
{
    v.as_mut_slice()
}

/// Calls `<Box<[u8]> as From<&[u8]>>::from`. Claimed, as std documents: the box is a
/// new allocation that holds a copy of the bytes.
#[verifier::external_body]
fn boxed_copy(bytes: &[u8]) -> (b: Box<[u8]>)
    ensures
        b@ == bytes@,
{
    Box::from(bytes)
}

/// The buffer that a `ZeroizeSlice` wraps: a vector, or a boxed slice.
pub enum ZeroizeBuffer {
    Growable(Vec<u8>),
    Boxed(Box<[u8]>),
}

impl View for ZeroizeBuffer {
    type V = Seq<u8>;

    open spec fn view(&self) -> Seq<u8> {
        match self {
            ZeroizeBuffer::Growable(v) => v@,
            ZeroizeBuffer::Boxed(b) => b@,
        }
    }
}

/// A wrapper for a byte buffer which zeroes the buffer's bytes when it is dropped.
pub struct ZeroizeSlice {
    value: ZeroizeBuffer,
}

impl View for ZeroizeSlice {
    type V = Seq<u8>;

    closed spec fn view(&self) -> Seq<u8> {
        self.value@
    }
}

fn zeroize_buffer(buffer: &mut ZeroizeBuffer)
    ensures
        final(buffer)@ == zeros(old(buffer)@.len()),
        (*final(buffer) is Boxed) == (*old(buffer) is Boxed),
    opens_invariants none
    no_unwind
{
    match buffer {
        ZeroizeBuffer::Growable(v) => {
            let s = vec_bytes_mut(v);
            zeroize_bytes(s);
        },
        ZeroizeBuffer::Boxed(b) => {
            zeroize_bytes(&mut **b);
        },
    }
}

impl ZeroizeSlice {
    /// Wraps `value`.
    pub fn new(value: ZeroizeBuffer) -> (s: Self)
        ensures
            s@ == value@,
            s.is_boxed() == (value is Boxed),
    {
        ZeroizeSlice { value }
    }

    /// Whether the wrapped buffer is a boxed slice.
    pub closed spec fn is_boxed(&self) -> bool {
        self.value is Boxed
    }

    /// The wrapped buffer.
    pub fn as_ref(&self) -> (r: &ZeroizeBuffer)
        ensures
            r@ == self@,
            (r is Boxed) == self.is_boxed(),
    {
        &self.value
    }

    /// The wrapped buffer, to change in place; it stays wrapped.
    pub fn as_mut(&mut self) -> (r: &mut ZeroizeBuffer)
        ensures
            r@ == old(self)@,
            (*r is Boxed) == old(self).is_boxed(),
            final(self)@ == final(r)@,
            final(self).is_boxed() == (*final(r) is Boxed),
    {
        &mut self.value
    }

    /// Zeroes the bytes of the wrapped buffer now, keeping its length.
    pub fn zeroize(&mut self)
        ensures
            final(self)@ == zeros(old(self)@.len()),
            final(self).is_boxed() == old(self).is_boxed(),
    {
        zeroize_buffer(&mut self.value);
    }

    /// The same bytes in a boxed slice, still zeroed when dropped. The bytes are
    /// copied into an allocation of exactly their size; the buffer they came from is
    /// dropped here, which zeroes it before it is freed.
    pub fn into_boxed_slice(self) -> (b: ZeroizeSlice)
        ensures
            b@ == self@,
            b.is_boxed(),
    {
        let copy = match &self.value {
            ZeroizeBuffer::Growable(v) => boxed_copy(v.as_slice()),
            ZeroizeBuffer::Boxed(bytes) => boxed_copy(&**bytes),
        };
        ZeroizeSlice::new(ZeroizeBuffer::Boxed(copy))
    }
}

impl std::ops::Deref for ZeroizeSlice {
    type Target = ZeroizeBuffer;

    fn deref(&self) -> (r: &ZeroizeBuffer)
        ensures
            r@ == self@,
    {
        &self.value
    }
}

impl Drop for ZeroizeSlice {
    fn drop(&mut self)
        ensures
            final(self)@ == zeros(old(self)@.len()),
        opens_invariants none
        no_unwind
    {
        zeroize_buffer(&mut self.value);
    }
}

} // verus!
