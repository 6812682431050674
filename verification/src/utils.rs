//! Incremental double-SHA256 hashing of a byte stream.

use vstd::prelude::*;

use crate::backend::sha256;
use crate::backend::sha256_of;

verus! {

/// Accumulates written bytes and produces their double-SHA256 digest.
pub struct Hash256Writer {
    internal: Vec<u8>,
}

impl Hash256Writer {
    /// The bytes written so far.
    pub closed spec fn buffered(&self) -> Seq<u8> {
        self.internal@
    }

    /// A writer that has seen no bytes.
    pub fn new() -> (r: Self)
        ensures
            r.buffered() == Seq::<u8>::empty(),
    {
        let r = Hash256Writer { internal: Vec::new() };
        assert(r.buffered() =~= Seq::<u8>::empty());
        r
    }

    /// Feed bytes to the writer; every byte is consumed.
    pub fn write(&mut self, buf: &[u8]) -> (r: usize)
        ensures
            final(self).buffered() == old(self).buffered() + buf@,
            r == buf@.len(),
    {
        crate::bytes::push_all(&mut self.internal, buf);
        buf.len()
    }

    /// Flushing is a no-op: every written byte is already buffered.
    pub fn flush(&mut self)
        ensures
            final(self).buffered() == old(self).buffered(),
    {
    }

    /// Consume the writer and produce the double-SHA256 of everything
    /// written.
    pub fn finish(self) -> (r: Vec<u8>)
        ensures
            r@ == sha256_of(sha256_of(self.buffered())),
            r@.len() == 32,
    {
        let first = sha256(self.internal.as_slice());
        sha256(first.as_slice())
    }
}

impl Default for Hash256Writer {
    /// A writer that has seen no bytes.
    fn default() -> (r: Self)
        ensures
            r.buffered() == Seq::<u8>::empty(),
    {
        Hash256Writer::new()
    }
}

} // verus!
