//! The storage cell: a fixed-size byte buffer that holds the byte
//! representation of exactly one value.

use vstd::prelude::*;

verus! {

/// A buffer of `SIZE` bytes whose first `len` bytes are the live value.
/// What lies behind them is padding and is never handed out.
#[derive(Clone, Copy)]
pub struct StorageCell<const SIZE: usize> {
    bytes: [u8; SIZE],
    len: usize,
}

impl<const SIZE: usize> View for StorageCell<SIZE> {
    type V = Seq<u8>;

    /// The bytes of the value that the cell holds.
    closed spec fn view(&self) -> Seq<u8> {
        self.bytes@.take(self.len as int)
    }
}

impl<const SIZE: usize> StorageCell<SIZE> {
    #[verifier::type_invariant]
    spec fn inv(&self) -> bool {
        self.len <= SIZE
    }

    /// Writes the bytes of a value into a fresh cell.
    pub fn write(src: &[u8]) -> (r: Self)
        requires
            src@.len() <= SIZE,
        ensures
            r@ == src@,
            r.spec_len() == src@.len(),
    {
        let mut bytes = [0u8; SIZE];
        let n = src.len();
        let mut i: usize = 0;
        while i < n
            invariant
                n == src@.len(),
                n <= SIZE,
                i <= n,
                bytes@.len() == SIZE,
                forall|j: int| 0 <= j < i ==> bytes@[j] == src@[j],
            decreases n - i,
        {
            bytes[i] = src[i];
            i = i + 1;
        }
        let r = StorageCell { bytes, len: n };
        assert(r@ =~= src@);
        r
    }

    /// The number of bytes of the value.
    pub closed spec fn spec_len(&self) -> usize {
        self.len
    }

    /// The number of bytes of the value.
    #[verifier::when_used_as_spec(spec_len)]
    pub fn len(&self) -> (r: usize)
        ensures
            r == self.spec_len(),
            r == self@.len(),
            r <= SIZE,
    {
        proof {
            use_type_invariant(self);
        }
        self.len
    }

    /// The bytes of the value, read-only.
    pub fn as_slice(&self) -> (r: &[u8])
        ensures
            r@ == self@,
    {
        proof {
            use_type_invariant(self);
        }
        vstd::slice::slice_subrange(self.bytes.as_slice(), 0, self.len)
    }

    /// The bytes of the value, for writing in place. The value keeps its
    /// length; its bytes become what the borrower leaves behind.
    pub fn as_mut_slice(&mut self) -> (r: &mut [u8])
        ensures
            r@ == old(self)@,
            final(r)@.len() == old(self)@.len(),
            final(self)@ == final(r)@,
            final(self).spec_len() == old(self).spec_len(),
    {
        proof {
            use_type_invariant(&*self);
        }
        let n = self.len;
        let whole: &mut [u8] = &mut self.bytes;
        assert(final(whole)@.len() == SIZE);
        let (head, tail) = whole.split_at_mut(n);
        // The tail is left as it is, so the head keeps its length.
        assert(final(tail)@ == tail@);
        assert((final(head)@ + final(tail)@).take(n as int) =~= final(head)@);
        head
    }
}

} // verus!
