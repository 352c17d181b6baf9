//! A hash computation context: the bytes fed to a digest, in order.

use vstd::prelude::*;

verus! {

/// An in-progress hash computation. Bytes are appended with `update` and the
/// digest of everything appended so far is taken by a `HashAlgorithm`.
pub struct HashContext {
    bytes: Vec<u8>,
}

impl View for HashContext {
    type V = Seq<u8>;

    /// The bytes fed to this context so far.
    closed spec fn view(&self) -> Seq<u8> {
        self.bytes@
    }
}

impl HashContext {
    /// A fresh context that has been fed nothing.
    pub fn new() -> (r: HashContext)
        ensures
            r@ == Seq::<u8>::empty(),
    {
        HashContext { bytes: Vec::new() }
    }

    /// Appends `data` to what the context has been fed.
    pub fn update(&mut self, data: &[u8])
        ensures
            final(self)@ == old(self)@ + data@,
    {
        let ghost start = self@;
        let mut i: usize = 0;
        while i < data.len()
            invariant
                i <= data@.len(),
                self@ == start + data@.subrange(0, i as int),
            decreases data@.len() - i,
        {
            self.bytes.push(data[i]);
            i = i + 1;
            assert(data@.subrange(0, i as int) == data@.subrange(0, i - 1) + seq![data@[i - 1]]);
        }
        assert(data@.subrange(0, data@.len() as int) == data@);
    }

    /// Everything fed to the context so far.
    pub fn as_bytes(&self) -> (r: &[u8])
        ensures
            r@ == self@,
    {
        self.bytes.as_slice()
    }
}

} // verus!
