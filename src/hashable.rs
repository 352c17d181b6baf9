//! Values that can feed their canonical bytes to a hash computation.

use vstd::prelude::*;

use vstd::utf8::encode_utf8;

use crate::context::HashContext;

verus! {

/// A value that can be hashed as a tree leaf or as a child of a tree node.
///
/// `encoding` is the value's canonical byte representation, and
/// `update_context` appends exactly those bytes to a context. Byte-like
/// types append their bytes verbatim; other types serialise their fields
/// in a fixed order.
pub trait Hashable {
    /// The canonical bytes of the value.
    spec fn encoding(&self) -> Seq<u8>;

    /// Appends the value's canonical bytes to `context`.
    fn update_context(&self, context: &mut HashContext)
        ensures
            final(context)@ == old(context)@ + self.encoding(),
    ;
}

impl Hashable for [u8] {
    open spec fn encoding(&self) -> Seq<u8> {
        self@
    }

    fn update_context(&self, context: &mut HashContext) {
        context.update(self);
    }
}

impl Hashable for Vec<u8> {
    open spec fn encoding(&self) -> Seq<u8> {
        self@
    }

    fn update_context(&self, context: &mut HashContext) {
        context.update(self.as_slice());
    }
}

impl<const N: usize> Hashable for [u8; N] {
    open spec fn encoding(&self) -> Seq<u8> {
        self@
    }

    fn update_context(&self, context: &mut HashContext) {
        context.update(self.as_slice());
    }
}

impl Hashable for str {
    /// The UTF-8 bytes of the string.
    open spec fn encoding(&self) -> Seq<u8> {
        encode_utf8(self@)
    }

    fn update_context(&self, context: &mut HashContext) {
        context.update(self.as_bytes());
    }
}

impl Hashable for String {
    /// The UTF-8 bytes of the string.
    open spec fn encoding(&self) -> Seq<u8> {
        encode_utf8(self@)
    }

    fn update_context(&self, context: &mut HashContext) {
        context.update(self.as_str().as_bytes());
    }
}

impl<'a, T: Hashable + ?Sized> Hashable for &'a T {
    /// A reference hashes as the value it points to.
    open spec fn encoding(&self) -> Seq<u8> {
        (**self).encoding()
    }

    fn update_context(&self, context: &mut HashContext) {
        (**self).update_context(context);
    }
}

} // verus!
