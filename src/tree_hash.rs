//! Leaf and node hashing with domain separation.

use vstd::prelude::*;

use crate::algorithm::HashAlgorithm;
use crate::context::HashContext;
use crate::hashable::Hashable;

verus! {

/// The byte fed before a leaf's content.
pub const LEAF_PREFIX: u8 = 0x00;

/// The byte fed before a node's children.
pub const NODE_PREFIX: u8 = 0x01;

/// The bytes whose digest is the digest of a leaf with content `content`.
pub open spec fn leaf_preimage(content: Seq<u8>) -> Seq<u8> {
    seq![LEAF_PREFIX] + content
}

/// The bytes whose digest is the digest of a node with children `left` and
/// `right`.
pub open spec fn node_preimage(left: Seq<u8>, right: Seq<u8>) -> Seq<u8> {
    seq![NODE_PREFIX] + left + right
}

/// The hashing operations of a Merkle tree.
pub trait TreeHash: HashAlgorithm {
    /// The digest of `input` as given, with no marker.
    fn hash(input: &[u8]) -> (r: Vec<u8>)
        ensures
            r@ == Self::digest_of(input@),
            r@.len() == Self::output_len(),
    ;

    /// The digest of a leaf: the leaf marker followed by the leaf's bytes.
    fn hash_leaf<T: Hashable + ?Sized>(leaf: &T) -> (r: Vec<u8>)
        ensures
            r@ == Self::digest_of(leaf_preimage(leaf.encoding())),
            r@.len() == Self::output_len(),
    ;

    /// The digest of a node: the node marker followed by the bytes of the
    /// left child, then those of the right child.
    fn hash_nodes<T: Hashable + ?Sized>(left: &T, right: &T) -> (r: Vec<u8>)
        ensures
            r@ == Self::digest_of(node_preimage(left.encoding(), right.encoding())),
            r@.len() == Self::output_len(),
    ;
}

impl<H: HashAlgorithm> TreeHash for H {
    fn hash(input: &[u8]) -> (r: Vec<u8>) {
        let mut context = HashContext::new();
        context.update(input);
        assert(context@ == input@);
        Self::digest(context.as_bytes())
    }

    fn hash_leaf<T: Hashable + ?Sized>(leaf: &T) -> (r: Vec<u8>) {
        let mut context = HashContext::new();
        context.update(&[LEAF_PREFIX]);
        leaf.update_context(&mut context);
        assert(context@ == leaf_preimage(leaf.encoding()));
        Self::digest(context.as_bytes())
    }

    fn hash_nodes<T: Hashable + ?Sized>(left: &T, right: &T) -> (r: Vec<u8>) {
        let mut context = HashContext::new();
        context.update(&[NODE_PREFIX]);
        left.update_context(&mut context);
        right.update_context(&mut context);
        assert(context@ == node_preimage(left.encoding(), right.encoding()));
        Self::digest(context.as_bytes())
    }
}

} // verus!
