//! What holds of the inputs fed to the hash function by the tree operations.
//!
//! A digest is a function of the bytes fed to the algorithm, so these laws
//! are stated over those bytes: where two operations feed different bytes,
//! their digests differ unless the algorithm has a collision.

use vstd::prelude::*;

use crate::algorithm::HashAlgorithm;
use crate::hashable::Hashable;
use crate::tree_hash::{leaf_preimage, node_preimage};

verus! {

/// `word` written `count` times in a row.
pub open spec fn repeat(word: Seq<u8>, count: nat) -> Seq<u8>
    decreases count,
{
    if count == 0 {
        Seq::<u8>::empty()
    } else {
        word + repeat(word, (count - 1) as nat)
    }
}

/// Both `x` and `y` are made of copies of one word. Such pairs commute under
/// concatenation, and `lemma_commuting_words` shows that no others do.
pub open spec fn powers_of_common_word(x: Seq<u8>, y: Seq<u8>) -> bool {
    exists|word: Seq<u8>, i: nat, j: nat| x == repeat(word, i) && y == repeat(word, j)
}

proof fn lemma_repeat_add(word: Seq<u8>, i: nat, j: nat)
    ensures
        repeat(word, i) + repeat(word, j) == repeat(word, i + j),
    decreases i,
{
    if i == 0 {
        assert(Seq::<u8>::empty() + repeat(word, j) =~= repeat(word, j));
    } else {
        lemma_repeat_add(word, (i - 1) as nat, j);
        assert(word + repeat(word, (i - 1) as nat) + repeat(word, j) =~= word + (repeat(
            word,
            (i - 1) as nat,
        ) + repeat(word, j)));
        assert((i + j - 1) as nat == (i - 1) as nat + j);
    }
}

/// Two byte strings that commute under concatenation are powers of a common
/// word.
pub proof fn lemma_commuting_words(x: Seq<u8>, y: Seq<u8>)
    requires
        x + y == y + x,
    ensures
        powers_of_common_word(x, y),
    decreases x.len() + y.len(),
{
    if x.len() == 0 {
        assert(x == repeat(y, 0));
        assert(y == repeat(y, 1)) by {
            assert(repeat(y, 0) == Seq::<u8>::empty());
            assert(y + Seq::<u8>::empty() =~= y);
        }
    } else if y.len() == 0 {
        assert(x == repeat(x, 1)) by {
            assert(repeat(x, 0) == Seq::<u8>::empty());
            assert(x + Seq::<u8>::empty() =~= x);
        }
        assert(y == repeat(x, 0));
    } else if x.len() <= y.len() {
        let n = x.len() as int;
        let z = y.subrange(n, y.len() as int);
        assert(y.subrange(0, n) =~= x) by {
            assert forall|k: int| 0 <= k < n implies y[k] == x[k] by {
                assert((x + y)[k] == x[k]);
                assert((y + x)[k] == y[k]);
            }
        }
        assert(y =~= x + z);
        assert(x + z =~= z + x) by {
            assert((x + y).subrange(n, (x + y).len() as int) =~= y);
            assert((y + x).subrange(n, (y + x).len() as int) =~= z + x);
        }
        lemma_commuting_words(x, z);
        let (word, i, j) = choose|word: Seq<u8>, i: nat, j: nat|
            x == repeat(word, i) && z == repeat(word, j);
        lemma_repeat_add(word, i, j);
        assert(y == repeat(word, i + j));
    } else {
        let n = y.len() as int;
        let z = x.subrange(n, x.len() as int);
        assert(x.subrange(0, n) =~= y) by {
            assert forall|k: int| 0 <= k < n implies x[k] == y[k] by {
                assert((x + y)[k] == x[k]);
                assert((y + x)[k] == y[k]);
            }
        }
        assert(x =~= y + z);
        assert(z + y =~= y + z) by {
            assert((x + y).subrange(n, (x + y).len() as int) =~= z + y);
            assert((y + x).subrange(n, (y + x).len() as int) =~= x);
        }
        lemma_commuting_words(z, y);
        let (word, i, j) = choose|word: Seq<u8>, i: nat, j: nat|
            z == repeat(word, i) && y == repeat(word, j);
        lemma_repeat_add(word, j, i);
        assert(x == repeat(word, j + i));
    }
}

/// The plain hash is deterministic: equal inputs give equal digests.
pub proof fn lemma_hash_deterministic<H: HashAlgorithm>(a: Seq<u8>, b: Seq<u8>)
    requires
        a == b,
    ensures
        H::digest_of(a) == H::digest_of(b),
{
}

/// A leaf is hashed over other bytes than its plain encoding, since the
/// leaf marker comes first.
pub proof fn lemma_leaf_input_differs_from_encoding<T: Hashable + ?Sized>(x: &T)
    ensures
        leaf_preimage(x.encoding()) != x.encoding(),
{
    assert(leaf_preimage(x.encoding()).len() == x.encoding().len() + 1);
}

/// Swapping the children of a node changes the bytes it is hashed over,
/// unless the two children's encodings are powers of one common word (which
/// includes equal encodings).
pub proof fn lemma_node_input_order_sensitive<T: Hashable + ?Sized>(a: &T, b: &T)
    requires
        !powers_of_common_word(a.encoding(), b.encoding()),
    ensures
        node_preimage(a.encoding(), b.encoding()) != node_preimage(b.encoding(), a.encoding()),
{
    let ea = a.encoding();
    let eb = b.encoding();
    if node_preimage(ea, eb) == node_preimage(eb, ea) {
        assert(ea + eb =~= node_preimage(ea, eb).subrange(1, node_preimage(ea, eb).len() as int));
        assert(eb + ea =~= node_preimage(eb, ea).subrange(1, node_preimage(eb, ea).len() as int));
        lemma_commuting_words(ea, eb);
    }
}

/// A leaf and a node are never hashed over the same bytes, whatever the
/// encodings: the first byte is the leaf marker for one and the node marker
/// for the other.
pub proof fn lemma_leaf_node_inputs_separated<T: Hashable + ?Sized, U: Hashable + ?Sized>(
    x: &T,
    a: &U,
    b: &U,
)
    ensures
        leaf_preimage(x.encoding()) != node_preimage(a.encoding(), b.encoding()),
{
    assert(leaf_preimage(x.encoding())[0] != node_preimage(a.encoding(), b.encoding())[0]);
}

} // verus!
