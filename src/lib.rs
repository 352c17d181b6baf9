//! Domain-separated hashing for Merkle-tree style structures.
//!
//! A leaf digest is the digest of a `0x00` marker followed by the leaf's
//! encoding; a node digest is the digest of a `0x01` marker followed by the
//! encodings of its two children, left first.

pub mod algorithm;
pub mod context;
pub mod hashable;
pub mod laws;
pub mod tree_hash;

pub use algorithm::{sha256_of, DefaultHash, HashAlgorithm, Sha256, EMPTY_HASH_BYTES, HASHBYTES};
pub use context::HashContext;
pub use hashable::Hashable;
pub use tree_hash::{leaf_preimage, node_preimage, TreeHash, LEAF_PREFIX, NODE_PREFIX};
