use tree_hash::{
    DefaultHash, HashAlgorithm, HashContext, Hashable, Sha256, TreeHash, EMPTY_HASH_BYTES,
    HASHBYTES, LEAF_PREFIX, NODE_PREFIX,
};

const ABC_DIGEST: [u8; 32] = [
    186, 120, 22, 191, 143, 1, 207, 234, 65, 65, 64, 222, 93, 174, 34, 35, 176, 3, 97, 163, 150,
    23, 122, 156, 180, 16, 255, 97, 242, 0, 21, 173,
];

const LEAF_A_DIGEST: [u8; 32] = [
    2, 42, 105, 121, 230, 218, 183, 170, 90, 228, 195, 229, 228, 95, 126, 151, 113, 18, 167, 230,
    53, 147, 130, 13, 190, 193, 236, 115, 138, 36, 249, 60,
];

const NODE_A_B_DIGEST: [u8; 32] = [
    23, 4, 4, 224, 84, 64, 244, 80, 98, 196, 35, 5, 45, 90, 220, 251, 44, 157, 84, 110, 207, 203,
    32, 34, 214, 195, 74, 244, 116, 219, 175, 24,
];

#[test]
fn empty_hash_matches_constant() {
    let digest = DefaultHash::hash(&[]);
    assert_eq!(digest, EMPTY_HASH_BYTES.to_vec());
}

#[test]
fn empty_hash_is_known_sha256_vector() {
    let expected: [u8; 32] = [
        0xe3, 0xb0, 0xc4, 0x42, 0x98, 0xfc, 0x1c, 0x14, 0x9a, 0xfb, 0xf4, 0xc8, 0x99, 0x6f, 0xb9,
        0x24, 0x27, 0xae, 0x41, 0xe4, 0x64, 0x9b, 0x93, 0x4c, 0xa4, 0x95, 0x99, 0x1b, 0x78, 0x52,
        0xb8, 0x55,
    ];
    assert_eq!(Sha256::hash(&[]), expected.to_vec());
    assert_eq!(EMPTY_HASH_BYTES, expected);
}

#[test]
fn hash_of_abc_is_known_sha256_vector() {
    assert_eq!(Sha256::hash(b"abc"), ABC_DIGEST.to_vec());
    assert_eq!(Sha256::digest(b"abc"), ABC_DIGEST.to_vec());
}

#[test]
fn hash_is_deterministic() {
    let input: Vec<u8> = (0..200u32).map(|i| (i * 7 % 256) as u8).collect();
    assert_eq!(Sha256::hash(&input), Sha256::hash(&input));
    assert_eq!(Sha256::hash_leaf(&input), Sha256::hash_leaf(&input));
    assert_eq!(Sha256::hash_nodes("x", "y"), Sha256::hash_nodes("x", "y"));
}

#[test]
fn digest_length_is_fixed() {
    assert_eq!(HASHBYTES, 32);
    for len in [0usize, 1, 31, 32, 33, 55, 56, 64, 65, 1000, 100_000] {
        let input = vec![0xabu8; len];
        assert_eq!(Sha256::hash(&input).len(), HASHBYTES);
        assert_eq!(Sha256::hash_leaf(&input).len(), HASHBYTES);
        assert_eq!(Sha256::hash_nodes(&input, &input).len(), HASHBYTES);
    }
}

#[test]
fn markers_are_distinct_single_bytes() {
    assert_eq!(LEAF_PREFIX, 0x00);
    assert_eq!(NODE_PREFIX, 0x01);
}

#[test]
fn leaf_hash_is_hash_of_marked_content() {
    assert_eq!(Sha256::hash_leaf("a"), LEAF_A_DIGEST.to_vec());
    assert_eq!(Sha256::hash_leaf("a"), Sha256::hash(&[0x00, b'a']));
}

#[test]
fn leaf_hash_differs_from_plain_hash() {
    for content in [&b"a"[..], &b"abc"[..], &[0u8][..], &[1u8, 2, 3][..]] {
        assert_ne!(Sha256::hash_leaf(content), Sha256::hash(content));
    }
    assert_ne!(Sha256::hash_leaf(&[0u8; 0][..]), Sha256::hash(&[]));
}

#[test]
fn node_hash_is_hash_of_marked_children() {
    assert_eq!(Sha256::hash_nodes("a", "b"), NODE_A_B_DIGEST.to_vec());
    assert_eq!(Sha256::hash_nodes("a", "b"), Sha256::hash(&[0x01, b'a', b'b']));
}

#[test]
fn node_hash_is_order_sensitive() {
    let left = Sha256::hash_leaf("left");
    let right = Sha256::hash_leaf("right");
    assert_ne!(
        Sha256::hash_nodes(&left, &right),
        Sha256::hash_nodes(&right, &left)
    );
    assert_ne!(Sha256::hash_nodes("a", "bc"), Sha256::hash_nodes("bc", "a"));
}

#[test]
fn node_hash_of_equal_children_is_symmetric() {
    let child = Sha256::hash_leaf("same");
    assert_eq!(
        Sha256::hash_nodes(&child, &child),
        Sha256::hash_nodes(&child, &child)
    );
    assert_eq!(Sha256::hash_nodes("a", "aa"), Sha256::hash_nodes("aa", "a"));
}

#[test]
fn leaf_and_node_are_separated() {
    // A leaf whose content imitates the bytes of a node.
    let a = [7u8, 8];
    let b = [9u8];
    let forged: Vec<u8> = vec![0x01, 7, 8, 9];
    assert_ne!(Sha256::hash_leaf(&forged), Sha256::hash_nodes(&a[..], &b[..]));
    let joined: Vec<u8> = vec![7, 8, 9];
    assert_ne!(Sha256::hash_leaf(&joined), Sha256::hash_nodes(&a[..], &b[..]));
    assert_eq!(Sha256::hash(&forged), Sha256::hash_nodes(&a[..], &b[..]));
}

#[test]
fn leaves_and_nodes_of_a_and_b_all_differ() {
    let leaf_a = Sha256::hash_leaf("a");
    let leaf_b = Sha256::hash_leaf("b");
    let node_ab = Sha256::hash_nodes("a", "b");
    let node_ba = Sha256::hash_nodes("b", "a");
    assert_ne!(leaf_a, leaf_b);
    assert_ne!(leaf_a, node_ab);
    assert_ne!(leaf_a, node_ba);
    assert_ne!(leaf_b, node_ab);
    assert_ne!(leaf_b, node_ba);
    assert_ne!(node_ab, node_ba);
}

#[test]
fn byte_like_values_hash_alike() {
    let expected = Sha256::hash_leaf(&b"abc"[..]);
    let as_vec: Vec<u8> = b"abc".to_vec();
    let as_array: [u8; 3] = *b"abc";
    let as_string: String = String::from("abc");
    assert_eq!(Sha256::hash_leaf(&as_vec), expected);
    assert_eq!(Sha256::hash_leaf(&as_array), expected);
    assert_eq!(Sha256::hash_leaf(&as_string), expected);
    assert_eq!(Sha256::hash_leaf("abc"), expected);
    assert_eq!(Sha256::hash_leaf(&"abc"), expected);
}

#[test]
fn string_hashes_as_utf8_bytes() {
    let text = "h\u{e9}";
    assert_eq!(Sha256::hash_leaf(text), Sha256::hash(&[0x00, b'h', 0xc3, 0xa9]));
}

#[test]
fn context_collects_bytes_in_order() {
    let mut context = HashContext::new();
    assert_eq!(context.as_bytes(), &[] as &[u8]);
    context.update(&[1, 2]);
    context.update(&[]);
    context.update(&[3]);
    assert_eq!(context.as_bytes(), &[1u8, 2, 3][..]);
    "ab".update_context(&mut context);
    vec![9u8].update_context(&mut context);
    assert_eq!(context.as_bytes(), &[1u8, 2, 3, b'a', b'b', 9][..]);
}
