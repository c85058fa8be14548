use roby::MerkleProof;
use roby::compute_merkle_root;
use roby::hash_leaf;
use roby::hash_pair;

#[test]
fn test_merkle_proof_verification() {
    let leaf1 = hash_leaf(b"credential_1");
    let leaf2 = hash_leaf(b"credential_2");
    let leaf3 = hash_leaf(b"credential_3");
    let leaf4 = hash_leaf(b"credential_4");

    let leaves = vec![leaf1, leaf2, leaf3, leaf4];
    let root = compute_merkle_root(&leaves);

    let proof_for_leaf1 = vec![leaf2, hash_pair(&leaf3, &leaf4)];

    let merkle_proof = MerkleProof {
        proof: proof_for_leaf1,
        leaf: leaf1,
    };

    assert!(merkle_proof.verify(&root));
}

#[test]
fn test_invalid_proof() {
    let leaf1 = hash_leaf(b"credential_1");
    let leaf2 = hash_leaf(b"credential_2");

    let leaves = vec![leaf1, leaf2];
    let root = compute_merkle_root(&leaves);

    let wrong_proof = vec![hash_leaf(b"wrong")];
    let merkle_proof = MerkleProof {
        proof: wrong_proof,
        leaf: leaf1,
    };

    assert!(!merkle_proof.verify(&root));
}

#[test]
fn empty_root_is_all_zero() {
    let leaves: Vec<[u8; 32]> = Vec::new();
    assert_eq!(compute_merkle_root(&leaves), [0u8; 32]);
}

#[test]
fn single_leaf_root_is_the_leaf() {
    let leaf = hash_leaf(b"only");
    assert_eq!(compute_merkle_root(&[leaf]), leaf);
}

#[test]
fn keccak_of_empty_input_matches_known_vector() {
    // The published Keccak-256 digest of the empty string.
    let expected: [u8; 32] = [
        0xc5, 0xd2, 0x46, 0x01, 0x86, 0xf7, 0x23, 0x3c, 0x92, 0x7e, 0x7d, 0xb2, 0xdc, 0xc7, 0x03,
        0xc0, 0xe5, 0x00, 0xb6, 0x53, 0xca, 0x82, 0x27, 0x3b, 0x7b, 0xfa, 0xd8, 0x04, 0x5d, 0x85,
        0xa4, 0x70,
    ];
    assert_eq!(hash_leaf(b""), expected);
}

#[test]
fn hash_pair_depends_on_order() {
    let a = hash_leaf(b"a");
    let b = hash_leaf(b"b");
    assert_ne!(hash_pair(&a, &b), hash_pair(&b, &a));
}

#[test]
fn odd_level_promotes_unpaired_leaf() {
    let a = hash_leaf(b"left");
    let b = hash_leaf(b"right");
    let c = hash_leaf(b"odd one out");
    let root = compute_merkle_root(&[a, b, c]);
    // The unpaired third leaf is carried to the next level unchanged...
    assert_eq!(root, hash_pair(&hash_pair(&a, &b), &c));
    // ...not paired with itself.
    let self_paired = hash_pair(&hash_pair(&a, &b), &hash_pair(&c, &c));
    assert_ne!(root, self_paired);
}

/// Four leaves arranged so that every level is pairwise sorted, which the
/// by-value ordering rule of `verify` requires of a proof generator.
fn sorted_four_leaves() -> Vec<[u8; 32]> {
    let mut leaves = vec![
        hash_leaf(b"credential_a"),
        hash_leaf(b"credential_b"),
        hash_leaf(b"credential_c"),
        hash_leaf(b"credential_d"),
    ];
    leaves.sort();
    if hash_pair(&leaves[0], &leaves[1]) > hash_pair(&leaves[2], &leaves[3]) {
        leaves.swap(0, 2);
        leaves.swap(1, 3);
    }
    leaves
}

fn path_for(leaves: &[[u8; 32]], i: usize) -> Vec<[u8; 32]> {
    let sibling = if i % 2 == 0 { leaves[i + 1] } else { leaves[i - 1] };
    let other_pair = if i < 2 {
        hash_pair(&leaves[2], &leaves[3])
    } else {
        hash_pair(&leaves[0], &leaves[1])
    };
    vec![sibling, other_pair]
}

#[test]
fn every_leaf_verifies_with_its_derived_path() {
    let leaves = sorted_four_leaves();
    let root = compute_merkle_root(&leaves);
    for i in 0..4 {
        let merkle_proof = MerkleProof {
            proof: path_for(&leaves, i),
            leaf: leaves[i],
        };
        assert!(merkle_proof.verify(&root));
    }
}

#[test]
fn one_flipped_bit_in_any_proof_element_fails() {
    let leaves = sorted_four_leaves();
    let root = compute_merkle_root(&leaves);
    for i in 0..4 {
        for element in 0..2 {
            let mut proof = path_for(&leaves, i);
            proof[element][7] ^= 0x01;
            let merkle_proof = MerkleProof {
                proof,
                leaf: leaves[i],
            };
            assert!(!merkle_proof.verify(&root));
        }
    }
}
