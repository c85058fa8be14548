use vstd::prelude::*;

use crate::state::Key;

verus! {

/// The Keccak-256 digest of a byte string. The digest is a function of the
/// input bytes alone; nothing further is assumed of it.
pub uninterp spec fn keccak_of(data: Seq<u8>) -> Seq<u8>;

/// Relies on solana_program::keccak::hash: the Keccak-256 digest of the
/// input bytes, and on Hash::to_bytes, which only unwraps the 32-byte array.
#[verifier::external_body]
fn keccak32(data: &[u8]) -> (r: Key)
    ensures
        r@ == keccak_of(data@),
{
    solana_program::keccak::hash(data).to_bytes()
}

/// Unsigned byte-lexicographic order: the first differing byte decides;
/// a prefix orders before every extension of it.
pub open spec fn lex_le(a: Seq<u8>, b: Seq<u8>) -> bool
    decreases a.len(),
{
    if a.len() == 0 {
        true
    } else if b.len() == 0 {
        false
    } else if a[0] < b[0] {
        true
    } else if a[0] > b[0] {
        false
    } else {
        lex_le(a.skip(1), b.skip(1))
    }
}

/// The ordered pairwise combine: Keccak-256 of the 64-byte concatenation.
pub open spec fn spec_hash_pair(a: Seq<u8>, b: Seq<u8>) -> Seq<u8> {
    keccak_of(a + b)
}

/// The byte strings of a list of 32-byte values, element for element.
pub open spec fn views_of(s: Seq<Key>) -> Seq<Seq<u8>> {
    Seq::new(s.len(), |i: int| s[i]@)
}

/// Folding a leaf up an authentication path: at each step the current value
/// and the next path element are combined smaller-first.
pub open spec fn fold_path(leaf: Seq<u8>, path: Seq<Seq<u8>>) -> Seq<u8>
    decreases path.len(),
{
    if path.len() == 0 {
        leaf
    } else {
        let next = if lex_le(leaf, path[0]) {
            spec_hash_pair(leaf, path[0])
        } else {
            spec_hash_pair(path[0], leaf)
        };
        fold_path(next, path.skip(1))
    }
}

/// One level of bottom-up tree building: adjacent elements are paired in
/// position order; an unpaired trailing element is promoted unchanged.
pub open spec fn combine_level(level: Seq<Seq<u8>>) -> Seq<Seq<u8>> {
    Seq::new(
        ((level.len() + 1) / 2) as nat,
        |i: int|
            if 2 * i + 1 < level.len() {
                spec_hash_pair(level[2 * i], level[2 * i + 1])
            } else {
                level[2 * i]
            },
    )
}

/// The all-zero 32-byte value: the root of the empty tree.
pub open spec fn zero_hash() -> Seq<u8> {
    Seq::new(32, |i: int| 0u8)
}

/// The Merkle root of a list of leaves: levels are combined bottom-up until
/// one value is left; no leaves give the all-zero value.
pub open spec fn merkle_root_of(leaves: Seq<Seq<u8>>) -> Seq<u8>
    decreases leaves.len(),
{
    if leaves.len() == 0 {
        zero_hash()
    } else if leaves.len() == 1 {
        leaves[0]
    } else {
        merkle_root_of(combine_level(leaves))
    }
}

/// Law: the root of no leaves is the all-zero value.
pub proof fn lemma_root_of_empty()
    ensures
        merkle_root_of(Seq::<Seq<u8>>::empty()) == zero_hash(),
{
}

/// Law: the root of a single leaf is that leaf itself.
pub proof fn lemma_root_of_single(leaf: Seq<u8>)
    ensures
        merkle_root_of(seq![leaf]) == leaf,
{
}

/// Law: at an odd-length level the unpaired last element is promoted to the
/// next level unchanged, not paired with itself.
pub proof fn lemma_odd_level_promotes_last(level: Seq<Seq<u8>>)
    requires
        level.len() % 2 == 1,
    ensures
        combine_level(level).len() == (level.len() + 1) / 2,
        combine_level(level).last() == level.last(),
{
    let half: int = (level.len() as int + 1) / 2;
    assert(2 * (half - 1) == level.len() - 1);
    assert(combine_level(level)[half - 1] == level[level.len() - 1]);
}

/// Lexicographic order is antisymmetric: two byte strings each at most the
/// other are equal.
proof fn lemma_lex_antisym(a: Seq<u8>, b: Seq<u8>)
    requires
        lex_le(a, b),
        lex_le(b, a),
    ensures
        a == b,
    decreases a.len(),
{
    if a.len() == 0 {
        assert(b.len() == 0);
        assert(a =~= b);
    } else {
        assert(b.len() != 0);
        lemma_lex_antisym(a.skip(1), b.skip(1));
        assert forall|j: int| 0 <= j < a.len() implies a[j] == b[j] by {
            if j > 0 {
                assert(a.skip(1)[j - 1] == a[j]);
                assert(b.skip(1)[j - 1] == b[j]);
            }
        }
        assert(a =~= b);
    }
}

/// The authentication path derived for the leaf at position `i`: the sibling
/// at each level, bottom-up; an unpaired trailing element contributes no
/// path element at its level.
pub open spec fn auth_path(leaves: Seq<Seq<u8>>, i: int) -> Seq<Seq<u8>>
    decreases leaves.len(),
{
    if leaves.len() <= 1 {
        Seq::empty()
    } else {
        let rest = auth_path(combine_level(leaves), i / 2);
        if i % 2 == 0 {
            if i + 1 < leaves.len() {
                seq![leaves[i + 1]] + rest
            } else {
                rest
            }
        } else {
            seq![leaves[i - 1]] + rest
        }
    }
}

/// At this level and every level above it, each adjacent pair stands in
/// lexicographic order, left at most right.
pub open spec fn levels_sorted(leaves: Seq<Seq<u8>>) -> bool
    decreases leaves.len(),
{
    if leaves.len() <= 1 {
        true
    } else {
        (forall|k: int|
            0 <= k && 2 * k + 1 < leaves.len() ==> #[trigger] lex_le(
                leaves[2 * k],
                leaves[2 * k + 1],
            )) && levels_sorted(combine_level(leaves))
    }
}

/// Law: in a tree whose levels are everywhere pairwise ordered, the derived
/// authentication path of each leaf folds back to exactly the root, so
/// `verify` accepts it. Sorting is needed because verification orders each
/// pair by value while tree building pairs by position.
pub proof fn lemma_auth_path_verifies(leaves: Seq<Seq<u8>>, i: int)
    requires
        0 <= i < leaves.len(),
        levels_sorted(leaves),
    ensures
        fold_path(leaves[i], auth_path(leaves, i)) == merkle_root_of(leaves),
    decreases leaves.len(),
{
    if leaves.len() <= 1 {
    } else {
        let next = combine_level(leaves);
        let k = i / 2;
        let rest = auth_path(next, k);
        assert(next.len() == (leaves.len() + 1) / 2);
        assert(0 <= k && k < next.len());
        lemma_auth_path_verifies(next, k);
        if i % 2 == 0 {
            assert(2 * k == i);
            if i + 1 < leaves.len() {
                let sib = leaves[i + 1];
                assert(lex_le(leaves[2 * k], leaves[2 * k + 1]));
                let path = seq![sib] + rest;
                assert(auth_path(leaves, i) == path);
                assert(path.len() > 0);
                assert(path[0] == sib);
                assert(path.skip(1) =~= rest);
                assert(next[k] == spec_hash_pair(leaves[2 * k], leaves[2 * k + 1]));
                assert(fold_path(leaves[i], path) == fold_path(next[k], rest));
            } else {
                assert(auth_path(leaves, i) == rest);
                assert(2 * k + 1 >= leaves.len());
                assert(next[k] == leaves[2 * k]);
            }
        } else {
            assert(2 * k + 1 == i);
            let sib = leaves[i - 1];
            assert(sib == leaves[2 * k]);
            assert(lex_le(leaves[2 * k], leaves[2 * k + 1]));
            let path = seq![sib] + rest;
            assert(auth_path(leaves, i) == path);
            assert(path.len() > 0);
            assert(path[0] == sib);
            assert(path.skip(1) =~= rest);
            assert(next[k] == spec_hash_pair(leaves[2 * k], leaves[2 * k + 1]));
            if lex_le(leaves[i], sib) {
                lemma_lex_antisym(leaves[i], sib);
                assert(leaves[i] == sib);
                assert(fold_path(leaves[i], path) == fold_path(
                    spec_hash_pair(leaves[i], sib),
                    rest,
                ));
                assert(spec_hash_pair(leaves[i], sib) == next[k]);
            } else {
                assert(fold_path(leaves[i], path) == fold_path(
                    spec_hash_pair(sib, leaves[i]),
                    rest,
                ));
            }
        }
    }
}

/// Compares two 32-byte values in unsigned byte-lexicographic order.
fn lex_le_exec(a: &Key, b: &Key) -> (r: bool)
    ensures
        r == lex_le(a@, b@),
{
    let mut i: usize = 0;
    proof {
        assert(a@.skip(0) =~= a@);
        assert(b@.skip(0) =~= b@);
    }
    while i < 32
        invariant
            i <= 32,
            lex_le(a@, b@) == lex_le(a@.skip(i as int), b@.skip(i as int)),
        decreases 32 - i,
    {
        proof {
            assert(a@.skip(i as int)[0] == a@[i as int]);
            assert(b@.skip(i as int)[0] == b@[i as int]);
        }
        if a[i] < b[i] {
            return true;
        }
        if a[i] > b[i] {
            return false;
        }
        proof {
            assert(a@.skip(i as int).skip(1) =~= a@.skip(i as int + 1));
            assert(b@.skip(i as int).skip(1) =~= b@.skip(i as int + 1));
        }
        i = i + 1;
    }
    proof {
        assert(a@.skip(32).len() == 0);
    }
    true
}

/// Derives a leaf commitment: the Keccak-256 hash of the raw bytes.
pub fn hash_leaf(data: &[u8]) -> (r: Key)
    ensures
        r@ == keccak_of(data@),
{
    keccak32(data)
}

/// Hashes the 64-byte concatenation of two 32-byte values in the given order.
pub fn hash_pair(a: &Key, b: &Key) -> (r: Key)
    ensures
        r@ == spec_hash_pair(a@, b@),
{
    let mut combined: Vec<u8> = Vec::new();
    let mut i: usize = 0;
    while i < 32
        invariant
            i <= 32,
            combined@ == a@.take(i as int),
        decreases 32 - i,
    {
        combined.push(a[i]);
        proof {
            assert(a@.take(i as int).push(a@[i as int]) =~= a@.take(i as int + 1));
        }
        i = i + 1;
    }
    proof {
        assert(a@.take(32) =~= a@);
    }
    let mut j: usize = 0;
    while j < 32
        invariant
            j <= 32,
            combined@ == a@ + b@.take(j as int),
        decreases 32 - j,
    {
        combined.push(b[j]);
        proof {
            assert((a@ + b@.take(j as int)).push(b@[j as int]) =~= a@ + b@.take(j as int + 1));
        }
        j = j + 1;
    }
    proof {
        assert(a@ + b@.take(32) =~= a@ + b@);
    }
    keccak32(combined.as_slice())
}

/// A leaf commitment together with the authentication path presented for it.
pub struct MerkleProof {
    pub proof: Vec<Key>,
    pub leaf: Key,
}

impl MerkleProof {
    /// True iff folding the leaf up the path, smaller value first at each
    /// step, recomputes exactly the expected root.
    pub fn verify(&self, root: &Key) -> (r: bool)
        ensures
            r == (fold_path(self.leaf@, views_of(self.proof@)) == root@),
    {
        let ghost path: Seq<Seq<u8>> = views_of(self.proof@);
        let mut computed: Key = self.leaf;
        let mut i: usize = 0;
        proof {
            assert(path.skip(0) =~= path);
        }
        while i < self.proof.len()
            invariant
                i <= self.proof.len(),
                path == views_of(self.proof@),
                fold_path(computed@, path.skip(i as int)) == fold_path(self.leaf@, path),
            decreases self.proof.len() - i,
        {
            proof {
                assert(path.skip(i as int)[0] == path[i as int]);
                assert(path[i as int] == self.proof@[i as int]@);
                assert(path.skip(i as int).skip(1) =~= path.skip(i as int + 1));
            }
            let e = &self.proof[i];
            if lex_le_exec(&computed, e) {
                computed = hash_pair(&computed, e);
            } else {
                computed = hash_pair(e, &computed);
            }
            i = i + 1;
        }
        proof {
            assert(path.skip(path.len() as int).len() == 0);
        }
        key_eq(&computed, root)
    }
}

/// Compares two 32-byte values for equality, byte for byte.
pub fn key_eq(a: &Key, b: &Key) -> (r: bool)
    ensures
        r == (a@ == b@),
{
    let mut i: usize = 0;
    while i < 32
        invariant
            i <= 32,
            forall|j: int| 0 <= j < i ==> a@[j] == b@[j],
        decreases 32 - i,
    {
        if a[i] != b[i] {
            return false;
        }
        i = i + 1;
    }
    proof {
        assert(a@ =~= b@);
    }
    true
}

/// Builds the Merkle root bottom-up: leaves are paired left to right, an
/// unpaired trailing element is promoted unchanged, until one value is left.
pub fn compute_merkle_root(leaves: &[Key]) -> (r: Key)
    ensures
        r@ == merkle_root_of(views_of(leaves@)),
{
    if leaves.len() == 0 {
        let r: Key = [0u8; 32];
        proof {
            assert(r@ =~= zero_hash());
        }
        return r;
    }
    if leaves.len() == 1 {
        proof {
            assert(views_of(leaves@)[0] == leaves@[0]@);
        }
        return leaves[0];
    }

    let mut current: Vec<Key> = Vec::new();
    let mut c: usize = 0;
    while c < leaves.len()
        invariant
            c <= leaves.len(),
            current@ == leaves@.take(c as int),
        decreases leaves.len() - c,
    {
        current.push(leaves[c]);
        proof {
            assert(leaves@.take(c as int).push(leaves@[c as int]) =~= leaves@.take(c as int + 1));
        }
        c = c + 1;
    }
    proof {
        assert(leaves@.take(leaves@.len() as int) =~= leaves@);
    }

    while current.len() > 1
        invariant
            current.len() >= 1,
            merkle_root_of(views_of(current@)) == merkle_root_of(views_of(leaves@)),
        decreases current.len(),
    {
        let ghost level: Seq<Seq<u8>> = views_of(current@);
        let mut next: Vec<Key> = Vec::new();
        let half: usize = current.len() / 2;
        let mut k: usize = 0;
        proof {
            assert(views_of(next@) =~= combine_level(level).take(0));
        }
        while k < half
            invariant
                level == views_of(current@),
                current.len() >= 2,
                half == current@.len() / 2,
                k <= half,
                next@.len() == k,
                views_of(next@) == combine_level(level).take(k as int),
            decreases half - k,
        {
            let h = hash_pair(&current[2 * k], &current[2 * k + 1]);
            next.push(h);
            proof {
                let ki: int = k as int;
                assert(combine_level(level)[ki] == spec_hash_pair(level[2 * ki], level[2 * ki + 1]));
                assert(level[2 * ki] == current@[2 * ki]@);
                assert(level[2 * ki + 1] == current@[2 * ki + 1]@);
                assert(views_of(next@) =~= combine_level(level).take(ki + 1));
            }
            k = k + 1;
        }
        if current.len() % 2 == 1 {
            let last = current[current.len() - 1];
            next.push(last);
            proof {
                let ki: int = half as int;
                assert(combine_level(level)[ki] == level[2 * ki]);
                assert(level[2 * ki] == current@[2 * ki]@);
                assert(views_of(next@) =~= combine_level(level).take(ki + 1));
            }
        }
        proof {
            assert(next@.len() == (current@.len() + 1) / 2);
            assert(views_of(next@) =~= combine_level(level));
            assert(merkle_root_of(level) == merkle_root_of(combine_level(level)));
        }
        current = next;
    }
    proof {
        assert(views_of(current@).len() == 1);
        assert(merkle_root_of(views_of(current@)) == views_of(current@)[0]);
        assert(views_of(current@)[0] == current@[0]@);
    }
    current[0]
}

} // verus!
