//! Ledger-side data: transfer amounts, hash parameters, Merkle roots and
//! authentication paths, and the digest chain that ties a leaf to a root.

use vstd::prelude::*;

verus! {

/// A transfer amount or account balance: a bounded non-negative integer
/// with checked arithmetic, encoded as eight little-endian bytes.
#[derive(Clone, Copy, PartialEq, Eq, Structural, Debug)]
pub struct Amount(pub u64);

impl Amount {
    /// The canonical little-endian byte encoding of the amount.
    pub open spec fn spec_bytes(self) -> Seq<u8> {
        vstd::bytes::spec_u64_to_le_bytes(self.0)
    }

    /// Serialize the amount as eight little-endian bytes.
    pub fn to_bytes_le(&self) -> (r: Vec<u8>)
        ensures
            r@ == self.spec_bytes(),
            r@.len() == 8,
    {
        vstd::bytes::u64_to_le_bytes(self.0)
    }

    /// Addition that reports overflow instead of wrapping.
    pub fn checked_add(&self, other: &Amount) -> (r: Option<Amount>)
        ensures
            self.0 + other.0 <= u64::MAX ==> r == Some(Amount((self.0 + other.0) as u64)),
            self.0 + other.0 > u64::MAX ==> r is None,
    {
        if self.0 <= u64::MAX - other.0 {
            Some(Amount(self.0 + other.0))
        } else {
            None
        }
    }

    /// Subtraction that reports underflow instead of wrapping.
    pub fn checked_sub(&self, other: &Amount) -> (r: Option<Amount>)
        ensures
            other.0 <= self.0 ==> r == Some(Amount((self.0 - other.0) as u64)),
            other.0 > self.0 ==> r is None,
    {
        if other.0 <= self.0 {
            Some(Amount(self.0 - other.0))
        } else {
            None
        }
    }
}

/// The digest at the root of the ledger's account tree at one point in time.
pub struct MerkleRoot(pub Vec<u8>);

/// An authentication path from one leaf of the account tree up to its root:
/// the leaf's position and the sibling digest at each level, from the leaf
/// level upward. The low bit of the position at each level says whether the
/// running digest is the left (bit 0) or the right (bit 1) child.
pub struct AccountPath {
    pub leaf_index: u64,
    pub siblings: Vec<Vec<u8>>,
}

/// The hash parameters shared by every validation: a domain for the leaf
/// hash and a domain for the two-to-one hash of inner nodes. They are never
/// mutated; the signature scheme in use has no parameters of its own.
pub struct Parameters {
    pub leaf_crh_params: Vec<u8>,
    pub two_to_one_crh_params: Vec<u8>,
}

/// The SHA-256 digest of a byte sequence, named but never restated.
pub uninterp spec fn digest_of(data: Seq<u8>) -> Seq<u8>;

/// Relies on sha2::Sha256::digest: a 32-byte digest that depends on the
/// input bytes alone.
#[verifier::external_body]
fn sha256(data: &Vec<u8>) -> (r: Vec<u8>)
    ensures
        r@ == digest_of(data@),
        r@.len() == 32,
{
    <sha2::Sha256 as sha2::Digest>::digest(data.as_slice()).to_vec()
}

/// The digest of a leaf under the given leaf-hash parameters.
pub open spec fn leaf_digest(leaf_params: Seq<u8>, data: Seq<u8>) -> Seq<u8> {
    digest_of(leaf_params + data)
}

/// The digest of an inner node from its two children, under the given
/// two-to-one hash parameters.
pub open spec fn node_digest(node_params: Seq<u8>, left: Seq<u8>, right: Seq<u8>) -> Seq<u8> {
    digest_of(node_params + left + right)
}

/// Hash a serialized leaf under the leaf-hash parameters.
pub fn hash_leaf(leaf_params: &Vec<u8>, data: &Vec<u8>) -> (r: Vec<u8>)
    ensures
        r@ == leaf_digest(leaf_params@, data@),
        r@.len() == 32,
{
    let mut input = copy_bytes(leaf_params);
    append_bytes(&mut input, data);
    sha256(&input)
}

/// Hash two child digests into their parent under the two-to-one parameters.
pub fn hash_two_to_one(node_params: &Vec<u8>, left: &Vec<u8>, right: &Vec<u8>) -> (r: Vec<u8>)
    ensures
        r@ == node_digest(node_params@, left@, right@),
        r@.len() == 32,
{
    let mut input = copy_bytes(node_params);
    append_bytes(&mut input, left);
    append_bytes(&mut input, right);
    proof {
        assert(input@ =~= node_params@ + left@ + right@);
    }
    sha256(&input)
}

/// The sibling digests of a path, as byte sequences.
pub open spec fn siblings_view(siblings: Seq<Vec<u8>>) -> Seq<Seq<u8>> {
    siblings.map_values(|s: Vec<u8>| s@)
}

/// The root reached by hashing `node` (sitting at position `index` of its
/// level) together with each sibling in turn.
pub open spec fn chain_root(
    node: Seq<u8>,
    index: nat,
    siblings: Seq<Seq<u8>>,
    node_params: Seq<u8>,
) -> Seq<u8>
    decreases siblings.len(),
{
    if siblings.len() == 0 {
        node
    } else {
        let parent = if index % 2 == 0 {
            node_digest(node_params, node, siblings[0])
        } else {
            node_digest(node_params, siblings[0], node)
        };
        chain_root(parent, index / 2, siblings.drop_first(), node_params)
    }
}

/// The root that a serialized leaf reproduces along the given path, under
/// the given hash parameters.
pub open spec fn account_root(params: Parameters, leaf_bytes: Seq<u8>, path: AccountPath) -> Seq<
    u8,
> {
    chain_root(
        leaf_digest(params.leaf_crh_params@, leaf_bytes),
        path.leaf_index as nat,
        siblings_view(path.siblings@),
        params.two_to_one_crh_params@,
    )
}

/// Recompute the root that a serialized leaf reproduces along `path`.
pub fn compute_account_root(params: &Parameters, leaf_bytes: &Vec<u8>, path: &AccountPath) -> (r:
    Vec<u8>)
    ensures
        r@ == account_root(*params, leaf_bytes@, *path),
{
    let mut node = hash_leaf(&params.leaf_crh_params, leaf_bytes);
    let mut index: u64 = path.leaf_index;
    let mut i: usize = 0;
    proof {
        assert(siblings_view(path.siblings@).skip(0) =~= siblings_view(path.siblings@));
    }
    while i < path.siblings.len()
        invariant
            i <= path.siblings@.len(),
            chain_root(
                node@,
                index as nat,
                siblings_view(path.siblings@).skip(i as int),
                params.two_to_one_crh_params@,
            ) == account_root(*params, leaf_bytes@, *path),
        decreases path.siblings@.len() - i,
    {
        let ghost rest = siblings_view(path.siblings@).skip(i as int);
        let sib = &path.siblings[i];
        proof {
            assert(rest[0] == path.siblings@[i as int]@);
            assert(rest.drop_first() =~= siblings_view(path.siblings@).skip(i as int + 1));
        }
        let next = if index % 2 == 0 {
            hash_two_to_one(&params.two_to_one_crh_params, &node, sib)
        } else {
            hash_two_to_one(&params.two_to_one_crh_params, sib, &node)
        };
        node = next;
        index = index / 2;
        i = i + 1;
    }
    proof {
        assert(siblings_view(path.siblings@).skip(i as int) =~= Seq::<Seq<u8>>::empty());
    }
    node
}

/// Byte-for-byte equality of two byte vectors.
pub fn bytes_eq(a: &Vec<u8>, b: &Vec<u8>) -> (r: bool)
    ensures
        r == (a@ == b@),
{
    if a.len() != b.len() {
        return false;
    }
    let mut i: usize = 0;
    while i < a.len()
        invariant
            i <= a@.len(),
            a@.len() == b@.len(),
            forall|k: int| 0 <= k < i ==> a@[k] == b@[k],
        decreases a@.len() - i,
    {
        if a[i] != b[i] {
            return false;
        }
        i = i + 1;
    }
    proof {
        assert(a@ =~= b@);
    }
    true
}

/// A fresh vector holding the same bytes.
pub(crate) fn copy_bytes(src: &Vec<u8>) -> (r: Vec<u8>)
    ensures
        r@ == src@,
{
    let mut r: Vec<u8> = Vec::new();
    let mut i: usize = 0;
    while i < src.len()
        invariant
            i <= src@.len(),
            r@ == src@.take(i as int),
        decreases src@.len() - i,
    {
        r.push(src[i]);
        proof {
            assert(src@.take(i as int).push(src@[i as int]) =~= src@.take(i as int + 1));
        }
        i = i + 1;
    }
    proof {
        assert(src@.take(src@.len() as int) =~= src@);
    }
    r
}

/// Append the bytes of `src` to `dst`.
pub(crate) fn append_bytes(dst: &mut Vec<u8>, src: &Vec<u8>)
    ensures
        final(dst)@ == old(dst)@ + src@,
{
    let mut i: usize = 0;
    while i < src.len()
        invariant
            i <= src@.len(),
            dst@ == old(dst)@ + src@.take(i as int),
        decreases src@.len() - i,
    {
        dst.push(src[i]);
        proof {
            let j: int = i as int;
            assert((old(dst)@ + src@.take(j)).push(src@[j]) =~= old(dst)@ + src@.take(j + 1));
        }
        i = i + 1;
    }
    proof {
        assert(old(dst)@ + src@.take(src@.len() as int) =~= old(dst)@ + src@);
    }
}

} // verus!
