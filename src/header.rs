//! Block headers, their digest, and the validity rule for one parent/child link.
use vstd::prelude::*;

verus! {

/// Largest digest that the proof-of-work rule admits by default: one digest
/// in a hundred passes.
pub const THRESHOLD: u64 = 0xffff_ffff_ffff_ffff / 100;

/// Height of the contentious hard fork: blocks strictly above it are judged
/// by the partisan policies.
pub const FORK_HEIGHT: u64 = 2;

/// One block of the chain.
#[derive(Clone, Copy, Debug, PartialEq, Eq, Hash, Structural)]
pub struct Header {
    /// Digest of the preceding header (zero for genesis).
    pub parent: u64,
    /// Distance from genesis.
    pub height: u64,
    /// The state delta applied by this block.
    pub extrinsic: u64,
    /// Sum of all extrinsics from genesis up to and including this block.
    pub state: u64,
    /// Nonce chosen so that the digest of the whole header meets the threshold.
    pub consensus_digest: u64,
}

/// The digest of a header with the given fields, as the standard library's
/// default hasher computes it.
pub uninterp spec fn header_digest(
    parent: u64,
    height: u64,
    extrinsic: u64,
    state: u64,
    consensus_digest: u64,
) -> u64;

/// Relies on `BuildHasher::hash_one` of std's `DefaultHasher`: a hasher built by
/// `DefaultHasher::new` starts from fixed keys, so the digest depends on the
/// five fields alone.
#[verifier::external_body]
fn digest_fields(
    parent: u64,
    height: u64,
    extrinsic: u64,
    state: u64,
    consensus_digest: u64,
) -> (r: u64)
    ensures
        r == header_digest(parent, height, extrinsic, state, consensus_digest),
{
    let fields = (parent, height, extrinsic, state, consensus_digest);
    std::hash::BuildHasher::hash_one(
        &std::hash::BuildHasherDefault::<std::collections::hash_map::DefaultHasher>::default(),
        fields,
    )
}

impl Header {
    /// The digest of this header.
    pub open spec fn spec_digest(self) -> u64 {
        header_digest(self.parent, self.height, self.extrinsic, self.state, self.consensus_digest)
    }

    /// The fixed first header of every chain.
    pub open spec fn spec_genesis() -> Header {
        Header { parent: 0, height: 0, extrinsic: 0, state: 0, consensus_digest: 0 }
    }

    /// The header that extends `self` by `extrinsic` with the given nonce.
    pub open spec fn spec_candidate(self, extrinsic: u64, nonce: u64) -> Header {
        Header {
            parent: self.spec_digest(),
            height: (self.height + 1) as u64,
            extrinsic,
            state: (self.state + extrinsic) as u64,
            consensus_digest: nonce,
        }
    }

    /// Whether `self` can have a child carrying `extrinsic` without a field
    /// leaving the range of `u64`.
    pub open spec fn can_extend(self, extrinsic: u64) -> bool {
        self.height < u64::MAX && self.state + extrinsic <= u64::MAX
    }

    /// Returns the genesis header: every field is zero.
    pub fn genesis() -> (r: Header)
        ensures
            r == Header::spec_genesis(),
    {
        Header { parent: 0, height: 0, extrinsic: 0, state: 0, consensus_digest: 0 }
    }
}

/// Computes the digest of a header.
pub fn hash(h: &Header) -> (r: u64)
    ensures
        r == h.spec_digest(),
{
    digest_fields(h.parent, h.height, h.extrinsic, h.state, h.consensus_digest)
}

/// The four invariants of a non-genesis block against its parent: heights
/// step by one, the state adds the extrinsic, the parent digest links, and the
/// block's own digest is below `threshold`.
pub open spec fn spec_is_block_valid(block: Header, prev: Header, threshold: u64) -> bool {
    &&& block.height == prev.height + 1
    &&& block.state == prev.state + block.extrinsic
    &&& block.parent == prev.spec_digest()
    &&& block.spec_digest() < threshold
}

/// Checks the four invariants of `block` against its parent `prev`.
pub fn is_block_valid(block: &Header, prev: &Header, threshold: u64) -> (r: bool)
    ensures
        r == spec_is_block_valid(*block, *prev, threshold),
{
    (block.height as u128) == (prev.height as u128) + 1
        && (block.state as u128) == (prev.state as u128) + (block.extrinsic as u128)
        && block.parent == hash(prev)
        && hash(block) < threshold
}

} // verus!
