//! Validity policies and the chain verifier.
use vstd::prelude::*;
use crate::header::{Header, is_block_valid, spec_is_block_valid, THRESHOLD, FORK_HEIGHT};

verus! {

/// The tunable parameters of mining and verification.
#[derive(Clone, Copy, Debug, PartialEq, Eq, Structural)]
pub struct ChainConfig {
    /// Largest admitted digest, exclusive.
    pub threshold: u64,
    /// Blocks strictly above this height are judged by the partisan rules.
    pub fork_height: u64,
    /// How many nonces the miner draws before it gives up.
    pub max_attempts: u64,
}

impl ChainConfig {
    /// The default configuration: `THRESHOLD`, `FORK_HEIGHT`, and a ceiling of a
    /// million nonces per block.
    pub open spec fn spec_standard() -> ChainConfig {
        ChainConfig { threshold: THRESHOLD, fork_height: FORK_HEIGHT, max_attempts: 1_000_000 }
    }

    /// Returns the default configuration.
    pub fn standard() -> (r: ChainConfig)
        ensures
            r == ChainConfig::spec_standard(),
    {
        ChainConfig { threshold: THRESHOLD, fork_height: FORK_HEIGHT, max_attempts: 1_000_000 }
    }
}

/// The rule set that a verifier applies to each block.
#[derive(Clone, Copy, Debug, PartialEq, Eq, Structural)]
pub enum Policy {
    /// The four base invariants only.
    Threshold,
    /// The base invariants, and an even state.
    Even,
    /// The base invariants, and an odd state.
    Odd,
}

/// Whether `block`, child of `prev`, meets `policy` regardless of its height.
pub open spec fn spec_verify_block(policy: Policy, block: Header, prev: Header, threshold: u64) -> bool {
    spec_is_block_valid(block, prev, threshold) && match policy {
        Policy::Threshold => true,
        Policy::Even => block.state % 2 == 0,
        Policy::Odd => block.state % 2 != 0,
    }
}

/// Whether the verifier admits `block` after `prev`: up to the fork height
/// (inclusive) only the base invariants count, above it `policy` applies.
pub open spec fn spec_admits(policy: Policy, block: Header, prev: Header, config: ChainConfig) -> bool {
    if block.height > config.fork_height {
        spec_verify_block(policy, block, prev, config.threshold)
    } else {
        spec_is_block_valid(block, prev, config.threshold)
    }
}

/// The header that precedes `chain[i]`: `root` for the first one.
pub open spec fn prev_of(root: Header, chain: Seq<Header>, i: int) -> Header {
    if i == 0 {
        root
    } else {
        chain[i - 1]
    }
}

/// Whether every header of `chain` is admitted after the one before it,
/// starting from `root`.
pub open spec fn chain_valid(root: Header, chain: Seq<Header>, policy: Policy, config: ChainConfig) -> bool {
    forall|i: int| 0 <= i < chain.len() ==> spec_admits(policy, #[trigger] chain[i], prev_of(root, chain, i), config)
}

/// Checks `block` against its parent `prev` under `policy`, whatever its height.
pub fn verify_block(policy: Policy, block: &Header, prev: &Header, threshold: u64) -> (r: bool)
    ensures
        r == spec_verify_block(policy, *block, *prev, threshold),
{
    match policy {
        Policy::Threshold => is_block_valid(block, prev, threshold),
        Policy::Even => is_block_valid(block, prev, threshold) && block.state % 2 == 0,
        Policy::Odd => is_block_valid(block, prev, threshold) && block.state % 2 != 0,
    }
}

/// Walks `chain` from `root`, checking each header against the one before it,
/// and stops at the first that `policy` rejects.
pub fn verify_chain(root: &Header, chain: &[Header], policy: Policy, config: &ChainConfig) -> (r: bool)
    ensures
        r == chain_valid(*root, chain@, policy, *config),
{
    let mut prev = *root;
    let mut i: usize = 0;
    while i < chain.len()
        invariant
            0 <= i <= chain@.len(),
            prev == prev_of(*root, chain@, i as int),
            forall|j: int| 0 <= j < i ==> spec_admits(policy, #[trigger] chain@[j], prev_of(*root, chain@, j), *config),
        decreases chain@.len() - i,
    {
        let block = &chain[i];
        let ok = if block.height > config.fork_height {
            verify_block(policy, block, &prev, config.threshold)
        } else {
            is_block_valid(block, &prev, config.threshold)
        };
        if !ok {
            return false;
        }
        prev = *block;
        i = i + 1;
    }
    true
}

impl Header {
    /// Verifies `chain` from this header under the base invariants and the
    /// default configuration.
    pub fn verify_sub_chain(&self, chain: &[Header]) -> (r: bool)
        ensures
            r == chain_valid(*self, chain@, Policy::Threshold, ChainConfig::spec_standard()),
    {
        verify_chain(self, chain, Policy::Threshold, &ChainConfig::standard())
    }

    /// Verifies `chain` from this header under the default configuration,
    /// requiring an even state above the fork height.
    pub fn verify_sub_chain_even(&self, chain: &[Header]) -> (r: bool)
        ensures
            r == chain_valid(*self, chain@, Policy::Even, ChainConfig::spec_standard()),
    {
        verify_chain(self, chain, Policy::Even, &ChainConfig::standard())
    }

    /// Verifies `chain` from this header under the default configuration,
    /// requiring an odd state above the fork height.
    pub fn verify_sub_chain_odd(&self, chain: &[Header]) -> (r: bool)
        ensures
            r == chain_valid(*self, chain@, Policy::Odd, ChainConfig::spec_standard()),
    {
        verify_chain(self, chain, Policy::Odd, &ChainConfig::standard())
    }
}

} // verus!
