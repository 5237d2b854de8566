//! Construction of a contentious fork: one prefix, two partisan suffixes.
use vstd::prelude::*;
use rand::rngs::StdRng;
use crate::header::{Header, spec_is_block_valid};
use crate::chain::{ChainConfig, Policy, chain_valid, prev_of, spec_admits};
use crate::mining::MiningExhausted;

verus! {

/// How many extrinsics of one parity the builder offers the miner for a block.
pub const ALTERNATES: u64 = 3;

/// Mines a child of `parent`, offering `extrinsic`, then `extrinsic + 2`, and so
/// on, up to `ALTERNATES` extrinsics of the same parity, until one is mined.
pub fn mine_with_alternates(parent: &Header, extrinsic: u64, config: &ChainConfig, rng: &mut StdRng) -> (r: Result<Header, MiningExhausted>)
    requires
        parent.can_extend((extrinsic + 2 * (ALTERNATES - 1)) as u64),
        extrinsic + 2 * (ALTERNATES - 1) <= u64::MAX,
    ensures
        match r {
            Ok(h) => spec_is_block_valid(h, *parent, config.threshold)
                && h.extrinsic % 2 == extrinsic % 2
                && extrinsic <= h.extrinsic <= extrinsic + 2 * (ALTERNATES - 1),
            Err(e) => e.attempts == config.max_attempts,
        },
{
    let mut k: u64 = 0;
    loop
        invariant
            k < ALTERNATES,
            parent.can_extend((extrinsic + 2 * (ALTERNATES - 1)) as u64),
            extrinsic + 2 * (ALTERNATES - 1) <= u64::MAX,
        decreases ALTERNATES - k,
    {
        let offered = extrinsic + 2 * k;
        match parent.mine(offered, config, rng) {
            Ok(h) => {
                return Ok(h);
            },
            Err(e) => {
                if k + 1 == ALTERNATES {
                    return Err(e);
                }
            },
        }
        k = k + 1;
    }
}

/// Whether `prefix`, `even` and `odd` form a contentious fork under `config`:
/// the prefix runs from genesis to the fork height, both suffixes extend its
/// tip, each full chain passes the base rule, and each passes exactly one of
/// the partisan policies.
pub open spec fn is_contentious_fork(prefix: Seq<Header>, even: Seq<Header>, odd: Seq<Header>, config: ChainConfig) -> bool {
    let root = prefix[0];
    let even_chain = prefix.drop_first() + even;
    let odd_chain = prefix.drop_first() + odd;
    &&& prefix.len() == config.fork_height + 1
    &&& root == Header::spec_genesis()
    &&& even.len() > 0
    &&& odd.len() > 0
    &&& chain_valid(root, even_chain, Policy::Threshold, config)
    &&& chain_valid(root, odd_chain, Policy::Threshold, config)
    &&& chain_valid(root, even_chain, Policy::Even, config)
    &&& !chain_valid(root, even_chain, Policy::Odd, config)
    &&& chain_valid(root, odd_chain, Policy::Odd, config)
    &&& !chain_valid(root, odd_chain, Policy::Even, config)
}

/// A chain of four headers is valid exactly when each link is admitted.
proof fn lemma_four_links(root: Header, b0: Header, b1: Header, b2: Header, b3: Header, policy: Policy, config: ChainConfig)
    ensures
        chain_valid(root, seq![b0, b1, b2, b3], policy, config) == (
            spec_admits(policy, b0, root, config)
            && spec_admits(policy, b1, b0, config)
            && spec_admits(policy, b2, b1, config)
            && spec_admits(policy, b3, b2, config)
        ),
{
    let c = seq![b0, b1, b2, b3];
    assert(c[0] == b0 && c[1] == b1 && c[2] == b2 && c[3] == b3);
    assert(prev_of(root, c, 0) == root);
    assert(prev_of(root, c, 1) == b0);
    assert(prev_of(root, c, 2) == b1);
    assert(prev_of(root, c, 3) == b2);
}

/// A common prefix, its even suffix and its odd suffix.
pub type Fork = (Vec<Header>, Vec<Header>, Vec<Header>);

/// Whether `fork` is a contentious fork with two blocks in each suffix.
pub open spec fn fork_built(fork: Fork, config: ChainConfig) -> bool {
    &&& is_contentious_fork(fork.0@, fork.1@, fork.2@, config)
    &&& fork.1@.len() == 2
    &&& fork.2@.len() == 2
}

/// Builds a common prefix from genesis to the fork height and two suffixes of
/// two blocks each from its tip: one that keeps the state even, one that keeps
/// it odd. Fails only when the miner is exhausted on every alternate extrinsic.
pub fn build_contentious_forked_chain(rng: &mut StdRng) -> (r: Result<Fork, MiningExhausted>)
    ensures
        r.is_ok() ==> fork_built(r.unwrap(), ChainConfig::spec_standard()),
        r.is_err() ==> r.unwrap_err().attempts == ChainConfig::spec_standard().max_attempts,
{
    let config = ChainConfig::standard();
    let g = Header::genesis();
    let a1 = mine_with_alternates(&g, 2, &config, rng)?;
    let a2 = mine_with_alternates(&a1, 5, &config, rng)?;
    let e1 = mine_with_alternates(&a2, 1, &config, rng)?;
    let e2 = mine_with_alternates(&e1, 2, &config, rng)?;
    let o1 = mine_with_alternates(&a2, 2, &config, rng)?;
    let o2 = mine_with_alternates(&o1, 4, &config, rng)?;
    let prefix = vec![g, a1, a2];
    let even = vec![e1, e2];
    let odd = vec![o1, o2];
    proof {
        assert(prefix@.drop_first() + even@ =~= seq![a1, a2, e1, e2]);
        assert(prefix@.drop_first() + odd@ =~= seq![a1, a2, o1, o2]);
        let cfg = ChainConfig::spec_standard();
        lemma_four_links(g, a1, a2, e1, e2, Policy::Threshold, cfg);
        lemma_four_links(g, a1, a2, e1, e2, Policy::Even, cfg);
        lemma_four_links(g, a1, a2, e1, e2, Policy::Odd, cfg);
        lemma_four_links(g, a1, a2, o1, o2, Policy::Threshold, cfg);
        lemma_four_links(g, a1, a2, o1, o2, Policy::Even, cfg);
        lemma_four_links(g, a1, a2, o1, o2, Policy::Odd, cfg);
    }
    Ok((prefix, even, odd))
}

} // verus!
