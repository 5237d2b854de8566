//! General properties of the chain verifier, proved over the contracts of
//! mining and verification.
use vstd::prelude::*;
use crate::header::{Header, spec_is_block_valid};
use crate::chain::{ChainConfig, Policy, chain_valid, prev_of, spec_admits};

verus! {

/// The last header of `chain`, or `root` when the chain is empty.
pub open spec fn tip(root: Header, chain: Seq<Header>) -> Header {
    if chain.len() == 0 {
        root
    } else {
        chain.last()
    }
}

/// Whether `b` differs from `a` in exactly one of the fields that link a block
/// to its parent: `parent`, `height` or `state`.
pub open spec fn differs_in_one_link_field(a: Header, b: Header) -> bool {
    &&& a.extrinsic == b.extrinsic
    &&& a.consensus_digest == b.consensus_digest
    &&& {
        ||| (a.parent != b.parent && a.height == b.height && a.state == b.state)
        ||| (a.parent == b.parent && a.height != b.height && a.state == b.state)
        ||| (a.parent == b.parent && a.height == b.height && a.state != b.state)
    }
}

/// Whether `b` is `a` with only its nonce changed.
pub open spec fn differs_in_nonce(a: Header, b: Header) -> bool {
    &&& a.parent == b.parent
    &&& a.height == b.height
    &&& a.extrinsic == b.extrinsic
    &&& a.state == b.state
    &&& a.consensus_digest != b.consensus_digest
}

/// Every root, under every policy, passes verification of an empty chain.
pub proof fn lemma_empty_chain_valid(root: Header, policy: Policy, config: ChainConfig)
    ensures
        chain_valid(root, Seq::empty(), policy, config),
{
}

/// A chain that passes the base rule still passes it when extended by a header
/// that satisfies the four invariants against its tip, as a mined child does:
/// so every chain built from `root` by repeated mining passes.
pub proof fn lemma_mined_extension_valid(root: Header, chain: Seq<Header>, h: Header, config: ChainConfig)
    requires
        chain_valid(root, chain, Policy::Threshold, config),
        spec_is_block_valid(h, tip(root, chain), config.threshold),
    ensures
        chain_valid(root, chain.push(h), Policy::Threshold, config),
{
    let c = chain.push(h);
    assert forall|i: int| 0 <= i < c.len() implies spec_admits(Policy::Threshold, #[trigger] c[i], prev_of(root, c, i), config) by {
        if i < chain.len() {
            assert(c[i] == chain[i]);
            if i > 0 {
                assert(c[i - 1] == chain[i - 1]);
            }
            assert(prev_of(root, c, i) == prev_of(root, chain, i));
            assert(spec_admits(Policy::Threshold, chain[i], prev_of(root, chain, i), config));
        } else {
            assert(c[i] == h);
            if i > 0 {
                assert(c[i - 1] == chain[i - 1]);
            }
            assert(prev_of(root, c, i) == tip(root, chain));
        }
    }
}

/// Changing one of `parent`, `height` or `state` of the block at index `k` of a
/// valid chain leaves the headers before it valid, and makes every prefix that
/// reaches that block invalid.
pub proof fn lemma_tampered_link_field_rejected(
    root: Header,
    chain: Seq<Header>,
    k: int,
    b: Header,
    policy: Policy,
    config: ChainConfig,
)
    requires
        chain_valid(root, chain, policy, config),
        0 <= k < chain.len(),
        differs_in_one_link_field(chain[k], b),
    ensures
        chain_valid(root, chain.update(k, b).take(k), policy, config),
        forall|j: int| k < j <= chain.len() ==> !chain_valid(root, #[trigger] chain.update(k, b).take(j), policy, config),
{
    let c = chain.update(k, b);
    assert(prev_of(root, c, k) == prev_of(root, chain, k));
    assert(spec_admits(policy, chain[k], prev_of(root, chain, k), config));
    assert(!spec_admits(policy, c[k], prev_of(root, c, k), config));
    let p = c.take(k);
    assert forall|i: int| 0 <= i < p.len() implies spec_admits(policy, #[trigger] p[i], prev_of(root, p, i), config) by {
        assert(p[i] == chain[i]);
        assert(prev_of(root, p, i) == prev_of(root, chain, i));
    }
    assert forall|j: int| k < j <= chain.len() implies !chain_valid(root, #[trigger] c.take(j), policy, config) by {
        let t = c.take(j);
        assert(t[k] == c[k]);
        assert(prev_of(root, t, k) == prev_of(root, c, k));
    }
}

/// Changing the nonce of the block at index `k` of a valid chain makes the
/// chain invalid, unless the new digest still meets the threshold and either
/// the block is the tip or the digest did not change (inputs left out here).
pub proof fn lemma_tampered_nonce_rejected(
    root: Header,
    chain: Seq<Header>,
    k: int,
    b: Header,
    policy: Policy,
    config: ChainConfig,
)
    requires
        chain_valid(root, chain, policy, config),
        0 <= k < chain.len(),
        differs_in_nonce(chain[k], b),
        b.spec_digest() >= config.threshold
            || (k + 1 < chain.len() && b.spec_digest() != chain[k].spec_digest()),
    ensures
        chain_valid(root, chain.update(k, b).take(k), policy, config),
        !chain_valid(root, chain.update(k, b), policy, config),
{
    let c = chain.update(k, b);
    assert(prev_of(root, c, k) == prev_of(root, chain, k));
    let p = c.take(k);
    assert forall|i: int| 0 <= i < p.len() implies spec_admits(policy, #[trigger] p[i], prev_of(root, p, i), config) by {
        assert(p[i] == chain[i]);
        assert(prev_of(root, p, i) == prev_of(root, chain, i));
    }
    if b.spec_digest() >= config.threshold {
        assert(!spec_admits(policy, c[k], prev_of(root, c, k), config));
    } else {
        assert(spec_admits(policy, chain[k + 1], prev_of(root, chain, k + 1), config));
        assert(prev_of(root, c, k + 1) == b);
        assert(c[k + 1] == chain[k + 1]);
        assert(!spec_admits(policy, c[k + 1], prev_of(root, c, k + 1), config));
    }
}

/// A chain that passes the base rule and whose states above the fork height
/// are all even passes the even policy; if it reaches above the fork height,
/// it fails the odd policy.
pub proof fn lemma_even_chain_partisan(root: Header, chain: Seq<Header>, config: ChainConfig)
    requires
        chain_valid(root, chain, Policy::Threshold, config),
        forall|i: int| 0 <= i < chain.len() && #[trigger] chain[i].height > config.fork_height ==> chain[i].state % 2 == 0,
    ensures
        chain_valid(root, chain, Policy::Even, config),
        (exists|i: int| 0 <= i < chain.len() && #[trigger] chain[i].height > config.fork_height)
            ==> !chain_valid(root, chain, Policy::Odd, config),
{
    assert forall|i: int| 0 <= i < chain.len() implies spec_admits(Policy::Even, #[trigger] chain[i], prev_of(root, chain, i), config) by {
        assert(spec_admits(Policy::Threshold, chain[i], prev_of(root, chain, i), config));
    }
    if exists|i: int| 0 <= i < chain.len() && #[trigger] chain[i].height > config.fork_height {
        let w = choose|i: int| 0 <= i < chain.len() && #[trigger] chain[i].height > config.fork_height;
        assert(!spec_admits(Policy::Odd, chain[w], prev_of(root, chain, w), config));
    }
}

/// A chain that passes the base rule and whose states above the fork height
/// are all odd passes the odd policy; if it reaches above the fork height, it
/// fails the even policy.
pub proof fn lemma_odd_chain_partisan(root: Header, chain: Seq<Header>, config: ChainConfig)
    requires
        chain_valid(root, chain, Policy::Threshold, config),
        forall|i: int| 0 <= i < chain.len() && #[trigger] chain[i].height > config.fork_height ==> chain[i].state % 2 != 0,
    ensures
        chain_valid(root, chain, Policy::Odd, config),
        (exists|i: int| 0 <= i < chain.len() && #[trigger] chain[i].height > config.fork_height)
            ==> !chain_valid(root, chain, Policy::Even, config),
{
    assert forall|i: int| 0 <= i < chain.len() implies spec_admits(Policy::Odd, #[trigger] chain[i], prev_of(root, chain, i), config) by {
        assert(spec_admits(Policy::Threshold, chain[i], prev_of(root, chain, i), config));
    }
    if exists|i: int| 0 <= i < chain.len() && #[trigger] chain[i].height > config.fork_height {
        let w = choose|i: int| 0 <= i < chain.len() && #[trigger] chain[i].height > config.fork_height;
        assert(!spec_admits(Policy::Even, chain[w], prev_of(root, chain, w), config));
    }
}

} // verus!
