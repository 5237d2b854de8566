//! Proof-of-work mining of child headers.
use vstd::prelude::*;
use rand::rngs::StdRng;
use crate::header::{Header, hash, spec_is_block_valid};
use crate::chain::ChainConfig;

verus! {

#[verifier::external_type_specification]
#[verifier::external_body]
pub struct ExStdRng(rand::rngs::StdRng);

/// Relies on rand's `Rng::gen::<u64>`: draws a nonce from `rng`. Nothing is
/// known of the value.
#[verifier::external_body]
fn draw_nonce(rng: &mut StdRng) -> (r: u64) {
    rand::Rng::gen::<u64>(rng)
}

/// The miner drew its whole allowance of nonces without meeting the threshold.
#[derive(Clone, Copy, Debug, PartialEq, Eq, Structural)]
pub struct MiningExhausted {
    /// How many nonces were tried.
    pub attempts: u64,
}

impl Header {
    /// Tries one nonce: returns the candidate child carrying `extrinsic` and
    /// `nonce` when its digest is below `threshold`.
    pub fn try_nonce(&self, extrinsic: u64, nonce: u64, threshold: u64) -> (r: Option<Header>)
        requires
            self.can_extend(extrinsic),
        ensures
            r == (if self.spec_candidate(extrinsic, nonce).spec_digest() < threshold {
                Some(self.spec_candidate(extrinsic, nonce))
            } else {
                None
            }),
    {
        let h = Header {
            parent: hash(self),
            height: self.height + 1,
            extrinsic,
            state: self.state + extrinsic,
            consensus_digest: nonce,
        };
        if hash(&h) < threshold {
            Some(h)
        } else {
            None
        }
    }

    /// Mines a child carrying `extrinsic`, drawing at most
    /// `config.max_attempts` nonces from `rng`.
    pub fn mine(&self, extrinsic: u64, config: &ChainConfig, rng: &mut StdRng) -> (r: Result<Header, MiningExhausted>)
        requires
            self.can_extend(extrinsic),
        ensures
            match r {
                Ok(h) => h == self.spec_candidate(extrinsic, h.consensus_digest)
                    && spec_is_block_valid(h, *self, config.threshold),
                Err(e) => e.attempts == config.max_attempts,
            },
            config.max_attempts == 0 ==> r.is_err(),
    {
        let mut attempts: u64 = 0;
        while attempts < config.max_attempts
            invariant
                self.can_extend(extrinsic),
                attempts <= config.max_attempts,
            decreases config.max_attempts - attempts,
        {
            let nonce = draw_nonce(rng);
            match self.try_nonce(extrinsic, nonce, config.threshold) {
                Some(h) => {
                    return Ok(h);
                },
                None => {},
            }
            attempts = attempts + 1;
        }
        Err(MiningExhausted { attempts })
    }

    /// Mines a child carrying `extrinsic` under the default configuration.
    pub fn child(&self, extrinsic: u64, rng: &mut StdRng) -> (r: Result<Header, MiningExhausted>)
        requires
            self.can_extend(extrinsic),
        ensures
            match r {
                Ok(h) => h == self.spec_candidate(extrinsic, h.consensus_digest)
                    && spec_is_block_valid(h, *self, ChainConfig::spec_standard().threshold),
                Err(e) => e.attempts == ChainConfig::spec_standard().max_attempts,
            },
    {
        self.mine(extrinsic, &ChainConfig::standard(), rng)
    }
}

} // verus!
