//! A hash-linked chain of block headers with a proof-of-work admission rule,
//! height-dependent partisan validity policies modelling a contentious hard
//! fork, and a small keypad-driven cash machine.
pub mod header;
pub mod chain;
pub mod mining;
pub mod fork;
pub mod laws;
pub mod atm;
