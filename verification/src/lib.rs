//! Core of a hierarchical-deterministic wallet: mnemonic phrases, seed
//! stretching, BIP32 child-key derivation, compressed public keys, and an
//! encrypted vault that guards the phrase at rest.

pub mod errors;
mod rng;
pub mod keys;
pub mod path;
pub mod mnemonic;
pub mod seed;
pub mod hdkey;
pub mod vault;
pub mod wallet;
pub mod rpc_types;
