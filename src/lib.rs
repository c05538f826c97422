//! Custody of value at program-derived addresses: addresses that are computed
//! from seeds and a one-byte bump, lie off the ed25519 curve and so have no
//! private key. The vault's bookkeeping and the signing evidence for such
//! addresses are decided here; the host runtime performs the transfers.

pub mod error;
pub mod address;
pub mod cache;
pub mod coordinator;
pub mod vault;
pub mod bump_seed;
