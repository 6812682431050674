//! Hierarchical deterministic (BIP32) key derivation: master-key generation
//! from seed entropy, private and public child derivation along index paths,
//! and verification of ancestor/descendant claims between derived keys.

use vstd::prelude::*;

pub mod backend;
pub mod bytes;
pub mod derived;
pub mod enc;
pub mod keys;
pub mod path;
pub mod utils;
pub mod xkeys;

verus! {

/// Errors reported by key construction and derivation.
#[derive(Clone, Copy, PartialEq, Eq, Structural, Debug)]
pub enum Bip32Error {
    /// The seed handed to master-node construction is under 128 bits.
    SeedTooShort,
    /// A candidate scalar is zero or not below the group order, or a
    /// derived point is the identity.
    InvalidKey,
    /// A hardened child was requested from a public key alone.
    HardenedDerivationUnsupported,
    /// A derivation step would push the depth past its one-byte range.
    DepthExceeded,
}

/// Address-type hint carried in extended-key metadata.
#[derive(Clone, Copy, PartialEq, Eq, Structural, Debug)]
pub enum Hint {
    /// Legacy address format.
    Legacy,
    /// Compatibility (wrapped) address format.
    Compatibility,
    /// Native SegWit address format.
    SegWit,
}

} // verus!
