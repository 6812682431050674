//! Key wrappers: a raw private scalar or public point paired with the curve
//! backend handle that performs its arithmetic.

use vstd::prelude::*;

use crate::backend::Secp256k1;
use crate::backend::pubkey_of;
use crate::backend::scalar_in_range;
use crate::bytes::clone_vec_copy;

verus! {

/// A private key: a valid scalar in canonical 32-byte big-endian form,
/// together with the backend that operates on it.
#[derive(Debug)]
pub struct GenericPrivkey {
    /// Canonical big-endian bytes of the scalar.
    pub key: Vec<u8>,
    /// The arithmetic backend this key delegates to.
    pub backend: Secp256k1,
}

/// A public key: a point in compressed 33-byte form, together with the
/// backend that operates on it.
#[derive(Debug)]
pub struct GenericPubkey {
    /// Compressed serialization of the point.
    pub key: Vec<u8>,
    /// The arithmetic backend this key delegates to.
    pub backend: Secp256k1,
}

impl View for GenericPrivkey {
    type V = Seq<u8>;

    open spec fn view(&self) -> Seq<u8> {
        self.key@
    }
}

impl View for GenericPubkey {
    type V = Seq<u8>;

    open spec fn view(&self) -> Seq<u8> {
        self.key@
    }
}

impl GenericPrivkey {
    /// A private key holds a scalar the backend accepts.
    pub open spec fn wf(&self) -> bool {
        scalar_in_range(self@)
    }

    /// The corresponding public key: the pure projection of the scalar to
    /// its public point.
    pub fn derive_verifying_key(&self) -> (r: GenericPubkey)
        requires
            self.wf(),
        ensures
            r@ == pubkey_of(self@),
            r.wf(),
    {
        GenericPubkey { key: self.backend.scalar_to_public_point(&self.key), backend: Secp256k1 }
    }
}

impl Clone for GenericPrivkey {
    fn clone(&self) -> (r: Self)
        ensures
            r@ == self@,
    {
        GenericPrivkey { key: clone_vec_copy(&self.key), backend: Secp256k1 }
    }
}

impl GenericPubkey {
    /// A public key holds a compressed point serialization.
    pub open spec fn wf(&self) -> bool {
        self@.len() == 33
    }
}

impl Clone for GenericPubkey {
    fn clone(&self) -> (r: Self)
        ensures
            r@ == self@,
    {
        GenericPubkey { key: clone_vec_copy(&self.key), backend: Secp256k1 }
    }
}

} // verus!
