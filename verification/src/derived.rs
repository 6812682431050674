//! Keys coupled with their purported derivation paths, and the ancestry
//! checks that turn such a claim into a verified relationship.
//!
//! A path attached to a key is untrusted metadata; only the derive-and-compare
//! checks here constitute proof of ancestry.

use vstd::prelude::*;

use crate::Bip32Error;
use crate::Hint;
use crate::backend::Secp256k1;
use crate::backend::pubkey_of;
use crate::bytes::bytes_eq;
use crate::bytes::bytes_lt;
use crate::bytes::lemma_be_nat_all_zero;
use crate::backend::order_be_bytes;
use crate::keys::GenericPrivkey;
use crate::keys::GenericPubkey;
use crate::path::KeyDerivation;
use crate::path::concat_indices;
use crate::path::path_suffix;
use crate::xkeys::GenericXPriv;
use crate::xkeys::GenericXPub;
use crate::xkeys::KeyFingerprint;
use crate::xkeys::XKeyInfo;
use crate::xkeys::XPrivV;
use crate::xkeys::XPubV;
use crate::xkeys::hmac_and_split;
use crate::xkeys::master_of;
use crate::xkeys::priv_child;
use crate::xkeys::priv_path;
use crate::xkeys::pub_child;
use crate::xkeys::pub_path;
use crate::xkeys::standard_hmac_key_bytes;
use crate::xkeys::xpriv_res;
use crate::xkeys::xpub_of;
use crate::bytes::is_hardened;

verus! {

/// A key that carries a purported derivation path.
pub trait DerivedKey {
    /// The path this key claims to have been derived along.
    spec fn spec_path(&self) -> Seq<u32>;

    /// The claimed derivation of this key.
    fn derivation(&self) -> (r: &KeyDerivation)
        ensures
            r@ == self.spec_path(),
    ;
}

/// A key whose serialized public point is available for comparison.
pub trait HasPubkey {
    /// The compressed serialization of the public point.
    spec fn spec_pubkey(&self) -> Seq<u8>;

    /// The serialized public key.
    fn pubkey(&self) -> (r: &Vec<u8>)
        ensures
            r@ == self.spec_pubkey(),
    ;
}

/// A private key coupled with its purported derivation path.
#[derive(Debug)]
pub struct GenericDerivedPrivkey {
    /// The key material.
    pub privkey: GenericPrivkey,
    /// The purported derivation path.
    pub derivation: KeyDerivation,
}

/// A public key coupled with its purported derivation path.
#[derive(Debug)]
pub struct GenericDerivedPubkey {
    /// The key material.
    pub pubkey: GenericPubkey,
    /// The purported derivation path.
    pub derivation: KeyDerivation,
}

/// An extended private key coupled with its purported derivation path.
#[derive(Debug)]
pub struct GenericDerivedXPriv {
    /// The extended key material.
    pub xpriv: GenericXPriv,
    /// The purported derivation path.
    pub derivation: KeyDerivation,
}

/// An extended public key coupled with its purported derivation path.
#[derive(Debug)]
pub struct GenericDerivedXPub {
    /// The extended key material.
    pub xpub: GenericXPub,
    /// The purported derivation path.
    pub derivation: KeyDerivation,
}

impl DerivedKey for GenericDerivedPrivkey {
    open spec fn spec_path(&self) -> Seq<u32> {
        self.derivation@
    }

    fn derivation(&self) -> (r: &KeyDerivation) {
        &self.derivation
    }
}

impl DerivedKey for GenericDerivedPubkey {
    open spec fn spec_path(&self) -> Seq<u32> {
        self.derivation@
    }

    fn derivation(&self) -> (r: &KeyDerivation) {
        &self.derivation
    }
}

impl DerivedKey for GenericDerivedXPriv {
    open spec fn spec_path(&self) -> Seq<u32> {
        self.derivation@
    }

    fn derivation(&self) -> (r: &KeyDerivation) {
        &self.derivation
    }
}

impl DerivedKey for GenericDerivedXPub {
    open spec fn spec_path(&self) -> Seq<u32> {
        self.derivation@
    }

    fn derivation(&self) -> (r: &KeyDerivation) {
        &self.derivation
    }
}

impl HasPubkey for GenericDerivedPubkey {
    open spec fn spec_pubkey(&self) -> Seq<u8> {
        self.pubkey@
    }

    fn pubkey(&self) -> (r: &Vec<u8>) {
        &self.pubkey.key
    }
}

impl HasPubkey for GenericDerivedXPub {
    open spec fn spec_pubkey(&self) -> Seq<u8> {
        self.xpub.pubkey@
    }

    fn pubkey(&self) -> (r: &Vec<u8>) {
        &self.xpub.pubkey.key
    }
}

impl GenericDerivedPrivkey {
    /// The corresponding public key, under the same purported path.
    pub fn derive_verifying_key(&self) -> (r: Result<GenericDerivedPubkey, Bip32Error>)
        requires
            self.privkey.wf(),
        ensures
            r is Ok,
            r matches Ok(p) ==> p.pubkey@ == pubkey_of(self.privkey@) && p.derivation@
                == self.derivation@,
    {
        Ok(
            GenericDerivedPubkey {
                pubkey: self.privkey.derive_verifying_key(),
                derivation: self.derivation.clone(),
            },
        )
    }
}

/// The result of checking a private ancestry claim: no path relation is a
/// legitimate `false`; otherwise the candidate descendant is derived along
/// the relative path and its public key compared byte-for-byte.
pub open spec fn priv_ancestor_check(x: XPrivV, self_path: Seq<u32>, other_path: Seq<u32>,
    other_pub: Seq<u8>) -> Result<bool, Bip32Error> {
    match path_suffix(self_path, other_path) {
        Some(rel) => match priv_path(x, rel) {
            Ok(d) => Ok(pubkey_of(d.key) == other_pub),
            Err(e) => Err(e),
        },
        None => Ok(false),
    }
}

/// The result of checking a public ancestry claim; a hardened step in the
/// relative path surfaces as an error, never as a silent `false`.
pub open spec fn pub_ancestor_check(x: XPubV, self_path: Seq<u32>, other_path: Seq<u32>,
    other_pub: Seq<u8>) -> Result<bool, Bip32Error> {
    match path_suffix(self_path, other_path) {
        Some(rel) => match pub_path(x, rel) {
            Ok(d) => Ok(d.pubkey == other_pub),
            Err(e) => Err(e),
        },
        None => Ok(false),
    }
}

impl GenericDerivedXPriv {
    /// A derived extended private key is well formed when its key material
    /// is.
    pub open spec fn wf(&self) -> bool {
        self.xpriv.wf()
    }

    /// Instantiate a master node using a custom HMAC key: the HMAC of the
    /// seed is split into candidate scalar and chain code; the result has
    /// depth 0, an all-zero parent fingerprint and index 0.
    pub fn custom_master_node(hmac_key: &[u8], data: &[u8], hint: Option<Hint>,
        backend: &Secp256k1) -> (r: Result<GenericXPriv, Bip32Error>)
        ensures
            xpriv_res(r) == master_of(hmac_key@, data@, hint),
            r matches Ok(x) ==> x.wf(),
    {
        if data.len() < 16 {
            return Err(Bip32Error::SeedTooShort);
        }
        let (key, chain_code) = hmac_and_split(hmac_key, data);
        let zero32: Vec<u8> = vec![0u8; 32];
        proof {
            lemma_be_nat_all_zero(zero32@);
        }
        let order_v = order_be_bytes();
        if !bytes_lt(&zero32, &key) {
            return Err(Bip32Error::InvalidKey);
        }
        if !bytes_lt(&key, &order_v) {
            return Err(Bip32Error::InvalidKey);
        }
        let r = GenericXPriv {
            info: XKeyInfo {
                depth: 0,
                parent: KeyFingerprint(vec![0u8, 0u8, 0u8, 0u8]),
                index: 0,
                chain_code,
                hint: match hint {
                    Some(h) => h,
                    None => Hint::SegWit,
                },
            },
            privkey: GenericPrivkey { key, backend: Secp256k1 },
        };
        assert(r@ =~= master_of(hmac_key@, data@, hint)->Ok_0);
        Ok(r)
    }

    /// Generate a master node from seed entropy with the protocol-standard
    /// HMAC key. The seed must hold at least 128 bits.
    pub fn root_from_seed(data: &[u8], hint: Option<Hint>, backend: &Secp256k1) -> (r: Result<
        GenericXPriv,
        Bip32Error,
    >)
        ensures
            xpriv_res(r) == master_of(crate::xkeys::standard_hmac_key(), data@, hint),
            r matches Ok(x) ==> x.wf(),
    {
        let key = standard_hmac_key_bytes();
        Self::custom_master_node(key.as_slice(), data, hint, backend)
    }

    /// The corresponding derived extended public key, under the same
    /// purported path.
    pub fn to_derived_xpub(&self) -> (r: Result<GenericDerivedXPub, Bip32Error>)
        requires
            self.wf(),
        ensures
            r is Ok,
            r matches Ok(p) ==> p.xpub@ == xpub_of(self.xpriv@) && p.derivation@
                == self.derivation@ && p.wf(),
    {
        match self.xpriv.derive_verifying_key() {
            Ok(xpub) => Ok(
                GenericDerivedXPub { xpub, derivation: self.derivation.clone() },
            ),
            Err(e) => Err(e),
        }
    }

    /// The corresponding verifying key: the same projection as
    /// `to_derived_xpub`.
    pub fn derive_verifying_key(&self) -> (r: Result<GenericDerivedXPub, Bip32Error>)
        requires
            self.wf(),
        ensures
            r is Ok,
            r matches Ok(p) ==> p.xpub@ == xpub_of(self.xpriv@) && p.derivation@
                == self.derivation@ && p.wf(),
    {
        self.to_derived_xpub()
    }

    /// One private child-derivation step, with the purported path extended
    /// by the consumed index. For a non-hardened index the result's public
    /// counterpart agrees with public derivation from the parent's public
    /// counterpart.
    pub fn derive_private_child(&self, index: u32) -> (r: Result<GenericDerivedXPriv, Bip32Error>)
        requires
            self.wf(),
        ensures
            r is Ok <==> priv_child(self.xpriv@, index) is Ok,
            r matches Ok(c) ==> c.xpriv@ == priv_child(self.xpriv@, index)->Ok_0 && c.derivation@
                == self.derivation@.push(index) && c.wf(),
            r matches Err(e) ==> priv_child(self.xpriv@, index) == Err::<XPrivV, Bip32Error>(e),
            !is_hardened(index) ==> (r matches Ok(c) ==> pub_child(xpub_of(self.xpriv@), index)
                == Ok::<XPubV, Bip32Error>(xpub_of(c.xpriv@))),
    {
        match self.xpriv.derive_private_child(index) {
            Ok(xpriv) => Ok(
                GenericDerivedXPriv { xpriv, derivation: self.derivation.extended(index) },
            ),
            Err(e) => Err(e),
        }
    }

    /// Private derivation along a whole path, with the purported path
    /// extended by every consumed index; all-or-nothing.
    pub fn derive_private_path(&self, path: &Vec<u32>) -> (r: Result<
        GenericDerivedXPriv,
        Bip32Error,
    >)
        requires
            self.wf(),
        ensures
            r is Ok <==> priv_path(self.xpriv@, path@) is Ok,
            r matches Ok(c) ==> c.xpriv@ == priv_path(self.xpriv@, path@)->Ok_0 && c.derivation@
                == self.derivation@ + path@ && c.wf(),
            r matches Err(e) ==> priv_path(self.xpriv@, path@) == Err::<XPrivV, Bip32Error>(e),
    {
        match self.xpriv.derive_private_path(path) {
            Ok(xpriv) => Ok(
                GenericDerivedXPriv {
                    xpriv,
                    derivation: KeyDerivation {
                        path: concat_indices(&self.derivation.path, path),
                    },
                },
            ),
            Err(e) => Err(e),
        }
    }

    /// Check whether this extended private key is an ancestor of `other`:
    /// `false` when the paths are unrelated, otherwise derive along the
    /// relative path and compare public keys byte-for-byte. This
    /// derive-and-compare is the sole cryptographically meaningful check;
    /// matching paths alone prove nothing.
    pub fn is_private_ancestor_of<D: DerivedKey + HasPubkey>(&self, other: &D) -> (r: Result<
        bool,
        Bip32Error,
    >)
        requires
            self.wf(),
        ensures
            r == priv_ancestor_check(self.xpriv@, self.derivation@, other.spec_path(),
                other.spec_pubkey()),
    {
        match self.derivation.path_to_descendant(other.derivation()) {
            Some(rel) => match self.xpriv.derive_private_path(&rel) {
                Ok(descendant) => {
                    let descendant_pk = descendant.privkey.derive_verifying_key();
                    Ok(bytes_eq(descendant_pk.key.as_slice(), other.pubkey().as_slice()))
                },
                Err(e) => Err(e),
            },
            None => Ok(false),
        }
    }
}

impl GenericDerivedXPub {
    /// A derived extended public key is well formed when its key material
    /// is.
    pub open spec fn wf(&self) -> bool {
        self.xpub.wf()
    }

    /// Derive the extended public key of a derived extended private key,
    /// under the same purported path.
    pub fn from_derived_xpriv(xpriv: &GenericDerivedXPriv) -> (r: Result<
        GenericDerivedXPub,
        Bip32Error,
    >)
        requires
            xpriv.wf(),
        ensures
            r is Ok,
            r matches Ok(p) ==> p.xpub@ == xpub_of(xpriv.xpriv@) && p.derivation@
                == xpriv.derivation@ && p.wf(),
    {
        xpriv.to_derived_xpub()
    }

    /// One public child-derivation step, with the purported path extended by
    /// the consumed index; hardened indices are rejected.
    pub fn derive_public_child(&self, index: u32) -> (r: Result<GenericDerivedXPub, Bip32Error>)
        requires
            self.wf(),
        ensures
            r is Ok <==> pub_child(self.xpub@, index) is Ok,
            r matches Ok(c) ==> c.xpub@ == pub_child(self.xpub@, index)->Ok_0 && c.derivation@
                == self.derivation@.push(index) && c.wf(),
            r matches Err(e) ==> pub_child(self.xpub@, index) == Err::<XPubV, Bip32Error>(e),
    {
        match self.xpub.derive_public_child(index) {
            Ok(xpub) => Ok(
                GenericDerivedXPub { xpub, derivation: self.derivation.extended(index) },
            ),
            Err(e) => Err(e),
        }
    }

    /// Check whether this extended public key is an ancestor of `other`:
    /// `false` when the paths are unrelated; a hardened step in the relative
    /// path surfaces as an error, never as a silent `false`.
    pub fn is_public_ancestor_of<D: DerivedKey + HasPubkey>(&self, other: &D) -> (r: Result<
        bool,
        Bip32Error,
    >)
        requires
            self.wf(),
        ensures
            r == pub_ancestor_check(self.xpub@, self.derivation@, other.spec_path(),
                other.spec_pubkey()),
    {
        match self.derivation.path_to_descendant(other.derivation()) {
            Some(rel) => match self.xpub.derive_public_path(&rel) {
                Ok(descendant) => Ok(
                    bytes_eq(descendant.pubkey.key.as_slice(), other.pubkey().as_slice()),
                ),
                Err(e) => Err(e),
            },
            None => Ok(false),
        }
    }
}

/// A private root is an ancestor of every key derived from it: deriving along
/// any successful path and checking ancestry of the result yields `true`.
pub proof fn lemma_private_ancestor_of_descendant(x: XPrivV, root_path: Seq<u32>, p: Seq<u32>)
    requires
        priv_path(x, p) is Ok,
    ensures
        priv_ancestor_check(x, root_path, root_path + p, pubkey_of(priv_path(x, p)->Ok_0.key))
            == Ok::<bool, Bip32Error>(true),
{
    assert((root_path + p).subrange(0, root_path.len() as int) =~= root_path);
    assert((root_path + p).skip(root_path.len() as int) =~= p);
}

/// A public root is an ancestor of every key publicly derived from it:
/// deriving along any successful (all non-hardened) path and checking
/// ancestry of the result yields `true`.
pub proof fn lemma_public_ancestor_of_descendant(x: XPubV, root_path: Seq<u32>, p: Seq<u32>)
    requires
        pub_path(x, p) is Ok,
    ensures
        pub_ancestor_check(x, root_path, root_path + p, pub_path(x, p)->Ok_0.pubkey)
            == Ok::<bool, Bip32Error>(true),
{
    assert((root_path + p).subrange(0, root_path.len() as int) =~= root_path);
    assert((root_path + p).skip(root_path.len() as int) =~= p);
}

} // verus!
