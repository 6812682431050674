//! Extended keys: key material plus HD metadata, and the single-step and
//! path derivation protocol over them.
//!
//! Each operation is specified by a spec-level function of the parent's
//! model, so derivation is deterministic by contract: equal inputs are
//! promised byte-identical outputs.

use vstd::prelude::*;

use crate::Bip32Error;
use crate::Hint;
use crate::backend::Secp256k1;
use crate::backend::hmac_sha512;
use crate::backend::hmac_sha512_of;
use crate::backend::order;
use crate::backend::order_be_bytes;
use crate::backend::point_tweak_of;
use crate::backend::pubkey_of;
use crate::backend::scalar_in_range;
use crate::backend::sha256;
use crate::backend::sha256_of;
use crate::bytes::be32;
use crate::bytes::be_nat;
use crate::bytes::bytes_lt;
use crate::bytes::clone_vec_copy;
use crate::bytes::index_bytes;
use crate::bytes::is_hardened;
use crate::bytes::lemma_be_nat_all_zero;
use crate::bytes::lemma_be_nat_bound;
use crate::bytes::lemma_be_nat_of_be_of;
use crate::bytes::lemma_be_of_len;
use crate::bytes::push_all;
use crate::bytes::sub_bytes;
use crate::keys::GenericPrivkey;
use crate::keys::GenericPubkey;

verus! {

/// The fingerprint of a parent key: a 4-byte truncation of a hash of its
/// serialized public key, used to tag parentage (a hint, not a binding).
#[derive(Debug)]
pub struct KeyFingerprint(pub Vec<u8>);

impl View for KeyFingerprint {
    type V = Seq<u8>;

    open spec fn view(&self) -> Seq<u8> {
        self.0@
    }
}

impl Clone for KeyFingerprint {
    fn clone(&self) -> (r: Self)
        ensures
            r@ == self@,
    {
        KeyFingerprint(clone_vec_copy(&self.0))
    }
}

/// Model of the HD metadata of an extended key.
#[verifier::ext_equal]
pub struct XKeyInfoV {
    /// Number of ancestors (0 at the root).
    pub depth: u8,
    /// Fingerprint of the immediate parent (all-zero at the root).
    pub parent: Seq<u8>,
    /// The child index consumed to reach this key.
    pub index: u32,
    /// The chain code produced together with the key.
    pub chain_code: Seq<u8>,
    /// Address-type hint.
    pub hint: Hint,
}

/// Model of an extended private key.
#[verifier::ext_equal]
pub struct XPrivV {
    /// HD metadata.
    pub info: XKeyInfoV,
    /// Canonical big-endian bytes of the private scalar.
    pub key: Seq<u8>,
}

/// Model of an extended public key.
#[verifier::ext_equal]
pub struct XPubV {
    /// HD metadata.
    pub info: XKeyInfoV,
    /// Compressed serialization of the public point.
    pub pubkey: Seq<u8>,
}

/// HD metadata of an extended key.
#[derive(Debug)]
pub struct XKeyInfo {
    /// Number of ancestors (0 at the root).
    pub depth: u8,
    /// Fingerprint of the immediate parent (all-zero at the root).
    pub parent: KeyFingerprint,
    /// The child index consumed to reach this key.
    pub index: u32,
    /// The chain code produced together with the key.
    pub chain_code: Vec<u8>,
    /// Address-type hint.
    pub hint: Hint,
}

impl View for XKeyInfo {
    type V = XKeyInfoV;

    open spec fn view(&self) -> XKeyInfoV {
        XKeyInfoV {
            depth: self.depth,
            parent: self.parent@,
            index: self.index,
            chain_code: self.chain_code@,
            hint: self.hint,
        }
    }
}

impl Clone for XKeyInfo {
    fn clone(&self) -> (r: Self)
        ensures
            r@ == self@,
    {
        let r = XKeyInfo {
            depth: self.depth,
            parent: self.parent.clone(),
            index: self.index,
            chain_code: clone_vec_copy(&self.chain_code),
            hint: self.hint,
        };
        assert(r@ =~= self@);
        r
    }
}

/// An extended private key: a private key and the metadata produced with it.
#[derive(Debug)]
pub struct GenericXPriv {
    /// HD metadata.
    pub info: XKeyInfo,
    /// The private key produced by the same derivation step.
    pub privkey: GenericPrivkey,
}

/// An extended public key: a public key and the metadata produced with it.
#[derive(Debug)]
pub struct GenericXPub {
    /// HD metadata.
    pub info: XKeyInfo,
    /// The public key produced by the same derivation step.
    pub pubkey: GenericPubkey,
}

impl View for GenericXPriv {
    type V = XPrivV;

    open spec fn view(&self) -> XPrivV {
        XPrivV { info: self.info@, key: self.privkey@ }
    }
}

impl View for GenericXPub {
    type V = XPubV;

    open spec fn view(&self) -> XPubV {
        XPubV { info: self.info@, pubkey: self.pubkey@ }
    }
}

/// Metadata well-formedness: a 4-byte parent fingerprint and a 32-byte
/// chain code.
pub open spec fn info_wf(i: XKeyInfoV) -> bool {
    i.parent.len() == 4 && i.chain_code.len() == 32
}

/// Extended-private-key well-formedness: valid metadata and a scalar the
/// backend accepts.
pub open spec fn xpriv_wf(x: XPrivV) -> bool {
    info_wf(x.info) && scalar_in_range(x.key)
}

/// Extended-public-key well-formedness: valid metadata and a compressed
/// point serialization.
pub open spec fn xpub_wf(x: XPubV) -> bool {
    info_wf(x.info) && x.pubkey.len() == 33
}

/// The fingerprint bytes of a serialized public key: the first four bytes of
/// its double-SHA256 digest.
pub open spec fn fingerprint_of(pubkey: Seq<u8>) -> Seq<u8> {
    sha256_of(sha256_of(pubkey)).subrange(0, 4)
}

/// The metadata of a child one step below a parent.
pub open spec fn child_info(parent: XKeyInfoV, parent_pubkey: Seq<u8>, index: u32,
    chain_code: Seq<u8>) -> XKeyInfoV {
    XKeyInfoV {
        depth: (parent.depth + 1) as u8,
        parent: fingerprint_of(parent_pubkey),
        index,
        chain_code,
        hint: parent.hint,
    }
}

/// The HMAC payload of a private derivation step: for a hardened index a
/// zero byte, the parent scalar and the index; otherwise the parent public
/// point and the index.
pub open spec fn priv_payload(x: XPrivV, index: u32) -> Seq<u8> {
    if is_hardened(index) {
        seq![0u8] + x.key + be32(index)
    } else {
        pubkey_of(x.key) + be32(index)
    }
}

/// The tweak scalar of a private derivation step: the first half of the
/// HMAC output keyed by the parent chain code.
pub open spec fn priv_tweak(x: XPrivV, index: u32) -> Seq<u8> {
    hmac_sha512_of(x.info.chain_code, priv_payload(x, index)).subrange(0, 32)
}

/// The extended public key corresponding to an extended private key: the
/// same metadata over the projected public point.
pub open spec fn xpub_of(x: XPrivV) -> XPubV {
    XPubV { info: x.info, pubkey: pubkey_of(x.key) }
}

/// One private child-derivation step. The new scalar is the parent scalar
/// plus the HMAC tweak modulo the group order; the step fails when the depth
/// is exhausted, the tweak is not below the group order, or the new scalar
/// is zero.
pub open spec fn priv_child(x: XPrivV, index: u32) -> Result<XPrivV, Bip32Error> {
    if x.info.depth >= 255 {
        Err(Bip32Error::DepthExceeded)
    } else {
        let h = hmac_sha512_of(x.info.chain_code, priv_payload(x, index));
        let tweak = h.subrange(0, 32);
        let cc = h.subrange(32, 64);
        if be_nat(tweak) >= order() {
            Err(Bip32Error::InvalidKey)
        } else if be_nat(tweak) == 0 {
            Ok(XPrivV { info: child_info(x.info, pubkey_of(x.key), index, cc), key: x.key })
        } else if (be_nat(x.key) + be_nat(tweak)) % order() == 0 {
            Err(Bip32Error::InvalidKey)
        } else {
            Ok(
                XPrivV {
                    info: child_info(x.info, pubkey_of(x.key), index, cc),
                    key: crate::bytes::be_of((be_nat(x.key) + be_nat(tweak)) % order(), 32),
                },
            )
        }
    }
}

/// One public child-derivation step. Hardened indices are rejected outright;
/// otherwise the new point is the parent point tweaked by the HMAC tweak,
/// and the step fails when the depth is exhausted, the tweak is not below
/// the group order, or the tweaked point is the identity.
pub open spec fn pub_child(x: XPubV, index: u32) -> Result<XPubV, Bip32Error> {
    if is_hardened(index) {
        Err(Bip32Error::HardenedDerivationUnsupported)
    } else if x.info.depth >= 255 {
        Err(Bip32Error::DepthExceeded)
    } else {
        let h = hmac_sha512_of(x.info.chain_code, x.pubkey + be32(index));
        let tweak = h.subrange(0, 32);
        let cc = h.subrange(32, 64);
        if be_nat(tweak) >= order() {
            Err(Bip32Error::InvalidKey)
        } else if be_nat(tweak) == 0 {
            Ok(XPubV { info: child_info(x.info, x.pubkey, index, cc), pubkey: x.pubkey })
        } else {
            match point_tweak_of(x.pubkey, tweak) {
                Some(p) => Ok(XPubV { info: child_info(x.info, x.pubkey, index, cc), pubkey: p }),
                None => Err(Bip32Error::InvalidKey),
            }
        }
    }
}

/// Private derivation along a whole path, left to right; the empty path is
/// the identity, and the first failing step aborts the whole application.
pub open spec fn priv_path(x: XPrivV, path: Seq<u32>) -> Result<XPrivV, Bip32Error>
    decreases path.len(),
{
    if path.len() == 0 {
        Ok(x)
    } else {
        match priv_child(x, path[0]) {
            Ok(c) => priv_path(c, path.skip(1)),
            Err(e) => Err(e),
        }
    }
}

/// Public derivation along a whole path, left to right; the empty path is
/// the identity, and the first failing step (a hardened index among them)
/// aborts the whole application.
pub open spec fn pub_path(x: XPubV, path: Seq<u32>) -> Result<XPubV, Bip32Error>
    decreases path.len(),
{
    if path.len() == 0 {
        Ok(x)
    } else {
        match pub_child(x, path[0]) {
            Ok(c) => pub_path(c, path.skip(1)),
            Err(e) => Err(e),
        }
    }
}

/// Master-node construction from seed entropy: the HMAC of the seed is split
/// into candidate scalar and chain code; seeds under 16 bytes and candidate
/// scalars that are zero or not below the group order are rejected.
pub open spec fn master_of(hmac_key: Seq<u8>, data: Seq<u8>, hint: Option<Hint>) -> Result<
    XPrivV,
    Bip32Error,
> {
    if data.len() < 16 {
        Err(Bip32Error::SeedTooShort)
    } else {
        let h = hmac_sha512_of(hmac_key, data);
        let key = h.subrange(0, 32);
        let cc = h.subrange(32, 64);
        if be_nat(key) == 0 || be_nat(key) >= order() {
            Err(Bip32Error::InvalidKey)
        } else {
            Ok(
                XPrivV {
                    info: XKeyInfoV {
                        depth: 0,
                        parent: seq![0u8, 0u8, 0u8, 0u8],
                        index: 0,
                        chain_code: cc,
                        hint: match hint {
                            Some(h) => h,
                            None => Hint::SegWit,
                        },
                    },
                    key,
                },
            )
        }
    }
}

/// The model of an `Ok` extended private key, or the error unchanged.
pub open spec fn xpriv_res(r: Result<GenericXPriv, Bip32Error>) -> Result<XPrivV, Bip32Error> {
    match r {
        Ok(x) => Ok(x@),
        Err(e) => Err(e),
    }
}

/// The model of an `Ok` extended public key, or the error unchanged.
pub open spec fn xpub_res(r: Result<GenericXPub, Bip32Error>) -> Result<XPubV, Bip32Error> {
    match r {
        Ok(x) => Ok(x@),
        Err(e) => Err(e),
    }
}

/// The public counterpart of an `Ok` extended private key, or the error
/// unchanged.
pub open spec fn pub_of_priv_res(r: Result<GenericXPriv, Bip32Error>) -> Result<
    XPubV,
    Bip32Error,
> {
    match r {
        Ok(x) => Ok(xpub_of(x@)),
        Err(e) => Err(e),
    }
}

/// The protocol-standard HMAC key for master-node construction.
pub open spec fn standard_hmac_key() -> Seq<u8> {
    seq![0x42u8, 0x69u8, 0x74u8, 0x63u8, 0x6fu8, 0x69u8, 0x6eu8, 0x20u8, 0x73u8, 0x65u8, 0x65u8,
        0x64u8]
}

/// The protocol-standard HMAC key for master-node construction, as bytes.
pub fn standard_hmac_key_bytes() -> (r: Vec<u8>)
    ensures
        r@ == standard_hmac_key(),
{
    let r: Vec<u8> = vec![0x42, 0x69, 0x74, 0x63, 0x6f, 0x69, 0x6e, 0x20, 0x73, 0x65, 0x65, 0x64];
    assert(r@ =~= standard_hmac_key());
    r
}

/// Keyed HMAC-SHA512 split into its two 32-byte halves: candidate key (or
/// tweak) first, chain code second.
pub fn hmac_and_split(key: &[u8], data: &[u8]) -> (r: (Vec<u8>, Vec<u8>))
    ensures
        r.0@ == hmac_sha512_of(key@, data@).subrange(0, 32),
        r.1@ == hmac_sha512_of(key@, data@).subrange(32, 64),
        r.0@.len() == 32,
        r.1@.len() == 32,
{
    let h = hmac_sha512(key, data);
    let first = sub_bytes(h.as_slice(), 0, 32);
    let second = sub_bytes(h.as_slice(), 32, 64);
    (first, second)
}

/// The group order is positive and fits 32 bytes.
proof fn lemma_order_bounds()
    ensures
        0 < order() < crate::bytes::pow256(32),
{
    lemma_be_nat_bound(crate::backend::order_bytes());
    assert(crate::backend::order_bytes().last() == 0x41);
}

/// The first four bytes of the double-SHA256 digest of a serialized public
/// key.
fn fingerprint_bytes(pubkey: &Vec<u8>) -> (r: Vec<u8>)
    ensures
        r@ == fingerprint_of(pubkey@),
        r@.len() == 4,
{
    let d1 = sha256(pubkey.as_slice());
    let d2 = sha256(d1.as_slice());
    sub_bytes(d2.as_slice(), 0, 4)
}

impl GenericXPriv {
    /// An extended private key is well formed when its metadata and scalar
    /// are.
    pub open spec fn wf(&self) -> bool {
        xpriv_wf(self@)
    }

    /// The corresponding extended public key: the pure projection of the
    /// scalar to its public point, with the metadata unchanged.
    pub fn derive_verifying_key(&self) -> (r: Result<GenericXPub, Bip32Error>)
        requires
            self.wf(),
        ensures
            r matches Ok(p) ==> p@ == xpub_of(self@) && p.wf(),
            r is Ok,
    {
        let r = GenericXPub {
            info: self.info.clone(),
            pubkey: self.privkey.derive_verifying_key(),
        };
        assert(r@ =~= xpub_of(self@));
        Ok(r)
    }

    /// One private child-derivation step: a pure
    /// function of parent key, parent chain code and index. For a
    /// non-hardened index it also agrees with public derivation applied to
    /// the parent's public counterpart.
    pub fn derive_private_child(&self, index: u32) -> (r: Result<GenericXPriv, Bip32Error>)
        requires
            self.wf(),
        ensures
            xpriv_res(r) == priv_child(self@, index),
            r matches Ok(c) ==> c.wf(),
            !is_hardened(index) ==> pub_of_priv_res(r) == pub_child(xpub_of(self@), index),
    {
        proof {
            lemma_order_bounds();
        }
        if self.info.depth >= 255 {
            return Err(Bip32Error::DepthExceeded);
        }
        let pubkey = self.privkey.backend.scalar_to_public_point(&self.privkey.key);
        let mut data: Vec<u8> = Vec::new();
        if index >= 0x8000_0000 {
            data.push(0u8);
            push_all(&mut data, self.privkey.key.as_slice());
        } else {
            push_all(&mut data, pubkey.as_slice());
        }
        let ib = index_bytes(index);
        push_all(&mut data, ib.as_slice());
        assert(data@ =~= priv_payload(self@, index));
        let (tweak, chain_code) = hmac_and_split(self.info.chain_code.as_slice(), data.as_slice());
        let order_v = order_be_bytes();
        if !bytes_lt(&tweak, &order_v) {
            return Err(Bip32Error::InvalidKey);
        }
        let zero32: Vec<u8> = vec![0u8; 32];
        proof {
            lemma_be_nat_all_zero(zero32@);
        }
        let new_key: Vec<u8>;
        if !bytes_lt(&zero32, &tweak) {
            // A zero tweak leaves the scalar unchanged.
            new_key = clone_vec_copy(&self.privkey.key);
        } else {
            match self.privkey.backend.tweak_add_scalar(&self.privkey.key, &tweak) {
                Ok(k) => {
                    proof {
                        let m = (be_nat(self@.key) + be_nat(tweak@)) % order();
                        vstd::arithmetic::div_mod::lemma_mod_bound(
                            (be_nat(self@.key) + be_nat(tweak@)) as int,
                            order() as int,
                        );
                        lemma_be_of_len(m, 32);
                        lemma_be_nat_of_be_of(m, 32);
                    }
                    new_key = k;
                },
                Err(e) => {
                    return Err(e);
                },
            }
        }
        let fp = fingerprint_bytes(&pubkey);
        let r = GenericXPriv {
            info: XKeyInfo {
                depth: self.info.depth + 1,
                parent: KeyFingerprint(fp),
                index,
                chain_code,
                hint: self.info.hint,
            },
            privkey: GenericPrivkey { key: new_key, backend: Secp256k1 },
        };
        assert(r@ =~= priv_child(self@, index)->Ok_0);
        Ok(r)
    }

    /// Private derivation along a whole path, left to right; the empty path
    /// returns the key unchanged, and the first failing step aborts the
    /// whole application.
    pub fn derive_private_path(&self, path: &Vec<u32>) -> (r: Result<GenericXPriv, Bip32Error>)
        requires
            self.wf(),
        ensures
            xpriv_res(r) == priv_path(self@, path@),
            r matches Ok(c) ==> c.wf(),
    {
        let mut cur = self.clone();
        let mut i: usize = 0;
        assert(path@.skip(0) =~= path@);
        while i < path.len()
            invariant
                i <= path@.len(),
                cur.wf(),
                priv_path(self@, path@) == priv_path(cur@, path@.skip(i as int)),
            decreases path@.len() - i,
        {
            assert(path@.skip(i as int)[0] == path@[i as int]);
            match cur.derive_private_child(path[i]) {
                Ok(c) => {
                    assert(path@.skip(i as int).skip(1) =~= path@.skip(i + 1));
                    cur = c;
                },
                Err(e) => {
                    return Err(e);
                },
            }
            i = i + 1;
        }
        assert(path@.skip(i as int) =~= Seq::<u32>::empty());
        Ok(cur)
    }
}

impl Clone for GenericXPriv {
    fn clone(&self) -> (r: Self)
        ensures
            r@ == self@,
    {
        let r = GenericXPriv { info: self.info.clone(), privkey: self.privkey.clone() };
        assert(r@ =~= self@);
        r
    }
}

impl GenericXPub {
    /// An extended public key is well formed when its metadata and point
    /// serialization are.
    pub open spec fn wf(&self) -> bool {
        xpub_wf(self@)
    }

    /// One public child-derivation step: hardened
    /// indices are rejected, every other step is a pure function of parent
    /// point, parent chain code and index.
    pub fn derive_public_child(&self, index: u32) -> (r: Result<GenericXPub, Bip32Error>)
        requires
            self.wf(),
        ensures
            xpub_res(r) == pub_child(self@, index),
            r matches Ok(c) ==> c.wf(),
    {
        proof {
            lemma_order_bounds();
        }
        if index >= 0x8000_0000 {
            return Err(Bip32Error::HardenedDerivationUnsupported);
        }
        if self.info.depth >= 255 {
            return Err(Bip32Error::DepthExceeded);
        }
        let mut data: Vec<u8> = Vec::new();
        push_all(&mut data, self.pubkey.key.as_slice());
        let ib = index_bytes(index);
        push_all(&mut data, ib.as_slice());
        assert(data@ =~= self@.pubkey + be32(index));
        let (tweak, chain_code) = hmac_and_split(self.info.chain_code.as_slice(), data.as_slice());
        let order_v = order_be_bytes();
        if !bytes_lt(&tweak, &order_v) {
            return Err(Bip32Error::InvalidKey);
        }
        let zero32: Vec<u8> = vec![0u8; 32];
        proof {
            lemma_be_nat_all_zero(zero32@);
        }
        let new_pubkey: Vec<u8>;
        if !bytes_lt(&zero32, &tweak) {
            // A zero tweak leaves the point unchanged.
            new_pubkey = clone_vec_copy(&self.pubkey.key);
        } else {
            match self.pubkey.backend.tweak_add_point(&self.pubkey.key, &tweak) {
                Ok(p) => {
                    new_pubkey = p;
                },
                Err(e) => {
                    return Err(e);
                },
            }
        }
        let fp = fingerprint_bytes(&self.pubkey.key);
        let r = GenericXPub {
            info: XKeyInfo {
                depth: self.info.depth + 1,
                parent: KeyFingerprint(fp),
                index,
                chain_code,
                hint: self.info.hint,
            },
            pubkey: GenericPubkey { key: new_pubkey, backend: Secp256k1 },
        };
        assert(r@ =~= pub_child(self@, index)->Ok_0);
        Ok(r)
    }

    /// Public derivation along a whole path, left to right; the empty path
    /// returns the key unchanged, and the first failing step (in particular
    /// the first hardened index) aborts the whole application.
    pub fn derive_public_path(&self, path: &Vec<u32>) -> (r: Result<GenericXPub, Bip32Error>)
        requires
            self.wf(),
        ensures
            xpub_res(r) == pub_path(self@, path@),
            r matches Ok(c) ==> c.wf(),
    {
        let mut cur = self.clone();
        let mut i: usize = 0;
        assert(path@.skip(0) =~= path@);
        while i < path.len()
            invariant
                i <= path@.len(),
                cur.wf(),
                pub_path(self@, path@) == pub_path(cur@, path@.skip(i as int)),
            decreases path@.len() - i,
        {
            assert(path@.skip(i as int)[0] == path@[i as int]);
            match cur.derive_public_child(path[i]) {
                Ok(c) => {
                    assert(path@.skip(i as int).skip(1) =~= path@.skip(i + 1));
                    cur = c;
                },
                Err(e) => {
                    return Err(e);
                },
            }
            i = i + 1;
        }
        assert(path@.skip(i as int) =~= Seq::<u32>::empty());
        Ok(cur)
    }
}

impl Clone for GenericXPub {
    fn clone(&self) -> (r: Self)
        ensures
            r@ == self@,
    {
        let r = GenericXPub { info: self.info.clone(), pubkey: self.pubkey.clone() };
        assert(r@ =~= self@);
        r
    }
}

/// Every seed under 16 bytes is rejected with the dedicated error, whatever
/// the HMAC key and hint.
pub proof fn lemma_short_seed_rejected(hmac_key: Seq<u8>, data: Seq<u8>, hint: Option<Hint>)
    requires
        data.len() < 16,
    ensures
        master_of(hmac_key, data, hint) == Err::<XPrivV, Bip32Error>(Bip32Error::SeedTooShort),
{
}

/// Hardened derivation is impossible from a public key alone: a hardened
/// index makes public child derivation fail with the dedicated error.
pub proof fn lemma_hardened_public_child_fails(x: XPubV, index: u32)
    requires
        is_hardened(index),
    ensures
        pub_child(x, index) == Err::<XPubV, Bip32Error>(Bip32Error::HardenedDerivationUnsupported),
{
}

/// Hardened private derivation succeeds whenever the depth is not exhausted,
/// the step's tweak is below the group order and the resulting scalar is
/// nonzero (the astronomically rare failure cases the protocol reports).
pub proof fn lemma_hardened_private_child_succeeds(x: XPrivV, index: u32)
    requires
        is_hardened(index),
        x.info.depth < 255,
        be_nat(priv_tweak(x, index)) < order(),
        (be_nat(x.key) + be_nat(priv_tweak(x, index))) % order() != 0,
    ensures
        priv_child(x, index) is Ok,
{
}

} // verus!
