//! The curve backend and keyed-hash primitives that derivation consumes,
//! together with the names the contracts use for their results.
//!
//! The scalar and point operations come from the secp256k1 backend; keys are
//! handled as their canonical serializations (32-byte big-endian scalars and
//! 33-byte compressed points), so every contract speaks of plain bytes.

use vstd::prelude::*;

use crate::Bip32Error;
use crate::bytes::be_nat;
use crate::bytes::be_of;

verus! {

/// Handle for the secp256k1 arithmetic backend. The backend holds no state:
/// every key may share one handle for read-only use.
#[derive(Debug)]
pub struct Secp256k1;

/// The compressed serialization of the public point `k·G` for the scalar with
/// big-endian bytes `key`; a function of the scalar alone.
pub uninterp spec fn pubkey_of(key: Seq<u8>) -> Seq<u8>;

/// The compressed serialization of `P + t·G` for a compressed point `P` and a
/// tweak scalar `t`; `None` when the bytes are not a valid point or the sum
/// is the point at infinity.
pub uninterp spec fn point_tweak_of(point: Seq<u8>, tweak: Seq<u8>) -> Option<Seq<u8>>;

/// The 64-byte output of HMAC-SHA512 with key `key` over `data`.
pub uninterp spec fn hmac_sha512_of(key: Seq<u8>, data: Seq<u8>) -> Seq<u8>;

/// The 32-byte SHA-256 digest of `data`.
pub uninterp spec fn sha256_of(data: Seq<u8>) -> Seq<u8>;

/// The big-endian bytes of the order of the secp256k1 group.
pub open spec fn order_bytes() -> Seq<u8> {
    seq![
        0xffu8, 0xffu8, 0xffu8, 0xffu8, 0xffu8, 0xffu8, 0xffu8, 0xffu8,
        0xffu8, 0xffu8, 0xffu8, 0xffu8, 0xffu8, 0xffu8, 0xffu8, 0xfeu8,
        0xbau8, 0xaeu8, 0xdcu8, 0xe6u8, 0xafu8, 0x48u8, 0xa0u8, 0x3bu8,
        0xbfu8, 0xd2u8, 0x5eu8, 0x8cu8, 0xd0u8, 0x36u8, 0x41u8, 0x41u8,
    ]
}

/// The order of the secp256k1 group.
pub open spec fn order() -> nat {
    be_nat(order_bytes())
}

/// A byte string that the backend accepts as a private scalar: 32 bytes
/// denoting a number that is nonzero and below the group order.
pub open spec fn scalar_in_range(s: Seq<u8>) -> bool {
    s.len() == 32 && 0 < be_nat(s) < order()
}

/// The group order, as bytes a candidate scalar can be compared against.
pub fn order_be_bytes() -> (r: Vec<u8>)
    ensures
        r@ == order_bytes(),
{
    let r: Vec<u8> = vec![
        0xff, 0xff, 0xff, 0xff, 0xff, 0xff, 0xff, 0xff,
        0xff, 0xff, 0xff, 0xff, 0xff, 0xff, 0xff, 0xfe,
        0xba, 0xae, 0xdc, 0xe6, 0xaf, 0x48, 0xa0, 0x3b,
        0xbf, 0xd2, 0x5e, 0x8c, 0xd0, 0x36, 0x41, 0x41,
    ];
    assert(r@ =~= order_bytes());
    r
}

/// Relies on `hmac::Hmac` over `sha2::Sha512`: the keyed HMAC-SHA512 digest,
/// 64 bytes, a function of key and data alone. HMAC accepts keys of any
/// length, so construction cannot fail.
#[verifier::external_body]
pub(crate) fn hmac_sha512(key: &[u8], data: &[u8]) -> (r: Vec<u8>)
    ensures
        r@ == hmac_sha512_of(key@, data@),
        r@.len() == 64,
{
    let mut mac = <hmac::Hmac<sha2::Sha512> as hmac::KeyInit>::new_from_slice(key)
        .expect("HMAC accepts keys of any length");
    hmac::Mac::update(&mut mac, data);
    hmac::Mac::finalize(mac).into_bytes().to_vec()
}

/// Relies on `sha2::Sha256`: the 32-byte SHA-256 digest, a function of the
/// data alone.
#[verifier::external_body]
pub(crate) fn sha256(data: &[u8]) -> (r: Vec<u8>)
    ensures
        r@ == sha256_of(data@),
        r@.len() == 32,
{
    <sha2::Sha256 as sha2::Digest>::digest(data).to_vec()
}

impl Secp256k1 {
    /// Relies on `libsecp256k1::SecretKey::parse_slice` and
    /// `PublicKey::from_secret_key`: the compressed public point of a valid
    /// scalar. Parsing cannot fail because the caller has validated the range.
    #[verifier::external_body]
    pub(crate) fn scalar_to_public_point(&self, key: &Vec<u8>) -> (r: Vec<u8>)
        requires
            scalar_in_range(key@),
        ensures
            r@ == pubkey_of(key@),
            r@.len() == 33,
    {
        let sk = libsecp256k1::SecretKey::parse_slice(key.as_slice())
            .expect("scalar validated by caller");
        libsecp256k1::PublicKey::from_secret_key(&sk).serialize_compressed().to_vec()
    }

    /// Relies on `libsecp256k1::SecretKey::tweak_add_assign`: the sum of two
    /// scalars modulo the group order, reported as an error exactly when that
    /// sum is zero, and serialized back to canonical big-endian bytes. The
    /// clauses over `pubkey_of` and `point_tweak_of` rely on the backend's
    /// group arithmetic: the public point of `(a + b) mod n` is the point of
    /// `a` tweaked by `b` (since `(a + b)·G = a·G + b·G`), and tweaking the
    /// point of `a` by `b` reaches the identity exactly when the scalar sum
    /// is zero.
    #[verifier::external_body]
    pub(crate) fn tweak_add_scalar(&self, a: &Vec<u8>, b: &Vec<u8>) -> (r: Result<
        Vec<u8>,
        Bip32Error,
    >)
        requires
            scalar_in_range(a@),
            b@.len() == 32,
            0 < be_nat(b@) < order(),
        ensures
            r is Ok <==> (be_nat(a@) + be_nat(b@)) % order() != 0,
            r matches Ok(k) ==> k@ == be_of((be_nat(a@) + be_nat(b@)) % order(), 32),
            r matches Ok(k) ==> point_tweak_of(pubkey_of(a@), b@) == Some(pubkey_of(k@)),
            r is Err ==> r->Err_0 == Bip32Error::InvalidKey,
            r is Err ==> point_tweak_of(pubkey_of(a@), b@) is None,
    {
        let mut sk = libsecp256k1::SecretKey::parse_slice(a.as_slice())
            .expect("scalar validated by caller");
        let tweak = libsecp256k1::SecretKey::parse_slice(b.as_slice())
            .expect("tweak validated by caller");
        match sk.tweak_add_assign(&tweak) {
            Ok(()) => Ok(sk.serialize().to_vec()),
            Err(_) => Err(Bip32Error::InvalidKey),
        }
    }

    /// Relies on `libsecp256k1::PublicKey::parse_slice` and
    /// `tweak_add_assign`: adds `t·G` to the parsed point and serializes the
    /// sum compressed, failing exactly in the cases `point_tweak_of` maps to
    /// `None` (bytes that are not a valid compressed point, or a sum that is
    /// the point at infinity).
    #[verifier::external_body]
    pub(crate) fn tweak_add_point(&self, point: &Vec<u8>, t: &Vec<u8>) -> (r: Result<
        Vec<u8>,
        Bip32Error,
    >)
        requires
            point@.len() == 33,
            t@.len() == 32,
            0 < be_nat(t@) < order(),
        ensures
            r is Ok <==> point_tweak_of(point@, t@) is Some,
            r matches Ok(p) ==> Some(p@) == point_tweak_of(point@, t@) && p@.len() == 33,
            r is Err ==> r->Err_0 == Bip32Error::InvalidKey,
    {
        let tweak = libsecp256k1::SecretKey::parse_slice(t.as_slice())
            .expect("tweak validated by caller");
        let parsed = libsecp256k1::PublicKey::parse_slice(
            point.as_slice(),
            Some(libsecp256k1::PublicKeyFormat::Compressed),
        );
        match parsed {
            Ok(mut pk) => match pk.tweak_add_assign(&tweak) {
                Ok(()) => Ok(pk.serialize_compressed().to_vec()),
                Err(_) => Err(Bip32Error::InvalidKey),
            },
            Err(_) => Err(Bip32Error::InvalidKey),
        }
    }
}

} // verus!
