use bip32::Bip32Error;
use bip32::Hint;
use bip32::backend::Secp256k1;
use bip32::derived::GenericDerivedXPriv;

fn hx(s: &str) -> Vec<u8> {
    let b = s.as_bytes();
    assert!(b.len() % 2 == 0);
    let mut r = Vec::new();
    let digit = |c: u8| -> u8 {
        match c {
            b'0'..=b'9' => c - b'0',
            b'a'..=b'f' => c - b'a' + 10,
            b'A'..=b'F' => c - b'A' + 10,
            _ => panic!("not a hex digit"),
        }
    };
    let mut i = 0;
    while i < b.len() {
        r.push(digit(b[i]) * 16 + digit(b[i + 1]));
        i += 2;
    }
    r
}

#[test]
fn test_master_node_standard_vector() {
    let seed = hx("000102030405060708090a0b0c0d0e0f");
    let m = GenericDerivedXPriv::root_from_seed(&seed, None, &Secp256k1).unwrap();
    assert_eq!(
        m.privkey.key,
        hx("e8f32e723decf4051aefac8e2c93c9c5b214313817cdb01a1494b917c8436b35")
    );
    assert_eq!(
        m.info.chain_code,
        hx("873dff81c02f525623fd1fe5167eac3a55a049de3d314bb42ee227ffed37d508")
    );
    assert_eq!(m.info.depth, 0);
    assert_eq!(m.info.index, 0);
    assert_eq!(m.info.parent.0, vec![0u8; 4]);
    assert_eq!(m.info.hint, Hint::SegWit);
}

#[test]
fn test_master_node_deterministic() {
    let seed = hx("fffcf9f6f3f0edeae7e4e1dedbd8d5d2cfccc9c6c3c0bdbab7b4b1aeaba8a5a2");
    let a = GenericDerivedXPriv::root_from_seed(&seed, Some(Hint::Legacy), &Secp256k1).unwrap();
    let b = GenericDerivedXPriv::root_from_seed(&seed, Some(Hint::Legacy), &Secp256k1).unwrap();
    assert_eq!(a.privkey.key, b.privkey.key);
    assert_eq!(a.info.chain_code, b.info.chain_code);
    assert_eq!(a.info.depth, b.info.depth);
    assert_eq!(a.info.index, b.info.index);
    assert_eq!(a.info.parent.0, b.info.parent.0);
    assert_eq!(a.info.hint, b.info.hint);
}

#[test]
fn test_short_seed_rejected() {
    let seed = vec![7u8; 15];
    let r = GenericDerivedXPriv::root_from_seed(&seed, None, &Secp256k1);
    assert_eq!(r.unwrap_err(), Bip32Error::SeedTooShort);
}

#[test]
fn test_custom_hmac_key_short_seed_rejected() {
    let r = GenericDerivedXPriv::custom_master_node(b"other key", &[0u8; 12], None, &Secp256k1);
    assert_eq!(r.unwrap_err(), Bip32Error::SeedTooShort);
}

#[test]
fn test_boundary_seed_accepted() {
    let seed = vec![0u8; 16];
    let m = GenericDerivedXPriv::root_from_seed(&seed, None, &Secp256k1).unwrap();
    assert_eq!(m.info.depth, 0);
    assert_eq!(m.info.index, 0);
    assert_eq!(m.info.parent.0, vec![0u8; 4]);
}

#[test]
fn test_hardened_child_vector() {
    let seed = hx("000102030405060708090a0b0c0d0e0f");
    let m = GenericDerivedXPriv::root_from_seed(&seed, None, &Secp256k1).unwrap();
    let child = m.derive_private_child(0x8000_0000).unwrap();
    assert_eq!(
        child.privkey.key,
        hx("edb2e14f9ee77d26dd93b4ecede8d16ed408ce149b6cd80b0715a2d911a0afea")
    );
    assert_eq!(
        child.info.chain_code,
        hx("47fdacbd0f1097043b78c63c20c34ef4ed9a111d980047ad16282c7ae6236141")
    );
    assert_eq!(child.info.depth, 1);
    assert_eq!(child.info.index, 0x8000_0000);
}

#[test]
fn test_nonhardened_grandchild_vector() {
    let seed = hx("000102030405060708090a0b0c0d0e0f");
    let m = GenericDerivedXPriv::root_from_seed(&seed, None, &Secp256k1).unwrap();
    let child = m.derive_private_child(0x8000_0000).unwrap();
    let grandchild = child.derive_private_child(1).unwrap();
    assert_eq!(
        grandchild.privkey.key,
        hx("3c6cb8d0f6a264c91ea8b5030fadaa8e538b020f0a387421a12de9319dc93368")
    );
    assert_eq!(
        grandchild.info.chain_code,
        hx("2a7857631386ba23dacac34180dd1983734e444fdbf774041578e9b6adb37c19")
    );
    assert_eq!(grandchild.info.depth, 2);
    assert_eq!(grandchild.info.index, 1);
}

#[test]
fn test_hardened_child_deterministic() {
    let seed = hx("000102030405060708090a0b0c0d0e0f");
    let m = GenericDerivedXPriv::root_from_seed(&seed, None, &Secp256k1).unwrap();
    let a = m.derive_private_child(0x8000_0000).unwrap();
    let b = m.derive_private_child(0x8000_0000).unwrap();
    assert_eq!(a.privkey.key, b.privkey.key);
    assert_eq!(a.info.chain_code, b.info.chain_code);
}

#[test]
fn test_public_private_derivation_commutes() {
    let seed = hx("000102030405060708090a0b0c0d0e0f");
    let m = GenericDerivedXPriv::root_from_seed(&seed, None, &Secp256k1).unwrap();
    let m_pub = m.derive_verifying_key().unwrap();
    let priv_child = m.derive_private_child(7).unwrap();
    let priv_child_pub = priv_child.derive_verifying_key().unwrap();
    let pub_child = m_pub.derive_public_child(7).unwrap();
    assert_eq!(pub_child.pubkey.key, priv_child_pub.pubkey.key);
    assert_eq!(pub_child.info.chain_code, priv_child_pub.info.chain_code);
    assert_eq!(pub_child.info.parent.0, priv_child_pub.info.parent.0);
    assert_eq!(pub_child.info.depth, priv_child_pub.info.depth);
}

#[test]
fn test_hardened_public_child_rejected() {
    let seed = hx("000102030405060708090a0b0c0d0e0f");
    let m = GenericDerivedXPriv::root_from_seed(&seed, None, &Secp256k1).unwrap();
    let m_pub = m.derive_verifying_key().unwrap();
    let r = m_pub.derive_public_child(0x8000_0000);
    assert_eq!(r.unwrap_err(), Bip32Error::HardenedDerivationUnsupported);
    assert!(m.derive_private_child(0x8000_0000).is_ok());
}

#[test]
fn test_depth_exhausted_is_explicit_error() {
    let seed = hx("000102030405060708090a0b0c0d0e0f");
    let mut m = GenericDerivedXPriv::root_from_seed(&seed, None, &Secp256k1).unwrap();
    m.info.depth = 255;
    let r = m.derive_private_child(0);
    assert_eq!(r.unwrap_err(), Bip32Error::DepthExceeded);
    let m_pub = m.derive_verifying_key().unwrap();
    assert_eq!(
        m_pub.derive_public_child(0).unwrap_err(),
        Bip32Error::DepthExceeded
    );
}

#[test]
fn test_master_pubkey_vector() {
    let seed = hx("000102030405060708090a0b0c0d0e0f");
    let m = GenericDerivedXPriv::root_from_seed(&seed, None, &Secp256k1).unwrap();
    let m_pub = m.derive_verifying_key().unwrap();
    assert_eq!(
        m_pub.pubkey.key,
        hx("0339a36013301597daef41fbe593a02cc513d0b55527ec2df1050e2e8ff49c85c2")
    );
}

#[test]
fn test_verifying_key_projection_idempotent() {
    let seed = hx("000102030405060708090a0b0c0d0e0f");
    let m = GenericDerivedXPriv::root_from_seed(&seed, None, &Secp256k1).unwrap();
    let a = m.derive_verifying_key().unwrap();
    let b = m.derive_verifying_key().unwrap();
    assert_eq!(a.pubkey.key, b.pubkey.key);
    assert_eq!(a.info.chain_code, b.info.chain_code);
}

#[test]
fn test_private_path_is_stepwise_composition() {
    let seed = hx("000102030405060708090a0b0c0d0e0f");
    let m = GenericDerivedXPriv::root_from_seed(&seed, None, &Secp256k1).unwrap();
    let stepwise = m
        .derive_private_child(0x8000_0000)
        .unwrap()
        .derive_private_child(1)
        .unwrap();
    let along_path = m.derive_private_path(&vec![0x8000_0000u32, 1]).unwrap();
    assert_eq!(stepwise.privkey.key, along_path.privkey.key);
    assert_eq!(stepwise.info.chain_code, along_path.info.chain_code);
    let empty = m.derive_private_path(&Vec::new()).unwrap();
    assert_eq!(empty.privkey.key, m.privkey.key);
}

#[test]
fn test_public_path_hardened_step_fails_atomically() {
    let seed = hx("000102030405060708090a0b0c0d0e0f");
    let m = GenericDerivedXPriv::root_from_seed(&seed, None, &Secp256k1).unwrap();
    let m_pub = m.derive_verifying_key().unwrap();
    let r = m_pub.derive_public_path(&vec![0u32, 0x8000_0001, 2]);
    assert_eq!(r.unwrap_err(), Bip32Error::HardenedDerivationUnsupported);
}

#[test]
fn test_hint_propagates_to_children() {
    let seed = hx("000102030405060708090a0b0c0d0e0f");
    let m =
        GenericDerivedXPriv::root_from_seed(&seed, Some(Hint::Compatibility), &Secp256k1).unwrap();
    assert_eq!(m.info.hint, Hint::Compatibility);
    let child = m.derive_private_child(4).unwrap();
    assert_eq!(child.info.hint, Hint::Compatibility);
}

#[test]
fn test_custom_hmac_key_changes_master() {
    let seed = hx("000102030405060708090a0b0c0d0e0f");
    let standard = GenericDerivedXPriv::root_from_seed(&seed, None, &Secp256k1).unwrap();
    let custom =
        GenericDerivedXPriv::custom_master_node(b"another seed", &seed, None, &Secp256k1).unwrap();
    assert_ne!(standard.privkey.key, custom.privkey.key);
    assert_ne!(standard.info.chain_code, custom.info.chain_code);
}
