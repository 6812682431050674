use bip32::Bip32Error;
use bip32::backend::Secp256k1;
use bip32::derived::GenericDerivedPubkey;
use bip32::derived::GenericDerivedXPriv;
use bip32::derived::GenericDerivedXPub;
use bip32::path::KeyDerivation;

fn hx(s: &str) -> Vec<u8> {
    let b = s.as_bytes();
    assert!(b.len() % 2 == 0);
    let mut r = Vec::new();
    let digit = |c: u8| -> u8 {
        match c {
            b'0'..=b'9' => c - b'0',
            b'a'..=b'f' => c - b'a' + 10,
            _ => panic!("not a hex digit"),
        }
    };
    let mut i = 0;
    while i < b.len() {
        r.push(digit(b[i]) * 16 + digit(b[i + 1]));
        i += 2;
    }
    r
}

fn derived_root() -> GenericDerivedXPriv {
    let seed = hx("000102030405060708090a0b0c0d0e0f");
    let m = GenericDerivedXPriv::root_from_seed(&seed, None, &Secp256k1).unwrap();
    GenericDerivedXPriv {
        xpriv: m,
        derivation: KeyDerivation::new_root(),
    }
}

#[test]
fn test_extend_path_twice() {
    let p = KeyDerivation { path: vec![9, 8] };
    let q = p.extended(1).extended(2);
    assert_eq!(q.path, vec![9, 8, 1, 2]);
}

#[test]
fn test_path_to_self_is_empty() {
    let p = KeyDerivation { path: vec![4, 5, 6] };
    let rel = p.path_to_descendant(&p).unwrap();
    assert_eq!(rel, Vec::<u32>::new());
}

#[test]
fn test_path_to_descendant_suffix() {
    let p = KeyDerivation { path: vec![0, 1] };
    let q = KeyDerivation {
        path: vec![0, 1, 5, 0x8000_0002],
    };
    assert_eq!(p.path_to_descendant(&q).unwrap(), vec![5, 0x8000_0002]);
}

#[test]
fn test_path_to_descendant_no_relation() {
    let p = KeyDerivation { path: vec![0, 2] };
    let q = KeyDerivation { path: vec![0, 1, 3] };
    assert!(p.path_to_descendant(&q).is_none());
    let longer = KeyDerivation { path: vec![0, 2, 1, 4] };
    assert!(longer.path_to_descendant(&p).is_none());
}

#[test]
fn test_private_ancestor_of_derived_key() {
    let root = derived_root();
    let descendant = root
        .derive_private_path(&vec![0x8000_0000u32, 1, 4])
        .unwrap();
    let descendant_pub = descendant.to_derived_xpub().unwrap();
    assert_eq!(root.is_private_ancestor_of(&descendant_pub), Ok(true));
}

#[test]
fn test_public_ancestor_of_derived_key() {
    let root = derived_root();
    let root_pub = root.to_derived_xpub().unwrap();
    let child = root_pub
        .derive_public_child(0)
        .unwrap()
        .derive_public_child(3)
        .unwrap();
    assert_eq!(root_pub.is_public_ancestor_of(&child), Ok(true));
}

#[test]
fn test_unrelated_paths_not_ancestor() {
    let seed = hx("000102030405060708090a0b0c0d0e0f");
    let m = GenericDerivedXPriv::root_from_seed(&seed, None, &Secp256k1).unwrap();
    let root = GenericDerivedXPriv {
        xpriv: m,
        derivation: KeyDerivation { path: vec![0, 2] },
    };
    let some_pubkey = root.xpriv.privkey.derive_verifying_key();
    let other = GenericDerivedPubkey {
        pubkey: some_pubkey,
        derivation: KeyDerivation { path: vec![0, 1] },
    };
    assert_eq!(root.is_private_ancestor_of(&other), Ok(false));
}

#[test]
fn test_matching_path_wrong_key_not_ancestor() {
    let root = derived_root();
    let other_seed = vec![0x55u8; 16];
    let stranger = GenericDerivedXPriv::root_from_seed(&other_seed, None, &Secp256k1).unwrap();
    let stranger_pub = GenericDerivedXPriv {
        xpriv: stranger,
        derivation: KeyDerivation { path: vec![7] },
    }
    .to_derived_xpub()
    .unwrap();
    // The claimed path exists under the root, but the key does not match.
    assert_eq!(root.is_private_ancestor_of(&stranger_pub), Ok(false));
}

#[test]
fn test_public_ancestry_hardened_relative_path_errors() {
    let root = derived_root();
    let root_pub = root.to_derived_xpub().unwrap();
    let hardened_descendant = root.derive_private_path(&vec![0x8000_0000u32]).unwrap();
    let hardened_descendant_pub = hardened_descendant.to_derived_xpub().unwrap();
    assert_eq!(
        root_pub.is_public_ancestor_of(&hardened_descendant_pub),
        Err(Bip32Error::HardenedDerivationUnsupported)
    );
}

#[test]
fn test_from_derived_xpriv_matches_projection() {
    let root = derived_root();
    let via_assoc = GenericDerivedXPub::from_derived_xpriv(&root).unwrap();
    let via_method = root.to_derived_xpub().unwrap();
    assert_eq!(via_assoc.xpub.pubkey.key, via_method.xpub.pubkey.key);
    assert_eq!(via_assoc.derivation.path, via_method.derivation.path);
}

#[test]
fn test_derived_child_extends_path() {
    let root = derived_root();
    let child = root.derive_private_child(11).unwrap();
    assert_eq!(child.derivation.path, vec![11]);
    let grandchild = child.derive_private_child(0x8000_0005).unwrap();
    assert_eq!(grandchild.derivation.path, vec![11, 0x8000_0005]);
}
