use bip32::backend::Secp256k1;
use bip32::keys::GenericPrivkey;
use bip32::utils::Hash256Writer;

fn hx(s: &str) -> Vec<u8> {
    let b = s.as_bytes();
    assert!(b.len() % 2 == 0);
    let mut r = Vec::new();
    let digit = |c: u8| -> u8 {
        match c {
            b'0'..=b'9' => c - b'0',
            b'a'..=b'f' => c - b'a' + 10,
            _ => panic!("not a hex digit"),
        }
    };
    let mut i = 0;
    while i < b.len() {
        r.push(digit(b[i]) * 16 + digit(b[i + 1]));
        i += 2;
    }
    r
}

#[test]
fn test_double_sha256_of_nothing() {
    let w = Hash256Writer::new();
    assert_eq!(
        w.finish(),
        hx("5df6e0e2761359d30a8275058e299fcc0381534545f55cf43e41983f5d4c9456")
    );
}

#[test]
fn test_double_sha256_of_written_bytes() {
    let mut w = Hash256Writer::new();
    let n = w.write(b"abc");
    assert_eq!(n, 3);
    assert_eq!(
        w.finish(),
        hx("4f8b42c22dd3729b519ba6f68d2da7cc5b2d606d05daed5ad5128cc03e6c6358")
    );
}

#[test]
fn test_double_sha256_split_writes_agree() {
    let mut a = Hash256Writer::default();
    a.write(b"ab");
    a.write(b"c");
    let mut b = Hash256Writer::new();
    b.write(b"abc");
    assert_eq!(a.finish(), b.finish());
}

#[test]
fn test_generator_point_from_unit_scalar() {
    let mut key = vec![0u8; 31];
    key.push(1);
    let sk = GenericPrivkey {
        key,
        backend: Secp256k1,
    };
    let pk = sk.derive_verifying_key();
    assert_eq!(
        pk.key,
        hx("0279be667ef9dcbbac55a06295ce870b07029bfcdb2dce28d959f2815b16f81798")
    );
}
