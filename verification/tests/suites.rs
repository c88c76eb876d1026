use rustls::crypto::ring::ALL_CIPHER_SUITES;
use tls_listener::suite::{goes_with_key, names, select, CipherSuite, KeyKind, SUITE_COUNT};

fn all() -> Vec<CipherSuite> {
    vec![
        CipherSuite::Tls13Aes256GcmSha384,
        CipherSuite::Tls13Aes128GcmSha256,
        CipherSuite::Tls13Chacha20Poly1305Sha256,
        CipherSuite::EcdheEcdsaAes256GcmSha384,
        CipherSuite::EcdheEcdsaAes128GcmSha256,
        CipherSuite::EcdheEcdsaChacha20Poly1305Sha256,
        CipherSuite::EcdheRsaAes256GcmSha384,
        CipherSuite::EcdheRsaAes128GcmSha256,
        CipherSuite::EcdheRsaChacha20Poly1305Sha256,
    ]
}

#[test]
fn the_table_is_the_providers() {
    assert_eq!(ALL_CIPHER_SUITES.len(), SUITE_COUNT);
    for suite in all() {
        let theirs = ALL_CIPHER_SUITES[suite.position()];
        assert_eq!(u16::from(theirs.suite()), suite.code());
        assert_eq!(CipherSuite::at(suite.position()), Some(suite));
    }
    assert_eq!(CipherSuite::at(SUITE_COUNT), None);
}

#[test]
fn registry_numbers() {
    assert_eq!(CipherSuite::Tls13Aes128GcmSha256.code(), 0x1301);
    assert_eq!(CipherSuite::Tls13Aes256GcmSha384.code(), 0x1302);
    assert_eq!(CipherSuite::Tls13Chacha20Poly1305Sha256.code(), 0x1303);
    assert_eq!(CipherSuite::EcdheEcdsaAes128GcmSha256.code(), 0xc02b);
    assert_eq!(CipherSuite::EcdheRsaChacha20Poly1305Sha256.code(), 0xcca8);
    assert_eq!(KeyKind::from_code(1), KeyKind::Rsa);
    assert_eq!(KeyKind::from_code(3), KeyKind::Ecdsa);
    assert_eq!(KeyKind::from_code(7), KeyKind::Ed25519);
    assert_eq!(KeyKind::from_code(0), KeyKind::Other);
    assert_eq!(KeyKind::from_code(8), KeyKind::Other);
}

#[test]
fn any_key_goes_with_tls13() {
    for kind in [KeyKind::Rsa, KeyKind::Ecdsa, KeyKind::Ed25519, KeyKind::Other] {
        assert!(CipherSuite::Tls13Aes256GcmSha384.goes_with(kind));
        assert!(CipherSuite::Tls13Chacha20Poly1305Sha256.goes_with(kind));
    }
}

#[test]
fn tls12_suites_need_their_key() {
    assert!(CipherSuite::EcdheRsaAes128GcmSha256.goes_with(KeyKind::Rsa));
    assert!(!CipherSuite::EcdheRsaAes128GcmSha256.goes_with(KeyKind::Ecdsa));
    assert!(!CipherSuite::EcdheRsaAes128GcmSha256.goes_with(KeyKind::Ed25519));
    assert!(CipherSuite::EcdheEcdsaAes256GcmSha384.goes_with(KeyKind::Ecdsa));
    assert!(CipherSuite::EcdheEcdsaAes256GcmSha384.goes_with(KeyKind::Ed25519));
    assert!(!CipherSuite::EcdheEcdsaAes256GcmSha384.goes_with(KeyKind::Rsa));
    assert!(!CipherSuite::EcdheEcdsaAes256GcmSha384.goes_with(KeyKind::Other));
}

#[test]
fn a_set_goes_with_a_key_when_each_suite_does() {
    let tls13 = vec![CipherSuite::Tls13Aes128GcmSha256];
    let rsa = vec![CipherSuite::Tls13Aes128GcmSha256, CipherSuite::EcdheRsaAes128GcmSha256];
    assert!(goes_with_key(&tls13, KeyKind::Rsa));
    assert!(goes_with_key(&rsa, KeyKind::Rsa));
    assert!(!goes_with_key(&rsa, KeyKind::Ecdsa));
    assert!(!goes_with_key(&all(), KeyKind::Rsa));
    assert!(!goes_with_key(&all(), KeyKind::Ecdsa));
    assert!(!goes_with_key(&Vec::new(), KeyKind::Rsa));
}

#[test]
fn selection_is_in_table_order_and_without_repeats() {
    let asked = vec![
        CipherSuite::EcdheRsaAes128GcmSha256,
        CipherSuite::Tls13Aes128GcmSha256,
        CipherSuite::EcdheRsaAes128GcmSha256,
        CipherSuite::Tls13Aes256GcmSha384,
    ];
    assert_eq!(select(&asked), vec![0, 1, 7]);
    let placed: Vec<Option<CipherSuite>> =
        select(&asked).iter().map(|place| CipherSuite::at(*place)).collect();
    assert_eq!(
        placed,
        vec![
            Some(CipherSuite::Tls13Aes256GcmSha384),
            Some(CipherSuite::Tls13Aes128GcmSha256),
            Some(CipherSuite::EcdheRsaAes128GcmSha256),
        ]
    );
    assert_eq!(select(&Vec::new()), Vec::<usize>::new());
    assert_eq!(select(&all()), vec![0, 1, 2, 3, 4, 5, 6, 7, 8]);
    assert!(names(&asked, CipherSuite::Tls13Aes256GcmSha384));
    assert!(!names(&asked, CipherSuite::Tls13Chacha20Poly1305Sha256));
}
