// Round-trip and determinism behaviour of the KEM layer, across every
// supported group.
use hpke::algs::KemAlg;
use hpke::kem::{decap, derive_keypair, encap, encap_with_eph, generate_keypair, PrivateKey};

fn all_kems() -> Vec<KemAlg> {
    vec![
        KemAlg::X25519HkdfSha256,
        KemAlg::DhP256HkdfSha256,
        KemAlg::DhP384HkdfSha384,
        KemAlg::DhP521HkdfSha512,
        KemAlg::DhK256HkdfSha256,
    ]
}

#[test]
fn roundtrip_base_all_kems() {
    for kem in all_kems() {
        let (sk_r, pk_r) = generate_keypair(kem).unwrap();
        let (shared_secret, enc) = encap(&pk_r, None).unwrap();
        let ss_r = decap(&sk_r, &enc, None).unwrap();
        assert_eq!(shared_secret.bytes, ss_r.bytes, "{:?}", kem);
    }
}

#[test]
fn roundtrip_auth_all_kems() {
    for kem in all_kems() {
        let (sk_r, pk_r) = generate_keypair(kem).unwrap();
        let sender = generate_keypair(kem).unwrap();
        let (shared_secret, enc) = encap(&pk_r, Some(&sender)).unwrap();
        let ss_r = decap(&sk_r, &enc, Some(&sender.1)).unwrap();
        assert_eq!(shared_secret.bytes, ss_r.bytes, "{:?}", kem);
    }
}

#[test]
fn derive_keypair_is_deterministic() {
    for kem in all_kems() {
        let ikm = vec![7u8; 66];
        let (sk1, pk1) = derive_keypair(kem, &ikm).unwrap();
        let (sk2, pk2) = derive_keypair(kem, &ikm).unwrap();
        assert_eq!(sk1.bytes, sk2.bytes);
        assert_eq!(pk1.bytes, pk2.bytes);
        let ikm2 = vec![8u8; 66];
        let (_, pk3) = derive_keypair(kem, &ikm2).unwrap();
        assert_ne!(pk1.bytes, pk3.bytes);
    }
}

#[test]
fn encap_with_eph_is_deterministic() {
    for kem in all_kems() {
        let (_, pk_r) = generate_keypair(kem).unwrap();
        let eph = generate_keypair(kem).unwrap();
        let eph_copy = PrivateKey::from_bytes(kem, &eph.0.to_bytes()).unwrap();
        let (ss1, enc1) = encap_with_eph(&pk_r, None, &eph.0).unwrap();
        let (ss2, enc2) = encap_with_eph(&pk_r, None, &eph_copy).unwrap();
        assert_eq!(ss1.bytes, ss2.bytes, "{:?}", kem);
        assert_eq!(enc1.bytes, enc2.bytes, "{:?}", kem);
    }
}

#[test]
fn generated_keypairs_differ() {
    for kem in all_kems() {
        let (_, pk1) = generate_keypair(kem).unwrap();
        let (_, pk2) = generate_keypair(kem).unwrap();
        assert_ne!(pk1.bytes, pk2.bytes, "{:?}", kem);
    }
}

#[test]
fn decap_with_the_wrong_key_disagrees() {
    for kem in all_kems() {
        let (sk_r, pk_r) = generate_keypair(kem).unwrap();
        let (wrong_sk, _) = generate_keypair(kem).unwrap();
        let (shared_secret, enc) = encap(&pk_r, None).unwrap();
        let good = decap(&sk_r, &enc, None).unwrap();
        let bad = decap(&wrong_sk, &enc, None).unwrap();
        assert_eq!(shared_secret.bytes, good.bytes, "{:?}", kem);
        assert_ne!(shared_secret.bytes, bad.bytes, "{:?}", kem);
    }
}
