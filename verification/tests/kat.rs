// Known-answer conformance: a published vector checked exactly, and
// self-generated vectors for every suite and mode driven through the
// consumer.
use hpke::algs::{AeadAlg, KdfAlg, KemAlg, Suite};
use hpke::kat::{
    gen_test_case, test_case, EncryptionTestVector, ExporterTestVector, MainTestVector,
};

fn h(s: &str) -> Vec<u8> {
    hex::decode(s).unwrap()
}

fn all_suites_for(kem: KemAlg) -> Vec<Suite> {
    let mut v = Vec::new();
    for kdf in [KdfAlg::HkdfSha256, KdfAlg::HkdfSha384, KdfAlg::HkdfSha512] {
        for aead in [
            AeadAlg::AesGcm128,
            AeadAlg::AesGcm256,
            AeadAlg::ChaCha20Poly1305,
            AeadAlg::ExportOnly,
        ] {
            v.push(Suite { kem, kdf, aead });
        }
    }
    v
}

fn generated_vectors_pass(kem: KemAlg) {
    for suite in all_suites_for(kem) {
        for mode in 0u8..4 {
            let tv = gen_test_case(suite, mode).unwrap();
            assert!(test_case(suite, &tv), "suite {:?} mode {}", suite, mode);
        }
    }
}

#[test]
fn generated_vectors_pass_x25519() {
    generated_vectors_pass(KemAlg::X25519HkdfSha256);
}

#[test]
fn generated_vectors_pass_p256() {
    generated_vectors_pass(KemAlg::DhP256HkdfSha256);
}

#[test]
fn generated_vectors_pass_p384() {
    generated_vectors_pass(KemAlg::DhP384HkdfSha384);
}

#[test]
fn generated_vectors_pass_p521() {
    generated_vectors_pass(KemAlg::DhP521HkdfSha512);
}

#[test]
fn generated_vectors_pass_k256() {
    generated_vectors_pass(KemAlg::DhK256HkdfSha256);
}

#[test]
fn generated_vector_rejects_unknown_mode() {
    let suite = Suite {
        kem: KemAlg::X25519HkdfSha256,
        kdf: KdfAlg::HkdfSha256,
        aead: AeadAlg::AesGcm128,
    };
    assert!(gen_test_case(suite, 4).is_err());
}

#[test]
fn tampered_vector_fails_the_consumer() {
    let suite = Suite {
        kem: KemAlg::X25519HkdfSha256,
        kdf: KdfAlg::HkdfSha256,
        aead: AeadAlg::ChaCha20Poly1305,
    };
    let mut tv = gen_test_case(suite, 0).unwrap();
    assert!(test_case(suite, &tv));
    tv.shared_secret[0] ^= 1;
    assert!(!test_case(suite, &tv));
    tv.shared_secret[0] ^= 1;
    assert!(test_case(suite, &tv));
    tv.encryptions[0].ciphertext[3] ^= 1;
    assert!(!test_case(suite, &tv));
}

// The first base-mode vector for (X25519-HKDF-SHA256, HKDF-SHA256,
// AES-128-GCM) from the published HPKE test-vector set.
#[test]
fn published_vector_x25519_sha256_aesgcm128_base() {
    let suite = Suite {
        kem: KemAlg::X25519HkdfSha256,
        kdf: KdfAlg::HkdfSha256,
        aead: AeadAlg::AesGcm128,
    };
    let tv = MainTestVector {
        mode: 0,
        kem_id: 0x20,
        kdf_id: 1,
        aead_id: 1,
        info: h("4f6465206f6e2061204772656369616e2055726e"),
        ikm_recip: h("6db9df30aa07dd42ee5e8181afdb977e538f5e1fec8a06223f33f7013e525037"),
        ikm_sender: None,
        ikm_eph: h("7268600d403fce431561aef583ee1613527cff655c1343f29812e66706df3234"),
        sk_recip: h("4612c550263fc8ad58375df3f557aac531d26850903e55a9f23f21d8534e8ac8"),
        sk_sender: None,
        sk_eph: h("52c4a758a802cd8b936eceea314432798d5baf2d7e9235dc084ab1b9cfa2f736"),
        psk: None,
        psk_id: None,
        pk_recip: h("3948cfe0ad1ddb695d780e59077195da6c56506b027329794ab02bca80815c4d"),
        pk_sender: None,
        pk_eph: h("37fda3567bdbd628e88668c3c8d7e97d1d1253b6d4ea6d44c150f741f1bf4431"),
        encapped_key: h("37fda3567bdbd628e88668c3c8d7e97d1d1253b6d4ea6d44c150f741f1bf4431"),
        shared_secret: h("fe0e18c9f024ce43799ae393c7e8fe8fce9d218875e8227b0187c04e7d2ea1fc"),
        key_schedule_context: Vec::new(),
        key_schedule_secret: Vec::new(),
        aead_key: h("4531685d41d65f03dc48f6b8302c05b0"),
        aead_base_nonce: h("56d890e5accaaf011cff4b7d"),
        exporter_secret: h("45ff1c2e220db587171952c0592d5f5ebe103f1561a2614e38f2ffd47e99e3f8"),
        encryptions: vec![
            EncryptionTestVector {
                plaintext: h("4265617574792069732074727574682c20747275746820626561757479"),
                aad: h("436f756e742d30"),
                nonce: h("56d890e5accaaf011cff4b7d"),
                ciphertext: h(
                    "f938558b5d72f1a23810b4be2ab4f84331acc02fc97babc53a52ae8218a355a9\
                     6d8770ac83d07bea87e13c512a",
                ),
            },
            EncryptionTestVector {
                plaintext: h("4265617574792069732074727574682c20747275746820626561757479"),
                aad: h("436f756e742d31"),
                nonce: h("56d890e5accaaf011cff4b7c"),
                ciphertext: h(
                    "af2d7e9ac9ae7e270f46ba1f975be53c09f8d875bdc8535458c2494e8a6eab25\
                     1c03d0c22a56b8ca42c2063b84",
                ),
            },
        ],
        exports: vec![
            ExporterTestVector {
                export_ctx: Vec::new(),
                export_len: 32,
                export_val: h(
                    "3853fe2b4035195a573ffc53856e77058e15d9ea064de3e59f4961d0095250ee",
                ),
            },
            ExporterTestVector {
                export_ctx: h("00"),
                export_len: 32,
                export_val: h(
                    "2e8f0b54673c7029649d4eb9d5e33bf1872cf76d623ff164ac185da9e88c21a5",
                ),
            },
            ExporterTestVector {
                export_ctx: h("54657374436f6e74657874"),
                export_len: 32,
                export_val: h(
                    "e9e43065102c3836401bed8c3c3c75ae46be1639869391d62c61f1ec7af54931",
                ),
            },
        ],
    };
    assert!(test_case(suite, &tv));
}


// A vector must stop passing as soon as any derivation input changes:
// this holds for every hash choice, so a key derivation that ignored its
// inputs would be caught here.
#[test]
fn consumer_is_sensitive_to_inputs_for_every_kdf() {
    for kdf in [KdfAlg::HkdfSha256, KdfAlg::HkdfSha384, KdfAlg::HkdfSha512] {
        let suite = Suite {
            kem: KemAlg::X25519HkdfSha256,
            kdf,
            aead: AeadAlg::AesGcm256,
        };
        let mut tv = gen_test_case(suite, 0).unwrap();
        assert!(test_case(suite, &tv));
        tv.shared_secret[5] ^= 0x10;
        assert!(!test_case(suite, &tv), "{:?}", kdf);
        tv.shared_secret[5] ^= 0x10;
        tv.info.push(0x21);
        assert!(!test_case(suite, &tv), "{:?}", kdf);
    }
}

#[test]
fn generated_vectors_have_the_recorded_shape() {
    let suite = Suite {
        kem: KemAlg::X25519HkdfSha256,
        kdf: KdfAlg::HkdfSha256,
        aead: AeadAlg::AesGcm128,
    };
    let tv = gen_test_case(suite, 0).unwrap();
    // The fixed info string and the three 32-byte exports.
    assert_eq!(tv.info, b"4f6465206f6e2061204772656369616e2055726e".to_vec());
    assert_eq!(tv.exports.len(), 3);
    assert_eq!(tv.exports[0].export_ctx, b"".to_vec());
    assert_eq!(tv.exports[1].export_ctx, b"00".to_vec());
    assert_eq!(tv.exports[2].export_ctx, b"54657374436f6e74657874".to_vec());
    assert!(tv.exports.iter().all(|e| e.export_len == 32 && e.export_val.len() == 32));
    assert_eq!(tv.encryptions.len(), 1);
    let export_only = Suite { aead: AeadAlg::ExportOnly, ..suite };
    let tv = gen_test_case(export_only, 0).unwrap();
    assert_eq!(tv.encryptions.len(), 0);
    assert_eq!(tv.exports.len(), 3);
}
