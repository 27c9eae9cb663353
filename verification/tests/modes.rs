// Mode validation, key decoding and hex parsing.
use hpke::algs::KemAlg;
use hpke::kat::bytes_from_hex;
use hpke::kem::{generate_keypair, EncappedKey, PrivateKey, PublicKey};
use hpke::op_mode::{make_op_mode_r, make_op_mode_s, OpModeR, OpModeS, PskBundle};
use hpke::HpkeError;

#[test]
fn empty_psk_is_rejected() {
    assert_eq!(
        PskBundle::new(Vec::new(), b"id".to_vec()).err(),
        Some(HpkeError::ModeValidationError)
    );
    assert_eq!(
        PskBundle::new(b"psk".to_vec(), Vec::new()).err(),
        Some(HpkeError::ModeValidationError)
    );
    assert!(PskBundle::new(b"psk".to_vec(), b"id".to_vec()).is_ok());
}

#[test]
fn psk_modes_require_psk_material() {
    for mode_id in [1u8, 3] {
        let kem = KemAlg::X25519HkdfSha256;
        let (sk, pk) = generate_keypair(kem).unwrap();
        let r = make_op_mode_r(mode_id, Some(pk), Some(Vec::new()), Some(b"id".to_vec()));
        assert_eq!(r.err(), Some(HpkeError::ModeValidationError));
        let (_, pk) = generate_keypair(kem).unwrap();
        let r = make_op_mode_r(mode_id, Some(pk), None, None);
        assert_eq!(r.err(), Some(HpkeError::ModeValidationError));
        let (sk2, pk2) = generate_keypair(kem).unwrap();
        let r = make_op_mode_s(mode_id, Some((sk, pk2)), Some(b"psk".to_vec()), Some(Vec::new()));
        assert_eq!(r.err(), Some(HpkeError::ModeValidationError));
        let _ = sk2;
    }
}

#[test]
fn auth_modes_require_sender_keys() {
    for mode_id in [2u8, 3] {
        let psk = Some(b"a psk".to_vec());
        let psk_id = Some(b"an id".to_vec());
        let r = make_op_mode_r(mode_id, None, psk.clone(), psk_id.clone());
        assert_eq!(r.err(), Some(HpkeError::ModeValidationError));
        let r = make_op_mode_s(mode_id, None, psk, psk_id);
        assert_eq!(r.err(), Some(HpkeError::ModeValidationError));
    }
}

#[test]
fn unknown_mode_ids_are_rejected() {
    for mode_id in [4u8, 9, 255] {
        assert_eq!(
            make_op_mode_r(mode_id, None, None, None).err(),
            Some(HpkeError::ModeValidationError)
        );
        assert_eq!(
            make_op_mode_s(mode_id, None, None, None).err(),
            Some(HpkeError::ModeValidationError)
        );
    }
}

#[test]
fn valid_modes_build() {
    let kem = KemAlg::DhP256HkdfSha256;
    let (sk, pk) = generate_keypair(kem).unwrap();
    assert!(matches!(make_op_mode_r(0, None, None, None), Ok(OpModeR::Base)));
    assert!(matches!(
        make_op_mode_r(1, None, Some(b"k".to_vec()), Some(b"i".to_vec())),
        Ok(OpModeR::Psk(_))
    ));
    assert!(matches!(make_op_mode_r(2, Some(pk), None, None), Ok(OpModeR::Auth(_))));
    assert!(matches!(
        make_op_mode_s(3, Some((sk, generate_keypair(kem).unwrap().1)), Some(b"k".to_vec()), Some(b"i".to_vec())),
        Ok(OpModeS::AuthPsk(_, _))
    ));
}

#[test]
fn bad_key_encodings_are_rejected() {
    // Wrong length.
    assert_eq!(
        PrivateKey::from_bytes(KemAlg::X25519HkdfSha256, &[1u8; 31]).err(),
        Some(HpkeError::DecodeError)
    );
    // A P-256 scalar of zero is invalid.
    assert_eq!(
        PrivateKey::from_bytes(KemAlg::DhP256HkdfSha256, &[0u8; 32]).err(),
        Some(HpkeError::DecodeError)
    );
    // 65 bytes that are not a point on P-256.
    assert_eq!(
        PublicKey::from_bytes(KemAlg::DhP256HkdfSha256, &[0x42u8; 65]).err(),
        Some(HpkeError::DecodeError)
    );
    assert_eq!(
        EncappedKey::from_bytes(KemAlg::DhP384HkdfSha384, &[0x42u8; 97]).err(),
        Some(HpkeError::DecodeError)
    );
    // Any 32 bytes are a valid X25519 public key.
    assert!(PublicKey::from_bytes(KemAlg::X25519HkdfSha256, &[0x42u8; 32]).is_ok());
}

#[test]
fn hex_decoding() {
    assert_eq!(bytes_from_hex(b"0a1bff").unwrap(), vec![0x0a, 0x1b, 0xff]);
    // Odd length gets a leading zero digit.
    assert_eq!(bytes_from_hex(b"abc").unwrap(), vec![0x0a, 0xbc]);
    assert_eq!(bytes_from_hex(b"").unwrap(), Vec::<u8>::new());
    assert_eq!(bytes_from_hex(b"A1b2").unwrap(), vec![0xa1, 0xb2]);
    assert_eq!(bytes_from_hex(b"0g").err(), Some(HpkeError::DecodeError));
    assert_eq!(bytes_from_hex(b"zz").err(), Some(HpkeError::DecodeError));
}
