// Behaviour of the encryption context: lockstep seal/open symmetry,
// tamper rejection, exports, and the sequence-counter boundary.
use hpke::aead::{AeadCtx, AeadCtxR, AeadCtxS};
use hpke::algs::{AeadAlg, KdfAlg, KemAlg, Suite};
use hpke::kem::generate_keypair;
use hpke::op_mode::{OpModeR, OpModeS};
use hpke::setup::{setup_receiver, setup_sender};
use hpke::HpkeError;

fn base_suite() -> Suite {
    Suite {
        kem: KemAlg::X25519HkdfSha256,
        kdf: KdfAlg::HkdfSha256,
        aead: AeadAlg::AesGcm128,
    }
}

fn base_pair(suite: Suite) -> (AeadCtxS, AeadCtxR) {
    let (sk_r, pk_r) = generate_keypair(suite.kem).unwrap();
    let (enc, ctx_s) = setup_sender(suite, &OpModeS::Base, &pk_r, b"some info").unwrap();
    let ctx_r = setup_receiver(suite, &OpModeR::Base, &sk_r, &enc, b"some info").unwrap();
    (ctx_s, ctx_r)
}

#[test]
fn context_symmetry_hundred_messages() {
    for aead in [AeadAlg::AesGcm128, AeadAlg::AesGcm256, AeadAlg::ChaCha20Poly1305] {
        let suite = Suite { kem: KemAlg::DhP256HkdfSha256, kdf: KdfAlg::HkdfSha384, aead };
        let (mut ctx_s, mut ctx_r) = base_pair(suite);
        for i in 0..100u32 {
            let msg = format!("message number {}", i);
            let aad = format!("aad number {}", i);
            let ct = ctx_s.seal(msg.as_bytes(), aad.as_bytes()).unwrap();
            let pt = ctx_r.open(&ct, aad.as_bytes()).unwrap();
            assert_eq!(pt, msg.as_bytes());
            assert_eq!(ctx_s.ctx.seq, ctx_r.ctx.seq);
        }
    }
}

#[test]
fn exports_agree_between_sender_and_receiver() {
    let (ctx_s, ctx_r) = base_pair(base_suite());
    for len in [0usize, 1, 32, 100] {
        let mut out_s = vec![0u8; len];
        let mut out_r = vec![0u8; len];
        ctx_s.export(b"an export context", &mut out_s).unwrap();
        ctx_r.export(b"an export context", &mut out_r).unwrap();
        assert_eq!(out_s, out_r);
    }
    let mut other = vec![0u8; 32];
    let mut first = vec![0u8; 32];
    ctx_s.export(b"an export context", &mut first).unwrap();
    ctx_s.export(b"another context", &mut other).unwrap();
    assert_ne!(first, other);
}

#[test]
fn export_length_limit_is_enforced() {
    let (ctx_s, _) = base_pair(base_suite());
    let mut out = vec![0u8; 255 * 32];
    assert!(ctx_s.export(b"ctx", &mut out).is_ok());
    let mut too_big = vec![0u8; 255 * 32 + 1];
    assert_eq!(
        ctx_s.export(b"ctx", &mut too_big),
        Err(HpkeError::ExportLengthError)
    );
}

#[test]
fn tampered_ciphertext_is_rejected() {
    let (mut ctx_s, mut ctx_r) = base_pair(base_suite());
    let ct = ctx_s.seal(b"attack at dawn", b"aad").unwrap();
    // Flipping any single bit of the ciphertext must fail authentication
    // and leave the receiver able to open the genuine message afterwards.
    for byte in 0..ct.len() {
        for bit in 0..8 {
            let mut bad = ct.clone();
            bad[byte] ^= 1u8 << bit;
            assert_eq!(ctx_r.open(&bad, b"aad"), Err(HpkeError::AuthenticationError));
        }
    }
    let pt = ctx_r.open(&ct, b"aad").unwrap();
    assert_eq!(pt, b"attack at dawn");
}

#[test]
fn tampered_aad_is_rejected() {
    let (mut ctx_s, mut ctx_r) = base_pair(base_suite());
    let aad = b"binding data".to_vec();
    let ct = ctx_s.seal(b"a payload", &aad).unwrap();
    for byte in 0..aad.len() {
        for bit in 0..8 {
            let mut bad = aad.clone();
            bad[byte] ^= 1u8 << bit;
            assert_eq!(ctx_r.open(&ct, &bad), Err(HpkeError::AuthenticationError));
        }
    }
    assert_eq!(ctx_r.open(&ct, &aad).unwrap(), b"a payload");
}

fn ctx_with_seq(seq: u128) -> AeadCtx {
    AeadCtx {
        suite: base_suite(),
        key: vec![0x11u8; 16],
        base_nonce: vec![0x22u8; 12],
        exporter_secret: vec![0x33u8; 32],
        seq,
    }
}

const SEQ_LIMIT: u128 = 0x1000000000000000000000000;

#[test]
fn sequence_overflow_is_terminal_for_seal() {
    let mut ctx = AeadCtxS { ctx: ctx_with_seq(SEQ_LIMIT - 1) };
    // The last counter value still seals; the next call overflows, and
    // the context stays dead from then on.
    assert!(ctx.seal(b"last one", b"").is_ok());
    assert_eq!(ctx.ctx.seq, SEQ_LIMIT);
    for _ in 0..3 {
        assert_eq!(ctx.seal(b"one too many", b""), Err(HpkeError::SequenceOverflowError));
        assert_eq!(ctx.ctx.seq, SEQ_LIMIT);
    }
}

#[test]
fn sequence_overflow_is_terminal_for_open() {
    let mut ctx = AeadCtxR { ctx: ctx_with_seq(SEQ_LIMIT) };
    for _ in 0..3 {
        assert_eq!(
            ctx.open(b"whatever bytes these are", b""),
            Err(HpkeError::SequenceOverflowError)
        );
        assert_eq!(ctx.ctx.seq, SEQ_LIMIT);
    }
}

#[test]
fn messages_must_arrive_in_order() {
    let (mut ctx_s, mut ctx_r) = base_pair(base_suite());
    let ct0 = ctx_s.seal(b"first", b"").unwrap();
    let ct1 = ctx_s.seal(b"second", b"").unwrap();
    // Out of order: the receiver's counter is at 0, so the second
    // ciphertext does not authenticate.
    assert_eq!(ctx_r.open(&ct1, b""), Err(HpkeError::AuthenticationError));
    assert_eq!(ctx_r.open(&ct0, b"").unwrap(), b"first");
    assert_eq!(ctx_r.open(&ct1, b"").unwrap(), b"second");
}

#[test]
fn export_only_contexts_refuse_seal_and_open() {
    let suite = Suite {
        kem: KemAlg::X25519HkdfSha256,
        kdf: KdfAlg::HkdfSha256,
        aead: AeadAlg::ExportOnly,
    };
    let (sk_r, pk_r) = generate_keypair(suite.kem).unwrap();
    let (enc, mut ctx_s) = setup_sender(suite, &OpModeS::Base, &pk_r, b"info").unwrap();
    let mut ctx_r = setup_receiver(suite, &OpModeR::Base, &sk_r, &enc, b"info").unwrap();
    assert_eq!(ctx_s.seal(b"payload", b"aad"), Err(HpkeError::AuthenticationError));
    assert_eq!(ctx_r.open(b"whatever", b"aad"), Err(HpkeError::AuthenticationError));
    // Export still works on both sides and agrees.
    let mut out_s = vec![0u8; 32];
    let mut out_r = vec![0u8; 32];
    ctx_s.export(b"ctx", &mut out_s).unwrap();
    ctx_r.export(b"ctx", &mut out_r).unwrap();
    assert_eq!(out_s, out_r);
}
