//! Known-answer conformance: the test-vector record, hex decoding for its
//! fields, the consumer that checks one vector against the engine, and a
//! deterministic generator that produces vectors the consumer accepts.
use vstd::pervasive::unreached;
use vstd::prelude::*;
use vstd::slice::slice_to_vec;

use crate::HpkeError;
use crate::aead::{aead_seal_spec, compute_nonce, export_spec, nonce_xor, AeadCtx, AeadCtxS};
use crate::algs::{AeadAlg, KemAlg, Suite};
use crate::curves::random_bytes;
use crate::kem::{
    decap_shared_spec, derive_keypair, derive_sk_spec, encap_shared_spec, encap_with_eph,
    kem_pk_of, kem_point_valid, kem_scalar_valid, PrivateKey, PublicKey,
};
use crate::op_mode::make_op_mode_r;
use crate::setup::{ks_base_nonce_spec, ks_exporter_spec, ks_key_spec, setup_receiver};
use crate::util::{bytes_eq, zero_vec};

verus! {

// ------------------------------------------------------------ hex

/// Whether the byte is an ASCII hexadecimal digit.
pub open spec fn is_hex_digit(b: u8) -> bool {
    (0x30 <= b && b <= 0x39) || (0x41 <= b && b <= 0x46) || (0x61 <= b && b <= 0x66)
}

/// The value of an ASCII hexadecimal digit.
pub open spec fn hex_val(b: u8) -> u8
    recommends
        is_hex_digit(b),
{
    if b <= 0x39 {
        (b - 0x30) as u8
    } else if b <= 0x46 {
        (b - 0x37) as u8
    } else {
        (b - 0x57) as u8
    }
}

/// Relies on `hex::decode`: accepts exactly the even-length strings of
/// hexadecimal digits and returns one byte for each digit pair.
#[verifier::external_body]
fn hex_decode(s: &[u8]) -> (r: Result<Vec<u8>, HpkeError>)
    ensures
        (match r {
            Ok(v) => s@.len() % 2 == 0 && (forall|i: int|
                0 <= i < s@.len() ==> is_hex_digit(#[trigger] s@[i])) && v@.len() == s@.len() / 2
                && (forall|j: int|
                0 <= j < v@.len() ==> #[trigger] v@[j] == hex_val(s@[2 * j]) * 16 + hex_val(
                    s@[2 * j + 1],
                )),
            Err(e) => e == HpkeError::DecodeError && !(s@.len() % 2 == 0 && forall|i: int|
                0 <= i < s@.len() ==> is_hex_digit(#[trigger] s@[i])),
        }),
{
    hex::decode(s).map_err(|_| HpkeError::DecodeError)
}

/// The string with a leading `'0'` supplied when its length is odd.
pub open spec fn hex_padded(s: Seq<u8>) -> Seq<u8> {
    if s.len() % 2 == 1 {
        seq![0x30u8] + s
    } else {
        s
    }
}

/// Decodes a hexadecimal string to bytes, first padding it to even length
/// with a leading zero digit.
pub fn bytes_from_hex(s: &[u8]) -> (r: Result<Vec<u8>, HpkeError>)
    ensures
        (match r {
            Ok(v) => (forall|i: int| 0 <= i < s@.len() ==> is_hex_digit(#[trigger] s@[i]))
                && v@.len() == hex_padded(s@).len() / 2 && (forall|j: int|
                0 <= j < v@.len() ==> #[trigger] v@[j] == hex_val(hex_padded(s@)[2 * j]) * 16
                    + hex_val(hex_padded(s@)[2 * j + 1])),
            Err(e) => e == HpkeError::DecodeError && !(forall|i: int|
                0 <= i < s@.len() ==> is_hex_digit(#[trigger] s@[i])),
        }),
{
    if s.len() % 2 == 1 {
        let mut padded: Vec<u8> = Vec::new();
        padded.push(0x30);
        crate::util::append_slice(&mut padded, s);
        proof {
            assert(padded@ =~= hex_padded(s@));
            assert(forall|i: int| 0 <= i < s@.len() ==> padded@[i + 1] == s@[i]);
            assert(is_hex_digit(0x30u8));
        }
        let r = hex_decode(padded.as_slice());
        proof {
            if r is Ok {
                assert forall|i: int| 0 <= i < s@.len() implies is_hex_digit(#[trigger] s@[i]) by {
                    assert(is_hex_digit(padded@[i + 1]));
                }
            } else {
                if forall|i: int| 0 <= i < s@.len() ==> is_hex_digit(#[trigger] s@[i]) {
                    assert forall|i: int|
                        0 <= i < padded@.len() implies is_hex_digit(#[trigger] padded@[i]) by {
                        if i == 0 {
                            assert(padded@[0] == 0x30u8);
                        } else {
                            assert(padded@[i] == s@[i - 1]);
                        }
                    }
                    assert(false);
                }
            }
        }
        r
    } else {
        let r = hex_decode(s);
        proof {
            assert(hex_padded(s@) == s@);
        }
        r
    }
}

// ------------------------------------------------------------ records

/// One sealed message of a vector: plaintext, associated data, the nonce
/// the suite derives for its position, and the expected ciphertext.
pub struct EncryptionTestVector {
    pub plaintext: Vec<u8>,
    pub aad: Vec<u8>,
    pub nonce: Vec<u8>,
    pub ciphertext: Vec<u8>,
}

/// One export of a vector: context string, requested length, expected
/// value.
pub struct ExporterTestVector {
    pub export_ctx: Vec<u8>,
    pub export_len: usize,
    pub export_val: Vec<u8>,
}

/// One known-answer test case: algorithm identifiers, keying material,
/// the expected intermediate derivations, and the expected encryptions
/// and exports.
pub struct MainTestVector {
    pub mode: u8,
    pub kem_id: u16,
    pub kdf_id: u16,
    pub aead_id: u16,
    pub info: Vec<u8>,
    pub ikm_recip: Vec<u8>,
    pub ikm_sender: Option<Vec<u8>>,
    pub ikm_eph: Vec<u8>,
    pub sk_recip: Vec<u8>,
    pub sk_sender: Option<Vec<u8>>,
    pub sk_eph: Vec<u8>,
    pub psk: Option<Vec<u8>>,
    pub psk_id: Option<Vec<u8>>,
    pub pk_recip: Vec<u8>,
    pub pk_sender: Option<Vec<u8>>,
    pub pk_eph: Vec<u8>,
    pub encapped_key: Vec<u8>,
    pub shared_secret: Vec<u8>,
    pub key_schedule_context: Vec<u8>,
    pub key_schedule_secret: Vec<u8>,
    pub aead_key: Vec<u8>,
    pub aead_base_nonce: Vec<u8>,
    pub exporter_secret: Vec<u8>,
    pub encryptions: Vec<EncryptionTestVector>,
    pub exports: Vec<ExporterTestVector>,
}

// ------------------------------------------------------------ what passing means

/// The vector belongs to this suite.
pub open spec fn tv_ids_match(suite: Suite, tv: MainTestVector) -> bool {
    &&& tv.kem_id == suite.kem.kem_id_spec()
    &&& tv.kdf_id == suite.kdf.kdf_id_spec()
    &&& tv.aead_id == suite.aead.aead_id_spec()
}

/// Both PSK fields present and non-empty.
pub open spec fn tv_psk_ok(tv: MainTestVector) -> bool {
    &&& tv.psk matches Some(p) && p@.len() > 0
    &&& tv.psk_id matches Some(i) && i@.len() > 0
}

/// A sender keypair is present.
pub open spec fn tv_has_sender(tv: MainTestVector) -> bool {
    tv.sk_sender is Some && tv.pk_sender is Some
}

/// The mode byte is known and its required material is present.
pub open spec fn tv_mode_ok(tv: MainTestVector) -> bool {
    ||| tv.mode == 0
    ||| tv.mode == 1 && tv_psk_ok(tv)
    ||| tv.mode == 2 && tv_has_sender(tv)
    ||| tv.mode == 3 && tv_has_sender(tv) && tv_psk_ok(tv)
}

/// Every key of the vector decodes under its group.
pub open spec fn tv_keys_valid(suite: Suite, tv: MainTestVector) -> bool {
    &&& kem_scalar_valid(suite.kem, tv.sk_recip@)
    &&& kem_point_valid(suite.kem, tv.pk_recip@)
    &&& kem_scalar_valid(suite.kem, tv.sk_eph@)
    &&& (tv.sk_sender matches Some(sk) ==> kem_scalar_valid(suite.kem, sk@))
    &&& (tv.pk_sender matches Some(pk) ==> kem_point_valid(suite.kem, pk@))
}

/// The listed keys are the ones `DeriveKeyPair` yields from the listed
/// keying material.
pub open spec fn tv_derive_matches(suite: Suite, tv: MainTestVector) -> bool {
    &&& (derive_sk_spec(suite.kem, tv.ikm_recip@) matches Some(s) && s == tv.sk_recip@
        && kem_pk_of(suite.kem, s) == tv.pk_recip@)
    &&& (tv_has_sender(tv) ==> (tv.ikm_sender matches Some(ikm) && tv.sk_sender matches Some(sks)
        && tv.pk_sender matches Some(pks) && (derive_sk_spec(suite.kem, ikm@) matches Some(s) && s
        == sks@ && kem_pk_of(suite.kem, s) == pks@)))
}

/// The sender keypair as byte views, when present.
pub open spec fn tv_sender_views(tv: MainTestVector) -> Option<(Seq<u8>, Seq<u8>)> {
    match (tv.sk_sender, tv.pk_sender) {
        (Some(sk), Some(pk)) => Some((sk@, pk@)),
        _ => None,
    }
}

/// The listed encapsulated key and shared secret are the ones the
/// deterministic encapsulation derives.
pub open spec fn tv_encap_matches(suite: Suite, tv: MainTestVector) -> bool {
    &&& kem_pk_of(suite.kem, tv.sk_eph@) == tv.encapped_key@
    &&& encap_shared_spec(suite.kem, tv.sk_eph@, tv.pk_recip@, tv_sender_views(tv))
        == tv.shared_secret@
}

/// The sender public key the receiver's mode carries: only in the
/// authenticated modes.
pub open spec fn tv_auth_pk_view(tv: MainTestVector) -> Option<Seq<u8>> {
    if tv.mode == 2 || tv.mode == 3 {
        match tv.pk_sender {
            Some(pk) => Some(pk@),
            None => None,
        }
    } else {
        None
    }
}

/// The PSK the key schedule sees: the bundle's in the PSK modes, empty
/// otherwise.
pub open spec fn tv_psk_seq(tv: MainTestVector) -> Seq<u8> {
    if tv.mode == 1 || tv.mode == 3 {
        match tv.psk {
            Some(p) => p@,
            None => Seq::<u8>::empty(),
        }
    } else {
        Seq::<u8>::empty()
    }
}

/// The PSK identifier the key schedule sees.
pub open spec fn tv_psk_id_seq(tv: MainTestVector) -> Seq<u8> {
    if tv.mode == 1 || tv.mode == 3 {
        match tv.psk_id {
            Some(i) => i@,
            None => Seq::<u8>::empty(),
        }
    } else {
        Seq::<u8>::empty()
    }
}

/// The shared secret the receiver derives from the vector's inputs.
pub open spec fn tv_shared(suite: Suite, tv: MainTestVector) -> Seq<u8> {
    decap_shared_spec(suite.kem, tv.sk_recip@, tv.encapped_key@, tv_auth_pk_view(tv))
}

/// The AEAD key of the vector's receiver context.
pub open spec fn tv_ctx_key(suite: Suite, tv: MainTestVector) -> Seq<u8> {
    ks_key_spec(suite, tv.mode, tv_shared(suite, tv), tv_psk_seq(tv), tv_psk_id_seq(tv), tv.info@)
}

/// The base nonce of the vector's receiver context.
pub open spec fn tv_ctx_base_nonce(suite: Suite, tv: MainTestVector) -> Seq<u8> {
    ks_base_nonce_spec(
        suite,
        tv.mode,
        tv_shared(suite, tv),
        tv_psk_seq(tv),
        tv_psk_id_seq(tv),
        tv.info@,
    )
}

/// The exporter secret of the vector's receiver context.
pub open spec fn tv_ctx_exporter(suite: Suite, tv: MainTestVector) -> Seq<u8> {
    ks_exporter_spec(
        suite,
        tv.mode,
        tv_shared(suite, tv),
        tv_psk_seq(tv),
        tv_psk_id_seq(tv),
        tv.info@,
    )
}

/// Each listed ciphertext is the sealing of its plaintext and associated
/// data at its position in the sequence; the export-only suite lists
/// none.
pub open spec fn tv_encryptions_ok(suite: Suite, tv: MainTestVector) -> bool {
    &&& (suite.aead == AeadAlg::ExportOnly ==> tv.encryptions@.len() == 0)
    &&& forall|i: int|
        0 <= i < tv.encryptions@.len() ==> (#[trigger] tv.encryptions@[i]).ciphertext@
            == aead_seal_spec(
            suite.aead,
            tv_ctx_key(suite, tv),
            nonce_xor(tv_ctx_base_nonce(suite, tv), i as u128),
            tv.encryptions@[i].aad@,
            tv.encryptions@[i].plaintext@,
        )
}

/// Each listed export value is the labeled expansion of its context
/// string from the exporter secret, at its listed length.
pub open spec fn tv_exports_ok(suite: Suite, tv: MainTestVector) -> bool {
    forall|i: int|
        0 <= i < tv.exports@.len() ==> {
            let e = #[trigger] tv.exports@[i];
            e.export_len <= 255 * suite.kdf.nh_spec() && e.export_val@.len() == e.export_len
                && e.export_val@ == export_spec(
                suite,
                tv_ctx_exporter(suite, tv),
                e.export_ctx@,
                e.export_len as nat,
            )
        }
}

/// A vector passes when it belongs to the suite, its keys decode and
/// re-derive, encapsulation reproduces its shared secret and encapsulated
/// key, its mode is buildable, and every listed ciphertext and export is
/// what the derived context produces.
pub open spec fn tv_passes(suite: Suite, tv: MainTestVector) -> bool {
    &&& tv_ids_match(suite, tv)
    &&& (tv.sk_sender is Some) == (tv.pk_sender is Some)
    &&& tv_keys_valid(suite, tv)
    &&& tv_derive_matches(suite, tv)
    &&& tv_mode_ok(tv)
    &&& tv_encap_matches(suite, tv)
    &&& tv_encryptions_ok(suite, tv)
    &&& tv_exports_ok(suite, tv)
}

// ------------------------------------------------------------ the consumer

/// Checks one vector against the engine: re-derives the keys, reproduces
/// the encapsulation, rebuilds the receiver context, opens every listed
/// ciphertext and re-computes every export. Returns whether everything
/// matched.
pub fn test_case(suite: Suite, tv: &MainTestVector) -> (r: bool)
    ensures
        r == tv_passes(suite, *tv),
{
    let kem = suite.kem;
    if !(tv.kem_id == kem.kem_id() && tv.kdf_id == suite.kdf.kdf_id() && tv.aead_id
        == suite.aead.aead_id()) {
        return false;
    }
    // Sender material must be all present or all absent.
    let has_sender = match (&tv.sk_sender, &tv.pk_sender) {
        (Some(_), Some(_)) => true,
        (None, None) => false,
        _ => {
            return false;
        },
    };
    // Decode all keys, validating them against the group.
    let recip_keypair = match crate::kem::deser_keypair(
        kem,
        tv.sk_recip.as_slice(),
        tv.pk_recip.as_slice(),
    ) {
        Ok(kp) => kp,
        Err(_) => {
            return false;
        },
    };
    let sk_eph = match PrivateKey::from_bytes(kem, tv.sk_eph.as_slice()) {
        Ok(k) => k,
        Err(_) => {
            return false;
        },
    };
    let sender_keypair: Option<(PrivateKey, PublicKey)> = if has_sender {
        let sk_bytes = match &tv.sk_sender {
            Some(b) => b.as_slice(),
            None => {
                return false;
            },
        };
        let pk_bytes = match &tv.pk_sender {
            Some(b) => b.as_slice(),
            None => {
                return false;
            },
        };
        match crate::kem::deser_keypair(kem, sk_bytes, pk_bytes) {
            Ok(kp) => Some(kp),
            Err(_) => {
                return false;
            },
        }
    } else {
        None
    };
    // The keys must match what DeriveKeyPair yields from the listed
    // keying material.
    match derive_keypair(kem, tv.ikm_recip.as_slice()) {
        Ok(kp) => {
            if !(bytes_eq(kp.0.bytes.as_slice(), tv.sk_recip.as_slice()) && bytes_eq(
                kp.1.bytes.as_slice(),
                tv.pk_recip.as_slice(),
            )) {
                return false;
            }
        },
        Err(_) => {
            return false;
        },
    }
    if has_sender {
        let ikm_sender = match &tv.ikm_sender {
            Some(b) => b.as_slice(),
            None => {
                return false;
            },
        };
        match (&sender_keypair, derive_keypair(kem, ikm_sender)) {
            (Some(skp), Ok(kp)) => {
                if !(bytes_eq(kp.0.bytes.as_slice(), skp.0.bytes.as_slice()) && bytes_eq(
                    kp.1.bytes.as_slice(),
                    skp.1.bytes.as_slice(),
                )) {
                    return false;
                }
            },
            _ => {
                return false;
            },
        }
    }
    // Reproduce the encapsulation with the listed ephemeral key.
    let (shared_secret, encapped_key) = match encap_with_eph(
        &recip_keypair.1,
        sender_keypair.as_ref(),
        &sk_eph,
    ) {
        Ok(out) => out,
        Err(_) => {
            return false;
        },
    };
    if !bytes_eq(shared_secret.bytes.as_slice(), tv.shared_secret.as_slice()) {
        return false;
    }
    if !bytes_eq(encapped_key.bytes.as_slice(), tv.encapped_key.as_slice()) {
        return false;
    }
    // Build the receiver mode from the vector's material.
    let mode_pk: Option<PublicKey> = match &sender_keypair {
        Some(kp) => Some(PublicKey { kem, bytes: slice_to_vec(kp.1.bytes.as_slice()) }),
        None => None,
    };
    let psk_opt: Option<Vec<u8>> = match &tv.psk {
        Some(p) => Some(slice_to_vec(p.as_slice())),
        None => None,
    };
    let psk_id_opt: Option<Vec<u8>> = match &tv.psk_id {
        Some(p) => Some(slice_to_vec(p.as_slice())),
        None => None,
    };
    let mode = match make_op_mode_r(tv.mode, mode_pk, psk_opt, psk_id_opt) {
        Ok(m) => m,
        Err(_) => {
            return false;
        },
    };
    let mut aead_ctx = match setup_receiver(
        suite,
        &mode,
        &recip_keypair.0,
        &encapped_key,
        tv.info.as_slice(),
    ) {
        Ok(c) => c,
        Err(_) => {
            return false;
        },
    };
    // Open every listed ciphertext in sequence.
    if suite.aead.nn() == 0 && tv.encryptions.len() > 0 {
        return false;
    }
    let mut i: usize = 0;
    while i < tv.encryptions.len()
        invariant
            i <= tv.encryptions@.len(),
            suite.aead == AeadAlg::ExportOnly ==> tv.encryptions@.len() == 0,
            aead_ctx.ctx.wf(),
            aead_ctx.ctx.suite == suite,
            aead_ctx.ctx.key@ == tv_ctx_key(suite, *tv),
            aead_ctx.ctx.base_nonce@ == tv_ctx_base_nonce(suite, *tv),
            aead_ctx.ctx.exporter_secret@ == tv_ctx_exporter(suite, *tv),
            aead_ctx.ctx.seq == i as u128,
            forall|j: int|
                0 <= j < i ==> (#[trigger] tv.encryptions@[j]).ciphertext@ == aead_seal_spec(
                    suite.aead,
                    tv_ctx_key(suite, *tv),
                    nonce_xor(tv_ctx_base_nonce(suite, *tv), j as u128),
                    tv.encryptions@[j].aad@,
                    tv.encryptions@[j].plaintext@,
                ),
        decreases tv.encryptions@.len() - i,
    {
        let er = &tv.encryptions[i];
        let ghost pre = aead_ctx.ctx;
        proof {
            assert(pre.seq < 0x1000000000000000000000000u128);
            assert(!pre.exhausted());
        }
        let res = aead_ctx.open(er.ciphertext.as_slice(), er.aad.as_slice());
        proof {
            if tv_passes(suite, *tv) {
                assert(tv_encryptions_ok(suite, *tv));
                assert(tv.encryptions@[i as int].ciphertext@ == aead_seal_spec(
                    suite.aead,
                    tv_ctx_key(suite, *tv),
                    nonce_xor(tv_ctx_base_nonce(suite, *tv), i as u128),
                    tv.encryptions@[i as int].aad@,
                    tv.encryptions@[i as int].plaintext@,
                ));
                assert(er.ciphertext@ == pre.seal_output(er.plaintext@, er.aad@));
                assert(res matches Ok(pt) && pt@ == er.plaintext@);
            }
        }
        let pt = match res {
            Ok(p) => p,
            Err(_) => {
                return false;
            },
        };
        if !bytes_eq(pt.as_slice(), er.plaintext.as_slice()) {
            return false;
        }
        i += 1;
    }
    // Re-compute every export.
    let mut e: usize = 0;
    while e < tv.exports.len()
        invariant
            e <= tv.exports@.len(),
            aead_ctx.ctx.wf(),
            aead_ctx.ctx.suite == suite,
            aead_ctx.ctx.exporter_secret@ == tv_ctx_exporter(suite, *tv),
            forall|j: int|
                0 <= j < e ==> {
                    let ex = #[trigger] tv.exports@[j];
                    ex.export_len <= 255 * suite.kdf.nh_spec() && ex.export_val@.len()
                        == ex.export_len && ex.export_val@ == export_spec(
                        suite,
                        tv_ctx_exporter(suite, *tv),
                        ex.export_ctx@,
                        ex.export_len as nat,
                    )
                },
        decreases tv.exports@.len() - e,
    {
        let ex = &tv.exports[e];
        let mut out = zero_vec(ex.export_len);
        match aead_ctx.export(ex.export_ctx.as_slice(), &mut out) {
            Ok(_) => {},
            Err(_) => {
                return false;
            },
        }
        if !bytes_eq(out.as_slice(), ex.export_val.as_slice()) {
            return false;
        }
        e += 1;
    }
    true
}

// ------------------------------------------------------------ the generator

/// Fresh input keying material of the group's secret-key length.
pub fn gen_ikm(kem: KemAlg) -> (r: Vec<u8>)
    ensures
        r@.len() == kem.nsk_spec(),
{
    random_bytes(kem.nsk())
}

/// The fixed info string every generated vector uses.
pub open spec fn gen_info() -> Seq<u8> {
    seq![0x34u8, 0x66u8, 0x36u8, 0x34u8, 0x36u8, 0x35u8, 0x32u8, 0x30u8, 0x36u8, 0x66u8, 0x36u8, 0x65u8, 0x32u8, 0x30u8, 0x36u8, 0x31u8, 0x32u8, 0x30u8, 0x34u8, 0x37u8, 0x37u8, 0x32u8, 0x36u8, 0x35u8, 0x36u8, 0x33u8, 0x36u8, 0x39u8, 0x36u8, 0x31u8, 0x36u8, 0x65u8, 0x32u8, 0x30u8, 0x35u8, 0x35u8, 0x37u8, 0x32u8, 0x36u8, 0x65u8]
}

fn mk_gen_info() -> (r: Vec<u8>)
    ensures
        r@ == gen_info(),
{
    let a: [u8; 40] = [0x34, 0x66, 0x36, 0x34, 0x36, 0x35, 0x32, 0x30, 0x36, 0x66, 0x36, 0x65, 0x32, 0x30, 0x36, 0x31, 0x32, 0x30, 0x34, 0x37, 0x37, 0x32, 0x36, 0x35, 0x36, 0x33, 0x36, 0x39, 0x36, 0x31, 0x36, 0x65, 0x32, 0x30, 0x35, 0x35, 0x37, 0x32, 0x36, 0x65];
    let v = slice_to_vec(a.as_slice());
    proof {
        assert(v@ =~= gen_info());
    }
    v
}

fn mk_gen_psk() -> (r: Vec<u8>)
    ensures
        r@.len() == 64,
{
    let a: [u8; 64] = [0x30, 0x32, 0x34, 0x37, 0x66, 0x64, 0x33, 0x33, 0x62, 0x39, 0x31, 0x33, 0x37, 0x36, 0x30, 0x66, 0x61, 0x31, 0x66, 0x61, 0x35, 0x31, 0x65, 0x31, 0x38, 0x39, 0x32, 0x64, 0x39, 0x66, 0x33, 0x30, 0x37, 0x66, 0x62, 0x65, 0x36, 0x35, 0x65, 0x62, 0x31, 0x37, 0x31, 0x65, 0x38, 0x31, 0x33, 0x32, 0x63, 0x32, 0x61, 0x66, 0x31, 0x38, 0x35, 0x35, 0x35, 0x61, 0x37, 0x33, 0x38, 0x62, 0x38, 0x32];
    slice_to_vec(a.as_slice())
}

fn mk_gen_psk_id() -> (r: Vec<u8>)
    ensures
        r@.len() == 44,
{
    let a: [u8; 44] = [0x34, 0x35, 0x36, 0x65, 0x36, 0x65, 0x37, 0x39, 0x36, 0x65, 0x32, 0x30, 0x34, 0x34, 0x37, 0x35, 0x37, 0x32, 0x36, 0x39, 0x36, 0x65, 0x32, 0x30, 0x36, 0x31, 0x37, 0x32, 0x36, 0x31, 0x36, 0x65, 0x32, 0x30, 0x34, 0x64, 0x36, 0x66, 0x37, 0x32, 0x36, 0x39, 0x36, 0x31];
    slice_to_vec(a.as_slice())
}

fn mk_gen_plaintext() -> (r: Vec<u8>)
    ensures
        r@.len() == 58,
{
    let a: [u8; 58] = [0x34, 0x32, 0x36, 0x35, 0x36, 0x31, 0x37, 0x35, 0x37, 0x34, 0x37, 0x39, 0x32, 0x30, 0x36, 0x39, 0x37, 0x33, 0x32, 0x30, 0x37, 0x34, 0x37, 0x32, 0x37, 0x35, 0x37, 0x34, 0x36, 0x38, 0x32, 0x63, 0x32, 0x30, 0x37, 0x34, 0x37, 0x32, 0x37, 0x35, 0x37, 0x34, 0x36, 0x38, 0x32, 0x30, 0x36, 0x32, 0x36, 0x35, 0x36, 0x31, 0x37, 0x35, 0x37, 0x34, 0x37, 0x39];
    slice_to_vec(a.as_slice())
}

fn mk_gen_aad() -> (r: Vec<u8>)
    ensures
        r@.len() == 18,
{
    let a: [u8; 18] = [0x34, 0x33, 0x36, 0x66, 0x37, 0x35, 0x36, 0x65, 0x37, 0x34, 0x32, 0x64, 0x33, 0x32, 0x33, 0x35, 0x33, 0x36];
    slice_to_vec(a.as_slice())
}

fn mk_gen_export_ctx_2() -> (r: Vec<u8>)
    ensures
        r@.len() == 2,
{
    let a: [u8; 2] = [0x30, 0x30];
    slice_to_vec(a.as_slice())
}

fn mk_gen_export_ctx_3() -> (r: Vec<u8>)
    ensures
        r@.len() == 22,
{
    let a: [u8; 22] = [0x35, 0x34, 0x36, 0x35, 0x37, 0x33, 0x37, 0x34, 0x34, 0x33, 0x36, 0x66, 0x36, 0x65, 0x37, 0x34, 0x36, 0x35, 0x37, 0x38, 0x37, 0x34];
    slice_to_vec(a.as_slice())
}

/// Generates one test vector for this suite and mode from fresh random
/// keying material: derives the keypairs, encapsulates with the recorded
/// ephemeral key, builds the receiver context, and records one sealed
/// message (for the bulk-encryption suites) and three exports of 32
/// bytes, under the fixed info string. Whatever randomness was drawn,
/// the produced vector passes `test_case`; a failure can only be an
/// unknown mode byte or an exhausted key derivation, so for X25519 every
/// known mode succeeds.
pub fn gen_test_case(suite: Suite, mode_id: u8) -> (r: Result<MainTestVector, HpkeError>)
    ensures
        r matches Ok(tv) ==> tv_passes(suite, tv) && tv.mode == mode_id && tv.info@ == gen_info()
            && derive_sk_spec(suite.kem, tv.ikm_eph@) == Some(tv.sk_eph@) && tv.pk_eph@
            == kem_pk_of(suite.kem, tv.sk_eph@) && tv.exports@.len() == 3 && (forall|i: int|
            0 <= i < tv.exports@.len() ==> (#[trigger] tv.exports@[i]).export_len == 32)
            && tv.encryptions@.len() == (if suite.aead == AeadAlg::ExportOnly {
                0int
            } else {
                1int
            }),
        mode_id > 3 ==> (r matches Err(e) && e == HpkeError::ModeValidationError),
        mode_id <= 3 ==> (r matches Err(e) ==> e == HpkeError::DecodeError),
        suite.kem == KemAlg::X25519HkdfSha256 && mode_id <= 3 ==> r is Ok,
{
    if mode_id > 3 {
        return Err(HpkeError::ModeValidationError);
    }
    let kem = suite.kem;
    let info = mk_gen_info();
    let ikm_eph = gen_ikm(kem);
    let eph = match derive_keypair(kem, ikm_eph.as_slice()) {
        Ok(kp) => kp,
        Err(_) => {
            return Err(HpkeError::DecodeError);
        },
    };
    let ikm_recip = gen_ikm(kem);
    let recip = match derive_keypair(kem, ikm_recip.as_slice()) {
        Ok(kp) => kp,
        Err(_) => {
            return Err(HpkeError::DecodeError);
        },
    };
    let has_sender = mode_id == 2 || mode_id == 3;
    let (ikm_sender, sender): (Option<Vec<u8>>, Option<(PrivateKey, PublicKey)>) = if has_sender {
        let ikm_s = gen_ikm(kem);
        let kp = match derive_keypair(kem, ikm_s.as_slice()) {
            Ok(kp) => kp,
            Err(_) => {
                return Err(HpkeError::DecodeError);
            },
        };
        (Some(ikm_s), Some(kp))
    } else {
        (None, None)
    };
    let has_psk = mode_id == 1 || mode_id == 3;
    let (psk, psk_id): (Option<Vec<u8>>, Option<Vec<u8>>) = if has_psk {
        (Some(mk_gen_psk()), Some(mk_gen_psk_id()))
    } else {
        (None, None)
    };
    let (shared_secret, encapped_key) = match encap_with_eph(&recip.1, sender.as_ref(), &eph.0) {
        Ok(out) => out,
        Err(_) => unreached(),
    };
    // Build the receiver mode from copies of the same material.
    let mode_pk: Option<PublicKey> = match &sender {
        Some(kp) => Some(PublicKey { kem, bytes: slice_to_vec(kp.1.bytes.as_slice()) }),
        None => None,
    };
    let psk_c: Option<Vec<u8>> = match &psk {
        Some(p) => Some(slice_to_vec(p.as_slice())),
        None => None,
    };
    let psk_id_c: Option<Vec<u8>> = match &psk_id {
        Some(p) => Some(slice_to_vec(p.as_slice())),
        None => None,
    };
    let mode = match make_op_mode_r(mode_id, mode_pk, psk_c, psk_id_c) {
        Ok(m) => m,
        Err(_) => unreached(),
    };
    let aead_ctx_r = match setup_receiver(suite, &mode, &recip.0, &encapped_key, info.as_slice()) {
        Ok(c) => c,
        Err(_) => unreached(),
    };
    // Three exports, from the receiver context.
    let mut export_ctxs: Vec<Vec<u8>> = Vec::new();
    export_ctxs.push(Vec::new());
    export_ctxs.push(mk_gen_export_ctx_2());
    export_ctxs.push(mk_gen_export_ctx_3());
    let mut exports: Vec<ExporterTestVector> = Vec::new();
    let mut e: usize = 0;
    while e < export_ctxs.len()
        invariant
            e <= export_ctxs@.len(),
            aead_ctx_r.ctx.wf(),
            aead_ctx_r.ctx.suite == suite,
            exports@.len() == e,
            forall|j: int|
                0 <= j < e ==> {
                    let ex = #[trigger] exports@[j];
                    ex.export_len == 32 && ex.export_val@.len() == 32 && ex.export_val@
                        == export_spec(
                        suite,
                        aead_ctx_r.ctx.exporter_secret@,
                        ex.export_ctx@,
                        32,
                    )
                },
        decreases export_ctxs@.len() - e,
    {
        let ctx_bytes = slice_to_vec(export_ctxs[e].as_slice());
        let mut out = zero_vec(32);
        proof {
            assert(32 <= 255 * suite.kdf.nh_spec());
        }
        match aead_ctx_r.export(ctx_bytes.as_slice(), &mut out) {
            Ok(_) => {},
            Err(_) => unreached(),
        }
        exports.push(ExporterTestVector { export_ctx: ctx_bytes, export_len: 32, export_val: out });
        e += 1;
    }
    // One sealed message, from a sender context over the same derived
    // strings; none for the export-only suite.
    let mut encryptions: Vec<EncryptionTestVector> = Vec::new();
    if !(suite.aead.nn() == 0) {
        proof {
            assert(suite.aead != AeadAlg::ExportOnly);
        }
        let mut sctx = AeadCtxS {
            ctx: AeadCtx {
                suite,
                key: slice_to_vec(aead_ctx_r.ctx.key.as_slice()),
                base_nonce: slice_to_vec(aead_ctx_r.ctx.base_nonce.as_slice()),
                exporter_secret: slice_to_vec(aead_ctx_r.ctx.exporter_secret.as_slice()),
                seq: 0,
            },
        };
        let pt = mk_gen_plaintext();
        let aad = mk_gen_aad();
        let ct = match sctx.seal(pt.as_slice(), aad.as_slice()) {
            Ok(c) => c,
            Err(_) => unreached(),
        };
        let nonce = compute_nonce(aead_ctx_r.ctx.base_nonce.as_slice(), 0);
        encryptions.push(EncryptionTestVector { plaintext: pt, aad, nonce, ciphertext: ct });
    }
    let tv = MainTestVector {
        mode: mode_id,
        kem_id: kem.kem_id(),
        kdf_id: suite.kdf.kdf_id(),
        aead_id: suite.aead.aead_id(),
        info,
        ikm_recip,
        ikm_sender,
        ikm_eph,
        sk_recip: slice_to_vec(recip.0.bytes.as_slice()),
        sk_sender: match &sender {
            Some(kp) => Some(slice_to_vec(kp.0.bytes.as_slice())),
            None => None,
        },
        sk_eph: slice_to_vec(eph.0.bytes.as_slice()),
        psk,
        psk_id,
        pk_recip: slice_to_vec(recip.1.bytes.as_slice()),
        pk_sender: match &sender {
            Some(kp) => Some(slice_to_vec(kp.1.bytes.as_slice())),
            None => None,
        },
        pk_eph: slice_to_vec(eph.1.bytes.as_slice()),
        encapped_key: slice_to_vec(encapped_key.bytes.as_slice()),
        shared_secret: slice_to_vec(shared_secret.bytes.as_slice()),
        key_schedule_context: Vec::new(),
        key_schedule_secret: Vec::new(),
        aead_key: slice_to_vec(aead_ctx_r.ctx.key.as_slice()),
        aead_base_nonce: slice_to_vec(aead_ctx_r.ctx.base_nonce.as_slice()),
        exporter_secret: slice_to_vec(aead_ctx_r.ctx.exporter_secret.as_slice()),
        encryptions,
        exports,
    };
    proof {
        assert(tv_ids_match(suite, tv));
        assert(tv_keys_valid(suite, tv));
        assert(tv_derive_matches(suite, tv));
        assert(tv_mode_ok(tv));
        assert(tv_sender_views(tv) == (match sender {
            Some(kp) => Some((kp.0.bytes@, kp.1.bytes@)),
            None => None::<(Seq<u8>, Seq<u8>)>,
        }));
        assert(tv_encap_matches(suite, tv));
        assert(tv_encryptions_ok(suite, tv));
        assert(tv_exports_ok(suite, tv));
    }
    Ok(tv)
}

} // verus!
