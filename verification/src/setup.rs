//! The key schedule and the two Setup paths: a deterministic function of
//! (mode, KEM shared secret, info, PSK) that derives the AEAD key, the
//! base nonce and the exporter secret, then hands back a sender or
//! receiver context.
use vstd::prelude::*;
use vstd::pervasive::unreached;
use vstd::slice::slice_to_vec;

use crate::HpkeError;
use crate::aead::{AeadCtx, AeadCtxR, AeadCtxS};
use crate::algs::{suite_id, suite_id_spec, KemAlg, Suite};
use crate::kdf::{labeled_expand, labeled_extract, spec_labeled_expand, spec_labeled_extract};
use crate::kem::{
    decap, decap_shared_spec, encap_shared_spec, encap_with_eph, generate_keypair,
    kem_scalar_valid, kem_pk_of, EncappedKey, PrivateKey, PublicKey,
};
use crate::op_mode::{OpModeR, OpModeS};
use crate::util::append_slice;

verus! {

// ------------------------------------------------------------ labels

/// The bytes of the label `"psk_id_hash"`.
pub open spec fn lbl_psk_id_hash() -> Seq<u8> {
    seq![0x70u8, 0x73u8, 0x6bu8, 0x5fu8, 0x69u8, 0x64u8, 0x5fu8, 0x68u8, 0x61u8, 0x73u8, 0x68u8]
}

fn mk_lbl_psk_id_hash() -> (r: Vec<u8>)
    ensures
        r@ == lbl_psk_id_hash(),
{
    let a: [u8; 11] = [0x70, 0x73, 0x6b, 0x5f, 0x69, 0x64, 0x5f, 0x68, 0x61, 0x73, 0x68];
    let v = slice_to_vec(a.as_slice());
    proof {
        assert(v@ =~= lbl_psk_id_hash());
    }
    v
}

/// The bytes of the label `"info_hash"`.
pub open spec fn lbl_info_hash() -> Seq<u8> {
    seq![0x69u8, 0x6eu8, 0x66u8, 0x6fu8, 0x5fu8, 0x68u8, 0x61u8, 0x73u8, 0x68u8]
}

fn mk_lbl_info_hash() -> (r: Vec<u8>)
    ensures
        r@ == lbl_info_hash(),
{
    let a: [u8; 9] = [0x69, 0x6e, 0x66, 0x6f, 0x5f, 0x68, 0x61, 0x73, 0x68];
    let v = slice_to_vec(a.as_slice());
    proof {
        assert(v@ =~= lbl_info_hash());
    }
    v
}

/// The bytes of the label `"secret"`.
pub open spec fn lbl_secret() -> Seq<u8> {
    seq![0x73u8, 0x65u8, 0x63u8, 0x72u8, 0x65u8, 0x74u8]
}

fn mk_lbl_secret() -> (r: Vec<u8>)
    ensures
        r@ == lbl_secret(),
{
    let a: [u8; 6] = [0x73, 0x65, 0x63, 0x72, 0x65, 0x74];
    let v = slice_to_vec(a.as_slice());
    proof {
        assert(v@ =~= lbl_secret());
    }
    v
}

/// The bytes of the label `"key"`.
pub open spec fn lbl_key() -> Seq<u8> {
    seq![0x6bu8, 0x65u8, 0x79u8]
}

fn mk_lbl_key() -> (r: Vec<u8>)
    ensures
        r@ == lbl_key(),
{
    let a: [u8; 3] = [0x6b, 0x65, 0x79];
    let v = slice_to_vec(a.as_slice());
    proof {
        assert(v@ =~= lbl_key());
    }
    v
}

/// The bytes of the label `"base_nonce"`.
pub open spec fn lbl_base_nonce() -> Seq<u8> {
    seq![0x62u8, 0x61u8, 0x73u8, 0x65u8, 0x5fu8, 0x6eu8, 0x6fu8, 0x6eu8, 0x63u8, 0x65u8]
}

fn mk_lbl_base_nonce() -> (r: Vec<u8>)
    ensures
        r@ == lbl_base_nonce(),
{
    let a: [u8; 10] = [0x62, 0x61, 0x73, 0x65, 0x5f, 0x6e, 0x6f, 0x6e, 0x63, 0x65];
    let v = slice_to_vec(a.as_slice());
    proof {
        assert(v@ =~= lbl_base_nonce());
    }
    v
}

/// The bytes of the label `"exp"`.
pub open spec fn lbl_exp() -> Seq<u8> {
    seq![0x65u8, 0x78u8, 0x70u8]
}

fn mk_lbl_exp() -> (r: Vec<u8>)
    ensures
        r@ == lbl_exp(),
{
    let a: [u8; 3] = [0x65, 0x78, 0x70];
    let v = slice_to_vec(a.as_slice());
    proof {
        assert(v@ =~= lbl_exp());
    }
    v
}

// ------------------------------------------------------------ key schedule

/// The key-schedule context: `mode byte || Hash(psk_id) || Hash(info)`,
/// each hash a labeled extract with empty salt.
pub open spec fn ks_context_spec(suite: Suite, mode_id: u8, psk_id: Seq<u8>, info: Seq<u8>) -> Seq<
    u8,
> {
    seq![mode_id] + spec_labeled_extract(
        suite.kdf,
        Seq::<u8>::empty(),
        suite_id_spec(suite),
        lbl_psk_id_hash(),
        psk_id,
    ) + spec_labeled_extract(
        suite.kdf,
        Seq::<u8>::empty(),
        suite_id_spec(suite),
        lbl_info_hash(),
        info,
    )
}

/// The per-session secret: `LabeledExtract(shared_secret, "secret", psk)`.
pub open spec fn ks_secret_spec(suite: Suite, shared: Seq<u8>, psk: Seq<u8>) -> Seq<u8> {
    spec_labeled_extract(suite.kdf, shared, suite_id_spec(suite), lbl_secret(), psk)
}

/// The AEAD key the schedule derives.
pub open spec fn ks_key_spec(
    suite: Suite,
    mode_id: u8,
    shared: Seq<u8>,
    psk: Seq<u8>,
    psk_id: Seq<u8>,
    info: Seq<u8>,
) -> Seq<u8> {
    spec_labeled_expand(
        suite.kdf,
        ks_secret_spec(suite, shared, psk),
        suite_id_spec(suite),
        lbl_key(),
        ks_context_spec(suite, mode_id, psk_id, info),
        suite.aead.nk_spec(),
    )
}

/// The base nonce the schedule derives.
pub open spec fn ks_base_nonce_spec(
    suite: Suite,
    mode_id: u8,
    shared: Seq<u8>,
    psk: Seq<u8>,
    psk_id: Seq<u8>,
    info: Seq<u8>,
) -> Seq<u8> {
    spec_labeled_expand(
        suite.kdf,
        ks_secret_spec(suite, shared, psk),
        suite_id_spec(suite),
        lbl_base_nonce(),
        ks_context_spec(suite, mode_id, psk_id, info),
        suite.aead.nn_spec(),
    )
}

/// The exporter secret the schedule derives.
pub open spec fn ks_exporter_spec(
    suite: Suite,
    mode_id: u8,
    shared: Seq<u8>,
    psk: Seq<u8>,
    psk_id: Seq<u8>,
    info: Seq<u8>,
) -> Seq<u8> {
    spec_labeled_expand(
        suite.kdf,
        ks_secret_spec(suite, shared, psk),
        suite_id_spec(suite),
        lbl_exp(),
        ks_context_spec(suite, mode_id, psk_id, info),
        suite.kdf.nh_spec(),
    )
}

/// Whether a context holds exactly the strings the key schedule derives
/// for these inputs, with a fresh counter.
pub open spec fn ks_fields_match(
    ctx: AeadCtx,
    suite: Suite,
    mode_id: u8,
    shared: Seq<u8>,
    psk: Seq<u8>,
    psk_id: Seq<u8>,
    info: Seq<u8>,
) -> bool {
    &&& ctx.suite == suite
    &&& ctx.seq == 0
    &&& ctx.key@ == ks_key_spec(suite, mode_id, shared, psk, psk_id, info)
    &&& ctx.base_nonce@ == ks_base_nonce_spec(suite, mode_id, shared, psk, psk_id, info)
    &&& ctx.exporter_secret@ == ks_exporter_spec(suite, mode_id, shared, psk, psk_id, info)
    &&& ctx.wf()
}

/// `KeySchedule(mode, shared_secret, info, psk, psk_id)`: the three
/// labeled expansions every mode shares, differing only in the material
/// that feeds them.
pub fn key_schedule(
    suite: Suite,
    mode_id: u8,
    shared: &[u8],
    psk: &[u8],
    psk_id: &[u8],
    info: &[u8],
) -> (r: AeadCtx)
    ensures
        ks_fields_match(r, suite, mode_id, shared@, psk@, psk_id@, info@),
{
    let sid = suite_id(&suite);
    let empty_salt: Vec<u8> = Vec::new();
    let l_psk_id_hash = mk_lbl_psk_id_hash();
    let psk_id_hash = labeled_extract(
        suite.kdf,
        empty_salt.as_slice(),
        sid.as_slice(),
        l_psk_id_hash.as_slice(),
        psk_id,
    );
    let l_info_hash = mk_lbl_info_hash();
    let info_hash = labeled_extract(
        suite.kdf,
        empty_salt.as_slice(),
        sid.as_slice(),
        l_info_hash.as_slice(),
        info,
    );
    let mut ks_context: Vec<u8> = Vec::new();
    ks_context.push(mode_id);
    append_slice(&mut ks_context, psk_id_hash.as_slice());
    append_slice(&mut ks_context, info_hash.as_slice());
    proof {
        assert(ks_context@ =~= ks_context_spec(suite, mode_id, psk_id@, info@));
    }
    let l_secret = mk_lbl_secret();
    let secret = labeled_extract(suite.kdf, shared, sid.as_slice(), l_secret.as_slice(), psk);
    let l_key = mk_lbl_key();
    let key = match labeled_expand(
        suite.kdf,
        secret.as_slice(),
        sid.as_slice(),
        l_key.as_slice(),
        ks_context.as_slice(),
        suite.aead.nk(),
    ) {
        Ok(v) => v,
        Err(_) => unreached(),
    };
    let l_base_nonce = mk_lbl_base_nonce();
    let base_nonce = match labeled_expand(
        suite.kdf,
        secret.as_slice(),
        sid.as_slice(),
        l_base_nonce.as_slice(),
        ks_context.as_slice(),
        suite.aead.nn(),
    ) {
        Ok(v) => v,
        Err(_) => unreached(),
    };
    let l_exp = mk_lbl_exp();
    let exporter_secret = match labeled_expand(
        suite.kdf,
        secret.as_slice(),
        sid.as_slice(),
        l_exp.as_slice(),
        ks_context.as_slice(),
        suite.kdf.nh(),
    ) {
        Ok(v) => v,
        Err(_) => unreached(),
    };
    AeadCtx { suite, key, base_nonce, exporter_secret, seq: 0 }
}

// ------------------------------------------------------------ setup

/// The sender keypair of a sender mode, as byte views.
pub open spec fn mode_s_sender_views(mode: OpModeS) -> Option<(Seq<u8>, Seq<u8>)> {
    match mode.sender_keypair_spec() {
        Some(kp) => Some((kp.0.bytes@, kp.1.bytes@)),
        None => None,
    }
}

/// The sender public key of a receiver mode, as a byte view.
pub open spec fn mode_r_sender_view(mode: OpModeR) -> Option<Seq<u8>> {
    match mode.sender_pk_spec() {
        Some(pk) => Some(pk.bytes@),
        None => None,
    }
}

/// Sender-side Setup: runs `Encap` with a fresh ephemeral keypair, then
/// the key schedule. On success the encapsulated key and the context both
/// stem from one valid ephemeral scalar; failure reports the KEM step and
/// can only come from an exhausted key derivation, so for X25519 success
/// is certain.
pub fn setup_sender(
    suite: Suite,
    mode: &OpModeS,
    pk_recip: &PublicKey,
    info: &[u8],
) -> (r: Result<(EncappedKey, AeadCtxS), HpkeError>)
    requires
        mode.wf(suite.kem),
        pk_recip.wf(),
        pk_recip.kem == suite.kem,
    ensures
        r matches Ok(out) ==> out.0.kem == suite.kem && out.0.wf() && exists|sk_e: Seq<u8>|
            kem_scalar_valid(suite.kem, sk_e) && out.0.bytes@ == kem_pk_of(suite.kem, sk_e)
                && ks_fields_match(
                out.1.ctx,
                suite,
                mode.mode_id_spec(),
                encap_shared_spec(suite.kem, sk_e, pk_recip.bytes@, mode_s_sender_views(*mode)),
                mode.psk_seq(),
                mode.psk_id_seq(),
                info@,
            ),
        r matches Err(e) ==> e == HpkeError::EncapError,
        suite.kem == KemAlg::X25519HkdfSha256 ==> r is Ok,
{
    let eph = match generate_keypair(suite.kem) {
        Ok(kp) => kp,
        Err(_) => {
            return Err(HpkeError::EncapError);
        },
    };
    let (shared, enc) = match encap_with_eph(pk_recip, mode.sender_keypair(), &eph.0) {
        Ok(out) => out,
        Err(_) => {
            return Err(HpkeError::EncapError);
        },
    };
    let psk = mode.psk_vec();
    let psk_id = mode.psk_id_vec();
    let ctx = key_schedule(
        suite,
        mode.mode_id(),
        shared.bytes.as_slice(),
        psk.as_slice(),
        psk_id.as_slice(),
        info,
    );
    proof {
        let sk_e = eph.0.bytes@;
        assert(kem_scalar_valid(suite.kem, sk_e));
    }
    Ok((enc, AeadCtxS { ctx }))
}

/// Receiver-side Setup: runs `Decap` on the received encapsulated key,
/// then the key schedule, yielding the mirror context of the sender's.
pub fn setup_receiver(
    suite: Suite,
    mode: &OpModeR,
    sk_recip: &PrivateKey,
    encapped_key: &EncappedKey,
    info: &[u8],
) -> (r: Result<AeadCtxR, HpkeError>)
    requires
        mode.wf(suite.kem),
        sk_recip.wf(),
        sk_recip.kem == suite.kem,
        encapped_key.wf(),
        encapped_key.kem == suite.kem,
    ensures
        r matches Ok(ctx_r) && ks_fields_match(
            ctx_r.ctx,
            suite,
            mode.mode_id_spec(),
            decap_shared_spec(
                suite.kem,
                sk_recip.bytes@,
                encapped_key.bytes@,
                mode_r_sender_view(*mode),
            ),
            mode.psk_seq(),
            mode.psk_id_seq(),
            info@,
        ),
{
    let shared = match decap(sk_recip, encapped_key, mode.sender_pk()) {
        Ok(ss) => ss,
        Err(_) => unreached(),
    };
    let psk = mode.psk_vec();
    let psk_id = mode.psk_id_vec();
    let ctx = key_schedule(
        suite,
        mode.mode_id(),
        shared.bytes.as_slice(),
        psk.as_slice(),
        psk_id.as_slice(),
        info,
    );
    Ok(AeadCtxR { ctx })
}

} // verus!
