//! The Diffie-Hellman KEM: deterministic keypair derivation, random
//! generation, encapsulation and decapsulation, shared across all supported
//! groups.
use vstd::prelude::*;
use vstd::pervasive::unreached;
use vstd::slice::slice_to_vec;

use crate::HpkeError;
use crate::algs::{kem_suite_id, kem_suite_id_spec, KemAlg};
use crate::curves::{
    k256_dh, k256_dh_of, k256_pk, k256_pk_of, k256_point_check, k256_point_valid,
    k256_scalar_check, k256_scalar_valid, p256_dh, p256_dh_of, p256_pk, p256_pk_of,
    p256_point_check, p256_point_valid, p256_scalar_check, p256_scalar_valid, p384_dh,
    p384_dh_of, p384_pk, p384_pk_of, p384_point_check, p384_point_valid, p384_scalar_check,
    p384_scalar_valid, p521_dh, p521_dh_of, p521_pk, p521_pk_of, p521_point_check,
    p521_point_valid, p521_scalar_check, p521_scalar_valid, random_bytes, x25519_base,
    x25519_basepoint, x25519_dh, x25519_of,
};
use crate::kdf::{labeled_expand, labeled_extract, spec_labeled_expand, spec_labeled_extract};
use crate::util::append_slice;

verus! {

// ------------------------------------------------------------ dispatch

/// Whether `sk` is a valid encoded secret scalar of the group.
pub open spec fn kem_scalar_valid(kem: KemAlg, sk: Seq<u8>) -> bool {
    &&& sk.len() == kem.nsk_spec()
    &&& match kem {
        KemAlg::X25519HkdfSha256 => true,
        KemAlg::DhP256HkdfSha256 => p256_scalar_valid(sk),
        KemAlg::DhP384HkdfSha384 => p384_scalar_valid(sk),
        KemAlg::DhP521HkdfSha512 => p521_scalar_valid(sk),
        KemAlg::DhK256HkdfSha256 => k256_scalar_valid(sk),
    }
}

/// Whether `pk` is a valid encoded group element of the expected length.
pub open spec fn kem_point_valid(kem: KemAlg, pk: Seq<u8>) -> bool {
    &&& pk.len() == kem.npk_spec()
    &&& match kem {
        KemAlg::X25519HkdfSha256 => true,
        KemAlg::DhP256HkdfSha256 => p256_point_valid(pk),
        KemAlg::DhP384HkdfSha384 => p384_point_valid(pk),
        KemAlg::DhP521HkdfSha512 => p521_point_valid(pk),
        KemAlg::DhK256HkdfSha256 => k256_point_valid(pk),
    }
}

/// The raw Diffie-Hellman result of the group.
pub open spec fn kem_dh_spec(kem: KemAlg, sk: Seq<u8>, pk: Seq<u8>) -> Seq<u8> {
    match kem {
        KemAlg::X25519HkdfSha256 => x25519_of(sk, pk),
        KemAlg::DhP256HkdfSha256 => p256_dh_of(sk, pk),
        KemAlg::DhP384HkdfSha384 => p384_dh_of(sk, pk),
        KemAlg::DhP521HkdfSha512 => p521_dh_of(sk, pk),
        KemAlg::DhK256HkdfSha256 => k256_dh_of(sk, pk),
    }
}

/// The encoded public key of a secret scalar.
pub open spec fn kem_pk_of(kem: KemAlg, sk: Seq<u8>) -> Seq<u8> {
    match kem {
        KemAlg::X25519HkdfSha256 => x25519_of(sk, x25519_base()),
        KemAlg::DhP256HkdfSha256 => p256_pk_of(sk),
        KemAlg::DhP384HkdfSha384 => p384_pk_of(sk),
        KemAlg::DhP521HkdfSha512 => p521_pk_of(sk),
        KemAlg::DhK256HkdfSha256 => k256_pk_of(sk),
    }
}

/// Runs the group's validity check on an encoded scalar.
pub fn kem_scalar_check(kem: KemAlg, sk: &[u8]) -> (r: bool)
    ensures
        r == kem_scalar_valid(kem, sk@),
{
    if sk.len() != kem.nsk() {
        return false;
    }
    match kem {
        KemAlg::X25519HkdfSha256 => true,
        KemAlg::DhP256HkdfSha256 => p256_scalar_check(sk),
        KemAlg::DhP384HkdfSha384 => p384_scalar_check(sk),
        KemAlg::DhP521HkdfSha512 => p521_scalar_check(sk),
        KemAlg::DhK256HkdfSha256 => k256_scalar_check(sk),
    }
}

/// Runs the group's validity check on an encoded point.
pub fn kem_point_check(kem: KemAlg, pk: &[u8]) -> (r: bool)
    ensures
        r == kem_point_valid(kem, pk@),
{
    if pk.len() != kem.npk() {
        return false;
    }
    match kem {
        KemAlg::X25519HkdfSha256 => true,
        KemAlg::DhP256HkdfSha256 => p256_point_check(pk),
        KemAlg::DhP384HkdfSha384 => p384_point_check(pk),
        KemAlg::DhP521HkdfSha512 => p521_point_check(pk),
        KemAlg::DhK256HkdfSha256 => k256_point_check(pk),
    }
}

/// Computes the group's Diffie-Hellman function on validated keys.
pub fn kem_dh(kem: KemAlg, sk: &[u8], pk: &[u8]) -> (r: Vec<u8>)
    requires
        kem_scalar_valid(kem, sk@),
        kem_point_valid(kem, pk@),
    ensures
        r@ == kem_dh_spec(kem, sk@, pk@),
        r@.len() == kem.ndh_spec(),
{
    match kem {
        KemAlg::X25519HkdfSha256 => x25519_dh(sk, pk),
        KemAlg::DhP256HkdfSha256 => p256_dh(sk, pk),
        KemAlg::DhP384HkdfSha384 => p384_dh(sk, pk),
        KemAlg::DhP521HkdfSha512 => p521_dh(sk, pk),
        KemAlg::DhK256HkdfSha256 => k256_dh(sk, pk),
    }
}

/// Computes the encoded public key of a validated secret scalar.
pub fn kem_pk(kem: KemAlg, sk: &[u8]) -> (r: Vec<u8>)
    requires
        kem_scalar_valid(kem, sk@),
    ensures
        r@ == kem_pk_of(kem, sk@),
        kem_point_valid(kem, r@),
{
    match kem {
        KemAlg::X25519HkdfSha256 => {
            let base = x25519_basepoint();
            x25519_dh(sk, base.as_slice())
        },
        KemAlg::DhP256HkdfSha256 => p256_pk(sk),
        KemAlg::DhP384HkdfSha384 => p384_pk(sk),
        KemAlg::DhP521HkdfSha512 => p521_pk(sk),
        KemAlg::DhK256HkdfSha256 => k256_pk(sk),
    }
}

// ------------------------------------------------------------ key types

/// A secret scalar with its group; the bytes are always a valid scalar of
/// the group.
pub struct PrivateKey {
    pub kem: KemAlg,
    pub bytes: Vec<u8>,
}

/// An encoded group element with its group; the bytes always decode to a
/// valid element.
pub struct PublicKey {
    pub kem: KemAlg,
    pub bytes: Vec<u8>,
}

/// The KEM ciphertext: for a DH-KEM, the ephemeral public key. Same
/// encoding and validity as a public key.
pub struct EncappedKey {
    pub kem: KemAlg,
    pub bytes: Vec<u8>,
}

/// A KEM shared secret of length `Nsecret`; consumed by the key schedule,
/// never serialized externally.
pub struct SharedSecret {
    pub bytes: Vec<u8>,
}

impl PrivateKey {
    pub open spec fn wf(self) -> bool {
        kem_scalar_valid(self.kem, self.bytes@)
    }

    /// Decodes a private key, rejecting bytes that are not a valid scalar.
    pub fn from_bytes(kem: KemAlg, bytes: &[u8]) -> (r: Result<PrivateKey, HpkeError>)
        ensures
            kem_scalar_valid(kem, bytes@) ==> (r matches Ok(k) && k.kem == kem && k.bytes@
                == bytes@),
            !kem_scalar_valid(kem, bytes@) ==> (r matches Err(e) && e == HpkeError::DecodeError),
    {
        if kem_scalar_check(kem, bytes) {
            Ok(PrivateKey { kem, bytes: slice_to_vec(bytes) })
        } else {
            Err(HpkeError::DecodeError)
        }
    }

    /// The canonical fixed-length encoding.
    pub fn to_bytes(&self) -> (r: Vec<u8>)
        ensures
            r@ == self.bytes@,
    {
        slice_to_vec(self.bytes.as_slice())
    }
}

impl PublicKey {
    pub open spec fn wf(self) -> bool {
        kem_point_valid(self.kem, self.bytes@)
    }

    /// Decodes a public key, rejecting bytes that fail the group's point
    /// validation.
    pub fn from_bytes(kem: KemAlg, bytes: &[u8]) -> (r: Result<PublicKey, HpkeError>)
        ensures
            kem_point_valid(kem, bytes@) ==> (r matches Ok(k) && k.kem == kem && k.bytes@
                == bytes@),
            !kem_point_valid(kem, bytes@) ==> (r matches Err(e) && e == HpkeError::DecodeError),
    {
        if kem_point_check(kem, bytes) {
            Ok(PublicKey { kem, bytes: slice_to_vec(bytes) })
        } else {
            Err(HpkeError::DecodeError)
        }
    }

    /// The canonical fixed-length encoding.
    pub fn to_bytes(&self) -> (r: Vec<u8>)
        ensures
            r@ == self.bytes@,
    {
        slice_to_vec(self.bytes.as_slice())
    }
}

impl EncappedKey {
    pub open spec fn wf(self) -> bool {
        kem_point_valid(self.kem, self.bytes@)
    }

    /// Decodes an encapsulated key, with the group's point validation.
    pub fn from_bytes(kem: KemAlg, bytes: &[u8]) -> (r: Result<EncappedKey, HpkeError>)
        ensures
            kem_point_valid(kem, bytes@) ==> (r matches Ok(k) && k.kem == kem && k.bytes@
                == bytes@),
            !kem_point_valid(kem, bytes@) ==> (r matches Err(e) && e == HpkeError::DecodeError),
    {
        if kem_point_check(kem, bytes) {
            Ok(EncappedKey { kem, bytes: slice_to_vec(bytes) })
        } else {
            Err(HpkeError::DecodeError)
        }
    }

    /// The canonical fixed-length encoding.
    pub fn to_bytes(&self) -> (r: Vec<u8>)
        ensures
            r@ == self.bytes@,
    {
        slice_to_vec(self.bytes.as_slice())
    }
}

/// Decodes a (private key, public key) pair from its two encodings.
pub fn deser_keypair(kem: KemAlg, sk_bytes: &[u8], pk_bytes: &[u8]) -> (r: Result<
    (PrivateKey, PublicKey),
    HpkeError,
>)
    ensures
        kem_scalar_valid(kem, sk_bytes@) && kem_point_valid(kem, pk_bytes@) ==> (r matches Ok(kp)
            && kp.0.kem == kem && kp.0.bytes@ == sk_bytes@ && kp.1.kem == kem && kp.1.bytes@
            == pk_bytes@),
        !(kem_scalar_valid(kem, sk_bytes@) && kem_point_valid(kem, pk_bytes@)) ==> (r matches Err(e)
            && e == HpkeError::DecodeError),
{
    let sk = PrivateKey::from_bytes(kem, sk_bytes)?;
    let pk = PublicKey::from_bytes(kem, pk_bytes)?;
    Ok((sk, pk))
}

// ------------------------------------------------------------ labels

/// The bytes of the label `"dkp_prk"`.
pub open spec fn lbl_dkp_prk() -> Seq<u8> {
    seq![0x64u8, 0x6bu8, 0x70u8, 0x5fu8, 0x70u8, 0x72u8, 0x6bu8]
}

fn mk_lbl_dkp_prk() -> (r: Vec<u8>)
    ensures
        r@ == lbl_dkp_prk(),
{
    let a: [u8; 7] = [0x64, 0x6b, 0x70, 0x5f, 0x70, 0x72, 0x6b];
    let v = slice_to_vec(a.as_slice());
    proof {
        assert(v@ =~= lbl_dkp_prk());
    }
    v
}

/// The bytes of the label `"sk"`.
pub open spec fn lbl_sk() -> Seq<u8> {
    seq![0x73u8, 0x6bu8]
}

fn mk_lbl_sk() -> (r: Vec<u8>)
    ensures
        r@ == lbl_sk(),
{
    let a: [u8; 2] = [0x73, 0x6b];
    let v = slice_to_vec(a.as_slice());
    proof {
        assert(v@ =~= lbl_sk());
    }
    v
}

/// The bytes of the label `"candidate"`.
pub open spec fn lbl_candidate() -> Seq<u8> {
    seq![0x63u8, 0x61u8, 0x6eu8, 0x64u8, 0x69u8, 0x64u8, 0x61u8, 0x74u8, 0x65u8]
}

fn mk_lbl_candidate() -> (r: Vec<u8>)
    ensures
        r@ == lbl_candidate(),
{
    let a: [u8; 9] = [0x63, 0x61, 0x6e, 0x64, 0x69, 0x64, 0x61, 0x74, 0x65];
    let v = slice_to_vec(a.as_slice());
    proof {
        assert(v@ =~= lbl_candidate());
    }
    v
}

/// The bytes of the label `"eae_prk"`.
pub open spec fn lbl_eae_prk() -> Seq<u8> {
    seq![0x65u8, 0x61u8, 0x65u8, 0x5fu8, 0x70u8, 0x72u8, 0x6bu8]
}

fn mk_lbl_eae_prk() -> (r: Vec<u8>)
    ensures
        r@ == lbl_eae_prk(),
{
    let a: [u8; 7] = [0x65, 0x61, 0x65, 0x5f, 0x70, 0x72, 0x6b];
    let v = slice_to_vec(a.as_slice());
    proof {
        assert(v@ =~= lbl_eae_prk());
    }
    v
}

/// The bytes of the label `"shared_secret"`.
pub open spec fn lbl_shared_secret() -> Seq<u8> {
    seq![
        0x73u8,
        0x68u8,
        0x61u8,
        0x72u8,
        0x65u8,
        0x64u8,
        0x5fu8,
        0x73u8,
        0x65u8,
        0x63u8,
        0x72u8,
        0x65u8,
        0x74u8,
    ]
}

fn mk_lbl_shared_secret() -> (r: Vec<u8>)
    ensures
        r@ == lbl_shared_secret(),
{
    let a: [u8; 13] = [
        0x73,
        0x68,
        0x61,
        0x72,
        0x65,
        0x64,
        0x5f,
        0x73,
        0x65,
        0x63,
        0x72,
        0x65,
        0x74,
    ];
    let v = slice_to_vec(a.as_slice());
    proof {
        assert(v@ =~= lbl_shared_secret());
    }
    v
}

// ------------------------------------------------------------ derivation

/// The derivation PRK: `LabeledExtract("", "dkp_prk", ikm)` under the
/// KEM's own hash and suite identifier.
pub open spec fn dkp_prk_spec(kem: KemAlg, ikm: Seq<u8>) -> Seq<u8> {
    spec_labeled_extract(
        kem.kem_kdf_spec(),
        Seq::<u8>::empty(),
        kem_suite_id_spec(kem),
        lbl_dkp_prk(),
        ikm,
    )
}

/// Candidate number `ctr` of the rejection-sampled derivation, first byte
/// masked with the group's bitmask.
pub open spec fn masked_candidate(kem: KemAlg, prk: Seq<u8>, ctr: int) -> Seq<u8> {
    let c = spec_labeled_expand(
        kem.kem_kdf_spec(),
        prk,
        kem_suite_id_spec(kem),
        lbl_candidate(),
        seq![ctr as u8],
        kem.nsk_spec(),
    );
    c.update(0, c[0] & kem.derive_bitmask_spec())
}

/// The first valid candidate at counter `ctr` or above, if any comes
/// before the search aborts at 256.
pub open spec fn derive_search(kem: KemAlg, prk: Seq<u8>, ctr: int) -> Option<Seq<u8>>
    decreases 256 - ctr,
{
    if ctr < 0 || ctr >= 256 {
        None
    } else if kem_scalar_valid(kem, masked_candidate(kem, prk, ctr)) {
        Some(masked_candidate(kem, prk, ctr))
    } else {
        derive_search(kem, prk, ctr + 1)
    }
}

/// The secret key `DeriveKeyPair(ikm)` produces, if derivation succeeds:
/// direct expansion for X25519, rejection sampling for the Weierstrass
/// groups.
pub open spec fn derive_sk_spec(kem: KemAlg, ikm: Seq<u8>) -> Option<Seq<u8>> {
    match kem {
        KemAlg::X25519HkdfSha256 => Some(
            spec_labeled_expand(
                kem.kem_kdf_spec(),
                dkp_prk_spec(kem, ikm),
                kem_suite_id_spec(kem),
                lbl_sk(),
                Seq::<u8>::empty(),
                32,
            ),
        ),
        _ => derive_search(kem, dkp_prk_spec(kem, ikm), 0),
    }
}

/// `DeriveKeyPair(ikm)`: deterministically derives a keypair from input
/// keying material. Fails only when 256 rejection-sampling rounds all
/// produce an invalid scalar.
pub fn derive_keypair(kem: KemAlg, ikm: &[u8]) -> (r: Result<(PrivateKey, PublicKey), HpkeError>)
    ensures
        derive_sk_spec(kem, ikm@) matches Some(sk) ==> (r matches Ok(kp) && kp.0.kem == kem
            && kp.0.bytes@ == sk && kp.0.wf() && kp.1.kem == kem && kp.1.bytes@ == kem_pk_of(
            kem,
            sk,
        ) && kp.1.wf()),
        derive_sk_spec(kem, ikm@) is None ==> (r matches Err(e) && e == HpkeError::DecodeError),
{
    let kdf = kem.kem_kdf();
    let suite = kem_suite_id(&kem);
    let lbl = mk_lbl_dkp_prk();
    let empty_salt: Vec<u8> = Vec::new();
    let prk = labeled_extract(kdf, empty_salt.as_slice(), suite.as_slice(), lbl.as_slice(), ikm);
    match kem {
        KemAlg::X25519HkdfSha256 => {
            let lbl_s = mk_lbl_sk();
            let empty_info: Vec<u8> = Vec::new();
            let sk = match labeled_expand(
                kdf,
                prk.as_slice(),
                suite.as_slice(),
                lbl_s.as_slice(),
                empty_info.as_slice(),
                32,
            ) {
                Ok(v) => v,
                Err(_) => unreached(),
            };
            let pk = kem_pk(kem, sk.as_slice());
            Ok((PrivateKey { kem, bytes: sk }, PublicKey { kem, bytes: pk }))
        },
        _ => {
            let mask = kem.derive_bitmask();
            let nsk = kem.nsk();
            let lbl_c = mk_lbl_candidate();
            let mut ctr: usize = 0;
            while ctr < 256
                invariant
                    ctr <= 256,
                    kem !== KemAlg::X25519HkdfSha256,
                    prk@.len() == kem.kem_kdf_spec().nh_spec(),
                    prk@ == dkp_prk_spec(kem, ikm@),
                    kdf == kem.kem_kdf_spec(),
                    suite@ == kem_suite_id_spec(kem),
                    lbl_c@ == lbl_candidate(),
                    mask == kem.derive_bitmask_spec(),
                    nsk == kem.nsk_spec(),
                    derive_search(kem, prk@, 0) == derive_search(kem, prk@, ctr as int),
                decreases 256 - ctr,
            {
                let mut ctr_bytes: Vec<u8> = Vec::new();
                ctr_bytes.push(ctr as u8);
                proof {
                    assert(ctr_bytes@ =~= seq![(ctr as int) as u8]);
                }
                let mut cand = match labeled_expand(
                    kdf,
                    prk.as_slice(),
                    suite.as_slice(),
                    lbl_c.as_slice(),
                    ctr_bytes.as_slice(),
                    nsk,
                ) {
                    Ok(v) => v,
                    Err(_) => unreached(),
                };
                let b0 = cand.remove(0);
                cand.insert(0, b0 & mask);
                proof {
                    assert(cand@ =~= masked_candidate(kem, prk@, ctr as int));
                }
                if kem_scalar_check(kem, cand.as_slice()) {
                    proof {
                        assert(prk@ == dkp_prk_spec(kem, ikm@));
                        assert(derive_search(kem, prk@, ctr as int) == Some(cand@));
                        assert(derive_sk_spec(kem, ikm@) == Some(cand@));
                    }
                    let pk = kem_pk(kem, cand.as_slice());
                    return Ok((PrivateKey { kem, bytes: cand }, PublicKey { kem, bytes: pk }));
                }
                proof {
                    assert(derive_search(kem, prk@, ctr as int) == derive_search(
                        kem,
                        prk@,
                        ctr + 1,
                    ));
                }
                ctr += 1;
            }
            proof {
                assert(derive_search(kem, prk@, 256) is None);
                assert(derive_sk_spec(kem, ikm@) is None);
            }
            Err(HpkeError::DecodeError)
        },
    }
}

/// `GenerateKeyPair()`: derives a keypair from fresh random keying
/// material of length `Nsk`. For X25519 every draw derives, so success is
/// certain; for the Weierstrass groups the rejection sampling can in
/// principle exhaust its rounds for an unlucky draw.
pub fn generate_keypair(kem: KemAlg) -> (r: Result<(PrivateKey, PublicKey), HpkeError>)
    ensures
        r matches Ok(kp) ==> kp.0.kem == kem && kp.0.wf() && kp.1.kem == kem && kp.1.wf()
            && kp.1.bytes@ == kem_pk_of(kem, kp.0.bytes@),
        r matches Err(e) ==> e == HpkeError::DecodeError,
        kem == KemAlg::X25519HkdfSha256 ==> r is Ok,
{
    let ikm = random_bytes(kem.nsk());
    derive_keypair(kem, ikm.as_slice())
}

// ------------------------------------------------------------ encap / decap

/// `ExtractAndExpand(dh, kem_context)`: the two labeled KDF calls that turn
/// raw Diffie-Hellman output into the KEM shared secret.
pub open spec fn extract_and_expand_spec(kem: KemAlg, dh: Seq<u8>, kem_ctx: Seq<u8>) -> Seq<u8> {
    let kdf = kem.kem_kdf_spec();
    let eae = spec_labeled_extract(
        kdf,
        Seq::<u8>::empty(),
        kem_suite_id_spec(kem),
        lbl_eae_prk(),
        dh,
    );
    spec_labeled_expand(
        kdf,
        eae,
        kem_suite_id_spec(kem),
        lbl_shared_secret(),
        kem_ctx,
        kem.nsecret_spec(),
    )
}

/// The shared secret `Encap` derives for ephemeral scalar `sk_e`, recipient
/// key `pk_r` and, in the authenticated modes, the sender keypair
/// `(sk_s, pk_s)`.
pub open spec fn encap_shared_spec(
    kem: KemAlg,
    sk_e: Seq<u8>,
    pk_r: Seq<u8>,
    sender: Option<(Seq<u8>, Seq<u8>)>,
) -> Seq<u8> {
    let enc = kem_pk_of(kem, sk_e);
    let dh = kem_dh_spec(kem, sk_e, pk_r) + (match sender {
        Some(s) => kem_dh_spec(kem, s.0, pk_r),
        None => Seq::<u8>::empty(),
    });
    let kem_ctx = enc + pk_r + (match sender {
        Some(s) => s.1,
        None => Seq::<u8>::empty(),
    });
    extract_and_expand_spec(kem, dh, kem_ctx)
}

/// The shared secret `Decap` derives for recipient scalar `sk_r`,
/// encapsulated key `enc` and, in the authenticated modes, the sender
/// public key.
pub open spec fn decap_shared_spec(
    kem: KemAlg,
    sk_r: Seq<u8>,
    enc: Seq<u8>,
    pk_s: Option<Seq<u8>>,
) -> Seq<u8> {
    let pk_r = kem_pk_of(kem, sk_r);
    let dh = kem_dh_spec(kem, sk_r, enc) + (match pk_s {
        Some(p) => kem_dh_spec(kem, sk_r, p),
        None => Seq::<u8>::empty(),
    });
    let kem_ctx = enc + pk_r + (match pk_s {
        Some(p) => p,
        None => Seq::<u8>::empty(),
    });
    extract_and_expand_spec(kem, dh, kem_ctx)
}

/// The sender keypair as a pair of byte views, for stating contracts.
pub open spec fn sender_views(sender: Option<(PrivateKey, PublicKey)>) -> Option<(Seq<u8>, Seq<u8>)> {
    match sender {
        Some(s) => Some((s.0.bytes@, s.1.bytes@)),
        None => None,
    }
}

fn extract_and_expand(kem: KemAlg, dh: &[u8], kem_ctx: &[u8]) -> (r: Vec<u8>)
    ensures
        r@ == extract_and_expand_spec(kem, dh@, kem_ctx@),
        r@.len() == kem.nsecret_spec(),
{
    let kdf = kem.kem_kdf();
    let suite = kem_suite_id(&kem);
    let lbl_e = mk_lbl_eae_prk();
    let empty_salt: Vec<u8> = Vec::new();
    let eae = labeled_extract(kdf, empty_salt.as_slice(), suite.as_slice(), lbl_e.as_slice(), dh);
    let lbl_s = mk_lbl_shared_secret();
    match labeled_expand(
        kdf,
        eae.as_slice(),
        suite.as_slice(),
        lbl_s.as_slice(),
        kem_ctx,
        kem.nsecret(),
    ) {
        Ok(v) => v,
        Err(_) => unreached(),
    }
}

/// `Encap` with an externally supplied ephemeral key. Deterministic: the
/// result is a pure function of the arguments. Meant for reproducing
/// published test vectors; production callers use `encap`, which draws a
/// fresh ephemeral key.
pub fn encap_with_eph(
    pk_recip: &PublicKey,
    sender_id_keypair: Option<&(PrivateKey, PublicKey)>,
    sk_eph: &PrivateKey,
) -> (r: Result<(SharedSecret, EncappedKey), HpkeError>)
    requires
        pk_recip.wf(),
        sk_eph.wf(),
        sk_eph.kem == pk_recip.kem,
        sender_id_keypair matches Some(s) ==> s.0.wf() && s.1.wf() && s.0.kem == pk_recip.kem
            && s.1.kem == pk_recip.kem,
    ensures
        r matches Ok(out) && out.0.bytes@ == encap_shared_spec(
            pk_recip.kem,
            sk_eph.bytes@,
            pk_recip.bytes@,
            match sender_id_keypair {
                Some(s) => Some((s.0.bytes@, s.1.bytes@)),
                None => None,
            },
        ) && out.0.bytes@.len() == pk_recip.kem.nsecret_spec() && out.1.kem == pk_recip.kem
            && out.1.bytes@ == kem_pk_of(pk_recip.kem, sk_eph.bytes@) && out.1.wf(),
{
    let kem = pk_recip.kem;
    let enc_bytes = kem_pk(kem, sk_eph.bytes.as_slice());
    let mut dh = kem_dh(kem, sk_eph.bytes.as_slice(), pk_recip.bytes.as_slice());
    let mut kem_ctx = slice_to_vec(enc_bytes.as_slice());
    append_slice(&mut kem_ctx, pk_recip.bytes.as_slice());
    match sender_id_keypair {
        Some(s) => {
            let dh2 = kem_dh(kem, s.0.bytes.as_slice(), pk_recip.bytes.as_slice());
            append_slice(&mut dh, dh2.as_slice());
            append_slice(&mut kem_ctx, s.1.bytes.as_slice());
        },
        None => {
            proof {
                assert(dh@ =~= dh@ + Seq::<u8>::empty());
                assert(kem_ctx@ =~= enc_bytes@ + pk_recip.bytes@ + Seq::<u8>::empty());
            }
        },
    }
    let ss = extract_and_expand(kem, dh.as_slice(), kem_ctx.as_slice());
    Ok((SharedSecret { bytes: ss }, EncappedKey { kem, bytes: enc_bytes }))
}

/// `Encap(pk_recipient, [sender keypair])`: draws a fresh ephemeral
/// keypair and derives the shared secret and the encapsulated key. Every
/// success corresponds to some valid ephemeral scalar.
pub fn encap(pk_recip: &PublicKey, sender_id_keypair: Option<&(PrivateKey, PublicKey)>) -> (r:
    Result<(SharedSecret, EncappedKey), HpkeError>)
    requires
        pk_recip.wf(),
        sender_id_keypair matches Some(s) ==> s.0.wf() && s.1.wf() && s.0.kem == pk_recip.kem
            && s.1.kem == pk_recip.kem,
    ensures
        r matches Ok(out) ==> exists|sk_e: Seq<u8>|
            kem_scalar_valid(pk_recip.kem, sk_e) && out.0.bytes@ == encap_shared_spec(
                pk_recip.kem,
                sk_e,
                pk_recip.bytes@,
                match sender_id_keypair {
                    Some(s) => Some((s.0.bytes@, s.1.bytes@)),
                    None => None,
                },
            ) && out.0.bytes@.len() == pk_recip.kem.nsecret_spec() && out.1.kem == pk_recip.kem
                && out.1.bytes@ == kem_pk_of(pk_recip.kem, sk_e) && out.1.wf(),
        r matches Err(e) ==> e == HpkeError::EncapError,
        pk_recip.kem == KemAlg::X25519HkdfSha256 ==> r is Ok,
{
    let kem = pk_recip.kem;
    let eph = match generate_keypair(kem) {
        Ok(kp) => kp,
        Err(_) => {
            return Err(HpkeError::EncapError);
        },
    };
    match encap_with_eph(pk_recip, sender_id_keypair, &eph.0) {
        Ok(out) => {
            proof {
                let sk_e = eph.0.bytes@;
                assert(kem_scalar_valid(kem, sk_e));
            }
            Ok(out)
        },
        Err(_) => Err(HpkeError::EncapError),
    }
}

/// `Decap(sk_recipient, enc, [pk_sender])`: recomputes the shared secret
/// on the receiver side; the mirror image of `encap`.
pub fn decap(
    sk_recip: &PrivateKey,
    encapped_key: &EncappedKey,
    pk_sender: Option<&PublicKey>,
) -> (r: Result<SharedSecret, HpkeError>)
    requires
        sk_recip.wf(),
        encapped_key.wf(),
        encapped_key.kem == sk_recip.kem,
        pk_sender matches Some(p) ==> p.wf() && p.kem == sk_recip.kem,
    ensures
        r matches Ok(ss) && ss.bytes@ == decap_shared_spec(
            sk_recip.kem,
            sk_recip.bytes@,
            encapped_key.bytes@,
            match pk_sender {
                Some(p) => Some(p.bytes@),
                None => None,
            },
        ) && ss.bytes@.len() == sk_recip.kem.nsecret_spec(),
{
    let kem = sk_recip.kem;
    let pk_r = kem_pk(kem, sk_recip.bytes.as_slice());
    let mut dh = kem_dh(kem, sk_recip.bytes.as_slice(), encapped_key.bytes.as_slice());
    let mut kem_ctx = slice_to_vec(encapped_key.bytes.as_slice());
    append_slice(&mut kem_ctx, pk_r.as_slice());
    match pk_sender {
        Some(p) => {
            let dh2 = kem_dh(kem, sk_recip.bytes.as_slice(), p.bytes.as_slice());
            append_slice(&mut dh, dh2.as_slice());
            append_slice(&mut kem_ctx, p.bytes.as_slice());
        },
        None => {
            proof {
                assert(dh@ =~= dh@ + Seq::<u8>::empty());
                assert(kem_ctx@ =~= encapped_key.bytes@ + kem_pk_of(kem, sk_recip.bytes@)
                    + Seq::<u8>::empty());
            }
        },
    }
    let ss = extract_and_expand(kem, dh.as_slice(), kem_ctx.as_slice());
    Ok(SharedSecret { bytes: ss })
}

} // verus!
