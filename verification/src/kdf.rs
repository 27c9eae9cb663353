//! The labeled HKDF construction: `LabeledExtract` and `LabeledExpand`,
//! bound to a domain-separation version string and a suite identifier.
//!
//! The underlying extract and expand primitives come from the `hkdf` crate;
//! their results are named, not restated, and everything layered on top is
//! verified against those names.
use vstd::prelude::*;

use hkdf::Hkdf;
use sha2::{Sha256, Sha384, Sha512};

use crate::HpkeError;
use crate::algs::{u16_be, KdfAlg};
use crate::util::append_slice;

verus! {

/// What `HKDF-Extract` over SHA-256 returns for a salt and keying material.
pub uninterp spec fn hkdf_extract_sha256(salt: Seq<u8>, ikm: Seq<u8>) -> Seq<u8>;

/// What `HKDF-Extract` over SHA-384 returns for a salt and keying material.
pub uninterp spec fn hkdf_extract_sha384(salt: Seq<u8>, ikm: Seq<u8>) -> Seq<u8>;

/// What `HKDF-Extract` over SHA-512 returns for a salt and keying material.
pub uninterp spec fn hkdf_extract_sha512(salt: Seq<u8>, ikm: Seq<u8>) -> Seq<u8>;

/// What `HKDF-Expand` over SHA-256 returns for a pseudorandom key, an info
/// string and a requested length.
pub uninterp spec fn hkdf_expand_sha256(prk: Seq<u8>, info: Seq<u8>, out_len: nat) -> Seq<u8>;

/// What `HKDF-Expand` over SHA-384 returns.
pub uninterp spec fn hkdf_expand_sha384(prk: Seq<u8>, info: Seq<u8>, out_len: nat) -> Seq<u8>;

/// What `HKDF-Expand` over SHA-512 returns.
pub uninterp spec fn hkdf_expand_sha512(prk: Seq<u8>, info: Seq<u8>, out_len: nat) -> Seq<u8>;

/// Relies on `hkdf::Hkdf::<Sha256>::extract`: HKDF-Extract, a pure function
/// of salt and keying material, returning one SHA-256 output block.
#[verifier::external_body]
fn extract_sha256(salt: &[u8], ikm: &[u8]) -> (r: Vec<u8>)
    ensures
        r@ == hkdf_extract_sha256(salt@, ikm@),
        r@.len() == 32,
{
    Hkdf::<Sha256>::extract(Some(salt), ikm).0.to_vec()
}

/// Relies on `hkdf::Hkdf::<Sha384>::extract`: as above over SHA-384.
#[verifier::external_body]
fn extract_sha384(salt: &[u8], ikm: &[u8]) -> (r: Vec<u8>)
    ensures
        r@ == hkdf_extract_sha384(salt@, ikm@),
        r@.len() == 48,
{
    Hkdf::<Sha384>::extract(Some(salt), ikm).0.to_vec()
}

/// Relies on `hkdf::Hkdf::<Sha512>::extract`: as above over SHA-512.
#[verifier::external_body]
fn extract_sha512(salt: &[u8], ikm: &[u8]) -> (r: Vec<u8>)
    ensures
        r@ == hkdf_extract_sha512(salt@, ikm@),
        r@.len() == 64,
{
    Hkdf::<Sha512>::extract(Some(salt), ikm).0.to_vec()
}

/// Relies on `hkdf::Hkdf::<Sha256>::from_prk` and `expand`: HKDF-Expand, a
/// pure function of the key, the info string and the length; it fills
/// exactly `out_len` bytes and only refuses lengths over 255 hash blocks,
/// which the precondition rules out.
#[verifier::external_body]
fn expand_sha256(prk: &[u8], info: &[u8], out_len: usize) -> (r: Vec<u8>)
    requires
        prk@.len() == 32,
        out_len <= 255 * 32,
    ensures
        r@ == hkdf_expand_sha256(prk@, info@, out_len as nat),
        r@.len() == out_len,
{
    let hk = Hkdf::<Sha256>::from_prk(prk).unwrap();
    let mut okm: Vec<u8> = Vec::new();
    okm.resize(out_len, 0u8);
    hk.expand(info, &mut okm).unwrap();
    okm
}

/// Relies on `hkdf::Hkdf::<Sha384>::from_prk` and `expand`: as above.
#[verifier::external_body]
fn expand_sha384(prk: &[u8], info: &[u8], out_len: usize) -> (r: Vec<u8>)
    requires
        prk@.len() == 48,
        out_len <= 255 * 48,
    ensures
        r@ == hkdf_expand_sha384(prk@, info@, out_len as nat),
        r@.len() == out_len,
{
    let hk = Hkdf::<Sha384>::from_prk(prk).unwrap();
    let mut okm: Vec<u8> = Vec::new();
    okm.resize(out_len, 0u8);
    hk.expand(info, &mut okm).unwrap();
    okm
}

/// Relies on `hkdf::Hkdf::<Sha512>::from_prk` and `expand`: as above.
#[verifier::external_body]
fn expand_sha512(prk: &[u8], info: &[u8], out_len: usize) -> (r: Vec<u8>)
    requires
        prk@.len() == 64,
        out_len <= 255 * 64,
    ensures
        r@ == hkdf_expand_sha512(prk@, info@, out_len as nat),
        r@.len() == out_len,
{
    let hk = Hkdf::<Sha512>::from_prk(prk).unwrap();
    let mut okm: Vec<u8> = Vec::new();
    okm.resize(out_len, 0u8);
    hk.expand(info, &mut okm).unwrap();
    okm
}

/// HKDF-Extract under the chosen hash.
pub open spec fn kdf_extract(kdf: KdfAlg, salt: Seq<u8>, ikm: Seq<u8>) -> Seq<u8> {
    match kdf {
        KdfAlg::HkdfSha256 => hkdf_extract_sha256(salt, ikm),
        KdfAlg::HkdfSha384 => hkdf_extract_sha384(salt, ikm),
        KdfAlg::HkdfSha512 => hkdf_extract_sha512(salt, ikm),
    }
}

/// HKDF-Expand under the chosen hash.
pub open spec fn kdf_expand(kdf: KdfAlg, prk: Seq<u8>, info: Seq<u8>, out_len: nat) -> Seq<u8> {
    match kdf {
        KdfAlg::HkdfSha256 => hkdf_expand_sha256(prk, info, out_len),
        KdfAlg::HkdfSha384 => hkdf_expand_sha384(prk, info, out_len),
        KdfAlg::HkdfSha512 => hkdf_expand_sha512(prk, info, out_len),
    }
}

/// The 7-byte version string `"HPKE-v1"` every label is prefixed with.
pub open spec fn hpke_v1() -> Seq<u8> {
    seq![0x48u8, 0x50u8, 0x4bu8, 0x45u8, 0x2du8, 0x76u8, 0x31u8]
}

/// The keying material handed to extract by `LabeledExtract`:
/// `"HPKE-v1" || suite_id || label || ikm`.
pub open spec fn labeled_ikm(suite_id: Seq<u8>, label: Seq<u8>, ikm: Seq<u8>) -> Seq<u8> {
    hpke_v1() + suite_id + label + ikm
}

/// The info string handed to expand by `LabeledExpand`:
/// `I2OSP(L, 2) || "HPKE-v1" || suite_id || label || info`.
pub open spec fn labeled_info(
    out_len: nat,
    suite_id: Seq<u8>,
    label: Seq<u8>,
    info: Seq<u8>,
) -> Seq<u8> {
    u16_be(out_len as u16) + hpke_v1() + suite_id + label + info
}

/// What `labeled_extract` returns.
pub open spec fn spec_labeled_extract(
    kdf: KdfAlg,
    salt: Seq<u8>,
    suite_id: Seq<u8>,
    label: Seq<u8>,
    ikm: Seq<u8>,
) -> Seq<u8> {
    kdf_extract(kdf, salt, labeled_ikm(suite_id, label, ikm))
}

/// What `labeled_expand` returns when the length is admissible.
pub open spec fn spec_labeled_expand(
    kdf: KdfAlg,
    prk: Seq<u8>,
    suite_id: Seq<u8>,
    label: Seq<u8>,
    info: Seq<u8>,
    out_len: nat,
) -> Seq<u8> {
    kdf_expand(kdf, prk, labeled_info(out_len, suite_id, label, info), out_len)
}

fn push_hpke_v1(v: &mut Vec<u8>)
    ensures
        final(v)@ == old(v)@ + hpke_v1(),
{
    v.push(0x48);
    v.push(0x50);
    v.push(0x4b);
    v.push(0x45);
    v.push(0x2d);
    v.push(0x76);
    v.push(0x31);
    proof {
        assert(v@ =~= old(v)@ + hpke_v1());
    }
}

/// `LabeledExtract(salt, label, ikm)` bound to `suite_id`: prefixes the
/// version string and the suite identifier, then runs HKDF-Extract.
pub fn labeled_extract(
    kdf: KdfAlg,
    salt: &[u8],
    suite_id: &[u8],
    label: &[u8],
    ikm: &[u8],
) -> (r: Vec<u8>)
    ensures
        r@ == spec_labeled_extract(kdf, salt@, suite_id@, label@, ikm@),
        r@.len() == kdf.nh_spec(),
{
    let mut l_ikm: Vec<u8> = Vec::new();
    push_hpke_v1(&mut l_ikm);
    append_slice(&mut l_ikm, suite_id);
    append_slice(&mut l_ikm, label);
    append_slice(&mut l_ikm, ikm);
    proof {
        assert(l_ikm@ =~= labeled_ikm(suite_id@, label@, ikm@));
    }
    match kdf {
        KdfAlg::HkdfSha256 => extract_sha256(salt, l_ikm.as_slice()),
        KdfAlg::HkdfSha384 => extract_sha384(salt, l_ikm.as_slice()),
        KdfAlg::HkdfSha512 => extract_sha512(salt, l_ikm.as_slice()),
    }
}

/// `LabeledExpand(prk, label, info, L)` bound to `suite_id`. Fails with an
/// output-length error, and only with it, when `L` exceeds 255 hash blocks;
/// the output is never silently truncated.
pub fn labeled_expand(
    kdf: KdfAlg,
    prk: &[u8],
    suite_id: &[u8],
    label: &[u8],
    info: &[u8],
    out_len: usize,
) -> (r: Result<Vec<u8>, HpkeError>)
    requires
        prk@.len() == kdf.nh_spec(),
    ensures
        out_len <= 255 * kdf.nh_spec() ==> (r matches Ok(v) && v@ == spec_labeled_expand(
            kdf,
            prk@,
            suite_id@,
            label@,
            info@,
            out_len as nat,
        ) && v@.len() == out_len),
        out_len > 255 * kdf.nh_spec() ==> (r matches Err(e) && e == HpkeError::ExportLengthError),
{
    let nh = kdf.nh();
    if out_len > 255 * nh {
        return Err(HpkeError::ExportLengthError);
    }
    let mut l_info: Vec<u8> = Vec::new();
    l_info.push((out_len / 256) as u8);
    l_info.push((out_len % 256) as u8);
    push_hpke_v1(&mut l_info);
    append_slice(&mut l_info, suite_id);
    append_slice(&mut l_info, label);
    append_slice(&mut l_info, info);
    proof {
        assert(out_len < 65536);
        assert(((out_len as u16) / 256) as u8 == (out_len / 256) as u8);
        assert(((out_len as u16) % 256) as u8 == (out_len % 256) as u8);
        assert(l_info@ =~= labeled_info(out_len as nat, suite_id@, label@, info@));
    }
    let okm = match kdf {
        KdfAlg::HkdfSha256 => expand_sha256(prk, l_info.as_slice(), out_len),
        KdfAlg::HkdfSha384 => expand_sha384(prk, l_info.as_slice(), out_len),
        KdfAlg::HkdfSha512 => expand_sha512(prk, l_info.as_slice(), out_len),
    };
    Ok(okm)
}

} // verus!
