//! Trusted bindings to the Diffie-Hellman groups. Each group contributes a
//! validity predicate for encoded keys, the map from a secret scalar to its
//! encoded public point, and the shared-secret computation; all of them are
//! pure functions of the encoded bytes, so their results are named and the
//! engine above is verified against those names.
use vstd::prelude::*;

use k256::elliptic_curve::sec1::ToEncodedPoint;

verus! {

// ---------------------------------------------------------------- X25519

/// What `x25519_dalek::x25519` returns for a scalar and a point, each
/// encoded as 32 bytes (clamping included).
pub uninterp spec fn x25519_of(sk: Seq<u8>, pk: Seq<u8>) -> Seq<u8>;

/// The canonical X25519 base point: 9 followed by 31 zero bytes.
pub open spec fn x25519_base() -> Seq<u8> {
    seq![9u8] + Seq::<u8>::new(31, |i: int| 0u8)
}

/// Relies on `x25519_dalek::x25519`: scalar multiplication on Curve25519,
/// a pure function of the two 32-byte arguments.
#[verifier::external_body]
pub(crate) fn x25519_dh(sk: &[u8], pk: &[u8]) -> (r: Vec<u8>)
    requires
        sk@.len() == 32,
        pk@.len() == 32,
    ensures
        r@ == x25519_of(sk@, pk@),
        r@.len() == 32,
{
    let mut k = [0u8; 32];
    k.copy_from_slice(sk);
    let mut u = [0u8; 32];
    u.copy_from_slice(pk);
    x25519_dalek::x25519(k, u).to_vec()
}

/// The encoded X25519 base point, for deriving a public key as
/// `x25519(sk, base)`.
pub(crate) fn x25519_basepoint() -> (r: Vec<u8>)
    ensures
        r@ == x25519_base(),
        r@.len() == 32,
{
    let mut v: Vec<u8> = Vec::new();
    v.push(9);
    let mut i: usize = 0;
    while i < 31
        invariant
            i <= 31,
            v@.len() == i + 1,
            v@[0] == 9u8,
            forall|j: int| 1 <= j < v@.len() ==> v@[j] == 0u8,
        decreases 31 - i,
    {
        v.push(0);
        i += 1;
    }
    proof {
        assert(v@ =~= x25519_base());
    }
    v
}

// ---------------------------------------------------------------- P-256

/// Whether the bytes decode to a valid point of the P-256 group under
/// `p256::PublicKey::from_sec1_bytes` (on curve, not the identity).
pub uninterp spec fn p256_point_valid(pk: Seq<u8>) -> bool;

/// Whether the bytes decode to a valid P-256 secret scalar under
/// `p256::SecretKey::from_slice`: an in-range, nonzero scalar, encoded
/// full-length or (what the engine never passes) shorter and implicitly
/// zero-padded.
pub uninterp spec fn p256_scalar_valid(sk: Seq<u8>) -> bool;

/// What ECDH over P-256 returns: the affine x-coordinate of the product.
pub uninterp spec fn p256_dh_of(sk: Seq<u8>, pk: Seq<u8>) -> Seq<u8>;

/// The uncompressed encoding of the P-256 public point of a scalar.
pub uninterp spec fn p256_pk_of(sk: Seq<u8>) -> Seq<u8>;

/// Relies on `p256::PublicKey::from_sec1_bytes`: accepts exactly the valid
/// point encodings.
#[verifier::external_body]
pub(crate) fn p256_point_check(pk: &[u8]) -> (r: bool)
    ensures
        r == p256_point_valid(pk@),
{
    p256::PublicKey::from_sec1_bytes(pk).is_ok()
}

/// Relies on `p256::SecretKey::from_slice`: accepts exactly the byte
/// strings it decodes to an in-range, nonzero scalar.
#[verifier::external_body]
pub(crate) fn p256_scalar_check(sk: &[u8]) -> (r: bool)
    ensures
        r == p256_scalar_valid(sk@),
{
    p256::SecretKey::from_slice(sk).is_ok()
}

/// Relies on `p256::ecdh::diffie_hellman`: the shared x-coordinate, a pure
/// function of scalar and point; the arguments were validated before.
#[verifier::external_body]
pub(crate) fn p256_dh(sk: &[u8], pk: &[u8]) -> (r: Vec<u8>)
    requires
        p256_scalar_valid(sk@),
        p256_point_valid(pk@),
    ensures
        r@ == p256_dh_of(sk@, pk@),
        r@.len() == 32,
{
    let sk = p256::SecretKey::from_slice(sk).unwrap();
    let pk = p256::PublicKey::from_sec1_bytes(pk).unwrap();
    let shared = p256::ecdh::diffie_hellman(sk.to_nonzero_scalar(), pk.as_affine());
    shared.raw_secret_bytes().to_vec()
}

/// Relies on `p256::SecretKey::public_key` and the SEC1 uncompressed point
/// encoding: the public key of a valid scalar, 65 bytes; such an encoding
/// is accepted back by `from_sec1_bytes`.
#[verifier::external_body]
pub(crate) fn p256_pk(sk: &[u8]) -> (r: Vec<u8>)
    requires
        p256_scalar_valid(sk@),
    ensures
        r@ == p256_pk_of(sk@),
        r@.len() == 65,
        p256_point_valid(r@),
{
    let sk = p256::SecretKey::from_slice(sk).unwrap();
    sk.public_key().to_encoded_point(false).as_bytes().to_vec()
}

// ---------------------------------------------------------------- P-384

/// As for P-256, under `p384::PublicKey::from_sec1_bytes`.
pub uninterp spec fn p384_point_valid(pk: Seq<u8>) -> bool;

/// As for P-256, under `p384::SecretKey::from_slice`.
pub uninterp spec fn p384_scalar_valid(sk: Seq<u8>) -> bool;

/// What ECDH over P-384 returns.
pub uninterp spec fn p384_dh_of(sk: Seq<u8>, pk: Seq<u8>) -> Seq<u8>;

/// The uncompressed encoding of the P-384 public point of a scalar.
pub uninterp spec fn p384_pk_of(sk: Seq<u8>) -> Seq<u8>;

/// Relies on `p384::PublicKey::from_sec1_bytes`.
#[verifier::external_body]
pub(crate) fn p384_point_check(pk: &[u8]) -> (r: bool)
    ensures
        r == p384_point_valid(pk@),
{
    p384::PublicKey::from_sec1_bytes(pk).is_ok()
}

/// Relies on `p384::SecretKey::from_slice`.
#[verifier::external_body]
pub(crate) fn p384_scalar_check(sk: &[u8]) -> (r: bool)
    ensures
        r == p384_scalar_valid(sk@),
{
    p384::SecretKey::from_slice(sk).is_ok()
}

/// Relies on `p384::ecdh::diffie_hellman`.
#[verifier::external_body]
pub(crate) fn p384_dh(sk: &[u8], pk: &[u8]) -> (r: Vec<u8>)
    requires
        p384_scalar_valid(sk@),
        p384_point_valid(pk@),
    ensures
        r@ == p384_dh_of(sk@, pk@),
        r@.len() == 48,
{
    let sk = p384::SecretKey::from_slice(sk).unwrap();
    let pk = p384::PublicKey::from_sec1_bytes(pk).unwrap();
    let shared = p384::ecdh::diffie_hellman(sk.to_nonzero_scalar(), pk.as_affine());
    shared.raw_secret_bytes().to_vec()
}

/// Relies on `p384::SecretKey::public_key` and the SEC1 uncompressed point
/// encoding, 97 bytes.
#[verifier::external_body]
pub(crate) fn p384_pk(sk: &[u8]) -> (r: Vec<u8>)
    requires
        p384_scalar_valid(sk@),
    ensures
        r@ == p384_pk_of(sk@),
        r@.len() == 97,
        p384_point_valid(r@),
{
    let sk = p384::SecretKey::from_slice(sk).unwrap();
    sk.public_key().to_encoded_point(false).as_bytes().to_vec()
}

// ---------------------------------------------------------------- P-521

/// As for P-256, under `p521::PublicKey::from_sec1_bytes`.
pub uninterp spec fn p521_point_valid(pk: Seq<u8>) -> bool;

/// As for P-256, under `p521::SecretKey::from_slice`.
pub uninterp spec fn p521_scalar_valid(sk: Seq<u8>) -> bool;

/// What ECDH over P-521 returns.
pub uninterp spec fn p521_dh_of(sk: Seq<u8>, pk: Seq<u8>) -> Seq<u8>;

/// The uncompressed encoding of the P-521 public point of a scalar.
pub uninterp spec fn p521_pk_of(sk: Seq<u8>) -> Seq<u8>;

/// Relies on `p521::PublicKey::from_sec1_bytes`.
#[verifier::external_body]
pub(crate) fn p521_point_check(pk: &[u8]) -> (r: bool)
    ensures
        r == p521_point_valid(pk@),
{
    p521::PublicKey::from_sec1_bytes(pk).is_ok()
}

/// Relies on `p521::SecretKey::from_slice`.
#[verifier::external_body]
pub(crate) fn p521_scalar_check(sk: &[u8]) -> (r: bool)
    ensures
        r == p521_scalar_valid(sk@),
{
    p521::SecretKey::from_slice(sk).is_ok()
}

/// Relies on `p521::ecdh::diffie_hellman`.
#[verifier::external_body]
pub(crate) fn p521_dh(sk: &[u8], pk: &[u8]) -> (r: Vec<u8>)
    requires
        p521_scalar_valid(sk@),
        p521_point_valid(pk@),
    ensures
        r@ == p521_dh_of(sk@, pk@),
        r@.len() == 66,
{
    let sk = p521::SecretKey::from_slice(sk).unwrap();
    let pk = p521::PublicKey::from_sec1_bytes(pk).unwrap();
    let shared = p521::ecdh::diffie_hellman(sk.to_nonzero_scalar(), pk.as_affine());
    shared.raw_secret_bytes().to_vec()
}

/// Relies on `p521::SecretKey::public_key` and the SEC1 uncompressed point
/// encoding, 133 bytes.
#[verifier::external_body]
pub(crate) fn p521_pk(sk: &[u8]) -> (r: Vec<u8>)
    requires
        p521_scalar_valid(sk@),
    ensures
        r@ == p521_pk_of(sk@),
        r@.len() == 133,
        p521_point_valid(r@),
{
    let sk = p521::SecretKey::from_slice(sk).unwrap();
    sk.public_key().to_encoded_point(false).as_bytes().to_vec()
}

// ---------------------------------------------------------------- secp256k1

/// As for P-256, under `k256::PublicKey::from_sec1_bytes`.
pub uninterp spec fn k256_point_valid(pk: Seq<u8>) -> bool;

/// As for P-256, under `k256::SecretKey::from_slice`.
pub uninterp spec fn k256_scalar_valid(sk: Seq<u8>) -> bool;

/// What ECDH over secp256k1 returns.
pub uninterp spec fn k256_dh_of(sk: Seq<u8>, pk: Seq<u8>) -> Seq<u8>;

/// The uncompressed encoding of the secp256k1 public point of a scalar.
pub uninterp spec fn k256_pk_of(sk: Seq<u8>) -> Seq<u8>;

/// Relies on `k256::PublicKey::from_sec1_bytes`.
#[verifier::external_body]
pub(crate) fn k256_point_check(pk: &[u8]) -> (r: bool)
    ensures
        r == k256_point_valid(pk@),
{
    k256::PublicKey::from_sec1_bytes(pk).is_ok()
}

/// Relies on `k256::SecretKey::from_slice`.
#[verifier::external_body]
pub(crate) fn k256_scalar_check(sk: &[u8]) -> (r: bool)
    ensures
        r == k256_scalar_valid(sk@),
{
    k256::SecretKey::from_slice(sk).is_ok()
}

/// Relies on `k256::ecdh::diffie_hellman`.
#[verifier::external_body]
pub(crate) fn k256_dh(sk: &[u8], pk: &[u8]) -> (r: Vec<u8>)
    requires
        k256_scalar_valid(sk@),
        k256_point_valid(pk@),
    ensures
        r@ == k256_dh_of(sk@, pk@),
        r@.len() == 32,
{
    let sk = k256::SecretKey::from_slice(sk).unwrap();
    let pk = k256::PublicKey::from_sec1_bytes(pk).unwrap();
    let shared = k256::ecdh::diffie_hellman(sk.to_nonzero_scalar(), pk.as_affine());
    shared.raw_secret_bytes().to_vec()
}

/// Relies on `k256::SecretKey::public_key` and the SEC1 uncompressed point
/// encoding, 65 bytes.
#[verifier::external_body]
pub(crate) fn k256_pk(sk: &[u8]) -> (r: Vec<u8>)
    requires
        k256_scalar_valid(sk@),
    ensures
        r@ == k256_pk_of(sk@),
        r@.len() == 65,
        k256_point_valid(r@),
{
    let sk = k256::SecretKey::from_slice(sk).unwrap();
    sk.public_key().to_encoded_point(false).as_bytes().to_vec()
}

// ---------------------------------------------------------------- randomness

/// Relies on `rand::rngs::OsRng`: fills a buffer from the operating
/// system's entropy source. Nothing is promised of the contents.
#[verifier::external_body]
pub(crate) fn random_bytes(n: usize) -> (r: Vec<u8>)
    ensures
        r@.len() == n,
{
    let mut buf: Vec<u8> = Vec::new();
    buf.resize(n, 0u8);
    rand::RngCore::fill_bytes(&mut rand::rngs::OsRng, &mut buf);
    buf
}

} // verus!
