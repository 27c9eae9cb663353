//! The engine's cross-function laws, stated over the same spec functions
//! its contracts use.
use vstd::prelude::*;

use crate::aead::AeadCtx;
use crate::algs::KemAlg;
use crate::kem::{decap_shared_spec, encap_shared_spec, kem_dh_spec, kem_pk_of};

verus! {

/// Law: context symmetry. A sender context and a receiver context that
/// hold the same suite, key, base nonce and counter agree on the next
/// ciphertext: what the sender's `seal` produces for `(m, aad)` is
/// exactly the string the receiver's `open` contract accepts and returns
/// as `m` at the same position, each side advancing its counter by one.
/// Together with the `seal` and `open` contracts this closes the
/// round trip `open(seal(m, aad), aad) == m` for contexts in lockstep.
pub proof fn lemma_context_symmetry(s: AeadCtx, r: AeadCtx, aad: Seq<u8>, m: Seq<u8>)
    requires
        s.suite == r.suite,
        s.key@ == r.key@,
        s.base_nonce@ == r.base_nonce@,
        s.seq == r.seq,
    ensures
        s.seal_output(m, aad) == r.seal_output(m, aad),
{
}

/// Law: determinism of encapsulation with a fixed ephemeral key. The
/// `encap_with_eph` contract pins both outputs to pure functions of the
/// arguments, so two invocations on identical inputs return an identical
/// shared secret and encapsulated key.
pub proof fn lemma_encap_with_eph_deterministic(
    kem: KemAlg,
    sk_e: Seq<u8>,
    pk_r: Seq<u8>,
    sender: Option<(Seq<u8>, Seq<u8>)>,
    ss1: Seq<u8>,
    enc1: Seq<u8>,
    ss2: Seq<u8>,
    enc2: Seq<u8>,
)
    requires
        ss1 == encap_shared_spec(kem, sk_e, pk_r, sender),
        enc1 == kem_pk_of(kem, sk_e),
        ss2 == encap_shared_spec(kem, sk_e, pk_r, sender),
        enc2 == kem_pk_of(kem, sk_e),
    ensures
        ss1 == ss2,
        enc1 == enc2,
{
}

/// Law: counter exhaustion is permanent. The `seal` and `open` contracts
/// return an exhausted context unchanged with a sequence-overflow error,
/// and an unchanged exhausted context is exhausted still; no call brings
/// the counter back into range.
pub proof fn lemma_overflow_permanent(c1: AeadCtx, c2: AeadCtx)
    requires
        c1.exhausted(),
        c2 == c1,
    ensures
        c2.exhausted(),
{
}

/// Law: the KEM round trip, reduced to the group's own Diffie-Hellman
/// property. Encapsulation and decapsulation bind the same context
/// string, run the same extract-and-expand, and differ only in which side
/// of each Diffie-Hellman product they compute; so whenever the group's
/// function agrees on the two sides — which is what Diffie-Hellman means,
/// and a fact of the outside implementation that the engine does not
/// restate — `Decap(sk_R, Encap(pk_R).enc)` equals
/// `Encap(pk_R).shared_secret`.
pub proof fn lemma_round_trip_reduces_to_dh(
    kem: KemAlg,
    sk_e: Seq<u8>,
    sk_r: Seq<u8>,
    sender: Option<(Seq<u8>, Seq<u8>)>,
)
    requires
        kem_dh_spec(kem, sk_e, kem_pk_of(kem, sk_r)) == kem_dh_spec(
            kem,
            sk_r,
            kem_pk_of(kem, sk_e),
        ),
        match sender {
            Some(s) => kem_dh_spec(kem, s.0, kem_pk_of(kem, sk_r)) == kem_dh_spec(
                kem,
                sk_r,
                s.1,
            ),
            None => true,
        },
    ensures
        encap_shared_spec(kem, sk_e, kem_pk_of(kem, sk_r), sender) == decap_shared_spec(
            kem,
            sk_r,
            kem_pk_of(kem, sk_e),
            match sender {
                Some(s) => Some(s.1),
                None => None,
            },
        ),
{
}

} // verus!
