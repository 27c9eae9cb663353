//! The sealed-box layer: a uniform seal/open interface over the supported
//! ciphers, and the encryption context that owns the derived key, the base
//! nonce, the sequence counter and the exporter secret.
use vstd::prelude::*;
use vstd::pervasive::unreached;
use vstd::slice::slice_to_vec;

use aes_gcm::aead::{Aead, KeyInit, Payload};
use aes_gcm::{Aes128Gcm, Aes256Gcm};
use chacha20poly1305::ChaCha20Poly1305;

use crate::HpkeError;
use crate::algs::{suite_id, suite_id_spec, AeadAlg, Suite};
use crate::kdf::{labeled_expand, spec_labeled_expand};

verus! {

/// Upper bound on one message or associated-data string, comfortably below
/// every cipher's own limit, so that sealing cannot fail for length
/// reasons.
pub const MAX_AEAD_LEN: usize = 0x10000000;

// ------------------------------------------------------------ cipher names

/// What AES-128-GCM sealing returns: ciphertext with the tag appended, a
/// pure function of key, nonce, associated data and plaintext.
pub uninterp spec fn aes128gcm_seal_of(key: Seq<u8>, nonce: Seq<u8>, aad: Seq<u8>, pt: Seq<u8>) -> Seq<u8>;

/// What AES-256-GCM sealing returns.
pub uninterp spec fn aes256gcm_seal_of(key: Seq<u8>, nonce: Seq<u8>, aad: Seq<u8>, pt: Seq<u8>) -> Seq<u8>;

/// What ChaCha20-Poly1305 sealing returns.
pub uninterp spec fn chacha20poly1305_seal_of(key: Seq<u8>, nonce: Seq<u8>, aad: Seq<u8>, pt: Seq<u8>) -> Seq<u8>;

/// Relies on `aes_gcm::Aes128Gcm::encrypt`: deterministic sealing; the
/// result is the ciphertext followed by the 16-byte tag, and the call
/// cannot fail on inputs within the length bound.
#[verifier::external_body]
fn aes128gcm_seal(key: &[u8], nonce: &[u8], aad: &[u8], pt: &[u8]) -> (r: Vec<u8>)
    requires
        key@.len() == 16,
        nonce@.len() == 12,
        pt@.len() <= MAX_AEAD_LEN,
        aad@.len() <= MAX_AEAD_LEN,
    ensures
        r@ == aes128gcm_seal_of(key@, nonce@, aad@, pt@),
        r@.len() == pt@.len() + 16,
{
    let cipher = Aes128Gcm::new_from_slice(key).unwrap();
    cipher.encrypt(aes_gcm::Nonce::from_slice(nonce), Payload { msg: pt, aad }).unwrap()
}

/// Relies on `aes_gcm::Aes128Gcm::decrypt`: succeeds exactly on genuine
/// ciphertexts of this key, nonce and associated data, and then returns
/// the plaintext that was sealed.
#[verifier::external_body]
fn aes128gcm_open(key: &[u8], nonce: &[u8], aad: &[u8], ct: &[u8]) -> (r: Option<Vec<u8>>)
    requires
        key@.len() == 16,
        nonce@.len() == 12,
    ensures
        (match r {
            Some(pt) => ct@ == aes128gcm_seal_of(key@, nonce@, aad@, pt@) && pt@.len() + 16 == ct@.len()
                && (forall|p: Seq<u8>| ct@ == aes128gcm_seal_of(key@, nonce@, aad@, p) ==> p == pt@),
            None => forall|p: Seq<u8>| ct@ != aes128gcm_seal_of(key@, nonce@, aad@, p),
        }),
{
    let cipher = Aes128Gcm::new_from_slice(key).unwrap();
    match cipher.decrypt(aes_gcm::Nonce::from_slice(nonce), Payload { msg: ct, aad }) {
        Ok(pt) => Some(pt),
        Err(_) => None,
    }
}

/// Relies on `aes_gcm::Aes256Gcm::encrypt`: as for the 128-bit key size.
#[verifier::external_body]
fn aes256gcm_seal(key: &[u8], nonce: &[u8], aad: &[u8], pt: &[u8]) -> (r: Vec<u8>)
    requires
        key@.len() == 32,
        nonce@.len() == 12,
        pt@.len() <= MAX_AEAD_LEN,
        aad@.len() <= MAX_AEAD_LEN,
    ensures
        r@ == aes256gcm_seal_of(key@, nonce@, aad@, pt@),
        r@.len() == pt@.len() + 16,
{
    let cipher = Aes256Gcm::new_from_slice(key).unwrap();
    cipher.encrypt(aes_gcm::Nonce::from_slice(nonce), Payload { msg: pt, aad }).unwrap()
}

/// Relies on `aes_gcm::Aes256Gcm::decrypt`: as for the 128-bit key size.
#[verifier::external_body]
fn aes256gcm_open(key: &[u8], nonce: &[u8], aad: &[u8], ct: &[u8]) -> (r: Option<Vec<u8>>)
    requires
        key@.len() == 32,
        nonce@.len() == 12,
    ensures
        (match r {
            Some(pt) => ct@ == aes256gcm_seal_of(key@, nonce@, aad@, pt@) && pt@.len() + 16 == ct@.len()
                && (forall|p: Seq<u8>| ct@ == aes256gcm_seal_of(key@, nonce@, aad@, p) ==> p == pt@),
            None => forall|p: Seq<u8>| ct@ != aes256gcm_seal_of(key@, nonce@, aad@, p),
        }),
{
    let cipher = Aes256Gcm::new_from_slice(key).unwrap();
    match cipher.decrypt(aes_gcm::Nonce::from_slice(nonce), Payload { msg: ct, aad }) {
        Ok(pt) => Some(pt),
        Err(_) => None,
    }
}

/// Relies on `chacha20poly1305::ChaCha20Poly1305::encrypt`: as above.
#[verifier::external_body]
fn chacha20poly1305_seal(key: &[u8], nonce: &[u8], aad: &[u8], pt: &[u8]) -> (r: Vec<u8>)
    requires
        key@.len() == 32,
        nonce@.len() == 12,
        pt@.len() <= MAX_AEAD_LEN,
        aad@.len() <= MAX_AEAD_LEN,
    ensures
        r@ == chacha20poly1305_seal_of(key@, nonce@, aad@, pt@),
        r@.len() == pt@.len() + 16,
{
    let cipher = ChaCha20Poly1305::new_from_slice(key).unwrap();
    cipher.encrypt(chacha20poly1305::Nonce::from_slice(nonce), Payload { msg: pt, aad }).unwrap()
}

/// Relies on `chacha20poly1305::ChaCha20Poly1305::decrypt`: as above.
#[verifier::external_body]
fn chacha20poly1305_open(key: &[u8], nonce: &[u8], aad: &[u8], ct: &[u8]) -> (r: Option<Vec<u8>>)
    requires
        key@.len() == 32,
        nonce@.len() == 12,
    ensures
        (match r {
            Some(pt) => ct@ == chacha20poly1305_seal_of(key@, nonce@, aad@, pt@) && pt@.len() + 16 == ct@.len()
                && (forall|p: Seq<u8>| ct@ == chacha20poly1305_seal_of(key@, nonce@, aad@, p) ==> p == pt@),
            None => forall|p: Seq<u8>| ct@ != chacha20poly1305_seal_of(key@, nonce@, aad@, p),
        }),
{
    let cipher = ChaCha20Poly1305::new_from_slice(key).unwrap();
    match cipher.decrypt(chacha20poly1305::Nonce::from_slice(nonce), Payload { msg: ct, aad }) {
        Ok(pt) => Some(pt),
        Err(_) => None,
    }
}

// ------------------------------------------------------------ dispatch

/// The sealing function of the chosen cipher. The export-only variant has
/// no sealing function; its arm is never reached by verified callers.
pub open spec fn aead_seal_spec(
    aead: AeadAlg,
    key: Seq<u8>,
    nonce: Seq<u8>,
    aad: Seq<u8>,
    pt: Seq<u8>,
) -> Seq<u8> {
    match aead {
        AeadAlg::AesGcm128 => aes128gcm_seal_of(key, nonce, aad, pt),
        AeadAlg::AesGcm256 => aes256gcm_seal_of(key, nonce, aad, pt),
        AeadAlg::ChaCha20Poly1305 => chacha20poly1305_seal_of(key, nonce, aad, pt),
        AeadAlg::ExportOnly => Seq::<u8>::empty(),
    }
}

fn aead_seal(aead: AeadAlg, key: &[u8], nonce: &[u8], aad: &[u8], pt: &[u8]) -> (r: Vec<u8>)
    requires
        aead != AeadAlg::ExportOnly,
        key@.len() == aead.nk_spec(),
        nonce@.len() == aead.nn_spec(),
        pt@.len() <= MAX_AEAD_LEN,
        aad@.len() <= MAX_AEAD_LEN,
    ensures
        r@ == aead_seal_spec(aead, key@, nonce@, aad@, pt@),
        r@.len() == pt@.len() + 16,
{
    match aead {
        AeadAlg::AesGcm128 => aes128gcm_seal(key, nonce, aad, pt),
        AeadAlg::AesGcm256 => aes256gcm_seal(key, nonce, aad, pt),
        AeadAlg::ChaCha20Poly1305 => chacha20poly1305_seal(key, nonce, aad, pt),
        AeadAlg::ExportOnly => unreached(),
    }
}

fn aead_open(aead: AeadAlg, key: &[u8], nonce: &[u8], aad: &[u8], ct: &[u8]) -> (r: Option<
    Vec<u8>,
>)
    requires
        aead != AeadAlg::ExportOnly,
        key@.len() == aead.nk_spec(),
        nonce@.len() == aead.nn_spec(),
    ensures
        r matches Some(pt) ==> ct@ == aead_seal_spec(aead, key@, nonce@, aad@, pt@) && pt@.len()
            + 16 == ct@.len(),
        forall|p: Seq<u8>|
            ct@ == aead_seal_spec(aead, key@, nonce@, aad@, p) ==> (r matches Some(pt) && pt@ == p),
{
    match aead {
        AeadAlg::AesGcm128 => aes128gcm_open(key, nonce, aad, ct),
        AeadAlg::AesGcm256 => aes256gcm_open(key, nonce, aad, ct),
        AeadAlg::ChaCha20Poly1305 => chacha20poly1305_open(key, nonce, aad, ct),
        AeadAlg::ExportOnly => unreached(),
    }
}

// ------------------------------------------------------------ nonces

/// Byte `k` (counting from the least significant end) of the big-endian
/// expansion of the counter.
pub open spec fn be_byte(s: u128, k: u128) -> u8 {
    ((s >> (8 * k)) & 0xff) as u8
}

/// The per-message nonce: the base nonce XORed with the big-endian
/// counter, aligned at the right edge.
pub open spec fn nonce_xor(base: Seq<u8>, s: u128) -> Seq<u8> {
    Seq::new(base.len(), |i: int| base[i] ^ be_byte(s, (base.len() - 1 - i) as u128))
}

/// One more than the largest usable counter value: `2^(8*Nn)`.
pub open spec fn seq_limit_spec(aead: AeadAlg) -> u128 {
    match aead {
        AeadAlg::ExportOnly => 1,
        _ => 0x1000000000000000000000000,
    }
}

fn seq_limit(aead: AeadAlg) -> (r: u128)
    ensures
        r == seq_limit_spec(aead),
{
    match aead {
        AeadAlg::ExportOnly => 1,
        _ => 0x1000000000000000000000000,
    }
}

pub(crate) fn compute_nonce(base: &[u8], s: u128) -> (r: Vec<u8>)
    requires
        base@.len() <= 12,
    ensures
        r@ == nonce_xor(base@, s),
        r@.len() == base@.len(),
{
    let n = base.len();
    let mut out: Vec<u8> = Vec::new();
    let mut i: usize = 0;
    while i < n
        invariant
            i <= n,
            n == base@.len(),
            n <= 12,
            out@.len() == i,
            forall|j: int| 0 <= j < i ==> out@[j] == base@[j] ^ be_byte(s, (n - 1 - j) as u128),
        decreases n - i,
    {
        let k: u128 = (n - 1 - i) as u128;
        let b: u8 = ((s >> (8 * k)) & 0xff) as u8;
        out.push(base[i] ^ b);
        i += 1;
    }
    proof {
        assert(out@ =~= nonce_xor(base@, s));
    }
    out
}

// ------------------------------------------------------------ context

/// The bytes of the label `"sec"`.
pub open spec fn lbl_sec() -> Seq<u8> {
    seq![0x73u8, 0x65u8, 0x63u8]
}

fn mk_lbl_sec() -> (r: Vec<u8>)
    ensures
        r@ == lbl_sec(),
{
    let a: [u8; 3] = [0x73, 0x65, 0x63];
    let v = slice_to_vec(a.as_slice());
    proof {
        assert(v@ =~= lbl_sec());
    }
    v
}

/// What `Export(exporter_context, L)` returns for a context of this suite
/// and exporter secret.
pub open spec fn export_spec(
    suite: Suite,
    exporter_secret: Seq<u8>,
    exporter_ctx: Seq<u8>,
    out_len: nat,
) -> Seq<u8> {
    spec_labeled_expand(suite.kdf, exporter_secret, suite_id_spec(suite), lbl_sec(), exporter_ctx, out_len)
}

/// The derived encryption state: key, base nonce, exporter secret and the
/// sequence counter, which starts at zero and only ever moves forward.
/// Reaching the counter limit is a permanent, unrecoverable failure of the
/// context; there is no wraparound.
pub struct AeadCtx {
    pub suite: Suite,
    pub key: Vec<u8>,
    pub base_nonce: Vec<u8>,
    pub exporter_secret: Vec<u8>,
    pub seq: u128,
}

impl AeadCtx {
    /// Well-formedness: every derived string has its algorithm's length
    /// and the counter has not escaped its range.
    pub open spec fn wf(self) -> bool {
        &&& self.key@.len() == self.suite.aead.nk_spec()
        &&& self.base_nonce@.len() == self.suite.aead.nn_spec()
        &&& self.exporter_secret@.len() == self.suite.kdf.nh_spec()
        &&& self.seq <= seq_limit_spec(self.suite.aead)
    }

    /// Whether the counter is exhausted: every further seal or open fails.
    pub open spec fn exhausted(self) -> bool {
        self.seq == seq_limit_spec(self.suite.aead)
    }

    /// The ciphertext this context would produce next for `(pt, aad)`.
    pub open spec fn seal_output(self, pt: Seq<u8>, aad: Seq<u8>) -> Seq<u8> {
        aead_seal_spec(
            self.suite.aead,
            self.key@,
            nonce_xor(self.base_nonce@, self.seq),
            aad,
            pt,
        )
    }

    fn seal(&mut self, plaintext: &[u8], aad: &[u8]) -> (r: Result<Vec<u8>, HpkeError>)
        requires
            old(self).wf(),
            plaintext@.len() <= MAX_AEAD_LEN,
            aad@.len() <= MAX_AEAD_LEN,
        ensures
            final(self).wf(),
            final(self).suite == old(self).suite,
            final(self).key == old(self).key,
            final(self).base_nonce == old(self).base_nonce,
            final(self).exporter_secret == old(self).exporter_secret,
            old(self).suite.aead == AeadAlg::ExportOnly ==> (r matches Err(e) && e
                == HpkeError::AuthenticationError && *final(self) == *old(self)),
            old(self).suite.aead != AeadAlg::ExportOnly && old(self).exhausted() ==> (r matches
                Err(e) && e == HpkeError::SequenceOverflowError && *final(self) == *old(self)),
            old(self).suite.aead != AeadAlg::ExportOnly && !old(self).exhausted() ==> (r matches
                Ok(ct) && ct@ == old(self).seal_output(plaintext@, aad@) && ct@.len()
                == plaintext@.len() + 16 && final(self).seq == old(self).seq + 1),
    {
        if self.suite.aead == AeadAlg::ExportOnly {
            return Err(HpkeError::AuthenticationError);
        }
        let limit = seq_limit(self.suite.aead);
        if self.seq >= limit {
            return Err(HpkeError::SequenceOverflowError);
        }
        let nonce = compute_nonce(self.base_nonce.as_slice(), self.seq);
        let ct = aead_seal(
            self.suite.aead,
            self.key.as_slice(),
            nonce.as_slice(),
            aad,
            plaintext,
        );
        self.seq = self.seq + 1;
        Ok(ct)
    }

    fn open(&mut self, ciphertext: &[u8], aad: &[u8]) -> (r: Result<Vec<u8>, HpkeError>)
        requires
            old(self).wf(),
        ensures
            final(self).wf(),
            final(self).suite == old(self).suite,
            final(self).key == old(self).key,
            final(self).base_nonce == old(self).base_nonce,
            final(self).exporter_secret == old(self).exporter_secret,
            old(self).suite.aead == AeadAlg::ExportOnly ==> (r matches Err(e) && e
                == HpkeError::AuthenticationError && *final(self) == *old(self)),
            old(self).suite.aead != AeadAlg::ExportOnly && old(self).exhausted() ==> (r matches
                Err(e) && e == HpkeError::SequenceOverflowError && *final(self) == *old(self)),
            old(self).suite.aead != AeadAlg::ExportOnly && !old(self).exhausted() ==> match r {
                Ok(pt) => ciphertext@ == old(self).seal_output(pt@, aad@) && pt@.len() + 16
                    == ciphertext@.len() && final(self).seq == old(self).seq + 1,
                Err(e) => e == HpkeError::AuthenticationError && *final(self) == *old(self),
            },
            old(self).suite.aead != AeadAlg::ExportOnly && !old(self).exhausted() ==> forall|
                p: Seq<u8>,
            |
                ciphertext@ == old(self).seal_output(p, aad@) ==> (r matches Ok(pt) && pt@ == p),
    {
        if self.suite.aead == AeadAlg::ExportOnly {
            return Err(HpkeError::AuthenticationError);
        }
        let limit = seq_limit(self.suite.aead);
        if self.seq >= limit {
            return Err(HpkeError::SequenceOverflowError);
        }
        let nonce = compute_nonce(self.base_nonce.as_slice(), self.seq);
        match aead_open(
            self.suite.aead,
            self.key.as_slice(),
            nonce.as_slice(),
            aad,
            ciphertext,
        ) {
            Some(pt) => {
                self.seq = self.seq + 1;
                Ok(pt)
            },
            None => Err(HpkeError::AuthenticationError),
        }
    }

    fn export(&self, exporter_ctx: &[u8], out: &mut Vec<u8>) -> (r: Result<(), HpkeError>)
        requires
            self.wf(),
        ensures
            old(out)@.len() <= 255 * self.suite.kdf.nh_spec() ==> (r matches Ok(u) && final(out)@
                == export_spec(
                self.suite,
                self.exporter_secret@,
                exporter_ctx@,
                old(out)@.len() as nat,
            ) && final(out)@.len() == old(out)@.len()),
            old(out)@.len() > 255 * self.suite.kdf.nh_spec() ==> (r matches Err(e) && e
                == HpkeError::ExportLengthError && *final(out) == *old(out)),
    {
        let sid = suite_id(&self.suite);
        let lbl = mk_lbl_sec();
        match labeled_expand(
            self.suite.kdf,
            self.exporter_secret.as_slice(),
            sid.as_slice(),
            lbl.as_slice(),
            exporter_ctx,
            out.len(),
        ) {
            Ok(v) => {
                *out = v;
                Ok(())
            },
            Err(e) => Err(e),
        }
    }
}

/// A sender context: it seals in sequence and exports secrets. Created by
/// sender-side setup; never opens.
pub struct AeadCtxS {
    pub ctx: AeadCtx,
}

/// A receiver context: it opens in sequence and exports secrets. Created
/// by receiver-side setup; never seals. Messages must arrive in order.
pub struct AeadCtxR {
    pub ctx: AeadCtx,
}

impl AeadCtxS {
    /// Seals `(plaintext, aad)` under the nonce of the current counter
    /// value and advances the counter. Fails when the counter is
    /// exhausted, or always on an export-only context, which performs no
    /// bulk encryption; failure changes nothing.
    pub fn seal(&mut self, plaintext: &[u8], aad: &[u8]) -> (r: Result<Vec<u8>, HpkeError>)
        requires
            old(self).ctx.wf(),
            plaintext@.len() <= MAX_AEAD_LEN,
            aad@.len() <= MAX_AEAD_LEN,
        ensures
            final(self).ctx.wf(),
            final(self).ctx.suite == old(self).ctx.suite,
            final(self).ctx.key == old(self).ctx.key,
            final(self).ctx.base_nonce == old(self).ctx.base_nonce,
            final(self).ctx.exporter_secret == old(self).ctx.exporter_secret,
            old(self).ctx.suite.aead == AeadAlg::ExportOnly ==> (r matches Err(e) && e
                == HpkeError::AuthenticationError && *final(self) == *old(self)),
            old(self).ctx.suite.aead != AeadAlg::ExportOnly && old(self).ctx.exhausted() ==> (r
                matches Err(e) && e == HpkeError::SequenceOverflowError && *final(self) == *old(
                self,
            )),
            old(self).ctx.suite.aead != AeadAlg::ExportOnly && !old(self).ctx.exhausted() ==> (r
                matches Ok(ct) && ct@ == old(self).ctx.seal_output(plaintext@, aad@) && ct@.len()
                == plaintext@.len() + 16 && final(self).ctx.seq == old(self).ctx.seq + 1),
    {
        self.ctx.seal(plaintext, aad)
    }

    /// `Export(exporter_context, L)` with `L = out.len()`; independent of
    /// the sequence counter.
    pub fn export(&self, exporter_ctx: &[u8], out: &mut Vec<u8>) -> (r: Result<(), HpkeError>)
        requires
            self.ctx.wf(),
        ensures
            old(out)@.len() <= 255 * self.ctx.suite.kdf.nh_spec() ==> (r matches Ok(u) && final(out)@
                == export_spec(
                self.ctx.suite,
                self.ctx.exporter_secret@,
                exporter_ctx@,
                old(out)@.len() as nat,
            ) && final(out)@.len() == old(out)@.len()),
            old(out)@.len() > 255 * self.ctx.suite.kdf.nh_spec() ==> (r matches Err(e) && e
                == HpkeError::ExportLengthError && *final(out) == *old(out)),
    {
        self.ctx.export(exporter_ctx, out)
    }
}

impl AeadCtxR {
    /// Opens a ciphertext against the nonce of the current counter value;
    /// advances the counter only when authentication succeeds. A genuine
    /// ciphertext for this position always opens to its plaintext; on
    /// failure nothing changes and no plaintext is released. An
    /// export-only context authenticates nothing, so it always fails.
    pub fn open(&mut self, ciphertext: &[u8], aad: &[u8]) -> (r: Result<Vec<u8>, HpkeError>)
        requires
            old(self).ctx.wf(),
        ensures
            final(self).ctx.wf(),
            final(self).ctx.suite == old(self).ctx.suite,
            final(self).ctx.key == old(self).ctx.key,
            final(self).ctx.base_nonce == old(self).ctx.base_nonce,
            final(self).ctx.exporter_secret == old(self).ctx.exporter_secret,
            old(self).ctx.suite.aead == AeadAlg::ExportOnly ==> (r matches Err(e) && e
                == HpkeError::AuthenticationError && *final(self) == *old(self)),
            old(self).ctx.suite.aead != AeadAlg::ExportOnly && old(self).ctx.exhausted() ==> (r
                matches Err(e) && e == HpkeError::SequenceOverflowError && *final(self) == *old(
                self,
            )),
            old(self).ctx.suite.aead != AeadAlg::ExportOnly && !old(self).ctx.exhausted()
                ==> match r {
                Ok(pt) => ciphertext@ == old(self).ctx.seal_output(pt@, aad@) && pt@.len() + 16
                    == ciphertext@.len() && final(self).ctx.seq == old(self).ctx.seq + 1,
                Err(e) => e == HpkeError::AuthenticationError && *final(self) == *old(self),
            },
            old(self).ctx.suite.aead != AeadAlg::ExportOnly && !old(self).ctx.exhausted()
                ==> forall|p: Seq<u8>|
                ciphertext@ == old(self).ctx.seal_output(p, aad@) ==> (r matches Ok(pt) && pt@
                    == p),
    {
        self.ctx.open(ciphertext, aad)
    }

    /// `Export(exporter_context, L)` with `L = out.len()`; independent of
    /// the sequence counter.
    pub fn export(&self, exporter_ctx: &[u8], out: &mut Vec<u8>) -> (r: Result<(), HpkeError>)
        requires
            self.ctx.wf(),
        ensures
            old(out)@.len() <= 255 * self.ctx.suite.kdf.nh_spec() ==> (r matches Ok(u) && final(out)@
                == export_spec(
                self.ctx.suite,
                self.ctx.exporter_secret@,
                exporter_ctx@,
                old(out)@.len() as nat,
            ) && final(out)@.len() == old(out)@.len()),
            old(out)@.len() > 255 * self.ctx.suite.kdf.nh_spec() ==> (r matches Err(e) && e
                == HpkeError::ExportLengthError && *final(out) == *old(out)),
    {
        self.ctx.export(exporter_ctx, out)
    }
}

} // verus!
