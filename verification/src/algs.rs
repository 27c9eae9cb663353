//! The closed sets of algorithms a session can be built from, with the
//! fixed sizes and registry identifiers of each, and the 10-byte suite
//! identifier that binds a session to its (KEM, KDF, AEAD) choice.
use vstd::prelude::*;

verus! {

/// The supported key derivation functions.
#[derive(Clone, Copy, Debug, PartialEq, Eq, Structural)]
pub enum KdfAlg {
    HkdfSha256,
    HkdfSha384,
    HkdfSha512,
}

impl KdfAlg {
    /// Hash output size `Nh` in bytes.
    pub open spec fn nh_spec(self) -> nat {
        match self {
            KdfAlg::HkdfSha256 => 32,
            KdfAlg::HkdfSha384 => 48,
            KdfAlg::HkdfSha512 => 64,
        }
    }

    pub fn nh(&self) -> (r: usize)
        ensures
            r == self.nh_spec(),
    {
        match self {
            KdfAlg::HkdfSha256 => 32,
            KdfAlg::HkdfSha384 => 48,
            KdfAlg::HkdfSha512 => 64,
        }
    }

    /// Registry-assigned 16-bit KDF identifier.
    pub open spec fn kdf_id_spec(self) -> u16 {
        match self {
            KdfAlg::HkdfSha256 => 1,
            KdfAlg::HkdfSha384 => 2,
            KdfAlg::HkdfSha512 => 3,
        }
    }

    pub fn kdf_id(&self) -> (r: u16)
        ensures
            r == self.kdf_id_spec(),
    {
        match self {
            KdfAlg::HkdfSha256 => 1,
            KdfAlg::HkdfSha384 => 2,
            KdfAlg::HkdfSha512 => 3,
        }
    }
}

/// The supported AEAD ciphers, plus the degenerate export-only variant that
/// performs no bulk encryption.
#[derive(Clone, Copy, Debug, PartialEq, Eq, Structural)]
pub enum AeadAlg {
    AesGcm128,
    AesGcm256,
    ChaCha20Poly1305,
    ExportOnly,
}

impl AeadAlg {
    /// AEAD key size `Nk` in bytes.
    pub open spec fn nk_spec(self) -> nat {
        match self {
            AeadAlg::AesGcm128 => 16,
            AeadAlg::AesGcm256 => 32,
            AeadAlg::ChaCha20Poly1305 => 32,
            AeadAlg::ExportOnly => 0,
        }
    }

    pub fn nk(&self) -> (r: usize)
        ensures
            r == self.nk_spec(),
    {
        match self {
            AeadAlg::AesGcm128 => 16,
            AeadAlg::AesGcm256 => 32,
            AeadAlg::ChaCha20Poly1305 => 32,
            AeadAlg::ExportOnly => 0,
        }
    }

    /// AEAD nonce size `Nn` in bytes; also the width of the sequence counter.
    pub open spec fn nn_spec(self) -> nat {
        match self {
            AeadAlg::AesGcm128 => 12,
            AeadAlg::AesGcm256 => 12,
            AeadAlg::ChaCha20Poly1305 => 12,
            AeadAlg::ExportOnly => 0,
        }
    }

    pub fn nn(&self) -> (r: usize)
        ensures
            r == self.nn_spec(),
    {
        match self {
            AeadAlg::AesGcm128 => 12,
            AeadAlg::AesGcm256 => 12,
            AeadAlg::ChaCha20Poly1305 => 12,
            AeadAlg::ExportOnly => 0,
        }
    }

    /// Registry-assigned 16-bit AEAD identifier.
    pub open spec fn aead_id_spec(self) -> u16 {
        match self {
            AeadAlg::AesGcm128 => 1,
            AeadAlg::AesGcm256 => 2,
            AeadAlg::ChaCha20Poly1305 => 3,
            AeadAlg::ExportOnly => 0xffff,
        }
    }

    pub fn aead_id(&self) -> (r: u16)
        ensures
            r == self.aead_id_spec(),
    {
        match self {
            AeadAlg::AesGcm128 => 1,
            AeadAlg::AesGcm256 => 2,
            AeadAlg::ChaCha20Poly1305 => 3,
            AeadAlg::ExportOnly => 0xffff,
        }
    }
}

/// The supported Diffie-Hellman KEMs. Each fixes a group and the hash its
/// internal key derivation uses.
#[derive(Clone, Copy, Debug, PartialEq, Eq, Structural)]
pub enum KemAlg {
    X25519HkdfSha256,
    DhP256HkdfSha256,
    DhP384HkdfSha384,
    DhP521HkdfSha512,
    DhK256HkdfSha256,
}

impl KemAlg {
    /// Private key size `Nsk` in bytes.
    pub open spec fn nsk_spec(self) -> nat {
        match self {
            KemAlg::X25519HkdfSha256 => 32,
            KemAlg::DhP256HkdfSha256 => 32,
            KemAlg::DhP384HkdfSha384 => 48,
            KemAlg::DhP521HkdfSha512 => 66,
            KemAlg::DhK256HkdfSha256 => 32,
        }
    }

    pub fn nsk(&self) -> (r: usize)
        ensures
            r == self.nsk_spec(),
    {
        match self {
            KemAlg::X25519HkdfSha256 => 32,
            KemAlg::DhP256HkdfSha256 => 32,
            KemAlg::DhP384HkdfSha384 => 48,
            KemAlg::DhP521HkdfSha512 => 66,
            KemAlg::DhK256HkdfSha256 => 32,
        }
    }

    /// Public key size `Npk` in bytes (uncompressed points for the
    /// Weierstrass curves). The encapsulated key has the same encoding.
    pub open spec fn npk_spec(self) -> nat {
        match self {
            KemAlg::X25519HkdfSha256 => 32,
            KemAlg::DhP256HkdfSha256 => 65,
            KemAlg::DhP384HkdfSha384 => 97,
            KemAlg::DhP521HkdfSha512 => 133,
            KemAlg::DhK256HkdfSha256 => 65,
        }
    }

    pub fn npk(&self) -> (r: usize)
        ensures
            r == self.npk_spec(),
    {
        match self {
            KemAlg::X25519HkdfSha256 => 32,
            KemAlg::DhP256HkdfSha256 => 65,
            KemAlg::DhP384HkdfSha384 => 97,
            KemAlg::DhP521HkdfSha512 => 133,
            KemAlg::DhK256HkdfSha256 => 65,
        }
    }

    /// Size of one raw Diffie-Hellman result in bytes.
    pub open spec fn ndh_spec(self) -> nat {
        match self {
            KemAlg::X25519HkdfSha256 => 32,
            KemAlg::DhP256HkdfSha256 => 32,
            KemAlg::DhP384HkdfSha384 => 48,
            KemAlg::DhP521HkdfSha512 => 66,
            KemAlg::DhK256HkdfSha256 => 32,
        }
    }

    /// KEM shared secret size `Nsecret` in bytes.
    pub open spec fn nsecret_spec(self) -> nat {
        self.kem_kdf_spec().nh_spec()
    }

    pub fn nsecret(&self) -> (r: usize)
        ensures
            r == self.nsecret_spec(),
    {
        self.kem_kdf().nh()
    }

    /// The hash the KEM's own extract-and-expand runs over.
    pub open spec fn kem_kdf_spec(self) -> KdfAlg {
        match self {
            KemAlg::X25519HkdfSha256 => KdfAlg::HkdfSha256,
            KemAlg::DhP256HkdfSha256 => KdfAlg::HkdfSha256,
            KemAlg::DhP384HkdfSha384 => KdfAlg::HkdfSha384,
            KemAlg::DhP521HkdfSha512 => KdfAlg::HkdfSha512,
            KemAlg::DhK256HkdfSha256 => KdfAlg::HkdfSha256,
        }
    }

    pub fn kem_kdf(&self) -> (r: KdfAlg)
        ensures
            r == self.kem_kdf_spec(),
    {
        match self {
            KemAlg::X25519HkdfSha256 => KdfAlg::HkdfSha256,
            KemAlg::DhP256HkdfSha256 => KdfAlg::HkdfSha256,
            KemAlg::DhP384HkdfSha384 => KdfAlg::HkdfSha384,
            KemAlg::DhP521HkdfSha512 => KdfAlg::HkdfSha512,
            KemAlg::DhK256HkdfSha256 => KdfAlg::HkdfSha256,
        }
    }

    /// Registry-assigned 16-bit KEM identifier.
    pub open spec fn kem_id_spec(self) -> u16 {
        match self {
            KemAlg::X25519HkdfSha256 => 0x20,
            KemAlg::DhP256HkdfSha256 => 0x10,
            KemAlg::DhP384HkdfSha384 => 0x11,
            KemAlg::DhP521HkdfSha512 => 0x12,
            KemAlg::DhK256HkdfSha256 => 0x16,
        }
    }

    pub fn kem_id(&self) -> (r: u16)
        ensures
            r == self.kem_id_spec(),
    {
        match self {
            KemAlg::X25519HkdfSha256 => 0x20,
            KemAlg::DhP256HkdfSha256 => 0x10,
            KemAlg::DhP384HkdfSha384 => 0x11,
            KemAlg::DhP521HkdfSha512 => 0x12,
            KemAlg::DhK256HkdfSha256 => 0x16,
        }
    }

    /// Mask applied to the first candidate byte during deterministic key
    /// derivation on the Weierstrass curves.
    pub open spec fn derive_bitmask_spec(self) -> u8 {
        match self {
            KemAlg::DhP521HkdfSha512 => 0x01,
            _ => 0xff,
        }
    }

    pub fn derive_bitmask(&self) -> (r: u8)
        ensures
            r == self.derive_bitmask_spec(),
    {
        match self {
            KemAlg::DhP521HkdfSha512 => 0x01,
            _ => 0xff,
        }
    }
}

/// One concrete (KEM, KDF, AEAD) choice; fixed for the life of a session.
#[derive(Clone, Copy, Debug, PartialEq, Eq, Structural)]
pub struct Suite {
    pub kem: KemAlg,
    pub kdf: KdfAlg,
    pub aead: AeadAlg,
}

/// Big-endian encoding of a 16-bit identifier.
pub open spec fn u16_be(x: u16) -> Seq<u8> {
    seq![(x / 256) as u8, (x % 256) as u8]
}

/// The 10-byte suite identifier: `"HPKE" || kem_id || kdf_id || aead_id`.
pub open spec fn suite_id_spec(s: Suite) -> Seq<u8> {
    seq![0x48u8, 0x50u8, 0x4bu8, 0x45u8] + u16_be(s.kem.kem_id_spec()) + u16_be(
        s.kdf.kdf_id_spec(),
    ) + u16_be(s.aead.aead_id_spec())
}

/// The 5-byte identifier the KEM's own derivations are bound to:
/// `"KEM" || kem_id`.
pub open spec fn kem_suite_id_spec(kem: KemAlg) -> Seq<u8> {
    seq![0x4bu8, 0x45u8, 0x4du8] + u16_be(kem.kem_id_spec())
}

fn push_u16_be(v: &mut Vec<u8>, x: u16)
    ensures
        final(v)@ == old(v)@ + u16_be(x),
{
    v.push((x / 256) as u8);
    v.push((x % 256) as u8);
    proof {
        assert(v@ =~= old(v)@ + u16_be(x));
    }
}

/// Builds the 10-byte suite identifier of `s`.
pub fn suite_id(s: &Suite) -> (r: Vec<u8>)
    ensures
        r@ == suite_id_spec(*s),
        r@.len() == 10,
{
    let mut v: Vec<u8> = Vec::new();
    v.push(0x48);
    v.push(0x50);
    v.push(0x4b);
    v.push(0x45);
    push_u16_be(&mut v, s.kem.kem_id());
    push_u16_be(&mut v, s.kdf.kdf_id());
    push_u16_be(&mut v, s.aead.aead_id());
    proof {
        assert(v@ =~= suite_id_spec(*s));
    }
    v
}

/// Builds the 5-byte KEM suite identifier of `kem`.
pub fn kem_suite_id(kem: &KemAlg) -> (r: Vec<u8>)
    ensures
        r@ == kem_suite_id_spec(*kem),
        r@.len() == 5,
{
    let mut v: Vec<u8> = Vec::new();
    v.push(0x4b);
    v.push(0x45);
    v.push(0x4d);
    push_u16_be(&mut v, kem.kem_id());
    proof {
        assert(v@ =~= kem_suite_id_spec(*kem));
    }
    v
}

/// The KEM selected by a registry identifier, if any.
pub fn kem_from_id(id: u16) -> (r: Option<KemAlg>)
    ensures
        match r {
            Some(k) => k.kem_id_spec() == id,
            None => forall|k: KemAlg| k.kem_id_spec() != id,
        },
{
    if id == 0x20 {
        Some(KemAlg::X25519HkdfSha256)
    } else if id == 0x10 {
        Some(KemAlg::DhP256HkdfSha256)
    } else if id == 0x11 {
        Some(KemAlg::DhP384HkdfSha384)
    } else if id == 0x12 {
        Some(KemAlg::DhP521HkdfSha512)
    } else if id == 0x16 {
        Some(KemAlg::DhK256HkdfSha256)
    } else {
        None
    }
}

/// The KDF selected by a registry identifier, if any.
pub fn kdf_from_id(id: u16) -> (r: Option<KdfAlg>)
    ensures
        match r {
            Some(k) => k.kdf_id_spec() == id,
            None => forall|k: KdfAlg| k.kdf_id_spec() != id,
        },
{
    if id == 1 {
        Some(KdfAlg::HkdfSha256)
    } else if id == 2 {
        Some(KdfAlg::HkdfSha384)
    } else if id == 3 {
        Some(KdfAlg::HkdfSha512)
    } else {
        None
    }
}

/// The AEAD selected by a registry identifier, if any.
pub fn aead_from_id(id: u16) -> (r: Option<AeadAlg>)
    ensures
        match r {
            Some(a) => a.aead_id_spec() == id,
            None => forall|a: AeadAlg| a.aead_id_spec() != id,
        },
{
    if id == 1 {
        Some(AeadAlg::AesGcm128)
    } else if id == 2 {
        Some(AeadAlg::AesGcm256)
    } else if id == 3 {
        Some(AeadAlg::ChaCha20Poly1305)
    } else if id == 0xffff {
        Some(AeadAlg::ExportOnly)
    } else {
        None
    }
}

/// The suite selected by a triple of registry identifiers, if every
/// identifier is known.
pub fn suite_from_ids(kem_id: u16, kdf_id: u16, aead_id: u16) -> (r: Option<Suite>)
    ensures
        match r {
            Some(s) => s.kem.kem_id_spec() == kem_id && s.kdf.kdf_id_spec() == kdf_id
                && s.aead.aead_id_spec() == aead_id,
            None => !(exists|s: Suite|
                s.kem.kem_id_spec() == kem_id && s.kdf.kdf_id_spec() == kdf_id
                    && s.aead.aead_id_spec() == aead_id),
        },
{
    match (kem_from_id(kem_id), kdf_from_id(kdf_id), aead_from_id(aead_id)) {
        (Some(kem), Some(kdf), Some(aead)) => Some(Suite { kem, kdf, aead }),
        _ => None,
    }
}

} // verus!
