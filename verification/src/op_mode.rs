//! The four operation modes {Base, Psk, Auth, AuthPsk}: a closed
//! classification chosen once per context, deciding which optional key
//! material joins the key schedule. Required material is validated when a
//! mode is built, before any cryptographic work runs.
use vstd::prelude::*;
use vstd::slice::slice_to_vec;

use crate::HpkeError;
use crate::algs::KemAlg;
use crate::kem::{PrivateKey, PublicKey};

verus! {

/// A pre-shared key with its identifier; in the PSK modes both must be
/// non-empty.
pub struct PskBundle {
    pub psk: Vec<u8>,
    pub psk_id: Vec<u8>,
}

impl PskBundle {
    /// Both parts present: the bundle may enter a key schedule.
    pub open spec fn wf(self) -> bool {
        self.psk@.len() > 0 && self.psk_id@.len() > 0
    }

    /// Builds a bundle, rejecting an empty key or identifier.
    pub fn new(psk: Vec<u8>, psk_id: Vec<u8>) -> (r: Result<PskBundle, HpkeError>)
        ensures
            psk@.len() > 0 && psk_id@.len() > 0 ==> (r matches Ok(b) && b.psk == psk && b.psk_id
                == psk_id && b.wf()),
            !(psk@.len() > 0 && psk_id@.len() > 0) ==> (r matches Err(e) && e
                == HpkeError::ModeValidationError),
    {
        if psk.len() > 0 && psk_id.len() > 0 {
            Ok(PskBundle { psk, psk_id })
        } else {
            Err(HpkeError::ModeValidationError)
        }
    }
}

/// The receiver-side operation mode. The authenticated modes carry the
/// sender's public key; the PSK modes carry the bundle.
pub enum OpModeR {
    Base,
    Psk(PskBundle),
    Auth(PublicKey),
    AuthPsk(PublicKey, PskBundle),
}

/// The sender-side operation mode. The authenticated modes carry the
/// sender's own keypair.
pub enum OpModeS {
    Base,
    Psk(PskBundle),
    Auth((PrivateKey, PublicKey)),
    AuthPsk((PrivateKey, PublicKey), PskBundle),
}

impl OpModeR {
    /// The single mode byte that enters the key-schedule context.
    pub open spec fn mode_id_spec(self) -> u8 {
        match self {
            OpModeR::Base => 0,
            OpModeR::Psk(_) => 1,
            OpModeR::Auth(_) => 2,
            OpModeR::AuthPsk(_, _) => 3,
        }
    }

    pub fn mode_id(&self) -> (r: u8)
        ensures
            r == self.mode_id_spec(),
    {
        match self {
            OpModeR::Base => 0,
            OpModeR::Psk(_) => 1,
            OpModeR::Auth(_) => 2,
            OpModeR::AuthPsk(_, _) => 3,
        }
    }

    /// The PSK that enters the key schedule: the bundle's in the PSK
    /// modes, empty otherwise.
    pub open spec fn psk_seq(self) -> Seq<u8> {
        match self {
            OpModeR::Psk(b) => b.psk@,
            OpModeR::AuthPsk(_, b) => b.psk@,
            _ => Seq::<u8>::empty(),
        }
    }

    /// The PSK identifier that enters the key schedule.
    pub open spec fn psk_id_seq(self) -> Seq<u8> {
        match self {
            OpModeR::Psk(b) => b.psk_id@,
            OpModeR::AuthPsk(_, b) => b.psk_id@,
            _ => Seq::<u8>::empty(),
        }
    }

    /// The sender public key, in the authenticated modes.
    pub open spec fn sender_pk_spec(self) -> Option<PublicKey> {
        match self {
            OpModeR::Auth(pk) => Some(pk),
            OpModeR::AuthPsk(pk, _) => Some(pk),
            _ => None,
        }
    }

    /// Mode validity against the session's KEM: PSK material non-empty,
    /// sender key valid and of the right group.
    pub open spec fn wf(self, kem: KemAlg) -> bool {
        match self {
            OpModeR::Base => true,
            OpModeR::Psk(b) => b.wf(),
            OpModeR::Auth(pk) => pk.wf() && pk.kem == kem,
            OpModeR::AuthPsk(pk, b) => pk.wf() && pk.kem == kem && b.wf(),
        }
    }

    /// A copy of the effective PSK bytes.
    pub fn psk_vec(&self) -> (r: Vec<u8>)
        ensures
            r@ == self.psk_seq(),
    {
        match self {
            OpModeR::Psk(b) => slice_to_vec(b.psk.as_slice()),
            OpModeR::AuthPsk(_, b) => slice_to_vec(b.psk.as_slice()),
            _ => Vec::new(),
        }
    }

    /// A copy of the effective PSK identifier bytes.
    pub fn psk_id_vec(&self) -> (r: Vec<u8>)
        ensures
            r@ == self.psk_id_seq(),
    {
        match self {
            OpModeR::Psk(b) => slice_to_vec(b.psk_id.as_slice()),
            OpModeR::AuthPsk(_, b) => slice_to_vec(b.psk_id.as_slice()),
            _ => Vec::new(),
        }
    }

    /// The sender public key, by reference, in the authenticated modes.
    pub fn sender_pk(&self) -> (r: Option<&PublicKey>)
        ensures
            match r {
                Some(pk) => self.sender_pk_spec() == Some(*pk),
                None => self.sender_pk_spec() is None,
            },
    {
        match self {
            OpModeR::Auth(pk) => Some(pk),
            OpModeR::AuthPsk(pk, _) => Some(pk),
            _ => None,
        }
    }
}

impl OpModeS {
    /// The single mode byte that enters the key-schedule context.
    pub open spec fn mode_id_spec(self) -> u8 {
        match self {
            OpModeS::Base => 0,
            OpModeS::Psk(_) => 1,
            OpModeS::Auth(_) => 2,
            OpModeS::AuthPsk(_, _) => 3,
        }
    }

    pub fn mode_id(&self) -> (r: u8)
        ensures
            r == self.mode_id_spec(),
    {
        match self {
            OpModeS::Base => 0,
            OpModeS::Psk(_) => 1,
            OpModeS::Auth(_) => 2,
            OpModeS::AuthPsk(_, _) => 3,
        }
    }

    /// The PSK that enters the key schedule.
    pub open spec fn psk_seq(self) -> Seq<u8> {
        match self {
            OpModeS::Psk(b) => b.psk@,
            OpModeS::AuthPsk(_, b) => b.psk@,
            _ => Seq::<u8>::empty(),
        }
    }

    /// The PSK identifier that enters the key schedule.
    pub open spec fn psk_id_seq(self) -> Seq<u8> {
        match self {
            OpModeS::Psk(b) => b.psk_id@,
            OpModeS::AuthPsk(_, b) => b.psk_id@,
            _ => Seq::<u8>::empty(),
        }
    }

    /// The sender keypair, in the authenticated modes.
    pub open spec fn sender_keypair_spec(self) -> Option<(PrivateKey, PublicKey)> {
        match self {
            OpModeS::Auth(kp) => Some(kp),
            OpModeS::AuthPsk(kp, _) => Some(kp),
            _ => None,
        }
    }

    /// Mode validity against the session's KEM.
    pub open spec fn wf(self, kem: KemAlg) -> bool {
        match self {
            OpModeS::Base => true,
            OpModeS::Psk(b) => b.wf(),
            OpModeS::Auth(kp) => kp.0.wf() && kp.1.wf() && kp.0.kem == kem && kp.1.kem == kem,
            OpModeS::AuthPsk(kp, b) => kp.0.wf() && kp.1.wf() && kp.0.kem == kem && kp.1.kem == kem
                && b.wf(),
        }
    }

    /// A copy of the effective PSK bytes.
    pub fn psk_vec(&self) -> (r: Vec<u8>)
        ensures
            r@ == self.psk_seq(),
    {
        match self {
            OpModeS::Psk(b) => slice_to_vec(b.psk.as_slice()),
            OpModeS::AuthPsk(_, b) => slice_to_vec(b.psk.as_slice()),
            _ => Vec::new(),
        }
    }

    /// A copy of the effective PSK identifier bytes.
    pub fn psk_id_vec(&self) -> (r: Vec<u8>)
        ensures
            r@ == self.psk_id_seq(),
    {
        match self {
            OpModeS::Psk(b) => slice_to_vec(b.psk_id.as_slice()),
            OpModeS::AuthPsk(_, b) => slice_to_vec(b.psk_id.as_slice()),
            _ => Vec::new(),
        }
    }

    /// The sender keypair, by reference, in the authenticated modes.
    pub fn sender_keypair(&self) -> (r: Option<&(PrivateKey, PublicKey)>)
        ensures
            match r {
                Some(kp) => self.sender_keypair_spec() == Some(*kp),
                None => self.sender_keypair_spec() is None,
            },
    {
        match self {
            OpModeS::Auth(kp) => Some(kp),
            OpModeS::AuthPsk(kp, _) => Some(kp),
            _ => None,
        }
    }
}

/// Whether both PSK parts are present and non-empty.
pub open spec fn psk_material_ok(psk: Option<Vec<u8>>, psk_id: Option<Vec<u8>>) -> bool {
    &&& psk matches Some(p) && p@.len() > 0
    &&& psk_id matches Some(i) && i@.len() > 0
}

/// Whether a receiver mode can be built from these parts.
pub open spec fn mode_r_buildable(
    mode_id: u8,
    pk: Option<PublicKey>,
    psk: Option<Vec<u8>>,
    psk_id: Option<Vec<u8>>,
) -> bool {
    ||| mode_id == 0
    ||| mode_id == 1 && psk_material_ok(psk, psk_id)
    ||| mode_id == 2 && pk is Some
    ||| mode_id == 3 && pk is Some && psk_material_ok(psk, psk_id)
}

/// Builds the `OpModeR` selected by `mode_id` from the optional parts.
/// Fails with a mode-validation error, before any cryptographic work, when
/// the identifier is unknown or required material is missing or empty.
pub fn make_op_mode_r(
    mode_id: u8,
    pk: Option<PublicKey>,
    psk: Option<Vec<u8>>,
    psk_id: Option<Vec<u8>>,
) -> (r: Result<OpModeR, HpkeError>)
    ensures
        (r is Ok) == mode_r_buildable(mode_id, pk, psk, psk_id),
        r matches Ok(m) ==> m.mode_id_spec() == mode_id,
        r matches Ok(m) ==> match m {
            OpModeR::Base => mode_id == 0,
            OpModeR::Psk(b) => Some(b.psk) == psk && Some(b.psk_id) == psk_id && b.wf(),
            OpModeR::Auth(k) => Some(k) == pk,
            OpModeR::AuthPsk(k, b) => Some(k) == pk && Some(b.psk) == psk && Some(b.psk_id)
                == psk_id && b.wf(),
        },
        r matches Err(e) ==> e == HpkeError::ModeValidationError,
{
    if mode_id == 0 {
        Ok(OpModeR::Base)
    } else if mode_id == 1 {
        match (psk, psk_id) {
            (Some(p), Some(i)) => {
                let b = PskBundle::new(p, i)?;
                Ok(OpModeR::Psk(b))
            },
            _ => Err(HpkeError::ModeValidationError),
        }
    } else if mode_id == 2 {
        match pk {
            Some(k) => Ok(OpModeR::Auth(k)),
            None => Err(HpkeError::ModeValidationError),
        }
    } else if mode_id == 3 {
        match (pk, psk, psk_id) {
            (Some(k), Some(p), Some(i)) => {
                let b = PskBundle::new(p, i)?;
                Ok(OpModeR::AuthPsk(k, b))
            },
            _ => Err(HpkeError::ModeValidationError),
        }
    } else {
        Err(HpkeError::ModeValidationError)
    }
}

/// Whether a sender mode can be built from these parts.
pub open spec fn mode_s_buildable(
    mode_id: u8,
    keypair: Option<(PrivateKey, PublicKey)>,
    psk: Option<Vec<u8>>,
    psk_id: Option<Vec<u8>>,
) -> bool {
    ||| mode_id == 0
    ||| mode_id == 1 && psk_material_ok(psk, psk_id)
    ||| mode_id == 2 && keypair is Some
    ||| mode_id == 3 && keypair is Some && psk_material_ok(psk, psk_id)
}

/// Builds the `OpModeS` selected by `mode_id`; the sender-side mirror of
/// `make_op_mode_r`.
pub fn make_op_mode_s(
    mode_id: u8,
    keypair: Option<(PrivateKey, PublicKey)>,
    psk: Option<Vec<u8>>,
    psk_id: Option<Vec<u8>>,
) -> (r: Result<OpModeS, HpkeError>)
    ensures
        (r is Ok) == mode_s_buildable(mode_id, keypair, psk, psk_id),
        r matches Ok(m) ==> m.mode_id_spec() == mode_id,
        r matches Ok(m) ==> match m {
            OpModeS::Base => mode_id == 0,
            OpModeS::Psk(b) => Some(b.psk) == psk && Some(b.psk_id) == psk_id && b.wf(),
            OpModeS::Auth(k) => Some(k) == keypair,
            OpModeS::AuthPsk(k, b) => Some(k) == keypair && Some(b.psk) == psk && Some(b.psk_id)
                == psk_id && b.wf(),
        },
        r matches Err(e) ==> e == HpkeError::ModeValidationError,
{
    if mode_id == 0 {
        Ok(OpModeS::Base)
    } else if mode_id == 1 {
        match (psk, psk_id) {
            (Some(p), Some(i)) => {
                let b = PskBundle::new(p, i)?;
                Ok(OpModeS::Psk(b))
            },
            _ => Err(HpkeError::ModeValidationError),
        }
    } else if mode_id == 2 {
        match keypair {
            Some(k) => Ok(OpModeS::Auth(k)),
            None => Err(HpkeError::ModeValidationError),
        }
    } else if mode_id == 3 {
        match (keypair, psk, psk_id) {
            (Some(k), Some(p), Some(i)) => {
                let b = PskBundle::new(p, i)?;
                Ok(OpModeS::AuthPsk(k, b))
            },
            _ => Err(HpkeError::ModeValidationError),
        }
    } else {
        Err(HpkeError::ModeValidationError)
    }
}

} // verus!
