//! The messages of the pairing ceremony, as they are written in files.
use crate::crypto::{sha256, sha256_digest};
use crate::hex::{decode_fixed, decode_hex_bounded, decoded, decoded_fixed, encode_hex, hex_text};
use crate::pairing::certificate::checked;
use crate::pairing::fault::{viewed, PairingFault};
use crate::pairing::native::{
    same_bytes, same_text, ConfirmationView, IdentityView, LongTermIdentity, OfferView,
    PairingConfirmation, PairingOffer, PairingResponse, PeerId, ResponseView,
};
use vstd::prelude::*;
use vstd::string::StrSliceExecFns;

verus! {

/// The longest signature that is read.
pub const MAX_SIGNATURE_BYTES: usize = 128;

/// Why an identity does not belong to its key, if it does not. `digest` is the
/// digest of the key.
pub open spec fn peer_fault(identity: IdentityView, digest: Seq<u8>) -> Option<PairingFault> {
    if identity.public_key.len() != 32 {
        Some(PairingFault::IdentityKey)
    } else if identity.peer_id != digest || identity.display_name.len() == 0 {
        Some(PairingFault::IdentityPeer)
    } else {
        None
    }
}

/// Whether an identity belongs to its key, whose digest is given.
pub fn check_identity_peer(identity: &LongTermIdentity, digest: &[u8; 32]) -> (result: Result<
    (),
    PairingFault,
>)
    ensures
        result == checked(peer_fault(identity@, digest@)),
{
    if identity.public_key.len() != 32 {
        return Err(PairingFault::IdentityKey);
    }
    if !same_bytes(&identity.peer_id.bytes, digest) || identity.display_name.as_str().unicode_len()
        == 0 {
        return Err(PairingFault::IdentityPeer);
    }
    Ok(())
}

/// Whether an identity belongs to its key: its peer id is the digest of its raw
/// Ed25519 key, and it has a name.
pub fn validate_identity_peer(identity: &LongTermIdentity) -> (result: Result<(), PairingFault>)
    ensures
        result == checked(peer_fault(identity@, sha256_digest(identity@.public_key))),
{
    check_identity_peer(identity, &sha256(identity.public_key.as_slice()))
}

/// What an [`IdentityWire`] says.
#[verifier::ext_equal]
pub ghost struct IdentityWireView {
    pub peer_id: Seq<char>,
    pub public_key_hex: Seq<char>,
    pub display_name: Seq<char>,
}

/// An identity as it is written.
#[derive(Clone, Debug, PartialEq, Eq)]
pub struct IdentityWire {
    pub peer_id: String,
    pub public_key_hex: String,
    pub display_name: String,
}

impl View for IdentityWire {
    type V = IdentityWireView;

    open spec fn view(&self) -> IdentityWireView {
        IdentityWireView {
            peer_id: self.peer_id@,
            public_key_hex: self.public_key_hex@,
            display_name: self.display_name@,
        }
    }
}

impl IdentityWireView {
    /// An identity as it is written.
    pub open spec fn of(identity: IdentityView) -> Self {
        IdentityWireView {
            peer_id: hex_text(identity.peer_id),
            public_key_hex: hex_text(identity.public_key),
            display_name: identity.display_name,
        }
    }

    /// The identity that is written, or why there is none.
    pub open spec fn read(self) -> Result<IdentityView, PairingFault> {
        match (decoded_fixed(self.peer_id, 32), decoded(self.public_key_hex, 32)) {
            (Err(error), _) => Err(PairingFault::Hex(error)),
            (Ok(_), Err(error)) => Err(PairingFault::Hex(error)),
            (Ok(peer_id), Ok(public_key)) => {
                let identity = IdentityView { peer_id, public_key, display_name: self.display_name };
                match peer_fault(identity, sha256_digest(public_key)) {
                    Some(fault) => Err(fault),
                    None => Ok(identity),
                }
            },
        }
    }
}

impl IdentityWire {
    /// An identity as it is written.
    pub fn from_identity(identity: &LongTermIdentity) -> (wire: Self)
        ensures
            wire@ == IdentityWireView::of(identity@),
    {
        IdentityWire {
            peer_id: encode_hex(&identity.peer_id.bytes),
            public_key_hex: encode_hex(identity.public_key.as_slice()),
            display_name: identity.display_name.clone(),
        }
    }

    /// The identity that is written.
    pub fn to_native(&self) -> (result: Result<LongTermIdentity, PairingFault>)
        ensures
            viewed(result) == self@.read(),
    {
        let peer_id: [u8; 32] = match decode_fixed::<32>(self.peer_id.as_str()) {
            Ok(bytes) => bytes,
            Err(error) => return Err(PairingFault::Hex(error)),
        };
        let public_key: Vec<u8> = match decode_hex_bounded(self.public_key_hex.as_str(), 32) {
            Ok(bytes) => bytes,
            Err(error) => return Err(PairingFault::Hex(error)),
        };
        let identity = LongTermIdentity {
            peer_id: PeerId::from_bytes(peer_id),
            public_key,
            display_name: self.display_name.clone(),
        };
        match validate_identity_peer(&identity) {
            Ok(_) => Ok(identity),
            Err(fault) => Err(fault),
        }
    }
}

/// What a [`PairingOfferWire`] says.
#[verifier::ext_equal]
pub ghost struct OfferWireView {
    pub pairing_id: Seq<char>,
    pub initiator: IdentityWireView,
    pub protocol_major: u16,
    pub protocol_minor: u16,
    pub challenge: Seq<char>,
    pub method: Seq<char>,
    pub expires_at_unix_ms: u64,
}

/// An offer as it is written.
#[derive(Clone, Debug, PartialEq, Eq)]
pub struct PairingOfferWire {
    pub pairing_id: String,
    pub initiator: IdentityWire,
    pub protocol_major: u16,
    pub protocol_minor: u16,
    pub challenge: String,
    pub method: String,
    pub expires_at_unix_ms: u64,
}

impl View for PairingOfferWire {
    type V = OfferWireView;

    open spec fn view(&self) -> OfferWireView {
        OfferWireView {
            pairing_id: self.pairing_id@,
            initiator: self.initiator@,
            protocol_major: self.protocol_major,
            protocol_minor: self.protocol_minor,
            challenge: self.challenge@,
            method: self.method@,
            expires_at_unix_ms: self.expires_at_unix_ms,
        }
    }
}

impl OfferWireView {
    /// The offer that is written, or why there is none.
    pub open spec fn read(self) -> Result<OfferView, PairingFault> {
        if self.method != "bilateralConfirmation"@ {
            Err(PairingFault::Method)
        } else {
            match (
                decoded_fixed(self.pairing_id, 16),
                self.initiator.read(),
                decoded_fixed(self.challenge, 32),
            ) {
                (Err(error), _, _) => Err(PairingFault::Hex(error)),
                (Ok(_), Err(fault), _) => Err(fault),
                (Ok(_), Ok(_), Err(error)) => Err(PairingFault::Hex(error)),
                (Ok(pairing_id), Ok(initiator), Ok(challenge)) => Ok(
                    OfferView {
                        pairing_id,
                        initiator,
                        protocol_major: self.protocol_major,
                        protocol_minor: self.protocol_minor,
                        challenge,
                        expires_at_unix_ms: self.expires_at_unix_ms,
                    },
                ),
            }
        }
    }
}

impl PairingOfferWire {
    /// The offer that is written.
    pub fn to_native(&self) -> (result: Result<PairingOffer, PairingFault>)
        ensures
            viewed(result) == self@.read(),
    {
        if !same_text(self.method.as_str(), "bilateralConfirmation") {
            return Err(PairingFault::Method);
        }
        let pairing_id: [u8; 16] = match decode_fixed::<16>(self.pairing_id.as_str()) {
            Ok(bytes) => bytes,
            Err(error) => return Err(PairingFault::Hex(error)),
        };
        let initiator: LongTermIdentity = match self.initiator.to_native() {
            Ok(initiator) => initiator,
            Err(fault) => return Err(fault),
        };
        let challenge: [u8; 32] = match decode_fixed::<32>(self.challenge.as_str()) {
            Ok(bytes) => bytes,
            Err(error) => return Err(PairingFault::Hex(error)),
        };
        Ok(
            PairingOffer {
                pairing_id,
                initiator,
                protocol_major: self.protocol_major,
                protocol_minor: self.protocol_minor,
                challenge,
                expires_at_unix_ms: self.expires_at_unix_ms,
            },
        )
    }
}

/// What a [`PairingResponseWire`] says.
#[verifier::ext_equal]
pub ghost struct ResponseWireView {
    pub pairing_id: Seq<char>,
    pub responder: IdentityWireView,
    pub transcript_hash: Seq<char>,
    pub short_code: Seq<char>,
}

/// The answer to an offer as it is written.
#[derive(Clone, Debug, PartialEq, Eq)]
pub struct PairingResponseWire {
    pub pairing_id: String,
    pub responder: IdentityWire,
    pub transcript_hash: String,
    pub short_code: String,
}

impl View for PairingResponseWire {
    type V = ResponseWireView;

    open spec fn view(&self) -> ResponseWireView {
        ResponseWireView {
            pairing_id: self.pairing_id@,
            responder: self.responder@,
            transcript_hash: self.transcript_hash@,
            short_code: self.short_code@,
        }
    }
}

impl ResponseWireView {
    /// The answer that is written, or why there is none.
    pub open spec fn read(self) -> Result<ResponseView, PairingFault> {
        match (
            decoded_fixed(self.pairing_id, 16),
            self.responder.read(),
            decoded_fixed(self.transcript_hash, 32),
        ) {
            (Err(error), _, _) => Err(PairingFault::Hex(error)),
            (Ok(_), Err(fault), _) => Err(fault),
            (Ok(_), Ok(_), Err(error)) => Err(PairingFault::Hex(error)),
            (Ok(pairing_id), Ok(responder), Ok(transcript_hash)) => Ok(
                ResponseView {
                    pairing_id,
                    responder,
                    transcript_hash,
                    short_code: self.short_code,
                },
            ),
        }
    }
}

impl PairingResponseWire {
    /// The answer that is written.
    pub fn to_native(&self) -> (result: Result<PairingResponse, PairingFault>)
        ensures
            viewed(result) == self@.read(),
    {
        let pairing_id: [u8; 16] = match decode_fixed::<16>(self.pairing_id.as_str()) {
            Ok(bytes) => bytes,
            Err(error) => return Err(PairingFault::Hex(error)),
        };
        let responder: LongTermIdentity = match self.responder.to_native() {
            Ok(responder) => responder,
            Err(fault) => return Err(fault),
        };
        let transcript_hash: [u8; 32] = match decode_fixed::<32>(self.transcript_hash.as_str()) {
            Ok(bytes) => bytes,
            Err(error) => return Err(PairingFault::Hex(error)),
        };
        Ok(
            PairingResponse {
                pairing_id,
                responder,
                transcript_hash,
                short_code: self.short_code.clone(),
            },
        )
    }
}

/// What a [`PairingConfirmationWire`] says.
#[verifier::ext_equal]
pub ghost struct ConfirmationWireView {
    pub pairing_id: Seq<char>,
    pub signer_peer_id: Seq<char>,
    pub transcript_hash: Seq<char>,
    pub signature_hex: Seq<char>,
}

/// A confirmation as it is written.
#[derive(Clone, Debug, PartialEq, Eq)]
pub struct PairingConfirmationWire {
    pub pairing_id: String,
    pub signer_peer_id: String,
    pub transcript_hash: String,
    pub signature_hex: String,
}

impl View for PairingConfirmationWire {
    type V = ConfirmationWireView;

    open spec fn view(&self) -> ConfirmationWireView {
        ConfirmationWireView {
            pairing_id: self.pairing_id@,
            signer_peer_id: self.signer_peer_id@,
            transcript_hash: self.transcript_hash@,
            signature_hex: self.signature_hex@,
        }
    }
}

impl ConfirmationWireView {
    /// A confirmation as it is written, under the pairing id as it was written.
    pub open spec fn of(confirmation: ConfirmationView, pairing_id: Seq<char>) -> Self {
        ConfirmationWireView {
            pairing_id,
            signer_peer_id: hex_text(confirmation.signer_peer_id),
            transcript_hash: hex_text(confirmation.transcript_hash),
            signature_hex: hex_text(confirmation.signature),
        }
    }

    /// The confirmation that is written, or why there is none.
    pub open spec fn read(self) -> Result<ConfirmationView, PairingFault> {
        match (
            decoded_fixed(self.pairing_id, 16),
            decoded_fixed(self.signer_peer_id, 32),
            decoded_fixed(self.transcript_hash, 32),
            decoded(self.signature_hex, MAX_SIGNATURE_BYTES as nat),
        ) {
            (Err(error), _, _, _) => Err(PairingFault::Hex(error)),
            (Ok(_), Err(error), _, _) => Err(PairingFault::Hex(error)),
            (Ok(_), Ok(_), Err(error), _) => Err(PairingFault::Hex(error)),
            (Ok(_), Ok(_), Ok(_), Err(error)) => Err(PairingFault::Hex(error)),
            (Ok(pairing_id), Ok(signer_peer_id), Ok(transcript_hash), Ok(signature)) => Ok(
                ConfirmationView { pairing_id, signer_peer_id, transcript_hash, signature },
            ),
        }
    }
}

impl PairingConfirmationWire {
    /// The confirmation that is written.
    pub fn to_native(&self) -> (result: Result<PairingConfirmation, PairingFault>)
        ensures
            viewed(result) == self@.read(),
    {
        let pairing_id: [u8; 16] = match decode_fixed::<16>(self.pairing_id.as_str()) {
            Ok(bytes) => bytes,
            Err(error) => return Err(PairingFault::Hex(error)),
        };
        let signer_peer_id: [u8; 32] = match decode_fixed::<32>(self.signer_peer_id.as_str()) {
            Ok(bytes) => bytes,
            Err(error) => return Err(PairingFault::Hex(error)),
        };
        let transcript_hash: [u8; 32] = match decode_fixed::<32>(self.transcript_hash.as_str()) {
            Ok(bytes) => bytes,
            Err(error) => return Err(PairingFault::Hex(error)),
        };
        let signature: Vec<u8> = match decode_hex_bounded(
            self.signature_hex.as_str(),
            MAX_SIGNATURE_BYTES,
        ) {
            Ok(bytes) => bytes,
            Err(error) => return Err(PairingFault::Hex(error)),
        };
        Ok(
            PairingConfirmation {
                pairing_id,
                signer_peer_id: PeerId::from_bytes(signer_peer_id),
                transcript_hash,
                signature,
            },
        )
    }

    /// A confirmation as it is written, under the pairing id as it was written.
    pub fn from_native(value: &PairingConfirmation, pairing_id: &str) -> (wire: Self)
        ensures
            wire@ == ConfirmationWireView::of(value@, pairing_id@),
    {
        PairingConfirmationWire {
            pairing_id: pairing_id.to_owned(),
            signer_peer_id: encode_hex(&value.signer_peer_id.bytes),
            transcript_hash: encode_hex(&value.transcript_hash),
            signature_hex: encode_hex(value.signature.as_slice()),
        }
    }
}

/// What is written of an identity that belongs to its key is read back
/// unchanged.
pub proof fn law_identity_survives_writing(identity: IdentityView)
    requires
        identity.peer_id.len() == 32,
        peer_fault(identity, sha256_digest(identity.public_key)) is None,
    ensures
        IdentityWireView::of(identity).read() == Ok::<IdentityView, PairingFault>(identity),
{
    crate::hex::law_decode_undoes_encode(identity.peer_id, 32);
    crate::hex::law_decode_undoes_encode(identity.public_key, 32);
}

/// What is written of a confirmation is read back unchanged, where its
/// signature is not too long and it is written under its own pairing id.
pub proof fn law_confirmation_survives_writing(confirmation: ConfirmationView)
    requires
        confirmation.pairing_id.len() == 16,
        confirmation.signer_peer_id.len() == 32,
        confirmation.transcript_hash.len() == 32,
        confirmation.signature.len() <= MAX_SIGNATURE_BYTES,
    ensures
        ConfirmationWireView::of(confirmation, hex_text(confirmation.pairing_id)).read() == Ok::<
            ConfirmationView,
            PairingFault,
        >(confirmation),
{
    crate::hex::law_decode_undoes_encode(confirmation.pairing_id, 16);
    crate::hex::law_decode_undoes_encode(confirmation.signer_peer_id, 32);
    crate::hex::law_decode_undoes_encode(confirmation.transcript_hash, 32);
    crate::hex::law_decode_undoes_encode(confirmation.signature, MAX_SIGNATURE_BYTES as nat);
}

/// An identity that was read belongs to its key: no name, peer id or key can be
/// exchanged for another.
pub proof fn law_read_identity_belongs_to_its_key(wire: IdentityWireView)
    requires
        wire.read() is Ok,
    ensures
        wire.read()->Ok_0.public_key.len() == 32,
        wire.read()->Ok_0.peer_id == sha256_digest(wire.read()->Ok_0.public_key),
        wire.read()->Ok_0.display_name.len() > 0,
{
}


/// Every field is written under its own name: the peer id, the key and the name
/// of an identity, and the signer, the transcript and the signature of a
/// confirmation, which stands under the pairing id as it was given.
pub proof fn law_fields_are_written_under_their_names(
    identity: IdentityView,
    confirmation: ConfirmationView,
    pairing_id: Seq<char>,
)
    ensures
        IdentityWireView::of(identity).peer_id == hex_text(identity.peer_id),
        IdentityWireView::of(identity).public_key_hex == hex_text(identity.public_key),
        IdentityWireView::of(identity).display_name == identity.display_name,
        ConfirmationWireView::of(confirmation, pairing_id).pairing_id == pairing_id,
        ConfirmationWireView::of(confirmation, pairing_id).signer_peer_id == hex_text(
            confirmation.signer_peer_id,
        ),
        ConfirmationWireView::of(confirmation, pairing_id).transcript_hash == hex_text(
            confirmation.transcript_hash,
        ),
        ConfirmationWireView::of(confirmation, pairing_id).signature_hex == hex_text(
            confirmation.signature,
        ),
{
}

/// An identity is read exactly where its peer id has thirty-two bytes, its key
/// has as many, the peer id is the digest of the key, and it has a name; each
/// part comes from the field of its name.
pub proof fn law_identity_is_read_from_its_fields(wire: IdentityWireView)
    ensures
        wire.read() is Ok <==> {
            &&& decoded_fixed(wire.peer_id, 32) matches Ok(peer_id)
            &&& decoded(wire.public_key_hex, 32) matches Ok(public_key)
            &&& public_key.len() == 32
            &&& peer_id == sha256_digest(public_key)
            &&& wire.display_name.len() > 0
        },
        wire.read() matches Ok(identity) ==> {
            &&& decoded_fixed(wire.peer_id, 32) == Ok::<Seq<u8>, crate::hex::HexError>(
                identity.peer_id,
            )
            &&& decoded(wire.public_key_hex, 32) == Ok::<Seq<u8>, crate::hex::HexError>(
                identity.public_key,
            )
            &&& identity.display_name == wire.display_name
        },
{
}

/// An offer is read exactly where it is one of bilateral confirmation, its
/// pairing id has sixteen bytes, its challenge thirty-two, and its initiator can
/// be read; each part comes from the field of its name.
pub proof fn law_offer_is_read_from_its_fields(wire: OfferWireView)
    ensures
        wire.read() is Ok <==> {
            &&& wire.method == "bilateralConfirmation"@
            &&& decoded_fixed(wire.pairing_id, 16) is Ok
            &&& decoded_fixed(wire.challenge, 32) is Ok
            &&& wire.initiator.read() is Ok
        },
        wire.method != "bilateralConfirmation"@ ==> wire.read() == Err::<OfferView, PairingFault>(
            PairingFault::Method,
        ),
        wire.read() matches Ok(offer) ==> {
            &&& decoded_fixed(wire.pairing_id, 16) == Ok::<Seq<u8>, crate::hex::HexError>(
                offer.pairing_id,
            )
            &&& decoded_fixed(wire.challenge, 32) == Ok::<Seq<u8>, crate::hex::HexError>(
                offer.challenge,
            )
            &&& wire.initiator.read() == Ok::<IdentityView, PairingFault>(offer.initiator)
            &&& offer.protocol_major == wire.protocol_major
            &&& offer.protocol_minor == wire.protocol_minor
            &&& offer.expires_at_unix_ms == wire.expires_at_unix_ms
        },
{
}

/// An answer and a confirmation are read exactly where every one of their fields
/// can be, and each part comes from the field of its name. A signature has at
/// most 128 bytes.
pub proof fn law_answers_are_read_from_their_fields(
    response: ResponseWireView,
    confirmation: ConfirmationWireView,
)
    ensures
        response.read() is Ok <==> {
            &&& decoded_fixed(response.pairing_id, 16) is Ok
            &&& decoded_fixed(response.transcript_hash, 32) is Ok
            &&& response.responder.read() is Ok
        },
        response.read() matches Ok(read) ==> {
            &&& decoded_fixed(response.pairing_id, 16) == Ok::<Seq<u8>, crate::hex::HexError>(
                read.pairing_id,
            )
            &&& decoded_fixed(response.transcript_hash, 32) == Ok::<Seq<u8>, crate::hex::HexError>(
                read.transcript_hash,
            )
            &&& response.responder.read() == Ok::<IdentityView, PairingFault>(read.responder)
            &&& read.short_code == response.short_code
        },
        confirmation.read() is Ok <==> {
            &&& decoded_fixed(confirmation.pairing_id, 16) is Ok
            &&& decoded_fixed(confirmation.signer_peer_id, 32) is Ok
            &&& decoded_fixed(confirmation.transcript_hash, 32) is Ok
            &&& decoded(confirmation.signature_hex, 128) is Ok
        },
        confirmation.read() matches Ok(read) ==> {
            &&& decoded_fixed(confirmation.pairing_id, 16) == Ok::<Seq<u8>, crate::hex::HexError>(
                read.pairing_id,
            )
            &&& decoded_fixed(confirmation.signer_peer_id, 32) == Ok::<
                Seq<u8>,
                crate::hex::HexError,
            >(read.signer_peer_id)
            &&& decoded_fixed(confirmation.transcript_hash, 32) == Ok::<
                Seq<u8>,
                crate::hex::HexError,
            >(read.transcript_hash)
            &&& decoded(confirmation.signature_hex, 128) == Ok::<Seq<u8>, crate::hex::HexError>(
                read.signature,
            )
        },
{
}

} // verus!
