//! The steps of a pairing ceremony, and of a restart after one.
//!
//! The ceremony itself and the trust store belong to the link; between the
//! steps here, the caller runs the one and reads and writes the other.
use crate::crypto::{certificate_key, sha256, sha256_digest};
use crate::hex::{decode_fixed, decode_hex_bounded, decoded, decoded_fixed, encode_hex, hex_text};
use crate::pairing::certificate::{
    certificate_public_key, fingerprint_fault, raw_key, validate_fingerprint,
    MAX_CERTIFICATE_BYTES,
};
use crate::pairing::exchange::{
    validate_exchange, ExchangeView, ExchangeWireView, SenderExchangeWire, ValidatedExchange,
};
use crate::pairing::fault::{viewed, PairingFault};
use crate::pairing::identity::{ReceiverIdentity, ReceiverIdentityView, PAIRING_VERSION};
use crate::pairing::invitation::{service, service_name, InvitationView, InvitationWire};
use crate::pairing::message::{ConfirmationWireView, PairingConfirmationWire};
use crate::pairing::native::{
    copied, endpoint_from_peer, endpoint_of, same_bytes, same_text, sender_permissions,
    ConfirmationView, EndpointId, KeyState, OfferView, PairingConfirmation, PairingOffer, PeerId,
    TrustRecordView,
};
use crate::pairing::state::{
    challenge_digest, challenge_fault, challenge_mark, recovery, reject_consumed_challenge,
    validate_exchange_matches_profile, PairedSenderProfile, PairingStateView, ProfileStatus,
    ProfileView, ReceiverPairingState, RecoveryAction, MAX_CONSUMED_CHALLENGES,
};
use vstd::prelude::*;

verus! {

/// What a [`PairingCompletion`] says.
#[verifier::ext_equal]
pub ghost struct CompletionView {
    pub sender_endpoint_id: Seq<u8>,
    pub sender_certificate_der: Seq<u8>,
    pub receiver_confirmation_json: Option<Seq<char>>,
}

/// The paired sender: where it is reached, which certificate it must show, and
/// the confirmation that is still to be handed to it.
#[derive(Clone, Debug, PartialEq, Eq)]
pub struct PairingCompletion {
    pub sender_endpoint_id: EndpointId,
    pub sender_certificate_der: Vec<u8>,
    pub receiver_confirmation_json: Option<String>,
}

impl View for PairingCompletion {
    type V = CompletionView;

    open spec fn view(&self) -> CompletionView {
        CompletionView {
            sender_endpoint_id: self.sender_endpoint_id@,
            sender_certificate_der: self.sender_certificate_der@,
            receiver_confirmation_json: match self.receiver_confirmation_json {
                Some(json) => Some(json@),
                None => None,
            },
        }
    }
}

/// What a [`RestoredSender`] says.
#[verifier::ext_equal]
pub ghost struct RestoredView {
    pub completion: CompletionView,
    pub peer_id: Seq<u8>,
    pub public_key: Seq<u8>,
}

/// A paired sender that was read from a profile. The link's trust store has to
/// authorise the peer with this key before it is used.
#[derive(Clone, Debug, PartialEq, Eq)]
pub struct RestoredSender {
    pub completion: PairingCompletion,
    pub peer_id: PeerId,
    pub public_key: [u8; 32],
}

impl View for RestoredSender {
    type V = RestoredView;

    open spec fn view(&self) -> RestoredView {
        RestoredView {
            completion: self.completion@,
            peer_id: self.peer_id@,
            public_key: self.public_key@,
        }
    }
}

impl ProfileView {
    /// The sender that the profile names, given what its certificate turned out
    /// to be, or why it names none.
    pub open spec fn sender_from(
        self,
        peer_id: Seq<u8>,
        endpoint_id: Seq<u8>,
        certificate: Seq<u8>,
        key: Seq<u8>,
        key_digest: Seq<u8>,
        resend_confirmation: bool,
    ) -> Result<RestoredView, PairingFault> {
        if peer_id != key_digest {
            Err(PairingFault::ProfileCertificate)
        } else {
            Ok(
                RestoredView {
                    completion: CompletionView {
                        sender_endpoint_id: endpoint_id,
                        sender_certificate_der: certificate,
                        receiver_confirmation_json: if resend_confirmation {
                            Some(self.receiver_confirmation_json)
                        } else {
                            None
                        },
                    },
                    peer_id,
                    public_key: key,
                },
            )
        }
    }

    /// The sender that the profile names, or why it names none.
    pub open spec fn sender(self, resend_confirmation: bool) -> Result<RestoredView, PairingFault> {
        match (decoded_fixed(self.peer_id, 32), decoded_fixed(self.endpoint_id, 16)) {
            (Err(error), _) => Err(PairingFault::Hex(error)),
            (Ok(_), Err(error)) => Err(PairingFault::Hex(error)),
            (Ok(peer_id), Ok(endpoint_id)) => if endpoint_id != endpoint_of(peer_id) {
                Err(PairingFault::ProfileEndpoint)
            } else {
                match decoded(self.certificate_der_hex, MAX_CERTIFICATE_BYTES as nat) {
                    Err(error) => Err(PairingFault::Hex(error)),
                    Ok(certificate) => match (
                        fingerprint_fault(sha256_digest(certificate), self.certificate_sha256),
                        raw_key(certificate_key(certificate)),
                    ) {
                        (Some(fault), _) => Err(fault),
                        (None, Err(fault)) => Err(fault),
                        (None, Ok(key)) => self.sender_from(
                            peer_id,
                            endpoint_id,
                            certificate,
                            key,
                            sha256_digest(key),
                            resend_confirmation,
                        ),
                    },
                }
            },
        }
    }
}

impl PairedSenderProfile {
    /// The sender that the profile names, given what its certificate turned out
    /// to be.
    pub fn restore_from(
        &self,
        peer_id: PeerId,
        endpoint_id: EndpointId,
        certificate: Vec<u8>,
        key: [u8; 32],
        key_digest: [u8; 32],
        resend_confirmation: bool,
    ) -> (result: Result<RestoredSender, PairingFault>)
        ensures
            viewed(result) == self@.sender_from(
                peer_id@,
                endpoint_id@,
                certificate@,
                key@,
                key_digest@,
                resend_confirmation,
            ),
    {
        if !same_bytes(&peer_id.bytes, &key_digest) {
            return Err(PairingFault::ProfileCertificate);
        }
        Ok(
            RestoredSender {
                completion: PairingCompletion {
                    sender_endpoint_id: endpoint_id,
                    sender_certificate_der: certificate,
                    receiver_confirmation_json: if resend_confirmation {
                        Some(self.receiver_confirmation_json.clone())
                    } else {
                        None
                    },
                },
                peer_id,
                public_key: key,
            },
        )
    }
}

/// The sender that a profile names. Its certificate, peer id and endpoint id
/// must belong together.
pub fn completion_from_profile(profile: &PairedSenderProfile, resend_confirmation: bool) -> (result:
    Result<RestoredSender, PairingFault>)
    ensures
        viewed(result) == profile@.sender(resend_confirmation),
{
    let peer: [u8; 32] = match decode_fixed::<32>(profile.peer_id.as_str()) {
        Ok(bytes) => bytes,
        Err(error) => return Err(PairingFault::Hex(error)),
    };
    let endpoint: [u8; 16] = match decode_fixed::<16>(profile.endpoint_id.as_str()) {
        Ok(bytes) => bytes,
        Err(error) => return Err(PairingFault::Hex(error)),
    };
    let expected: EndpointId = endpoint_from_peer(peer);
    if !same_bytes(&endpoint, &expected.bytes) {
        return Err(PairingFault::ProfileEndpoint);
    }
    let certificate: Vec<u8> = match decode_hex_bounded(
        profile.certificate_der_hex.as_str(),
        MAX_CERTIFICATE_BYTES,
    ) {
        Ok(bytes) => bytes,
        Err(error) => return Err(PairingFault::Hex(error)),
    };
    match validate_fingerprint(certificate.as_slice(), profile.certificate_sha256.as_str()) {
        Ok(_) => {},
        Err(fault) => return Err(fault),
    }
    let key: [u8; 32] = match certificate_public_key(certificate.as_slice()) {
        Ok(key) => key,
        Err(fault) => return Err(fault),
    };
    profile.restore_from(
        PeerId::from_bytes(peer),
        EndpointId::from_bytes(endpoint),
        certificate,
        key,
        sha256(&key),
        resend_confirmation,
    )
}

/// The sender that is paired with this receiver.
pub fn load_paired_sender(state: &ReceiverPairingState) -> (result: Result<
    RestoredSender,
    PairingFault,
>)
    ensures
        viewed(result) == match state@.paired_sender {
            Some(profile) => profile.sender(false),
            None => Err::<RestoredView, PairingFault>(PairingFault::NotPaired),
        },
{
    match &state.paired_sender {
        Some(profile) => completion_from_profile(profile, false),
        None => Err(PairingFault::NotPaired),
    }
}

/// The sender that is paired with this receiver, if one is.
pub fn paired_sender_if_present(state: &ReceiverPairingState) -> (result: Result<
    Option<RestoredSender>,
    PairingFault,
>)
    ensures
        match (state@.paired_sender, result) {
            (None, result) => result == Ok::<Option<RestoredSender>, PairingFault>(None),
            (Some(profile), Ok(Some(sender))) => profile.sender(false) == Ok::<
                RestoredView,
                PairingFault,
            >(sender@),
            (Some(profile), Ok(None)) => false,
            (Some(profile), Err(fault)) => profile.sender(false) == Err::<
                RestoredView,
                PairingFault,
            >(fault),
        },
{
    match &state.paired_sender {
        None => Ok(None),
        Some(profile) => match completion_from_profile(profile, false) {
            Ok(sender) => Ok(Some(sender)),
            Err(fault) => Err(fault),
        },
    }
}

/// The offer of an invitation that an exchange answers, or why the exchange
/// does not answer it.
pub open spec fn answered_offer(
    state: PairingStateView,
    identity: ReceiverIdentityView,
    invitation: InvitationView,
    exchange: ExchangeView,
) -> Result<OfferView, PairingFault> {
    match (
        invitation.mismatch(identity),
        challenge_fault(state.consumed_challenges, invitation.pairing_offer.challenge),
    ) {
        (Some(fault), _) => Err(fault),
        (None, challenge) => if invitation.pairing_offer.pairing_id
            != exchange.wire.pairing_response.pairing_id {
            Err(PairingFault::PairingId)
        } else {
            match challenge {
                Some(fault) => Err(fault),
                None => invitation.pairing_offer.read(),
            }
        },
    }
}

/// The offer of an invitation that an exchange answers.
fn match_answer(
    state: &ReceiverPairingState,
    invitation: &InvitationWire,
    exchange: &ValidatedExchange,
) -> (result: Result<PairingOffer, PairingFault>)
    ensures
        viewed(result) == if invitation@.pairing_offer.pairing_id
            != exchange@.wire.pairing_response.pairing_id {
            Err::<OfferView, PairingFault>(PairingFault::PairingId)
        } else {
            match challenge_fault(
                state@.consumed_challenges,
                invitation@.pairing_offer.challenge,
            ) {
                Some(fault) => Err(fault),
                None => invitation@.pairing_offer.read(),
            }
        },
{
    if !same_text(
        invitation.pairing_offer.pairing_id.as_str(),
        exchange.wire.pairing_response.pairing_id.as_str(),
    ) {
        return Err(PairingFault::PairingId);
    }
    match reject_consumed_challenge(state, invitation.pairing_offer.challenge.as_str()) {
        Ok(_) => {},
        Err(fault) => return Err(fault),
    }
    invitation.pairing_offer.to_native()
}

/// What a [`PairingCeremony`] works on.
#[verifier::ext_equal]
pub ghost struct CeremonyView {
    pub invitation: InvitationView,
    pub offer: OfferView,
    pub exchange: ExchangeView,
}

/// An invitation, the exchange that answers it, and the offer to run the
/// ceremony with.
#[derive(Clone, Debug, PartialEq, Eq)]
pub struct PairingCeremony {
    pub invitation: InvitationWire,
    pub offer: PairingOffer,
    pub exchange: ValidatedExchange,
}

impl View for PairingCeremony {
    type V = CeremonyView;

    open spec fn view(&self) -> CeremonyView {
        CeremonyView {
            invitation: self.invitation@,
            offer: self.offer@,
            exchange: self.exchange@,
        }
    }
}

/// An invitation that may not have been readable, seen through its view.
pub open spec fn readable_invitation(invitation: Option<InvitationWire>) -> Option<InvitationView> {
    match invitation {
        Some(invitation) => Some(invitation@),
        None => None,
    }
}

/// An exchange that may not have been readable, seen through its view.
pub open spec fn readable_exchange(exchange: Option<SenderExchangeWire>) -> Option<
    ExchangeWireView,
> {
    match exchange {
        Some(exchange) => Some(exchange@),
        None => None,
    }
}

/// The ceremony that a preview runs, or why it runs none.
pub open spec fn previewed(
    identity: ReceiverIdentityView,
    state: PairingStateView,
    invitation: Option<InvitationView>,
    exchange: Option<ExchangeWireView>,
) -> Result<CeremonyView, PairingFault> {
    if state.paired_sender is Some {
        Err(PairingFault::AlreadyPaired)
    } else {
        match (invitation, exchange) {
            (None, _) => Err(PairingFault::InvitationSyntax),
            (Some(invitation), exchange) => match (invitation.mismatch(identity), exchange) {
                (Some(fault), _) => Err(fault),
                (None, None) => Err(PairingFault::ExchangeSyntax),
                (None, Some(wire)) => match wire.validated() {
                    Err(fault) => Err(fault),
                    Ok(exchange) => match answered_offer(state, identity, invitation, exchange) {
                        Err(fault) => Err(fault),
                        Ok(offer) => Ok(CeremonyView { invitation, offer, exchange }),
                    },
                },
            },
        }
    }
}

/// Checks what is needed to preview a pairing: no sender is paired, the
/// invitation is one of this receiver and the exchange answers it. `None`
/// stands for a file that could not be read as one. The ceremony is then run
/// with the offer and the response, up to its short code.
pub fn preview_pairing(
    identity: &ReceiverIdentity,
    state: &ReceiverPairingState,
    invitation: Option<InvitationWire>,
    exchange: Option<SenderExchangeWire>,
) -> (result: Result<PairingCeremony, PairingFault>)
    ensures
        viewed(result) == previewed(
            identity@,
            state@,
            readable_invitation(invitation),
            readable_exchange(exchange),
        ),
{
    if state.paired_sender.is_some() {
        return Err(PairingFault::AlreadyPaired);
    }
    let invitation: InvitationWire = match invitation {
        Some(invitation) => invitation,
        None => return Err(PairingFault::InvitationSyntax),
    };
    match invitation.validate_for(identity) {
        Ok(_) => {},
        Err(fault) => return Err(fault),
    }
    let wire: SenderExchangeWire = match exchange {
        Some(wire) => wire,
        None => return Err(PairingFault::ExchangeSyntax),
    };
    let exchange: ValidatedExchange = match validate_exchange(wire) {
        Ok(exchange) => exchange,
        Err(fault) => return Err(fault),
    };
    match match_answer(state, &invitation, &exchange) {
        Ok(offer) => Ok(PairingCeremony { invitation, offer, exchange }),
        Err(fault) => Err(fault),
    }
}

/// What the operator compares before a pairing is confirmed.
#[derive(Clone, Debug, PartialEq, Eq)]
pub struct PairingPreview {
    pub sender_name: String,
    pub sender_peer_id: String,
    pub certificate_sha256: String,
    pub short_code: String,
    pub expires_at_unix_ms: u64,
}

/// What a [`PairingPreview`] says.
#[verifier::ext_equal]
pub ghost struct PreviewView {
    pub sender_name: Seq<char>,
    pub sender_peer_id: Seq<char>,
    pub certificate_sha256: Seq<char>,
    pub short_code: Seq<char>,
    pub expires_at_unix_ms: u64,
}

impl View for PairingPreview {
    type V = PreviewView;

    open spec fn view(&self) -> PreviewView {
        PreviewView {
            sender_name: self.sender_name@,
            sender_peer_id: self.sender_peer_id@,
            certificate_sha256: self.certificate_sha256@,
            short_code: self.short_code@,
            expires_at_unix_ms: self.expires_at_unix_ms,
        }
    }
}

impl CeremonyView {
    /// The preview of this ceremony, which came to a peer name and a short code.
    pub open spec fn preview(self, peer_name: Seq<char>, short_code: Seq<char>) -> PreviewView {
        PreviewView {
            sender_name: peer_name,
            sender_peer_id: hex_text(self.exchange.sender_peer_id),
            certificate_sha256: hex_text(sha256_digest(self.exchange.sender_certificate_der)),
            short_code,
            expires_at_unix_ms: self.invitation.pairing_offer.expires_at_unix_ms,
        }
    }

    /// The receiver's confirmation as it is handed to the sender of this
    /// ceremony.
    pub open spec fn envelope(self, confirmation: ConfirmationView) -> EnvelopeView {
        EnvelopeView {
            version: PAIRING_VERSION,
            service: service(),
            receiver_confirmation: ConfirmationWireView::of(
                confirmation,
                self.invitation.pairing_offer.pairing_id,
            ),
        }
    }
}

/// The preview of a ceremony that came to a peer name and a short code.
pub fn show_preview(ceremony: &PairingCeremony, peer_name: String, short_code: String) -> (preview:
    PairingPreview)
    ensures
        preview@ == ceremony@.preview(peer_name@, short_code@),
        preview.sender_name == peer_name,
        preview.short_code == short_code,
{
    PairingPreview {
        sender_name: peer_name,
        sender_peer_id: encode_hex(&ceremony.exchange.sender_peer_id.bytes),
        certificate_sha256: encode_hex(&sha256(ceremony.exchange.sender_certificate_der.as_slice())),
        short_code,
        expires_at_unix_ms: ceremony.invitation.pairing_offer.expires_at_unix_ms,
    }
}

/// Where a confirmed exchange leads.
#[derive(Clone, Debug, PartialEq, Eq)]
pub enum PairingRoute {
    /// Its sender is paired already: the confirmation is handed out again.
    Resend(RestoredSender),
    /// No sender is paired: the ceremony is to be run.
    Pair,
}

/// Decides where a confirmed exchange leads, once the trust of the state was
/// recovered.
pub fn complete_or_load_pairing(state: &ReceiverPairingState, exchange: &ValidatedExchange) -> (
    result: Result<PairingRoute, PairingFault>)
    ensures
        match state@.paired_sender {
            None => result == Ok::<PairingRoute, PairingFault>(PairingRoute::Pair),
            Some(profile) => if !profile.matches(exchange@) {
                result == Err::<PairingRoute, PairingFault>(PairingFault::ProfileMismatch)
            } else {
                match profile.sender(true) {
                    Ok(sender) => result matches Ok(PairingRoute::Resend(restored)) && restored@
                        == sender,
                    Err(fault) => result == Err::<PairingRoute, PairingFault>(fault),
                }
            },
        },
{
    match &state.paired_sender {
        None => Ok(PairingRoute::Pair),
        Some(profile) => {
            match validate_exchange_matches_profile(exchange, profile) {
                Ok(_) => {},
                Err(fault) => return Err(fault),
            }
            match completion_from_profile(profile, true) {
                Ok(sender) => Ok(PairingRoute::Resend(sender)),
                Err(fault) => Err(fault),
            }
        },
    }
}

/// The invitation that a first pairing is confirmed with.
#[derive(Clone, Debug, PartialEq, Eq)]
pub enum InvitationInput {
    Missing,
    /// The file could not be read as an invitation.
    Unreadable,
    Read(InvitationWire),
}

/// The ceremony of a first pairing, or why there is none. `trusted` says that
/// the trust store knows the sender already.
pub open spec fn opened(
    identity: ReceiverIdentityView,
    state: PairingStateView,
    trusted: bool,
    invitation: InvitationInput,
    exchange: ExchangeView,
) -> Result<CeremonyView, PairingFault> {
    if trusted {
        Err(PairingFault::TrustWithoutProfile)
    } else {
        match invitation {
            InvitationInput::Missing => Err(PairingFault::InvitationRequired),
            InvitationInput::Unreadable => Err(PairingFault::InvitationSyntax),
            InvitationInput::Read(invitation) => match answered_offer(
                state,
                identity,
                invitation@,
                exchange,
            ) {
                Err(fault) => Err(fault),
                Ok(offer) => Ok(CeremonyView { invitation: invitation@, offer, exchange }),
            },
        }
    }
}

/// Opens the ceremony of a first pairing: the trust store must not know the
/// sender, the invitation must be one of this receiver, its challenge must not
/// be consumed, and the exchange must answer it.
pub fn open_pairing(
    identity: &ReceiverIdentity,
    state: &ReceiverPairingState,
    trusted: bool,
    invitation: InvitationInput,
    exchange: ValidatedExchange,
) -> (result: Result<PairingCeremony, PairingFault>)
    ensures
        viewed(result) == opened(identity@, state@, trusted, invitation, exchange@),
{
    if trusted {
        return Err(PairingFault::TrustWithoutProfile);
    }
    let invitation: InvitationWire = match invitation {
        InvitationInput::Missing => return Err(PairingFault::InvitationRequired),
        InvitationInput::Unreadable => return Err(PairingFault::InvitationSyntax),
        InvitationInput::Read(invitation) => invitation,
    };
    match invitation.validate_for(identity) {
        Ok(_) => {},
        Err(fault) => return Err(fault),
    }
    match match_answer(state, &invitation, &exchange) {
        Ok(offer) => Ok(PairingCeremony { invitation, offer, exchange }),
        Err(fault) => Err(fault),
    }
}

/// A ceremony that did not end in a pairing is refused.
pub fn require_paired(reached_paired: bool) -> (result: Result<(), PairingFault>)
    ensures
        result == if reached_paired {
            Ok::<(), PairingFault>(())
        } else {
            Err(PairingFault::CeremonyUnfinished)
        },
{
    if reached_paired {
        Ok(())
    } else {
        Err(PairingFault::CeremonyUnfinished)
    }
}

/// What a [`ReceiverConfirmationEnvelope`] says.
#[verifier::ext_equal]
pub ghost struct EnvelopeView {
    pub version: u8,
    pub service: Seq<char>,
    pub receiver_confirmation: ConfirmationWireView,
}

/// The receiver's confirmation as it is handed to the sender.
#[derive(Clone, Debug, PartialEq, Eq)]
pub struct ReceiverConfirmationEnvelope {
    pub version: u8,
    pub service: String,
    pub receiver_confirmation: PairingConfirmationWire,
}

impl View for ReceiverConfirmationEnvelope {
    type V = EnvelopeView;

    open spec fn view(&self) -> EnvelopeView {
        EnvelopeView {
            version: self.version,
            service: self.service@,
            receiver_confirmation: self.receiver_confirmation@,
        }
    }
}

/// The receiver's confirmation under the pairing id of the invitation.
pub fn confirmation_envelope(ceremony: &PairingCeremony, confirmation: &PairingConfirmation) -> (
    envelope: ReceiverConfirmationEnvelope)
    ensures
        envelope@ == ceremony@.envelope(confirmation@),
{
    ReceiverConfirmationEnvelope {
        version: PAIRING_VERSION,
        service: service_name().to_owned(),
        receiver_confirmation: PairingConfirmationWire::from_native(
            confirmation,
            ceremony.invitation.pairing_offer.pairing_id.as_str(),
        ),
    }
}

/// The profile of a sender that was just paired.
pub open spec fn new_profile(
    ceremony: CeremonyView,
    confirmation_json: Seq<char>,
    now_unix_ms: u64,
    challenge_hash: Seq<u8>,
) -> ProfileView {
    ProfileView {
        status: ProfileStatus::PendingTrust,
        peer_id: hex_text(ceremony.exchange.sender_peer_id),
        endpoint_id: hex_text(ceremony.exchange.expected_endpoint),
        certificate_der_hex: hex_text(ceremony.exchange.sender_certificate_der),
        certificate_sha256: hex_text(sha256_digest(ceremony.exchange.sender_certificate_der)),
        pairing_id: ceremony.invitation.pairing_offer.pairing_id,
        receiver_confirmation_json: confirmation_json,
        sender_name: ceremony.exchange.wire.pairing_response.responder.display_name,
        paired_at_unix_ms: now_unix_ms,
        challenge_hash: hex_text(challenge_hash),
    }
}

/// The state after a sender was paired, before the trust store holds it.
pub open spec fn paired_state(
    state: PairingStateView,
    ceremony: CeremonyView,
    confirmation_json: Seq<char>,
    now_unix_ms: u64,
    challenge_hash: Seq<u8>,
) -> Result<PairingStateView, PairingFault> {
    match challenge_mark(ceremony.invitation.pairing_offer.challenge) {
        Err(fault) => Err(fault),
        Ok(mark) => Ok(
            PairingStateView {
                version: PAIRING_VERSION,
                paired_sender: Some(
                    new_profile(ceremony, confirmation_json, now_unix_ms, challenge_hash),
                ),
                consumed_challenges: state.consumed_challenges.push(mark),
            },
        ),
    }
}

/// Records that a sender was paired: its profile waits for its trust, and the
/// challenge of the invitation is consumed. The state is to be stored, the
/// trust record put into the trust store, and only then the profile committed
/// and the state stored again.
pub fn record_pairing(
    state: &mut ReceiverPairingState,
    ceremony: &PairingCeremony,
    confirmation_json: &str,
    now_unix_ms: u64,
    challenge_hash: [u8; 32],
) -> (result: Result<PairingCompletion, PairingFault>)
    ensures
        match paired_state(old(state)@, ceremony@, confirmation_json@, now_unix_ms, challenge_hash@) {
            Ok(next) => {
                &&& final(state)@ == next
                &&& result matches Ok(completion)
                &&& completion@ == (CompletionView {
                    sender_endpoint_id: ceremony@.exchange.expected_endpoint,
                    sender_certificate_der: ceremony@.exchange.sender_certificate_der,
                    receiver_confirmation_json: Some(confirmation_json@),
                })
            },
            Err(fault) => {
                &&& final(state)@ == old(state)@
                &&& result == Err::<PairingCompletion, PairingFault>(fault)
            },
        },
{
    let mark: String = match challenge_digest(ceremony.invitation.pairing_offer.challenge.as_str()) {
        Ok(mark) => mark,
        Err(fault) => return Err(fault),
    };
    let exchange: &ValidatedExchange = &ceremony.exchange;
    state.version = PAIRING_VERSION;
    state.consumed_challenges.push(mark);
    state.paired_sender = Some(
        PairedSenderProfile {
            status: ProfileStatus::PendingTrust,
            peer_id: encode_hex(&exchange.sender_peer_id.bytes),
            endpoint_id: encode_hex(&exchange.expected_endpoint.bytes),
            certificate_der_hex: encode_hex(exchange.sender_certificate_der.as_slice()),
            certificate_sha256: encode_hex(&sha256(exchange.sender_certificate_der.as_slice())),
            pairing_id: ceremony.invitation.pairing_offer.pairing_id.clone(),
            receiver_confirmation_json: confirmation_json.to_owned(),
            sender_name: exchange.wire.pairing_response.responder.display_name.clone(),
            paired_at_unix_ms: now_unix_ms,
            challenge_hash: encode_hex(&challenge_hash),
        },
    );
    assert(state@.consumed_challenges =~= old(state)@.consumed_challenges.push(mark@));
    Ok(
        PairingCompletion {
            sender_endpoint_id: exchange.expected_endpoint,
            sender_certificate_der: copied(exchange.sender_certificate_der.as_slice()),
            receiver_confirmation_json: Some(confirmation_json.to_owned()),
        },
    )
}

/// The sender of an exchange, with the confirmation that is handed to it.
pub open spec fn exchange_sender(
    exchange: ExchangeView,
    confirmation_json: Option<Seq<char>>,
) -> RestoredView {
    RestoredView {
        completion: CompletionView {
            sender_endpoint_id: exchange.expected_endpoint,
            sender_certificate_der: exchange.sender_certificate_der,
            receiver_confirmation_json: confirmation_json,
        },
        peer_id: exchange.sender_peer_id,
        public_key: exchange.response.responder.public_key,
    }
}

/// The record that the ceremony puts into the trust store.
pub open spec fn new_record(ceremony: CeremonyView, now_unix_ms: u64, challenge_hash: Seq<u8>) -> TrustRecordView {
    TrustRecordView {
        peer_id: ceremony.exchange.sender_peer_id,
        public_key: ceremony.exchange.response.responder.public_key,
        alias: ceremony.exchange.wire.pairing_response.responder.display_name,
        first_paired_at_unix_ms: now_unix_ms,
        permissions: sender_permissions(),
        key_state: KeyState::Active,
        last_pairing_challenge_hash: challenge_hash,
        replaced_keys: 0,
    }
}

/// The state and the trust store after recovery, or why it is refused.
pub open spec fn recovered(state: PairingStateView, store: Map<Seq<u8>, TrustRecordView>) -> Result<
    (PairingStateView, Map<Seq<u8>, TrustRecordView>),
    PairingFault,
> {
    match state.paired_sender {
        None => Ok((state, store)),
        Some(profile) => match profile.expected_record() {
            Err(fault) => Err(fault),
            Ok(expected) => match recovery(
                profile.status,
                expected,
                if store.contains_key(expected.peer_id) {
                    Some(store[expected.peer_id])
                } else {
                    None
                },
            ) {
                Err(fault) => Err(fault),
                Ok(RecoveryAction::Nothing) => Ok((state, store)),
                Ok(RecoveryAction::Commit) => Ok(
                    (state.committed(), store.insert(expected.peer_id, expected)),
                ),
            },
        },
    }
}

/// Recovery leaves nothing to recover: after it, the paired sender is committed
/// and the trust store holds exactly its record, and recovering again changes
/// nothing.
pub proof fn law_recovery_is_idempotent(
    state: PairingStateView,
    store: Map<Seq<u8>, TrustRecordView>,
)
    requires
        recovered(state, store) is Ok,
    ensures
        ({
            let (next, kept) = recovered(state, store)->Ok_0;
            &&& recovered(next, kept) == Ok::<
                (PairingStateView, Map<Seq<u8>, TrustRecordView>),
                PairingFault,
            >((next, kept))
            &&& next.paired_sender matches Some(profile) ==> {
                &&& profile.status == ProfileStatus::Committed
                &&& profile.expected_record() matches Ok(record)
                &&& kept.contains_key(record.peer_id)
                &&& kept[record.peer_id] == record
            }
        }),
{
    if state.paired_sender is Some {
        let profile = state.paired_sender->Some_0;
        let committed = ProfileView { status: ProfileStatus::Committed, ..profile };
        assert(committed.expected_record() == profile.expected_record());
        if profile.status == ProfileStatus::Committed {
            assert(committed == profile);
        }
    }
}

/// A committed sender is never restored without its trust record, nor beside a
/// record that says something else.
pub proof fn law_committed_sender_needs_its_trust(
    state: PairingStateView,
    store: Map<Seq<u8>, TrustRecordView>,
)
    requires
        state.paired_sender is Some,
        state.paired_sender->Some_0.status == ProfileStatus::Committed,
        state.paired_sender->Some_0.expected_record() is Ok,
    ensures
        ({
            let record = state.paired_sender->Some_0.expected_record()->Ok_0;
            &&& !store.contains_key(record.peer_id) ==> recovered(state, store) == Err::<
                (PairingStateView, Map<Seq<u8>, TrustRecordView>),
                PairingFault,
            >(PairingFault::TrustMissing)
            &&& store.contains_key(record.peer_id) && store[record.peer_id] != record ==> recovered(
                state,
                store,
            ) == Err::<(PairingStateView, Map<Seq<u8>, TrustRecordView>), PairingFault>(
                PairingFault::TrustConflict,
            )
        }),
{
}

/// What a new profile is worth: it expects exactly the record that the ceremony
/// stored, names the sender of the exchange, and matches the exchange.
proof fn lemma_new_profile(
    ceremony: CeremonyView,
    confirmation_json: Seq<char>,
    now_unix_ms: u64,
    challenge_hash: Seq<u8>,
    committed: bool,
)
    requires
        ceremony.exchange.wire.validated() == Ok::<ExchangeView, PairingFault>(ceremony.exchange),
        ceremony.invitation.pairing_offer.pairing_id
            == ceremony.exchange.wire.pairing_response.pairing_id,
        challenge_hash.len() == 32,
    ensures
        ({
            let pending = new_profile(ceremony, confirmation_json, now_unix_ms, challenge_hash);
            let profile = if committed {
                ProfileView { status: ProfileStatus::Committed, ..pending }
            } else {
                pending
            };
            &&& profile.expected_record() == Ok::<TrustRecordView, PairingFault>(
                new_record(ceremony, now_unix_ms, challenge_hash),
            )
            &&& profile.matches(ceremony.exchange)
            &&& profile.sender(false) == Ok::<RestoredView, PairingFault>(
                exchange_sender(ceremony.exchange, None),
            )
            &&& profile.sender(true) == Ok::<RestoredView, PairingFault>(
                exchange_sender(ceremony.exchange, Some(confirmation_json)),
            )
        }),
{
    let exchange = ceremony.exchange;
    let certificate = exchange.sender_certificate_der;
    crate::hex::law_decoded_is_bounded(
        exchange.wire.sender_certificate_der_hex,
        MAX_CERTIFICATE_BYTES as nat,
    );
    crate::pairing::exchange::law_validated_exchange_is_bound(exchange.wire);
    crate::hex::law_decode_undoes_encode(exchange.sender_peer_id, 32);
    crate::hex::law_decode_undoes_encode(exchange.expected_endpoint, 16);
    crate::hex::law_decode_undoes_encode(certificate, MAX_CERTIFICATE_BYTES as nat);
    crate::hex::law_decode_undoes_encode(sha256_digest(certificate), 32);
    crate::hex::law_decode_undoes_encode(challenge_hash, 32);
}

/// An interrupted pairing recovers: whether it stopped before or after the
/// trust store took the record, the next start commits the same profile and
/// ends with the same record.
pub proof fn law_interrupted_pairing_recovers(
    state: PairingStateView,
    ceremony: CeremonyView,
    confirmation_json: Seq<char>,
    now_unix_ms: u64,
    challenge_hash: Seq<u8>,
    store: Map<Seq<u8>, TrustRecordView>,
)
    requires
        ceremony.exchange.wire.validated() == Ok::<ExchangeView, PairingFault>(ceremony.exchange),
        ceremony.invitation.pairing_offer.pairing_id
            == ceremony.exchange.wire.pairing_response.pairing_id,
        challenge_hash.len() == 32,
        paired_state(state, ceremony, confirmation_json, now_unix_ms, challenge_hash) is Ok,
        !store.contains_key(ceremony.exchange.sender_peer_id),
    ensures
        ({
            let pending = paired_state(
                state,
                ceremony,
                confirmation_json,
                now_unix_ms,
                challenge_hash,
            )->Ok_0;
            let record = new_record(ceremony, now_unix_ms, challenge_hash);
            let stored = store.insert(record.peer_id, record);
            let done = Ok::<
                (PairingStateView, Map<Seq<u8>, TrustRecordView>),
                PairingFault,
            >((pending.committed(), stored));
            &&& recovered(pending, store) == done
            &&& recovered(pending, stored) == done
            &&& recovered(pending.committed(), stored) == done
        }),
{
    lemma_new_profile(ceremony, confirmation_json, now_unix_ms, challenge_hash, false);
    lemma_new_profile(ceremony, confirmation_json, now_unix_ms, challenge_hash, true);
    let record = new_record(ceremony, now_unix_ms, challenge_hash);
    let stored = store.insert(record.peer_id, record);
    assert(stored.insert(record.peer_id, record) =~= stored);
}

/// A paired sender can come back: a start without pairing files restores its
/// endpoint and its exact certificate, and the same exchange is answered with
/// the same confirmation again.
pub proof fn law_paired_sender_is_restored(
    state: PairingStateView,
    ceremony: CeremonyView,
    confirmation_json: Seq<char>,
    now_unix_ms: u64,
    challenge_hash: Seq<u8>,
)
    requires
        ceremony.exchange.wire.validated() == Ok::<ExchangeView, PairingFault>(ceremony.exchange),
        ceremony.invitation.pairing_offer.pairing_id
            == ceremony.exchange.wire.pairing_response.pairing_id,
        challenge_hash.len() == 32,
        paired_state(state, ceremony, confirmation_json, now_unix_ms, challenge_hash) is Ok,
    ensures
        ({
            let committed = paired_state(
                state,
                ceremony,
                confirmation_json,
                now_unix_ms,
                challenge_hash,
            )->Ok_0.committed();
            let profile = committed.paired_sender->Some_0;
            &&& committed.paired_sender is Some
            &&& profile.matches(ceremony.exchange)
            &&& profile.sender(false) == Ok::<RestoredView, PairingFault>(
                exchange_sender(ceremony.exchange, None),
            )
            &&& profile.sender(true) == Ok::<RestoredView, PairingFault>(
                exchange_sender(ceremony.exchange, Some(confirmation_json)),
            )
        }),
{
    lemma_new_profile(ceremony, confirmation_json, now_unix_ms, challenge_hash, true);
}

/// An invitation is used once: after a pairing, no exchange answers an
/// invitation with the same challenge, and no other sender is previewed.
pub proof fn law_invitation_is_used_once(
    state: PairingStateView,
    ceremony: CeremonyView,
    confirmation_json: Seq<char>,
    now_unix_ms: u64,
    challenge_hash: Seq<u8>,
    identity: ReceiverIdentityView,
    invitation: InvitationView,
    exchange: ExchangeView,
)
    requires
        paired_state(state, ceremony, confirmation_json, now_unix_ms, challenge_hash) is Ok,
        invitation.pairing_offer.challenge == ceremony.invitation.pairing_offer.challenge,
    ensures
        ({
            let next = paired_state(
                state,
                ceremony,
                confirmation_json,
                now_unix_ms,
                challenge_hash,
            )->Ok_0;
            &&& challenge_fault(next.consumed_challenges, invitation.pairing_offer.challenge)
                == Some(PairingFault::ChallengeConsumed)
            &&& answered_offer(next, identity, invitation, exchange) is Err
            &&& previewed(identity, next, Some(invitation), Some(exchange.wire)) == Err::<
                CeremonyView,
                PairingFault,
            >(PairingFault::AlreadyPaired)
        }),
{
    let next = paired_state(
        state,
        ceremony,
        confirmation_json,
        now_unix_ms,
        challenge_hash,
    )->Ok_0;
    let mark = challenge_mark(ceremony.invitation.pairing_offer.challenge)->Ok_0;
    assert(next.consumed_challenges[state.consumed_challenges.len() as int] == mark);
    assert(next.consumed_challenges.contains(mark));
}

/// A state that was stored after a pairing is read again, where fewer than
/// sixty-four challenges had been consumed before.
pub proof fn law_paired_state_is_usable(
    state: PairingStateView,
    ceremony: CeremonyView,
    confirmation_json: Seq<char>,
    now_unix_ms: u64,
    challenge_hash: Seq<u8>,
)
    requires
        state.consumed_challenges.len() < MAX_CONSUMED_CHALLENGES,
        paired_state(state, ceremony, confirmation_json, now_unix_ms, challenge_hash) is Ok,
    ensures
        paired_state(
            state,
            ceremony,
            confirmation_json,
            now_unix_ms,
            challenge_hash,
        )->Ok_0.usable(),
        paired_state(
            state,
            ceremony,
            confirmation_json,
            now_unix_ms,
            challenge_hash,
        )->Ok_0.committed().usable(),
{
}

/// A ceremony that was opened answers an invitation of this receiver, whose
/// challenge was not consumed, for a sender whose certificate, key, peer id and
/// endpoint belong together.
pub proof fn law_opened_ceremony_is_bound(
    identity: ReceiverIdentityView,
    state: PairingStateView,
    invitation: InvitationInput,
    wire: ExchangeWireView,
)
    requires
        wire.validated() is Ok,
        opened(identity, state, false, invitation, wire.validated()->Ok_0) is Ok,
    ensures
        ({
            let ceremony = opened(identity, state, false, invitation, wire.validated()->Ok_0)->Ok_0;
            &&& ceremony.invitation.mismatch(identity) is None
            &&& ceremony.offer.initiator.peer_id == identity.peer_id
            &&& ceremony.offer.initiator.public_key == identity.public_key
            &&& challenge_fault(
                state.consumed_challenges,
                ceremony.invitation.pairing_offer.challenge,
            ) is None
            &&& ceremony.invitation.pairing_offer.pairing_id
                == ceremony.exchange.wire.pairing_response.pairing_id
            &&& ceremony.exchange.wire.validated() == Ok::<ExchangeView, PairingFault>(
                ceremony.exchange,
            )
        }),
{
    crate::pairing::exchange::law_validated_exchange_is_bound(wire);
}


/// What the operator compares is what the ceremony is about: the name and the
/// short code that it came to, the peer id and the certificate's fingerprint of
/// the sender, and the time at which the invitation runs out, each in its place.
pub proof fn law_preview_shows_the_sender(
    ceremony: CeremonyView,
    peer_name: Seq<char>,
    short_code: Seq<char>,
)
    ensures
        ({
            let preview = ceremony.preview(peer_name, short_code);
            &&& preview.sender_name == peer_name
            &&& preview.short_code == short_code
            &&& preview.sender_peer_id == hex_text(ceremony.exchange.sender_peer_id)
            &&& preview.certificate_sha256 == hex_text(
                sha256_digest(ceremony.exchange.sender_certificate_der),
            )
            &&& preview.expires_at_unix_ms == ceremony.invitation.pairing_offer.expires_at_unix_ms
        }),
{
}

/// The confirmation that is handed to the sender is one of version 1 and of this
/// service, stands under the pairing id of the invitation, and says who signed
/// which transcript, with the signature.
pub proof fn law_envelope_carries_the_confirmation(
    ceremony: CeremonyView,
    confirmation: ConfirmationView,
)
    ensures
        ({
            let envelope = ceremony.envelope(confirmation);
            &&& envelope.version == 1
            &&& envelope.service == "nanalive-link"@
            &&& envelope.receiver_confirmation.pairing_id
                == ceremony.invitation.pairing_offer.pairing_id
            &&& envelope.receiver_confirmation.signer_peer_id == hex_text(
                confirmation.signer_peer_id,
            )
            &&& envelope.receiver_confirmation.transcript_hash == hex_text(
                confirmation.transcript_hash,
            )
            &&& envelope.receiver_confirmation.signature_hex == hex_text(confirmation.signature)
        }),
{
}

/// A pairing is previewed exactly where no sender is paired, the invitation is
/// one of this receiver and can be read, its challenge was not consumed, the
/// exchange is valid and answers it under the same pairing id. What is previewed
/// is that invitation, its offer and that exchange.
pub proof fn law_preview_needs_a_matching_answer(
    identity: ReceiverIdentityView,
    state: PairingStateView,
    invitation: Option<InvitationView>,
    exchange: Option<ExchangeWireView>,
)
    ensures
        ({
            let result = previewed(identity, state, invitation, exchange);
            &&& result is Ok <==> {
                &&& state.paired_sender is None
                &&& invitation matches Some(invitation)
                &&& invitation.mismatch(identity) is None
                &&& exchange matches Some(wire)
                &&& wire.validated() is Ok
                &&& wire.pairing_response.pairing_id == invitation.pairing_offer.pairing_id
                &&& challenge_fault(
                    state.consumed_challenges,
                    invitation.pairing_offer.challenge,
                ) is None
                &&& invitation.pairing_offer.read() is Ok
            }
            &&& state.paired_sender is Some ==> result == Err::<CeremonyView, PairingFault>(
                PairingFault::AlreadyPaired,
            )
            &&& result matches Ok(ceremony) ==> {
                &&& invitation == Some(ceremony.invitation)
                &&& exchange->Some_0.validated() == Ok::<ExchangeView, PairingFault>(
                    ceremony.exchange,
                )
                &&& ceremony.invitation.pairing_offer.read() == Ok::<OfferView, PairingFault>(
                    ceremony.offer,
                )
            }
        }),
{
    if exchange is Some && exchange->Some_0.validated() is Ok {
        crate::pairing::exchange::law_validated_exchange_is_bound(exchange->Some_0);
    }
}

/// A first pairing is opened exactly where the trust store does not know the
/// sender, the invitation was given and can be read, and the exchange answers it
/// as a preview asks; what the trust store knows is refused before anything else
/// is looked at.
pub proof fn law_first_pairing_needs_an_unknown_sender(
    identity: ReceiverIdentityView,
    state: PairingStateView,
    trusted: bool,
    invitation: InvitationInput,
    exchange: ExchangeView,
)
    ensures
        ({
            let result = opened(identity, state, trusted, invitation, exchange);
            &&& trusted ==> result == Err::<CeremonyView, PairingFault>(
                PairingFault::TrustWithoutProfile,
            )
            &&& !trusted && invitation is Missing ==> result == Err::<CeremonyView, PairingFault>(
                PairingFault::InvitationRequired,
            )
            &&& !trusted && invitation is Unreadable ==> result == Err::<
                CeremonyView,
                PairingFault,
            >(PairingFault::InvitationSyntax)
            &&& !trusted && invitation is Read ==> {
                let read = invitation->Read_0@;
                &&& result is Ok <==> {
                    &&& read.mismatch(identity) is None
                    &&& read.pairing_offer.pairing_id == exchange.wire.pairing_response.pairing_id
                    &&& challenge_fault(state.consumed_challenges, read.pairing_offer.challenge)
                        is None
                    &&& read.pairing_offer.read() is Ok
                }
                &&& result matches Ok(ceremony) ==> {
                    &&& ceremony.invitation == read
                    &&& ceremony.exchange == exchange
                    &&& read.pairing_offer.read() == Ok::<OfferView, PairingFault>(ceremony.offer)
                }
            }
        }),
{
}

/// A sender that was just paired is remembered as what it showed and when: its
/// peer id, endpoint, certificate and fingerprint, the pairing id, the
/// confirmation that it is owed, its name, the time and the hash of the
/// challenge, each in its place and not yet committed. The challenge joins those
/// that were consumed before.
pub proof fn law_paired_sender_is_remembered(
    state: PairingStateView,
    ceremony: CeremonyView,
    confirmation_json: Seq<char>,
    now_unix_ms: u64,
    challenge_hash: Seq<u8>,
)
    ensures
        paired_state(state, ceremony, confirmation_json, now_unix_ms, challenge_hash) matches Ok(
            next,
        ) ==> {
            let exchange = ceremony.exchange;
            &&& next.version == 1
            &&& next.paired_sender matches Some(profile)
            &&& profile.status == ProfileStatus::PendingTrust
            &&& profile.peer_id == hex_text(exchange.sender_peer_id)
            &&& profile.endpoint_id == hex_text(exchange.expected_endpoint)
            &&& profile.certificate_der_hex == hex_text(exchange.sender_certificate_der)
            &&& profile.certificate_sha256 == hex_text(
                sha256_digest(exchange.sender_certificate_der),
            )
            &&& profile.pairing_id == ceremony.invitation.pairing_offer.pairing_id
            &&& profile.receiver_confirmation_json == confirmation_json
            &&& profile.sender_name == exchange.wire.pairing_response.responder.display_name
            &&& profile.paired_at_unix_ms == now_unix_ms
            &&& profile.challenge_hash == hex_text(challenge_hash)
            &&& next.consumed_challenges.len() == state.consumed_challenges.len() + 1
            &&& next.consumed_challenges.drop_last() == state.consumed_challenges
            &&& decoded_fixed(ceremony.invitation.pairing_offer.challenge, 32) matches Ok(bytes)
            &&& next.consumed_challenges.last() == hex_text(sha256_digest(bytes))
        },
        decoded_fixed(ceremony.invitation.pairing_offer.challenge, 32) is Ok <==> paired_state(
            state,
            ceremony,
            confirmation_json,
            now_unix_ms,
            challenge_hash,
        ) is Ok,
{
    if let Ok(next) = paired_state(
        state,
        ceremony,
        confirmation_json,
        now_unix_ms,
        challenge_hash,
    ) {
        assert(next.consumed_challenges.drop_last() =~= state.consumed_challenges);
    }
}

/// A profile names a sender exactly where its peer id is the digest of the key in
/// its certificate, its fingerprint names that certificate, and its endpoint is
/// the one of that peer. The sender is the one that the profile says, with the
/// confirmation only where it is to be handed out again.
pub proof fn law_profile_names_its_sender(profile: ProfileView, resend_confirmation: bool)
    ensures
        ({
            let result = profile.sender(resend_confirmation);
            &&& result is Ok <==> {
                &&& decoded_fixed(profile.peer_id, 32) matches Ok(peer_id)
                &&& decoded_fixed(profile.endpoint_id, 16) == Ok::<Seq<u8>, crate::hex::HexError>(
                    endpoint_of(peer_id),
                )
                &&& decoded(profile.certificate_der_hex, 65_536) matches Ok(certificate)
                &&& decoded_fixed(profile.certificate_sha256, 32) == Ok::<
                    Seq<u8>,
                    crate::hex::HexError,
                >(sha256_digest(certificate))
                &&& certificate_key(certificate) matches Some(key)
                &&& key.len() == 32
                &&& peer_id == sha256_digest(key)
            }
            &&& result matches Ok(sender) ==> {
                &&& decoded_fixed(profile.peer_id, 32) == Ok::<Seq<u8>, crate::hex::HexError>(
                    sender.peer_id,
                )
                &&& decoded_fixed(profile.endpoint_id, 16) == Ok::<Seq<u8>, crate::hex::HexError>(
                    sender.completion.sender_endpoint_id,
                )
                &&& decoded(profile.certificate_der_hex, 65_536) == Ok::<
                    Seq<u8>,
                    crate::hex::HexError,
                >(sender.completion.sender_certificate_der)
                &&& certificate_key(sender.completion.sender_certificate_der) == Some(
                    sender.public_key,
                )
                &&& sender.completion.receiver_confirmation_json == if resend_confirmation {
                    Some(profile.receiver_confirmation_json)
                } else {
                    None
                }
            }
        }),
{
}


/// What is wrong with a profile is said in one order: its ids, whether they
/// belong together, its certificate, the fingerprint of that, the key in it, and
/// last whether the key is the one of its peer id.
pub proof fn law_profile_faults_have_one_order(profile: ProfileView, resend_confirmation: bool)
    ensures
        ({
            let result = profile.sender(resend_confirmation);
            let peer_id = decoded_fixed(profile.peer_id, 32);
            let endpoint = decoded_fixed(profile.endpoint_id, 16);
            let certificate = decoded(profile.certificate_der_hex, 65_536);
            let fingerprint = decoded_fixed(profile.certificate_sha256, 32);
            let key = certificate_key(certificate->Ok_0);
            let read = peer_id is Ok && endpoint is Ok;
            let placed = read && endpoint->Ok_0 == endpoint_of(peer_id->Ok_0);
            let shown = placed && certificate is Ok;
            let named = shown && fingerprint == Ok::<Seq<u8>, crate::hex::HexError>(
                sha256_digest(certificate->Ok_0),
            );
            let keyed = named && key is Some && key->Some_0.len() == 32;
            &&& peer_id is Err ==> result == Err::<RestoredView, PairingFault>(
                PairingFault::Hex(peer_id->Err_0),
            )
            &&& peer_id is Ok && endpoint is Err ==> result == Err::<RestoredView, PairingFault>(
                PairingFault::Hex(endpoint->Err_0),
            )
            &&& read && !placed ==> result == Err::<RestoredView, PairingFault>(
                PairingFault::ProfileEndpoint,
            )
            &&& placed && !shown ==> result == Err::<RestoredView, PairingFault>(
                PairingFault::Hex(certificate->Err_0),
            )
            &&& shown && fingerprint is Err ==> result == Err::<RestoredView, PairingFault>(
                PairingFault::Hex(fingerprint->Err_0),
            )
            &&& shown && fingerprint is Ok && !named ==> result == Err::<
                RestoredView,
                PairingFault,
            >(PairingFault::Fingerprint)
            &&& named && key is None ==> result == Err::<RestoredView, PairingFault>(
                PairingFault::CertificateSyntax,
            )
            &&& named && key is Some && !keyed ==> result == Err::<RestoredView, PairingFault>(
                PairingFault::CertificateKey,
            )
            &&& keyed && result is Err ==> result == Err::<RestoredView, PairingFault>(
                PairingFault::ProfileCertificate,
            )
        }),
{
}

/// What is wrong with the answer to an invitation is said in one order: whether
/// the invitation is one of this receiver, whether the answer is to its pairing
/// id, whether its challenge was consumed, and last whether its offer can be
/// read.
pub proof fn law_answer_faults_have_one_order(
    state: PairingStateView,
    identity: ReceiverIdentityView,
    invitation: InvitationView,
    exchange: ExchangeView,
)
    ensures
        ({
            let result = answered_offer(state, identity, invitation, exchange);
            let own = invitation.mismatch(identity) is None;
            let answers = own && invitation.pairing_offer.pairing_id
                == exchange.wire.pairing_response.pairing_id;
            let fault = challenge_fault(
                state.consumed_challenges,
                invitation.pairing_offer.challenge,
            );
            &&& !own ==> result == Err::<OfferView, PairingFault>(
                invitation.mismatch(identity)->Some_0,
            )
            &&& own && !answers ==> result == Err::<OfferView, PairingFault>(
                PairingFault::PairingId,
            )
            &&& answers && fault is Some ==> result == Err::<OfferView, PairingFault>(
                fault->Some_0,
            )
            &&& answers && fault is None ==> result == invitation.pairing_offer.read()
        }),
{
}

} // verus!
