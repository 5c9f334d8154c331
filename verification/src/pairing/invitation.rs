//! The invitation by which a receiver opens a pairing.
use crate::crypto::{random_bytes, sha256, sha256_digest};
use crate::hex::{decode_fixed, decode_hex_bounded, decoded, decoded_fixed, encode_hex, hex_text};
use crate::pairing::certificate::{
    checked, fingerprint_fault, validate_fingerprint, MAX_CERTIFICATE_BYTES,
};
use crate::pairing::fault::{viewed, PairingFault};
use crate::pairing::identity::{ReceiverIdentity, ReceiverIdentityView, PAIRING_VERSION};
use crate::pairing::message::{IdentityWire, IdentityWireView, OfferWireView, PairingOfferWire};
use crate::pairing::native::{same_bytes, same_text, IdentityView, LongTermIdentity, OfferView};
use vstd::prelude::*;
use vstd::string::StrSliceExecFns;

verus! {

/// The longest time for which an invitation stands.
pub const MAX_INVITATION_LIFETIME_SECONDS: u64 = 86_400;

/// The service that every pairing message names.
pub open spec fn service() -> Seq<char> {
    "nanalive-link"@
}

/// The service that every pairing message names.
pub fn service_name() -> (name: &'static str)
    ensures
        name@ == service(),
{
    "nanalive-link"
}

/// What an [`InvitationWire`] says.
#[verifier::ext_equal]
pub ghost struct InvitationView {
    pub version: u8,
    pub service: Seq<char>,
    pub address: Seq<char>,
    pub server_name: Seq<char>,
    pub receiver_endpoint_id: Seq<char>,
    pub certificate_der_hex: Seq<char>,
    pub certificate_sha256: Seq<char>,
    pub pairing_offer: OfferWireView,
}

/// An invitation as it is written.
#[derive(Clone, Debug, PartialEq, Eq)]
pub struct InvitationWire {
    pub version: u8,
    pub service: String,
    pub address: String,
    pub server_name: String,
    pub receiver_endpoint_id: String,
    pub certificate_der_hex: String,
    pub certificate_sha256: String,
    pub pairing_offer: PairingOfferWire,
}

impl View for InvitationWire {
    type V = InvitationView;

    open spec fn view(&self) -> InvitationView {
        InvitationView {
            version: self.version,
            service: self.service@,
            address: self.address@,
            server_name: self.server_name@,
            receiver_endpoint_id: self.receiver_endpoint_id@,
            certificate_der_hex: self.certificate_der_hex@,
            certificate_sha256: self.certificate_sha256@,
            pairing_offer: self.pairing_offer@,
        }
    }
}

/// What an invitation is made of can be put into one.
pub open spec fn fields_valid(
    receiver_name: Seq<char>,
    address: Seq<char>,
    server_name: Seq<char>,
    ttl_seconds: u64,
) -> bool {
    &&& receiver_name.len() > 0
    &&& address.len() > 0
    &&& server_name.len() > 0
    &&& 0 < ttl_seconds <= MAX_INVITATION_LIFETIME_SECONDS
}

/// When an invitation that is issued now runs out.
pub open spec fn expiry(now_unix_ms: u64, ttl_seconds: u64) -> u64 {
    if now_unix_ms + ttl_seconds * 1_000 <= u64::MAX {
        (now_unix_ms + ttl_seconds * 1_000) as u64
    } else {
        u64::MAX
    }
}

/// The identity that a receiver presents under a name.
pub open spec fn presented(identity: ReceiverIdentityView, name: Seq<char>) -> IdentityView {
    IdentityView {
        peer_id: identity.peer_id,
        public_key: identity.public_key,
        display_name: name,
    }
}

impl InvitationView {
    /// The invitation of a receiver with a given pairing id and challenge.
    pub open spec fn issued(
        identity: ReceiverIdentityView,
        receiver_name: Seq<char>,
        address: Seq<char>,
        server_name: Seq<char>,
        expires_at_unix_ms: u64,
        pairing_id: Seq<u8>,
        challenge: Seq<u8>,
    ) -> Self {
        InvitationView {
            version: PAIRING_VERSION,
            service: service(),
            address,
            server_name,
            receiver_endpoint_id: hex_text(identity.endpoint_id),
            certificate_der_hex: hex_text(identity.certificate_der),
            certificate_sha256: hex_text(sha256_digest(identity.certificate_der)),
            pairing_offer: OfferWireView {
                pairing_id: hex_text(pairing_id),
                initiator: IdentityWireView::of(presented(identity, receiver_name)),
                protocol_major: 1,
                protocol_minor: 0,
                challenge: hex_text(challenge),
                method: "bilateralConfirmation"@,
                expires_at_unix_ms,
            },
        }
    }

    /// Why an invitation is not one of this receiver, if it is not.
    pub open spec fn mismatch(self, identity: ReceiverIdentityView) -> Option<PairingFault> {
        if self.version != PAIRING_VERSION || self.service != service() || self.address.len() == 0
            || self.server_name.len() == 0 {
            Some(PairingFault::InvitationMismatch)
        } else {
            match (
                decoded_fixed(self.receiver_endpoint_id, 16),
                decoded(self.certificate_der_hex, MAX_CERTIFICATE_BYTES as nat),
                fingerprint_fault(sha256_digest(identity.certificate_der), self.certificate_sha256),
                self.pairing_offer.initiator.read(),
            ) {
                (Err(error), _, _, _) => Some(PairingFault::Hex(error)),
                (Ok(endpoint), certificate, fingerprint, initiator) => if endpoint
                    != identity.endpoint_id {
                    Some(PairingFault::InvitationMismatch)
                } else {
                    match (certificate, fingerprint, initiator) {
                        (Err(error), _, _) => Some(PairingFault::Hex(error)),
                        (Ok(certificate), fingerprint, initiator) => if certificate
                            != identity.certificate_der {
                            Some(PairingFault::InvitationMismatch)
                        } else {
                            match (fingerprint, initiator) {
                                (Some(fault), _) => Some(fault),
                                (None, Err(fault)) => Some(fault),
                                (None, Ok(initiator)) => if initiator.peer_id != identity.peer_id
                                    || initiator.public_key != identity.public_key {
                                    Some(PairingFault::InvitationIdentity)
                                } else {
                                    None
                                },
                            }
                        },
                    }
                },
            }
        }
    }
}

/// The invitation of a receiver with a given pairing id and challenge.
pub fn issue_invitation(
    identity: &ReceiverIdentity,
    receiver_name: &str,
    address: &str,
    server_name: &str,
    expires_at_unix_ms: u64,
    pairing_id: [u8; 16],
    challenge: [u8; 32],
) -> (invitation: InvitationWire)
    ensures
        invitation@ == InvitationView::issued(
            identity@,
            receiver_name@,
            address@,
            server_name@,
            expires_at_unix_ms,
            pairing_id@,
            challenge@,
        ),
{
    let initiator: LongTermIdentity = identity.long_term_identity(receiver_name);
    assert(initiator@ == presented(identity@, receiver_name@));
    let endpoint = identity.endpoint_id();
    let invitation = InvitationWire {
        version: PAIRING_VERSION,
        service: service_name().to_owned(),
        address: address.to_owned(),
        server_name: server_name.to_owned(),
        receiver_endpoint_id: encode_hex(&endpoint.bytes),
        certificate_der_hex: encode_hex(identity.certificate_der()),
        certificate_sha256: encode_hex(&sha256(identity.certificate_der())),
        pairing_offer: PairingOfferWire {
            pairing_id: encode_hex(&pairing_id),
            initiator: IdentityWire::from_identity(&initiator),
            protocol_major: 1,
            protocol_minor: 0,
            challenge: encode_hex(&challenge),
            method: "bilateralConfirmation".to_owned(),
            expires_at_unix_ms,
        },
    };
    invitation
}

/// What an attempt to create an invitation may come to: the one refusal where
/// a field is invalid, and else an invitation under some pairing id and some
/// challenge, or the news that the system had no random bytes for one of them.
pub open spec fn created(
    result: Result<InvitationView, PairingFault>,
    identity: ReceiverIdentityView,
    receiver_name: Seq<char>,
    address: Seq<char>,
    server_name: Seq<char>,
    ttl_seconds: u64,
    now_unix_ms: u64,
) -> bool {
    if fields_valid(receiver_name, address, server_name, ttl_seconds) {
        match result {
            Ok(invitation) => exists|pairing_id: Seq<u8>, challenge: Seq<u8>|
                {
                    &&& pairing_id.len() == 16
                    &&& challenge.len() == 32
                    &&& invitation == #[trigger] InvitationView::issued(
                        identity,
                        receiver_name,
                        address,
                        server_name,
                        expiry(now_unix_ms, ttl_seconds),
                        pairing_id,
                        challenge,
                    )
                },
            Err(fault) => fault == PairingFault::PairingIdRandom || fault
                == PairingFault::ChallengeRandom,
        }
    } else {
        result == Err::<InvitationView, PairingFault>(PairingFault::InvitationFields)
    }
}

/// Creates an invitation with a random pairing id and a random challenge, which
/// stands for `ttl_seconds` from `now_unix_ms` on.
pub fn create_invitation(
    identity: &ReceiverIdentity,
    receiver_name: &str,
    address: &str,
    server_name: &str,
    ttl_seconds: u64,
    now_unix_ms: u64,
) -> (result: Result<InvitationWire, PairingFault>)
    ensures
        created(
            viewed(result),
            identity@,
            receiver_name@,
            address@,
            server_name@,
            ttl_seconds,
            now_unix_ms,
        ),
        result matches Ok(invitation) ==> (now_unix_ms + 1_000 * ttl_seconds <= u64::MAX
            ==> invitation@.pairing_offer.expires_at_unix_ms - now_unix_ms == 1_000 * ttl_seconds),
{
    if receiver_name.unicode_len() == 0 || address.unicode_len() == 0 || server_name.unicode_len()
        == 0 || ttl_seconds == 0 || ttl_seconds > MAX_INVITATION_LIFETIME_SECONDS {
        return Err(PairingFault::InvitationFields);
    }
    let pairing_id: [u8; 16] = match random_bytes::<16>() {
        Some(bytes) => bytes,
        None => return Err(PairingFault::PairingIdRandom),
    };
    let challenge: [u8; 32] = match random_bytes::<32>() {
        Some(bytes) => bytes,
        None => return Err(PairingFault::ChallengeRandom),
    };
    let expires_at_unix_ms: u64 = now_unix_ms.saturating_add(ttl_seconds * 1_000);
    let invitation = issue_invitation(
        identity,
        receiver_name,
        address,
        server_name,
        expires_at_unix_ms,
        pairing_id,
        challenge,
    );
    proof {
        assert(pairing_id@.len() == 16 && challenge@.len() == 32);
        assert(invitation@ == InvitationView::issued(
            identity@,
            receiver_name@,
            address@,
            server_name@,
            expiry(now_unix_ms, ttl_seconds),
            pairing_id@,
            challenge@,
        ));
    }
    Ok(invitation)
}

impl InvitationWire {
    /// Whether an invitation is one of this receiver.
    pub fn validate_for(&self, identity: &ReceiverIdentity) -> (result: Result<(), PairingFault>)
        ensures
            result == checked(self@.mismatch(identity@)),
    {
        if self.version != PAIRING_VERSION || !same_text(self.service.as_str(), service_name())
            || self.address.as_str().unicode_len() == 0 || self.server_name.as_str().unicode_len()
            == 0 {
            return Err(PairingFault::InvitationMismatch);
        }
        let endpoint: [u8; 16] = match decode_fixed::<16>(self.receiver_endpoint_id.as_str()) {
            Ok(bytes) => bytes,
            Err(error) => return Err(PairingFault::Hex(error)),
        };
        let own_endpoint = identity.endpoint_id();
        if !same_bytes(&endpoint, &own_endpoint.bytes) {
            return Err(PairingFault::InvitationMismatch);
        }
        let certificate: Vec<u8> = match decode_hex_bounded(
            self.certificate_der_hex.as_str(),
            MAX_CERTIFICATE_BYTES,
        ) {
            Ok(bytes) => bytes,
            Err(error) => return Err(PairingFault::Hex(error)),
        };
        if !same_bytes(certificate.as_slice(), identity.certificate_der()) {
            return Err(PairingFault::InvitationMismatch);
        }
        match validate_fingerprint(identity.certificate_der(), self.certificate_sha256.as_str()) {
            Ok(_) => {},
            Err(fault) => return Err(fault),
        }
        let initiator: LongTermIdentity = match self.pairing_offer.initiator.to_native() {
            Ok(initiator) => initiator,
            Err(fault) => return Err(fault),
        };
        let peer_id = identity.peer_id();
        if !same_bytes(&initiator.peer_id.bytes, &peer_id.bytes) || !same_bytes(
            initiator.public_key.as_slice(),
            &identity.public_key(),
        ) {
            return Err(PairingFault::InvitationIdentity);
        }
        Ok(())
    }
}

/// A receiver accepts the invitations that it issued, and reads back from them
/// the pairing id, the challenge and the expiry that it put there.
pub proof fn law_issued_invitation_is_accepted(
    identity: ReceiverIdentityView,
    receiver_name: Seq<char>,
    address: Seq<char>,
    server_name: Seq<char>,
    expires_at_unix_ms: u64,
    pairing_id: Seq<u8>,
    challenge: Seq<u8>,
)
    requires
        identity.wf(),
        receiver_name.len() > 0,
        address.len() > 0,
        server_name.len() > 0,
        pairing_id.len() == 16,
        challenge.len() == 32,
    ensures
        ({
            let invitation = InvitationView::issued(
                identity,
                receiver_name,
                address,
                server_name,
                expires_at_unix_ms,
                pairing_id,
                challenge,
            );
            &&& invitation.mismatch(identity) is None
            &&& invitation.pairing_offer.read() == Ok::<OfferView, PairingFault>(
                OfferView {
                    pairing_id,
                    initiator: presented(identity, receiver_name),
                    protocol_major: 1,
                    protocol_minor: 0,
                    challenge,
                    expires_at_unix_ms,
                },
            )
        }),
{
    crate::hex::law_decode_undoes_encode(identity.endpoint_id, 16);
    crate::hex::law_decode_undoes_encode(
        identity.certificate_der,
        MAX_CERTIFICATE_BYTES as nat,
    );
    crate::hex::law_decode_undoes_encode(sha256_digest(identity.certificate_der), 32);
    crate::hex::law_decode_undoes_encode(pairing_id, 16);
    crate::hex::law_decode_undoes_encode(challenge, 32);
    crate::pairing::message::law_identity_survives_writing(presented(identity, receiver_name));
}

/// An invitation is one of one receiver only: receivers that accept the same
/// invitation have the same certificate, key and ids.
pub proof fn law_invitation_binds_one_receiver(
    invitation: InvitationView,
    one: ReceiverIdentityView,
    other: ReceiverIdentityView,
)
    requires
        invitation.mismatch(one) is None,
        invitation.mismatch(other) is None,
    ensures
        one.endpoint_id == other.endpoint_id,
        one.certificate_der == other.certificate_der,
        one.peer_id == other.peer_id,
        one.public_key == other.public_key,
{
}

/// An invitation stands for exactly the lifetime that was asked for, where the
/// clock can hold its end, and else until the end of the clock: a thousand
/// milliseconds for each second. It names the receiver and says everything else
/// as it was asked to, under sixteen bytes of pairing id and thirty-two of
/// challenge. A lifetime of nothing, or of more than a day, and an empty name or
/// address are refused.
pub proof fn law_invitation_stands_for_its_lifetime(
    result: Result<InvitationView, PairingFault>,
    identity: ReceiverIdentityView,
    receiver_name: Seq<char>,
    address: Seq<char>,
    server_name: Seq<char>,
    ttl_seconds: u64,
    now_unix_ms: u64,
)
    requires
        created(
            result,
            identity,
            receiver_name,
            address,
            server_name,
            ttl_seconds,
            now_unix_ms,
        ),
    ensures
        result matches Ok(invitation) ==> {
            let offer = invitation.pairing_offer;
            &&& now_unix_ms + 1_000 * ttl_seconds <= u64::MAX ==> offer.expires_at_unix_ms
                - now_unix_ms == 1_000 * ttl_seconds
            &&& now_unix_ms + 1_000 * ttl_seconds > u64::MAX ==> offer.expires_at_unix_ms
                == u64::MAX
            &&& offer.expires_at_unix_ms >= now_unix_ms
            &&& 1 <= ttl_seconds <= 86_400
            &&& invitation.version == 1
            &&& invitation.service == "nanalive-link"@
            &&& invitation.address == address && address.len() > 0
            &&& invitation.server_name == server_name && server_name.len() > 0
            &&& invitation.receiver_endpoint_id == hex_text(identity.endpoint_id)
            &&& invitation.certificate_der_hex == hex_text(identity.certificate_der)
            &&& invitation.certificate_sha256 == hex_text(sha256_digest(identity.certificate_der))
            &&& offer.initiator.peer_id == hex_text(identity.peer_id)
            &&& offer.initiator.public_key_hex == hex_text(identity.public_key)
            &&& offer.initiator.display_name == receiver_name && receiver_name.len() > 0
            &&& offer.protocol_major == 1
            &&& offer.protocol_minor == 0
            &&& offer.method == "bilateralConfirmation"@
            &&& offer.pairing_id.len() == 32
            &&& offer.challenge.len() == 64
        },
        (receiver_name.len() == 0 || address.len() == 0 || server_name.len() == 0 || ttl_seconds == 0
            || ttl_seconds > 86_400) ==> result == Err::<InvitationView, PairingFault>(
            PairingFault::InvitationFields,
        ),
        receiver_name.len() > 0 && address.len() > 0 && server_name.len() > 0 && 0 < ttl_seconds
            <= 86_400 ==> (result matches Err(fault) ==> fault == PairingFault::PairingIdRandom
            || fault == PairingFault::ChallengeRandom),
{
}

/// Two invitations of one receiver that were asked for at the same time stand
/// for lifetimes that differ by what was asked for, and two of the same lifetime
/// run out as far apart as they were asked for, as far as the clock can hold it.
pub proof fn law_lifetimes_add_up(
    now_unix_ms: u64,
    later_unix_ms: u64,
    ttl_seconds: u64,
    longer_seconds: u64,
)
    requires
        now_unix_ms <= later_unix_ms,
        ttl_seconds <= longer_seconds,
        later_unix_ms + 1_000 * longer_seconds <= u64::MAX,
    ensures
        expiry(now_unix_ms, longer_seconds) - expiry(now_unix_ms, ttl_seconds) == 1_000 * (
        longer_seconds - ttl_seconds),
        expiry(later_unix_ms, ttl_seconds) - expiry(now_unix_ms, ttl_seconds) == later_unix_ms
            - now_unix_ms,
{
}

/// An invitation is refused by a receiver of which it does not say, field by
/// field, what it said when it was issued: another version or service, no
/// address, no server name, another endpoint, certificate, fingerprint, peer id
/// or key.
pub proof fn law_changed_invitation_is_refused(
    invitation: InvitationView,
    identity: ReceiverIdentityView,
)
    requires
        invitation.mismatch(identity) is None,
    ensures
        invitation.version == 1,
        invitation.service == "nanalive-link"@,
        invitation.address.len() > 0,
        invitation.server_name.len() > 0,
        decoded_fixed(invitation.receiver_endpoint_id, 16) == Ok::<Seq<u8>, crate::hex::HexError>(
            identity.endpoint_id,
        ),
        decoded(invitation.certificate_der_hex, 65_536) == Ok::<Seq<u8>, crate::hex::HexError>(
            identity.certificate_der,
        ),
        decoded_fixed(invitation.certificate_sha256, 32) == Ok::<Seq<u8>, crate::hex::HexError>(
            sha256_digest(identity.certificate_der),
        ),
        decoded_fixed(invitation.pairing_offer.initiator.peer_id, 32) == Ok::<
            Seq<u8>,
            crate::hex::HexError,
        >(identity.peer_id),
        decoded(invitation.pairing_offer.initiator.public_key_hex, 32) == Ok::<
            Seq<u8>,
            crate::hex::HexError,
        >(identity.public_key),
        identity.peer_id == sha256_digest(identity.public_key),
        invitation.pairing_offer.initiator.display_name.len() > 0,
{
}


/// What is wrong with an invitation is said in one order: first its envelope,
/// next its endpoint, its certificate, its fingerprint and its identity; and it
/// is said of each whether it cannot be read or is another one.
pub proof fn law_invitation_faults_have_one_order(
    invitation: InvitationView,
    identity: ReceiverIdentityView,
)
    ensures
        ({
            let fault = invitation.mismatch(identity);
            let envelope = invitation.version == 1 && invitation.service == "nanalive-link"@
                && invitation.address.len() > 0 && invitation.server_name.len() > 0;
            let endpoint = decoded_fixed(invitation.receiver_endpoint_id, 16);
            let certificate = decoded(invitation.certificate_der_hex, 65_536);
            let fingerprint = decoded_fixed(invitation.certificate_sha256, 32);
            let initiator = invitation.pairing_offer.initiator.read();
            let to_certificate = envelope && endpoint == Ok::<Seq<u8>, crate::hex::HexError>(
                identity.endpoint_id,
            );
            let to_fingerprint = to_certificate && certificate == Ok::<
                Seq<u8>,
                crate::hex::HexError,
            >(identity.certificate_der);
            let to_identity = to_fingerprint && fingerprint == Ok::<Seq<u8>, crate::hex::HexError>(
                sha256_digest(identity.certificate_der),
            );
            &&& !envelope ==> fault == Some(PairingFault::InvitationMismatch)
            &&& envelope && endpoint is Err ==> fault == Some(PairingFault::Hex(endpoint->Err_0))
            &&& envelope && endpoint is Ok && !to_certificate ==> fault == Some(
                PairingFault::InvitationMismatch,
            )
            &&& to_certificate && certificate is Err ==> fault == Some(
                PairingFault::Hex(certificate->Err_0),
            )
            &&& to_certificate && certificate is Ok && !to_fingerprint ==> fault == Some(
                PairingFault::InvitationMismatch,
            )
            &&& to_fingerprint && fingerprint is Err ==> fault == Some(
                PairingFault::Hex(fingerprint->Err_0),
            )
            &&& to_fingerprint && fingerprint is Ok && !to_identity ==> fault == Some(
                PairingFault::Fingerprint,
            )
            &&& to_identity && initiator is Err ==> fault == Some(initiator->Err_0)
            &&& to_identity && initiator is Ok ==> {
                &&& fault is None <==> initiator->Ok_0.peer_id == identity.peer_id
                    && initiator->Ok_0.public_key == identity.public_key
                &&& fault is Some ==> fault == Some(PairingFault::InvitationIdentity)
            }
        }),
{
}

} // verus!
