//! The sender's half of a pairing, and what the receiver checks in it.
use crate::crypto::{certificate_key, sha256_digest};
use crate::hex::{decode_fixed, decode_hex_bounded, decoded, decoded_fixed};
use crate::pairing::certificate::{
    certificate_public_key, checked, fingerprint_fault, raw_key, validate_fingerprint,
    MAX_CERTIFICATE_BYTES,
};
use crate::pairing::fault::{viewed, PairingFault};
use crate::pairing::identity::PAIRING_VERSION;
use crate::pairing::invitation::{service, service_name};
use crate::pairing::message::{
    ConfirmationWireView, PairingConfirmationWire, PairingResponseWire, ResponseWireView,
};
use crate::pairing::native::{
    endpoint_from_peer, endpoint_of, same_bytes, same_text, EndpointId, PairingResponse, PeerId,
    ResponseView,
};
use vstd::prelude::*;

verus! {

/// What a [`SenderExchangeWire`] says.
#[verifier::ext_equal]
pub ghost struct ExchangeWireView {
    pub version: u8,
    pub service: Seq<char>,
    pub sender_endpoint_id: Seq<char>,
    pub sender_certificate_der_hex: Seq<char>,
    pub sender_certificate_sha256: Seq<char>,
    pub pairing_response: ResponseWireView,
    pub sender_confirmation: ConfirmationWireView,
}

/// The sender's pairing exchange as it is written.
#[derive(Clone, Debug, PartialEq, Eq)]
pub struct SenderExchangeWire {
    pub version: u8,
    pub service: String,
    pub sender_endpoint_id: String,
    pub sender_certificate_der_hex: String,
    pub sender_certificate_sha256: String,
    pub pairing_response: PairingResponseWire,
    pub sender_confirmation: PairingConfirmationWire,
}

impl View for SenderExchangeWire {
    type V = ExchangeWireView;

    open spec fn view(&self) -> ExchangeWireView {
        ExchangeWireView {
            version: self.version,
            service: self.service@,
            sender_endpoint_id: self.sender_endpoint_id@,
            sender_certificate_der_hex: self.sender_certificate_der_hex@,
            sender_certificate_sha256: self.sender_certificate_sha256@,
            pairing_response: self.pairing_response@,
            sender_confirmation: self.sender_confirmation@,
        }
    }
}

/// What a [`ValidatedExchange`] holds.
#[verifier::ext_equal]
pub ghost struct ExchangeView {
    pub wire: ExchangeWireView,
    pub response: ResponseView,
    pub sender_peer_id: Seq<u8>,
    pub expected_endpoint: Seq<u8>,
    pub sender_certificate_der: Seq<u8>,
}

/// A pairing exchange whose certificate, identity and endpoint belong together.
#[derive(Clone, Debug, PartialEq, Eq)]
pub struct ValidatedExchange {
    pub wire: SenderExchangeWire,
    pub response: PairingResponse,
    pub sender_peer_id: PeerId,
    pub expected_endpoint: EndpointId,
    pub sender_certificate_der: Vec<u8>,
}

impl View for ValidatedExchange {
    type V = ExchangeView;

    open spec fn view(&self) -> ExchangeView {
        ExchangeView {
            wire: self.wire@,
            response: self.response@,
            sender_peer_id: self.sender_peer_id@,
            expected_endpoint: self.expected_endpoint@,
            sender_certificate_der: self.sender_certificate_der@,
        }
    }
}

/// The exchange that comes of its parts, given the key in the certificate and
/// the endpoint of the sender, or why they do not belong together.
pub open spec fn bound(
    wire: ExchangeWireView,
    response: ResponseView,
    certificate: Seq<u8>,
    key: Seq<u8>,
    endpoint: Seq<u8>,
) -> Result<ExchangeView, PairingFault> {
    if response.responder.public_key != key {
        Err(PairingFault::ResponseKey)
    } else {
        match decoded_fixed(wire.sender_endpoint_id, 16) {
            Err(error) => Err(PairingFault::Hex(error)),
            Ok(claimed) => if claimed != endpoint {
                Err(PairingFault::SenderEndpoint)
            } else {
                Ok(
                    ExchangeView {
                        wire,
                        response,
                        sender_peer_id: response.responder.peer_id,
                        expected_endpoint: endpoint,
                        sender_certificate_der: certificate,
                    },
                )
            },
        }
    }
}

impl ExchangeWireView {
    /// The exchange is one of this version and service.
    pub open spec fn envelope_fault(self) -> Option<PairingFault> {
        if self.version != PAIRING_VERSION || self.service != service() {
            Some(PairingFault::ExchangeEnvelope)
        } else {
            None
        }
    }

    /// The validated exchange, or why there is none.
    pub open spec fn validated(self) -> Result<ExchangeView, PairingFault> {
        match (
            self.envelope_fault(),
            decoded(self.sender_certificate_der_hex, MAX_CERTIFICATE_BYTES as nat),
        ) {
            (Some(fault), _) => Err(fault),
            (None, Err(error)) => Err(PairingFault::Hex(error)),
            (None, Ok(certificate)) => match (
                fingerprint_fault(sha256_digest(certificate), self.sender_certificate_sha256),
                raw_key(certificate_key(certificate)),
                self.pairing_response.read(),
            ) {
                (Some(fault), _, _) => Err(fault),
                (None, Err(fault), _) => Err(fault),
                (None, Ok(_), Err(fault)) => Err(fault),
                (None, Ok(key), Ok(response)) => bound(
                    self,
                    response,
                    certificate,
                    key,
                    endpoint_of(response.responder.peer_id),
                ),
            },
        }
    }
}

impl SenderExchangeWire {
    /// Whether the exchange is one of this version and service.
    pub fn validate_envelope(&self) -> (result: Result<(), PairingFault>)
        ensures
            result == checked(self@.envelope_fault()),
    {
        if self.version != PAIRING_VERSION || !same_text(self.service.as_str(), service_name()) {
            return Err(PairingFault::ExchangeEnvelope);
        }
        Ok(())
    }
}

/// Puts the parts of an exchange together, where they belong together.
pub fn bind_exchange(
    wire: SenderExchangeWire,
    response: PairingResponse,
    sender_certificate_der: Vec<u8>,
    certificate_key: [u8; 32],
    expected_endpoint: EndpointId,
) -> (result: Result<ValidatedExchange, PairingFault>)
    ensures
        viewed(result) == bound(
            wire@,
            response@,
            sender_certificate_der@,
            certificate_key@,
            expected_endpoint@,
        ),
{
    if !same_bytes(response.responder.public_key.as_slice(), &certificate_key) {
        return Err(PairingFault::ResponseKey);
    }
    let claimed: [u8; 16] = match decode_fixed::<16>(wire.sender_endpoint_id.as_str()) {
        Ok(bytes) => bytes,
        Err(error) => return Err(PairingFault::Hex(error)),
    };
    if !same_bytes(&claimed, &expected_endpoint.bytes) {
        return Err(PairingFault::SenderEndpoint);
    }
    let sender_peer_id: PeerId = response.responder.peer_id;
    Ok(
        ValidatedExchange {
            wire,
            response,
            sender_peer_id,
            expected_endpoint,
            sender_certificate_der,
        },
    )
}

/// Checks a sender's pairing exchange: its certificate is the one that the
/// fingerprint names, it carries the key of the responding identity, and the
/// endpoint is the one of that identity.
pub fn validate_exchange(wire: SenderExchangeWire) -> (result: Result<
    ValidatedExchange,
    PairingFault,
>)
    ensures
        viewed(result) == wire@.validated(),
        result matches Ok(exchange) ==> exchange@.wire == wire@,
{
    match wire.validate_envelope() {
        Ok(_) => {},
        Err(fault) => return Err(fault),
    }
    let certificate: Vec<u8> = match decode_hex_bounded(
        wire.sender_certificate_der_hex.as_str(),
        MAX_CERTIFICATE_BYTES,
    ) {
        Ok(bytes) => bytes,
        Err(error) => return Err(PairingFault::Hex(error)),
    };
    match validate_fingerprint(certificate.as_slice(), wire.sender_certificate_sha256.as_str()) {
        Ok(_) => {},
        Err(fault) => return Err(fault),
    }
    let key: [u8; 32] = match certificate_public_key(certificate.as_slice()) {
        Ok(key) => key,
        Err(fault) => return Err(fault),
    };
    let response: PairingResponse = match wire.pairing_response.to_native() {
        Ok(response) => response,
        Err(fault) => return Err(fault),
    };
    let endpoint: EndpointId = endpoint_from_peer(response.responder.peer_id.bytes);
    bind_exchange(wire, response, certificate, key, endpoint)
}

/// A validated exchange binds certificate, key, peer id and endpoint to one
/// another, and nothing of it can be exchanged without being noticed.
pub proof fn law_validated_exchange_is_bound(wire: ExchangeWireView)
    requires
        wire.validated() is Ok,
    ensures
        ({
            let exchange = wire.validated()->Ok_0;
            let key = exchange.response.responder.public_key;
            &&& exchange.wire == wire
            &&& certificate_key(exchange.sender_certificate_der) == Some(key)
            &&& exchange.sender_peer_id == sha256_digest(key)
            &&& exchange.expected_endpoint == endpoint_of(exchange.sender_peer_id)
            &&& decoded_fixed(wire.sender_certificate_sha256, 32) == Ok::<
                Seq<u8>,
                crate::hex::HexError,
            >(sha256_digest(exchange.sender_certificate_der))
            &&& decoded_fixed(wire.sender_endpoint_id, 16) == Ok::<Seq<u8>, crate::hex::HexError>(
                exchange.expected_endpoint,
            )
            &&& exchange.response.responder.display_name.len() > 0
        }),
{
}


/// An exchange is accepted exactly where it is one of version 1 and of this
/// service, its fingerprint names its certificate, the certificate carries a raw
/// Ed25519 key, the responding identity has that very key, and the endpoint is
/// the one of that identity. What is accepted is what was sent.
pub proof fn law_exchange_is_accepted_where_its_parts_agree(wire: ExchangeWireView)
    ensures
        wire.validated() is Ok <==> {
            &&& wire.version == 1
            &&& wire.service == "nanalive-link"@
            &&& decoded(wire.sender_certificate_der_hex, 65_536) matches Ok(certificate)
            &&& decoded_fixed(wire.sender_certificate_sha256, 32) == Ok::<
                Seq<u8>,
                crate::hex::HexError,
            >(sha256_digest(certificate))
            &&& certificate_key(certificate) matches Some(key)
            &&& key.len() == 32
            &&& wire.pairing_response.read() matches Ok(response)
            &&& response.responder.public_key == key
            &&& decoded_fixed(wire.sender_endpoint_id, 16) == Ok::<Seq<u8>, crate::hex::HexError>(
                endpoint_of(response.responder.peer_id),
            )
        },
        wire.version != 1 || wire.service != "nanalive-link"@ ==> wire.validated() == Err::<
            ExchangeView,
            PairingFault,
        >(PairingFault::ExchangeEnvelope),
        wire.validated() matches Ok(exchange) ==> {
            &&& exchange.wire == wire
            &&& wire.pairing_response.read() == Ok::<ResponseView, PairingFault>(exchange.response)
            &&& decoded(wire.sender_certificate_der_hex, 65_536) == Ok::<
                Seq<u8>,
                crate::hex::HexError,
            >(exchange.sender_certificate_der)
            &&& exchange.sender_peer_id == exchange.response.responder.peer_id
        },
{
}


/// What is wrong with an exchange is said in one order: its envelope, its
/// certificate, the fingerprint of that, the key in it, the answer, whether the
/// answer has that key, and last its endpoint.
pub proof fn law_exchange_faults_have_one_order(wire: ExchangeWireView)
    ensures
        ({
            let result = wire.validated();
            let certificate = decoded(wire.sender_certificate_der_hex, 65_536);
            let fingerprint = decoded_fixed(wire.sender_certificate_sha256, 32);
            let key = certificate_key(certificate->Ok_0);
            let response = wire.pairing_response.read();
            let endpoint = decoded_fixed(wire.sender_endpoint_id, 16);
            let envelope = wire.version == 1 && wire.service == "nanalive-link"@;
            let read = envelope && certificate is Ok;
            let named = read && fingerprint == Ok::<Seq<u8>, crate::hex::HexError>(
                sha256_digest(certificate->Ok_0),
            );
            let keyed = named && key is Some && key->Some_0.len() == 32;
            let answered = keyed && response is Ok;
            let matched = answered && response->Ok_0.responder.public_key == key->Some_0;
            &&& !envelope ==> result == Err::<ExchangeView, PairingFault>(
                PairingFault::ExchangeEnvelope,
            )
            &&& envelope && !read ==> result == Err::<ExchangeView, PairingFault>(
                PairingFault::Hex(certificate->Err_0),
            )
            &&& read && fingerprint is Err ==> result == Err::<ExchangeView, PairingFault>(
                PairingFault::Hex(fingerprint->Err_0),
            )
            &&& read && fingerprint is Ok && !named ==> result == Err::<ExchangeView, PairingFault>(
                PairingFault::Fingerprint,
            )
            &&& named && key is None ==> result == Err::<ExchangeView, PairingFault>(
                PairingFault::CertificateSyntax,
            )
            &&& named && key is Some && !keyed ==> result == Err::<ExchangeView, PairingFault>(
                PairingFault::CertificateKey,
            )
            &&& keyed && !answered ==> result == Err::<ExchangeView, PairingFault>(response->Err_0)
            &&& answered && !matched ==> result == Err::<ExchangeView, PairingFault>(
                PairingFault::ResponseKey,
            )
            &&& matched && endpoint is Err ==> result == Err::<ExchangeView, PairingFault>(
                PairingFault::Hex(endpoint->Err_0),
            )
            &&& matched && endpoint is Ok && result is Err ==> result == Err::<
                ExchangeView,
                PairingFault,
            >(PairingFault::SenderEndpoint)
        }),
{
}

} // verus!
