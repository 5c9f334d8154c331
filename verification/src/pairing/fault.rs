//! Why a pairing step was refused.
use crate::crypto::{GenerationFault, ServerCertificateFault, TlsFault};
use crate::hex::HexError;
use vstd::prelude::*;

verus! {

/// Why a pairing step was refused.
#[derive(Clone, Copy, Debug, PartialEq, Eq, Structural)]
pub enum PairingFault {
    Hex(HexError),
    ServerCertificate(ServerCertificateFault),
    Generation(GenerationFault),
    Tls(TlsFault),
    IdentitySyntax,
    InvitationSyntax,
    ExchangeSyntax,
    StateSyntax,
    CertificateSize,
    PrivateKey,
    PublicKeyLength,
    CertificateSyntax,
    CertificateKey,
    CertificateKeyMismatch,
    PeerIdMismatch,
    IdentityFileSize,
    IdentityFileVersion,
    IdentityEndpoint,
    ServerNameEmpty,
    GeneratedKey,
    InvitationFields,
    PairingIdRandom,
    ChallengeRandom,
    AlreadyPaired,
    InvitationMismatch,
    Fingerprint,
    InvitationIdentity,
    Method,
    ExchangeEnvelope,
    ResponseKey,
    IdentityKey,
    IdentityPeer,
    SenderEndpoint,
    PairingId,
    ChallengeConsumed,
    NotPaired,
    ProfileMismatch,
    TrustWithoutProfile,
    InvitationRequired,
    CeremonyUnfinished,
    ProfileInconsistent,
    TrustConflict,
    TrustMissing,
    ProfileEndpoint,
    ProfileCertificate,
    StateSize,
    StateInvalid,
    FlowOutOfOrder,
}

impl PairingFault {
    pub open spec fn message(self) -> Seq<char> {
        match self {
            PairingFault::Hex(error) => error.message(),
            PairingFault::ServerCertificate(ServerCertificateFault::TrustAnchor)
            => "use receiver certificate as its trust anchor"@,
            PairingFault::ServerCertificate(ServerCertificateFault::Verifier)
            => "build receiver certificate verifier"@,
            PairingFault::ServerCertificate(ServerCertificateFault::ServerName)
            => "receiver server name is invalid"@,
            PairingFault::ServerCertificate(ServerCertificateFault::Authentication)
            => "receiver certificate cannot authenticate the configured server name"@,
            PairingFault::Generation(GenerationFault::Key)
            => "generate receiver Ed25519 identity"@,
            PairingFault::Generation(GenerationFault::Parameters)
            => "create receiver certificate parameters"@,
            PairingFault::Generation(GenerationFault::SelfSign)
            => "self-sign receiver certificate"@,
            PairingFault::Tls(TlsFault::TrustRoot)
            => "add paired sender certificate as the client trust root"@,
            PairingFault::Tls(TlsFault::Verifier)
            => "build paired-sender client certificate verifier"@,
            PairingFault::Tls(TlsFault::Versions) => "build mutual TLS server configuration"@,
            PairingFault::Tls(TlsFault::Configuration) => "build mutual TLS server configuration"@,
            PairingFault::Tls(TlsFault::Quic) => "enable QUIC for mutual TLS"@,
            PairingFault::IdentitySyntax => "parse receiver identity file"@,
            PairingFault::InvitationSyntax => "parse receiver pairing invitation"@,
            PairingFault::ExchangeSyntax => "parse sender pairing exchange"@,
            PairingFault::StateSyntax => "parse receiver pairing state"@,
            PairingFault::CertificateSize => "receiver certificate is invalid"@,
            PairingFault::PrivateKey => "receiver private key is not Ed25519 PKCS#8"@,
            PairingFault::PublicKeyLength => "receiver Ed25519 public key has an invalid length"@,
            PairingFault::CertificateSyntax => "parse X.509 certificate"@,
            PairingFault::CertificateKey => "certificate public key is not raw Ed25519"@,
            PairingFault::CertificateKeyMismatch
            => "receiver certificate does not match its private key"@,
            PairingFault::PeerIdMismatch
            => "--receiver-peer-id does not match the receiver certificate key"@,
            PairingFault::IdentityFileSize => "receiver identity file exceeds its allowed size"@,
            PairingFault::IdentityFileVersion => "receiver identity file version is unsupported"@,
            PairingFault::IdentityEndpoint
            => "receiver identity endpoint does not match its peer identity"@,
            PairingFault::ServerNameEmpty => "receiver server name must be non-empty"@,
            PairingFault::GeneratedKey => "generated receiver key is not Ed25519"@,
            PairingFault::InvitationFields => "pairing invitation fields or lifetime are invalid"@,
            PairingFault::PairingIdRandom => "generate pairing id"@,
            PairingFault::ChallengeRandom => "generate pairing challenge"@,
            PairingFault::AlreadyPaired => "this receiver already has a paired sender"@,
            PairingFault::InvitationMismatch => "pairing invitation does not match this receiver"@,
            PairingFault::Fingerprint => "certificate SHA-256 fingerprint does not match"@,
            PairingFault::InvitationIdentity
            => "pairing invitation identity does not match this receiver"@,
            PairingFault::Method => "unsupported pairing method"@,
            PairingFault::ExchangeEnvelope
            => "sender pairing exchange version or service is invalid"@,
            PairingFault::ResponseKey
            => "sender certificate key does not match the Mutsuki pairing response"@,
            PairingFault::IdentityKey => "pairing identity public key must be raw Ed25519"@,
            PairingFault::IdentityPeer => "pairing identity does not match its public key"@,
            PairingFault::SenderEndpoint
            => "sender endpoint id does not match its paired identity"@,
            PairingFault::PairingId => "pairing response id does not match the invitation"@,
            PairingFault::ChallengeConsumed
            => "pairing invitation challenge has already been consumed"@,
            PairingFault::NotPaired => "no sender has been paired with this receiver"@,
            PairingFault::ProfileMismatch
            => "pairing exchange does not match the persisted sender profile"@,
            PairingFault::TrustWithoutProfile
            => "sender trust exists without its strict receiver profile"@,
            PairingFault::InvitationRequired => "first pairing requires --pairing-invitation"@,
            PairingFault::CeremonyUnfinished => "Mutsuki pairing did not reach Paired state"@,
            PairingFault::ProfileInconsistent
            => "persisted sender profile identity is inconsistent"@,
            PairingFault::TrustConflict
            => "Mutsuki trust record conflicts with the persisted sender profile"@,
            PairingFault::TrustMissing
            => "Mutsuki trust record is missing for the committed sender profile"@,
            PairingFault::ProfileEndpoint
            => "persisted sender endpoint does not match its peer identity"@,
            PairingFault::ProfileCertificate
            => "persisted sender certificate does not match its peer identity"@,
            PairingFault::StateSize => "receiver pairing state exceeds its allowed size"@,
            PairingFault::StateInvalid => "receiver pairing state is invalid"@,
            PairingFault::FlowOutOfOrder => "pairing step out of order"@,
        }
    }

    /// The message shown for this refusal.
    pub fn text(&self) -> (text: &'static str)
        ensures
            text@ == self.message(),
    {
        match self {
            PairingFault::Hex(error) => error.text(),
            PairingFault::ServerCertificate(ServerCertificateFault::TrustAnchor)
            => "use receiver certificate as its trust anchor",
            PairingFault::ServerCertificate(ServerCertificateFault::Verifier)
            => "build receiver certificate verifier",
            PairingFault::ServerCertificate(ServerCertificateFault::ServerName)
            => "receiver server name is invalid",
            PairingFault::ServerCertificate(ServerCertificateFault::Authentication)
            => "receiver certificate cannot authenticate the configured server name",
            PairingFault::Generation(GenerationFault::Key) => "generate receiver Ed25519 identity",
            PairingFault::Generation(GenerationFault::Parameters)
            => "create receiver certificate parameters",
            PairingFault::Generation(GenerationFault::SelfSign)
            => "self-sign receiver certificate",
            PairingFault::Tls(TlsFault::TrustRoot)
            => "add paired sender certificate as the client trust root",
            PairingFault::Tls(TlsFault::Verifier)
            => "build paired-sender client certificate verifier",
            PairingFault::Tls(TlsFault::Versions) => "build mutual TLS server configuration",
            PairingFault::Tls(TlsFault::Configuration) => "build mutual TLS server configuration",
            PairingFault::Tls(TlsFault::Quic) => "enable QUIC for mutual TLS",
            PairingFault::IdentitySyntax => "parse receiver identity file",
            PairingFault::InvitationSyntax => "parse receiver pairing invitation",
            PairingFault::ExchangeSyntax => "parse sender pairing exchange",
            PairingFault::StateSyntax => "parse receiver pairing state",
            PairingFault::CertificateSize => "receiver certificate is invalid",
            PairingFault::PrivateKey => "receiver private key is not Ed25519 PKCS#8",
            PairingFault::PublicKeyLength => "receiver Ed25519 public key has an invalid length",
            PairingFault::CertificateSyntax => "parse X.509 certificate",
            PairingFault::CertificateKey => "certificate public key is not raw Ed25519",
            PairingFault::CertificateKeyMismatch
            => "receiver certificate does not match its private key",
            PairingFault::PeerIdMismatch
            => "--receiver-peer-id does not match the receiver certificate key",
            PairingFault::IdentityFileSize => "receiver identity file exceeds its allowed size",
            PairingFault::IdentityFileVersion => "receiver identity file version is unsupported",
            PairingFault::IdentityEndpoint
            => "receiver identity endpoint does not match its peer identity",
            PairingFault::ServerNameEmpty => "receiver server name must be non-empty",
            PairingFault::GeneratedKey => "generated receiver key is not Ed25519",
            PairingFault::InvitationFields => "pairing invitation fields or lifetime are invalid",
            PairingFault::PairingIdRandom => "generate pairing id",
            PairingFault::ChallengeRandom => "generate pairing challenge",
            PairingFault::AlreadyPaired => "this receiver already has a paired sender",
            PairingFault::InvitationMismatch => "pairing invitation does not match this receiver",
            PairingFault::Fingerprint => "certificate SHA-256 fingerprint does not match",
            PairingFault::InvitationIdentity
            => "pairing invitation identity does not match this receiver",
            PairingFault::Method => "unsupported pairing method",
            PairingFault::ExchangeEnvelope
            => "sender pairing exchange version or service is invalid",
            PairingFault::ResponseKey
            => "sender certificate key does not match the Mutsuki pairing response",
            PairingFault::IdentityKey => "pairing identity public key must be raw Ed25519",
            PairingFault::IdentityPeer => "pairing identity does not match its public key",
            PairingFault::SenderEndpoint
            => "sender endpoint id does not match its paired identity",
            PairingFault::PairingId => "pairing response id does not match the invitation",
            PairingFault::ChallengeConsumed
            => "pairing invitation challenge has already been consumed",
            PairingFault::NotPaired => "no sender has been paired with this receiver",
            PairingFault::ProfileMismatch
            => "pairing exchange does not match the persisted sender profile",
            PairingFault::TrustWithoutProfile
            => "sender trust exists without its strict receiver profile",
            PairingFault::InvitationRequired => "first pairing requires --pairing-invitation",
            PairingFault::CeremonyUnfinished => "Mutsuki pairing did not reach Paired state",
            PairingFault::ProfileInconsistent
            => "persisted sender profile identity is inconsistent",
            PairingFault::TrustConflict
            => "Mutsuki trust record conflicts with the persisted sender profile",
            PairingFault::TrustMissing
            => "Mutsuki trust record is missing for the committed sender profile",
            PairingFault::ProfileEndpoint
            => "persisted sender endpoint does not match its peer identity",
            PairingFault::ProfileCertificate
            => "persisted sender certificate does not match its peer identity",
            PairingFault::StateSize => "receiver pairing state exceeds its allowed size",
            PairingFault::StateInvalid => "receiver pairing state is invalid",
            PairingFault::FlowOutOfOrder => "pairing step out of order",
        }
    }
}

/// What a step came to, seen through its view.
pub open spec fn viewed<T: View, E>(result: Result<T, E>) -> Result<T::V, E> {
    match result {
        Ok(value) => Ok(value@),
        Err(fault) => Err(fault),
    }
}

} // verus!
