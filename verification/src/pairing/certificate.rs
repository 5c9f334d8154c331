//! What the receiver asks of certificates.
use crate::crypto::{
    build_mutual_tls, certificate_key, certificate_key_bytes, client_trust_root, ed25519_key,
    mutual_tls_fault, sha256, sha256_digest, shown_identity,
};
use crate::hex::{decode_fixed, decoded_fixed, to_array};
use crate::pairing::fault::{viewed, PairingFault};
use crate::pairing::native::same_bytes;
use vstd::prelude::*;

verus! {

/// The largest certificate that is accepted.
pub const MAX_CERTIFICATE_BYTES: usize = 65_536;

/// A certificate's key, where it is a raw Ed25519 key.
pub open spec fn raw_key(key: Option<Seq<u8>>) -> Result<Seq<u8>, PairingFault> {
    match key {
        None => Err(PairingFault::CertificateSyntax),
        Some(key) => if key.len() == 32 {
            Ok(key)
        } else {
            Err(PairingFault::CertificateKey)
        },
    }
}

/// A key that was found in a certificate, seen through its view.
pub open spec fn optional_bytes(key: Option<Vec<u8>>) -> Option<Seq<u8>> {
    match key {
        Some(key) => Some(key@),
        None => None,
    }
}

/// A certificate's key, where it is a raw Ed25519 key. `None` stands for bytes
/// that are no certificate.
pub fn raw_ed25519_key(key: Option<Vec<u8>>) -> (result: Result<[u8; 32], PairingFault>)
    ensures
        viewed(result) == raw_key(optional_bytes(key)),
{
    let key: Vec<u8> = match key {
        Some(key) => key,
        None => return Err(PairingFault::CertificateSyntax),
    };
    if key.len() != 32 {
        return Err(PairingFault::CertificateKey);
    }
    Ok(to_array(&key))
}

/// The raw Ed25519 key of a certificate.
pub fn certificate_public_key(certificate_der: &[u8]) -> (result: Result<[u8; 32], PairingFault>)
    ensures
        viewed(result) == raw_key(certificate_key(certificate_der@)),
{
    raw_ed25519_key(certificate_key_bytes(certificate_der))
}

/// Why a fingerprint does not name a digest, if it does not.
pub open spec fn fingerprint_fault(digest: Seq<u8>, fingerprint: Seq<char>) -> Option<PairingFault> {
    match decoded_fixed(fingerprint, 32) {
        Err(error) => Some(PairingFault::Hex(error)),
        Ok(bytes) => if bytes == digest {
            None
        } else {
            Some(PairingFault::Fingerprint)
        },
    }
}

/// What a check came to: the fault that it found, or nothing.
pub open spec fn checked(fault: Option<PairingFault>) -> Result<(), PairingFault> {
    match fault {
        Some(fault) => Err(fault),
        None => Ok(()),
    }
}

/// Whether a fingerprint names a digest.
pub fn check_fingerprint(digest: &[u8; 32], fingerprint: &str) -> (result: Result<(), PairingFault>)
    ensures
        result == checked(fingerprint_fault(digest@, fingerprint@)),
{
    let bytes: [u8; 32] = match decode_fixed::<32>(fingerprint) {
        Ok(bytes) => bytes,
        Err(error) => return Err(PairingFault::Hex(error)),
    };
    if !same_bytes(&bytes, digest) {
        return Err(PairingFault::Fingerprint);
    }
    Ok(())
}

/// Whether a fingerprint names the SHA-256 digest of a certificate.
pub fn validate_fingerprint(certificate_der: &[u8], fingerprint: &str) -> (result: Result<
    (),
    PairingFault,
>)
    ensures
        result == checked(fingerprint_fault(sha256_digest(certificate_der@), fingerprint@)),
{
    check_fingerprint(&sha256(certificate_der), fingerprint)
}

/// The QUIC configuration of a server that shows the receiver's certificate and
/// lets in only clients that show a certificate which the sender's vouches for.
/// For a receiver with an Ed25519 key, it is said exactly when there is one.
pub fn mutual_tls_server_config(
    receiver_certificate_der: Vec<u8>,
    receiver_private_key_der: Vec<u8>,
    sender_certificate_der: Vec<u8>,
) -> (result: Result<quinn::ServerConfig, PairingFault>)
    ensures
        ed25519_key(receiver_private_key_der@) is Some ==> match mutual_tls_fault(
            receiver_certificate_der@,
            receiver_private_key_der@,
            sender_certificate_der@,
        ) {
            Some(fault) => result matches Err(refused) && refused == PairingFault::Tls(fault),
            None => result is Ok,
        },
        match result {
            Ok(configuration) => {
                &&& client_trust_root(configuration) == Some(sender_certificate_der@)
                &&& shown_identity(configuration) == (
                    receiver_certificate_der@,
                    receiver_private_key_der@,
                )
            },
            Err(fault) => fault is Tls,
        },
{
    match build_mutual_tls(
        receiver_certificate_der,
        receiver_private_key_der,
        sender_certificate_der,
    ) {
        Ok(configuration) => Ok(configuration),
        Err(fault) => Err(PairingFault::Tls(fault)),
    }
}


/// A fingerprint names one digest: the one whose bytes it spells, in either case,
/// and no other. A key is used exactly where it is one of thirty-two bytes.
pub proof fn law_fingerprint_names_one_digest(
    digest: Seq<u8>,
    fingerprint: Seq<char>,
    key: Option<Seq<u8>>,
)
    ensures
        fingerprint_fault(digest, fingerprint) is None <==> decoded_fixed(fingerprint, 32) == Ok::<
            Seq<u8>,
            crate::hex::HexError,
        >(digest),
        decoded_fixed(fingerprint, 32) is Ok && fingerprint_fault(digest, fingerprint) is Some
            ==> fingerprint_fault(digest, fingerprint) == Some(PairingFault::Fingerprint),
        digest.len() == 32 ==> fingerprint_fault(digest, crate::hex::hex_text(digest)) is None,
        raw_key(key) is Ok <==> (key matches Some(bytes) && bytes.len() == 32),
        raw_key(key) matches Ok(bytes) ==> key == Some(bytes),
        key is None ==> raw_key(key) == Err::<Seq<u8>, PairingFault>(
            PairingFault::CertificateSyntax,
        ),
{
    if digest.len() == 32 {
        crate::hex::law_decode_undoes_encode(digest, 32);
    }
}

} // verus!
