//! Hashes, signatures and certificates: the calls into the crates that compute
//! them. Nothing in this file is proved; each function claims no more than its
//! comment says.
use quinn::crypto::rustls::QuicServerConfig;
use ring::rand::SecureRandom;
use ring::signature::KeyPair;
use rustls::client::danger::ServerCertVerifier;
use rustls::client::WebPkiServerVerifier;
use rustls::crypto::ring::default_provider;
use rustls::pki_types::{CertificateDer, PrivatePkcs8KeyDer, ServerName, UnixTime};
use rustls::server::WebPkiClientVerifier;
use rustls::{RootCertStore, ServerConfig};
use sha2::Digest;
use std::sync::Arc;
use vstd::prelude::*;
use x509_cert::der::Decode;

verus! {

/// The SHA-256 digest of some bytes, as an array.
pub uninterp spec fn sha256_array(bytes: Seq<u8>) -> [u8; 32];

/// The SHA-256 digest of some bytes.
pub open spec fn sha256_digest(bytes: Seq<u8>) -> Seq<u8> {
    sha256_array(bytes)@
}

/// The public key that an Ed25519 private key in PKCS#8 form carries, where it
/// is one.
pub uninterp spec fn ed25519_key(pkcs8: Seq<u8>) -> Option<Seq<u8>>;

/// The signature that a private key in PKCS#8 form gives to a message.
pub uninterp spec fn ed25519_signature(pkcs8: Seq<u8>, message: Seq<u8>) -> Seq<u8>;

/// A public key accepts a signature of a message.
pub uninterp spec fn ed25519_accepts(
    public_key: Seq<u8>,
    message: Seq<u8>,
    signature: Seq<u8>,
) -> bool;

/// The raw bytes of the subject's public key in an X.509 certificate, where the
/// bytes are one.
pub uninterp spec fn certificate_key(certificate_der: Seq<u8>) -> Option<Seq<u8>>;

/// Why a certificate, as its own trust anchor, cannot authenticate a server of
/// a name at a time in seconds since 1970, if it cannot.
pub uninterp spec fn server_certificate_fault(
    certificate_der: Seq<u8>,
    server_name: Seq<char>,
    now_unix_seconds: u64,
) -> Option<ServerCertificateFault>;

/// Why no mutual TLS configuration comes of a server certificate, its Ed25519
/// private key and the one accepted client certificate, if none does.
pub uninterp spec fn mutual_tls_fault(
    certificate_der: Seq<u8>,
    private_key_der: Seq<u8>,
    client_certificate_der: Seq<u8>,
) -> Option<TlsFault>;

/// The certificate that vouches for every client of a QUIC server, where the
/// server lets no client in without a certificate and trusts no other root.
pub uninterp spec fn client_trust_root(configuration: quinn::ServerConfig) -> Option<Seq<u8>>;

/// The certificate that a QUIC server shows, and the private key that it proves
/// it with.
pub uninterp spec fn shown_identity(configuration: quinn::ServerConfig) -> (Seq<u8>, Seq<u8>);

/// The self-signed certificate of an Ed25519 private key in PKCS#8 form for a
/// name and a purpose, or why there is none.
pub uninterp spec fn self_signed_certificate(
    private_key_der: Seq<u8>,
    name: Seq<char>,
    purpose: CertificatePurpose,
) -> Result<Seq<u8>, GenerationFault>;

/// When the validity of self-signed certificates begins: with the year 1975, in
/// seconds since 1970.
pub const VALIDITY_START_SECONDS: u64 = 157_766_400;

/// When the validity of self-signed certificates ends: with the year 4095, in
/// seconds since 1970.
pub const VALIDITY_END_SECONDS: u64 = 67_090_118_400;

/// A certificate that authenticates a name at some time does so during the whole
/// validity of self-signed certificates.
pub open spec fn keeps_authenticating(certificate_der: Seq<u8>) -> bool {
    forall|name: Seq<char>, once: u64, now: u64|
        #![trigger
            server_certificate_fault(certificate_der, name, once),
            server_certificate_fault(certificate_der, name, now)]
        server_certificate_fault(certificate_der, name, once) is None && VALIDITY_START_SECONDS
            <= now <= VALIDITY_END_SECONDS ==> server_certificate_fault(certificate_der, name, now)
            is None
}

/// A host name in lower case: letters, digits, hyphens and dots, with a letter
/// somewhere and no dot at its end.
pub open spec fn plain_host_name(name: Seq<char>) -> bool {
    &&& forall|i: int|
        0 <= i < name.len() ==> {
            ||| 'a' <= #[trigger] name[i] <= 'z'
            ||| '0' <= name[i] <= '9'
            ||| name[i] == '-'
            ||| name[i] == '.'
        }
    &&& exists|i: int| 0 <= i < name.len() && 'a' <= #[trigger] name[i] <= 'z'
    &&& name.last() != '.'
}

/// A certificate for a plain host name authenticates no other one.
pub open spec fn authenticates_only(certificate_der: Seq<u8>, name: Seq<char>) -> bool {
    plain_host_name(name) ==> forall|other: Seq<char>, now: u64|
        plain_host_name(other) && other != name ==> #[trigger] server_certificate_fault(
            certificate_der,
            other,
            now,
        ) is Some
}

/// The configuration of a QUIC server.
#[verifier::external_type_specification]
#[verifier::external_body]
pub struct ExQuicServerConfig(quinn::ServerConfig);

/// Why a certificate cannot authenticate a server name.
#[derive(Clone, Copy, Debug, PartialEq, Eq, Structural)]
pub enum ServerCertificateFault {
    TrustAnchor,
    Verifier,
    ServerName,
    Authentication,
}

/// Why a mutual TLS configuration was not built.
#[derive(Clone, Copy, Debug, PartialEq, Eq, Structural)]
pub enum TlsFault {
    TrustRoot,
    Verifier,
    Versions,
    Configuration,
    Quic,
}

/// Why no certificate was generated.
#[derive(Clone, Copy, Debug, PartialEq, Eq, Structural)]
pub enum GenerationFault {
    Key,
    Parameters,
    SelfSign,
}

/// What a certificate is for.
#[derive(Clone, Copy, Debug, PartialEq, Eq, Structural)]
pub enum CertificatePurpose {
    ServerAuthentication,
    ClientAuthentication,
}

/// A freshly generated Ed25519 key.
#[derive(Clone, Debug, PartialEq, Eq)]
pub struct GeneratedKey {
    pub private_key_der: Vec<u8>,
    pub public_key: Vec<u8>,
}

/// A freshly generated key with its self-signed certificate.
#[derive(Clone, Debug, PartialEq, Eq)]
pub struct GeneratedIdentity {
    pub certificate_der: Vec<u8>,
    pub private_key_der: Vec<u8>,
    pub public_key: Vec<u8>,
}

/// `sha2::Sha256::digest`: the digest of `bytes`, a function of them alone.
#[verifier::external_body]
pub(crate) fn sha256(bytes: &[u8]) -> (digest: [u8; 32])
    ensures
        digest == sha256_array(bytes@),
{
    sha2::Sha256::digest(bytes).into()
}

/// `ring::signature::Ed25519KeyPair::from_pkcs8` and its public key: `None`
/// where the bytes are no PKCS#8 v2 Ed25519 key, or where the two keys in them
/// do not belong together. A function of the bytes alone; a public key is 32
/// bytes long.
#[verifier::external_body]
pub(crate) fn ed25519_public_key(pkcs8: &[u8]) -> (key: Option<Vec<u8>>)
    ensures
        match key {
            Some(key) => ed25519_key(pkcs8@) == Some(key@) && key@.len() == 32,
            None => ed25519_key(pkcs8@) is None,
        },
{
    let pair = ring::signature::Ed25519KeyPair::from_pkcs8(pkcs8).ok()?;
    Some(pair.public_key().as_ref().to_vec())
}

/// `ring::signature::Ed25519KeyPair::sign`, on the key that the PKCS#8 bytes
/// hold: a signature of 64 bytes wherever they hold one, a function of key and
/// message alone, which the key's public half accepts.
#[verifier::external_body]
pub(crate) fn ed25519_sign(pkcs8: &[u8], message: &[u8]) -> (signature: Option<Vec<u8>>)
    ensures
        match signature {
            Some(signature) => {
                &&& ed25519_key(pkcs8@) is Some
                &&& signature@ == ed25519_signature(pkcs8@, message@)
                &&& signature@.len() == 64
                &&& ed25519_accepts(ed25519_key(pkcs8@)->Some_0, message@, signature@)
            },
            None => ed25519_key(pkcs8@) is None,
        },
{
    let pair = ring::signature::Ed25519KeyPair::from_pkcs8(pkcs8).ok()?;
    Some(pair.sign(message).as_ref().to_vec())
}

/// `ring::signature::UnparsedPublicKey::verify` for Ed25519: whether the key
/// accepts the signature, a function of the three byte strings alone. A key is
/// 32 bytes long and a signature 64.
#[verifier::external_body]
pub(crate) fn ed25519_verify(public_key: &[u8], message: &[u8], signature: &[u8]) -> (accepted: bool)
    ensures
        accepted == ed25519_accepts(public_key@, message@, signature@),
        accepted ==> public_key@.len() == 32 && signature@.len() == 64,
{
    ring::signature::UnparsedPublicKey::new(&ring::signature::ED25519, public_key)
        .verify(message, signature)
        .is_ok()
}

/// `ring::rand::SystemRandom::fill`: random bytes from the operating system,
/// or `None` where it has none to give. Nothing is claimed of the bytes.
#[verifier::external_body]
pub(crate) fn random_bytes<const N: usize>() -> (bytes: Option<[u8; N]>) {
    let mut bytes = [0u8; N];
    ring::rand::SystemRandom::new().fill(&mut bytes).ok()?;
    Some(bytes)
}

/// `x509_cert::Certificate::from_der`, and the raw bytes of the subject's
/// public key in it: `None` where the bytes are no certificate. A function of
/// the bytes alone.
#[verifier::external_body]
pub(crate) fn certificate_key_bytes(certificate_der: &[u8]) -> (key: Option<Vec<u8>>)
    ensures
        match key {
            Some(key) => certificate_key(certificate_der@) == Some(key@),
            None => certificate_key(certificate_der@) is None,
        },
{
    let certificate = x509_cert::Certificate::from_der(certificate_der).ok()?;
    let key_info = &certificate.tbs_certificate.subject_public_key_info;
    Some(key_info.subject_public_key.raw_bytes().to_vec())
}

/// `rustls::client::WebPkiServerVerifier::verify_server_cert` with the
/// certificate as the only trust anchor and the algorithms of ring: which step
/// refuses it, if one does. A function of certificate, name and time alone.
#[verifier::external_body]
pub(crate) fn verify_server_certificate(
    certificate_der: &[u8],
    server_name: &str,
    now_unix_seconds: u64,
) -> (verdict: Result<(), ServerCertificateFault>)
    ensures
        verdict == match server_certificate_fault(certificate_der@, server_name@, now_unix_seconds) {
            Some(fault) => Err::<(), ServerCertificateFault>(fault),
            None => Ok(()),
        },
{
    let certificate = CertificateDer::from(certificate_der.to_vec());
    let mut roots = RootCertStore::empty();
    roots.add(certificate.clone()).map_err(|_| ServerCertificateFault::TrustAnchor)?;
    let provider = Arc::new(default_provider());
    let verifier = WebPkiServerVerifier::builder_with_provider(Arc::new(roots), provider)
        .build()
        .map_err(|_| ServerCertificateFault::Verifier)?;
    let name = ServerName::try_from(server_name.to_owned())
        .map_err(|_| ServerCertificateFault::ServerName)?;
    let now = UnixTime::since_unix_epoch(std::time::Duration::from_secs(now_unix_seconds));
    verifier
        .verify_server_cert(&certificate, &[], &name, &[], now)
        .map_err(|_| ServerCertificateFault::Authentication)
        .map(|_| ())
}

/// `rcgen::KeyPair::generate_for`: a random Ed25519 key, or `None` where the
/// system has no random bytes to give. Claimed of every key is that the private
/// half is an Ed25519 key in PKCS#8 form, that the public half is its own, of 32
/// bytes, and that the private half fits the buffer of 185 bytes that it is made
/// in. Which key comes is left open.
#[verifier::external_body]
pub(crate) fn generate_key() -> (generated: Option<GeneratedKey>)
    ensures
        generated matches Some(generated) ==> {
            &&& ed25519_key(generated.private_key_der@) == Some(generated.public_key@)
            &&& generated.public_key@.len() == 32
            &&& generated.private_key_der@.len() <= 185
        },
{
    let key = rcgen::KeyPair::generate_for(&rcgen::PKCS_ED25519).ok()?;
    Some(GeneratedKey {
        private_key_der: key.serialize_der(),
        public_key: key.public_key_raw().to_vec(),
    })
}

/// `rcgen::CertificateParams::self_signed`, on the parameters that
/// `rcgen::CertificateParams::new` gives for one name, with one extended key
/// usage: the self-signed certificate of an Ed25519 key, a function of key, name
/// and purpose alone, as serial number and validity are fixed by them and the
/// signature is deterministic. Where the key is one, a certificate comes exactly
/// of the names that are ASCII, and no other key can be read out of it. Its
/// validity reaches from 1975 through 4095, and its one alternative name is the
/// given one.
#[verifier::external_body]
pub(crate) fn self_sign(private_key_der: &[u8], name: &str, purpose: CertificatePurpose) -> (signed:
    Result<Vec<u8>, GenerationFault>)
    ensures
        match signed {
            Ok(certificate) => self_signed_certificate(private_key_der@, name@, purpose) == Ok::<
                Seq<u8>,
                GenerationFault,
            >(certificate@),
            Err(fault) => self_signed_certificate(private_key_der@, name@, purpose) == Err::<
                Seq<u8>,
                GenerationFault,
            >(fault),
        },
        ed25519_key(private_key_der@) is Some ==> match signed {
            Ok(_) => vstd::utf8::is_ascii_chars(name@),
            Err(fault) => fault == GenerationFault::Parameters && !vstd::utf8::is_ascii_chars(name@),
        },
        signed matches Ok(certificate) ==> {
            &&& keeps_authenticating(certificate@)
            &&& authenticates_only(certificate@, name@)
            &&& certificate_key(certificate@) matches Some(key) ==> ed25519_key(
                private_key_der@,
            ) matches Some(public_key) ==> key == public_key
        },
{
    let pkcs8 = PrivatePkcs8KeyDer::from(private_key_der.to_vec());
    let key = rcgen::KeyPair::from_pkcs8_der_and_sign_algo(&pkcs8, &rcgen::PKCS_ED25519)
        .map_err(|_| GenerationFault::Key)?;
    let mut parameters = rcgen::CertificateParams::new(vec![name.to_owned()])
        .map_err(|_| GenerationFault::Parameters)?;
    parameters.extended_key_usages = vec![match purpose {
        CertificatePurpose::ServerAuthentication => rcgen::ExtendedKeyUsagePurpose::ServerAuth,
        CertificatePurpose::ClientAuthentication => rcgen::ExtendedKeyUsagePurpose::ClientAuth,
    }];
    let certificate = parameters.self_signed(&key).map_err(|_| GenerationFault::SelfSign)?;
    Ok(certificate.der().as_ref().to_vec())
}

/// `rustls::ServerConfig` with `rustls::server::WebPkiClientVerifier`, wrapped
/// by `quinn::ServerConfig::with_crypto`, all with the algorithms of ring. The
/// configuration shows the given certificate, proves it with the given key, and
/// lets in only clients that show a certificate under the one trust root, which
/// is the given client certificate. For an Ed25519 key, which step fails, if one
/// does, is a function of the three byte strings alone; reading other keys draws
/// on the system's random bytes, and nothing is said of which step fails then.
/// What TLS makes of a trust root is not said. Where the system has no random
/// bytes for the key of the handshake tokens, the call does not return.
#[verifier::external_body]
pub(crate) fn build_mutual_tls(
    certificate_der: Vec<u8>,
    private_key_der: Vec<u8>,
    client_certificate_der: Vec<u8>,
) -> (built: Result<quinn::ServerConfig, TlsFault>)
    ensures
        ed25519_key(private_key_der@) is Some ==> match built {
            Ok(_) => mutual_tls_fault(
                certificate_der@,
                private_key_der@,
                client_certificate_der@,
            ) is None,
            Err(fault) => mutual_tls_fault(
                certificate_der@,
                private_key_der@,
                client_certificate_der@,
            ) == Some(fault),
        },
        built matches Ok(configuration) ==> {
            &&& client_trust_root(configuration) == Some(client_certificate_der@)
            &&& shown_identity(configuration) == (certificate_der@, private_key_der@)
        },
{
    let provider = Arc::new(default_provider());
    let mut roots = RootCertStore::empty();
    roots.add(client_certificate_der.into()).map_err(|_| TlsFault::TrustRoot)?;
    let verifier = WebPkiClientVerifier::builder_with_provider(Arc::new(roots), provider.clone())
        .build()
        .map_err(|_| TlsFault::Verifier)?;
    let tls = ServerConfig::builder_with_provider(provider)
        .with_safe_default_protocol_versions()
        .map_err(|_| TlsFault::Versions)?
        .with_client_cert_verifier(verifier)
        .with_single_cert(vec![certificate_der.into()], PrivatePkcs8KeyDer::from(private_key_der).into())
        .map_err(|_| TlsFault::Configuration)?;
    let quic = QuicServerConfig::try_from(tls).map_err(|_| TlsFault::Quic)?;
    Ok(quinn::ServerConfig::with_crypto(Arc::new(quic)))
}

} // verus!
