//! The receiver's own identity.
use crate::crypto::{
    authenticates_only, certificate_key, ed25519_accepts, ed25519_key, ed25519_public_key,
    ed25519_sign, ed25519_signature, ed25519_verify, generate_key, keeps_authenticating,
    plain_host_name, self_sign, self_signed_certificate, server_certificate_fault, sha256,
    sha256_digest, verify_server_certificate, CertificatePurpose, GeneratedIdentity, GeneratedKey,
    GenerationFault, ServerCertificateFault, VALIDITY_END_SECONDS, VALIDITY_START_SECONDS,
};
use crate::hex::{
    decode_fixed, decode_hex_bounded, decoded, decoded_fixed, encode_hex, hex_text, to_array,
};
use crate::pairing::certificate::{
    certificate_public_key, raw_key, MAX_CERTIFICATE_BYTES,
};
use crate::pairing::fault::{viewed, PairingFault};
use crate::pairing::native::{
    copied, endpoint_from_peer, endpoint_of, same_bytes, same_text, EndpointId, LongTermIdentity,
    PeerId,
};
use vstd::prelude::*;
use vstd::string::StrSliceExecFns;

verus! {

/// The version of every pairing file and message.
pub const PAIRING_VERSION: u8 = 1;

/// The largest file that the receiver reads or writes.
pub const MAX_STATE_BYTES: u64 = 262_144;

/// What a [`ReceiverIdentity`] holds.
#[verifier::ext_equal]
pub ghost struct ReceiverIdentityView {
    pub peer_id: Seq<u8>,
    pub endpoint_id: Seq<u8>,
    pub public_key: Seq<u8>,
    pub certificate_der: Seq<u8>,
    pub private_key_der: Seq<u8>,
}

impl ReceiverIdentityView {
    /// The parts of an identity belong together: one key pair, whose public
    /// half the certificate carries, and the ids that are derived from it.
    pub open spec fn wf(self) -> bool {
        &&& 0 < self.certificate_der.len() <= MAX_CERTIFICATE_BYTES
        &&& self.public_key.len() == 32
        &&& ed25519_key(self.private_key_der) == Some(self.public_key)
        &&& certificate_key(self.certificate_der) == Some(self.public_key)
        &&& self.peer_id == sha256_digest(self.public_key)
        &&& self.endpoint_id == endpoint_of(self.peer_id)
    }
}

/// What the identity's key and certificate turned out to be.
#[derive(Debug, PartialEq, Eq)]
pub struct IdentityEvidence {
    /// The public half of the private key, where it is an Ed25519 key.
    pub public_key: Option<Vec<u8>>,
    /// The certificate's key, or why there is none.
    pub certificate_key: Result<[u8; 32], PairingFault>,
    /// Whether the certificate authenticates the server name.
    pub server_verdict: Result<(), ServerCertificateFault>,
    /// The peer id of the public key.
    pub peer_id: PeerId,
    /// The endpoint id of that peer.
    pub endpoint_id: EndpointId,
}

/// The identity that a certificate and a key make, given what they turned out
/// to be, or why they make none.
pub open spec fn assembled(
    certificate_der: Seq<u8>,
    private_key_der: Seq<u8>,
    expected_peer_id: Seq<char>,
    public_key: Option<Seq<u8>>,
    certificate_key: Result<Seq<u8>, PairingFault>,
    server_verdict: Result<(), ServerCertificateFault>,
    peer_id: Seq<u8>,
    endpoint_id: Seq<u8>,
) -> Result<ReceiverIdentityView, PairingFault> {
    if certificate_der.len() == 0 || certificate_der.len() > MAX_CERTIFICATE_BYTES {
        Err(PairingFault::CertificateSize)
    } else {
        match (public_key, certificate_key, server_verdict, decoded_fixed(expected_peer_id, 32)) {
            (None, _, _, _) => Err(PairingFault::PrivateKey),
            (Some(public_key), certificate_key, server_verdict, expected) => if public_key.len()
                != 32 {
                Err(PairingFault::PublicKeyLength)
            } else {
                match (certificate_key, server_verdict, expected) {
                    (Err(fault), _, _) => Err(fault),
                    (Ok(certificate_key), server_verdict, expected) => if certificate_key
                        != public_key {
                        Err(PairingFault::CertificateKeyMismatch)
                    } else {
                        match (server_verdict, expected) {
                            (Err(fault), _) => Err(PairingFault::ServerCertificate(fault)),
                            (Ok(_), Err(error)) => Err(PairingFault::Hex(error)),
                            (Ok(_), Ok(expected)) => if expected != peer_id {
                                Err(PairingFault::PeerIdMismatch)
                            } else {
                                Ok(
                                    ReceiverIdentityView {
                                        peer_id,
                                        endpoint_id,
                                        public_key,
                                        certificate_der,
                                        private_key_der,
                                    },
                                )
                            },
                        }
                    },
                }
            },
        }
    }
}

/// The verdict that a fault stands for.
pub open spec fn verdict(fault: Option<ServerCertificateFault>) -> Result<
    (),
    ServerCertificateFault,
> {
    match fault {
        Some(fault) => Err(fault),
        None => Ok(()),
    }
}

/// The public half of a private key, or nothing where it is no Ed25519 key.
pub open spec fn public_half(private_key_der: Seq<u8>) -> Seq<u8> {
    match ed25519_key(private_key_der) {
        Some(key) => key,
        None => Seq::empty(),
    }
}

/// The identity that a certificate and a key make for a server name and a time,
/// or why they make none.
pub open spec fn loaded(
    certificate_der: Seq<u8>,
    private_key_der: Seq<u8>,
    expected_peer_id: Seq<char>,
    server_name: Seq<char>,
    now_unix_seconds: u64,
) -> Result<ReceiverIdentityView, PairingFault> {
    let peer_id = sha256_digest(public_half(private_key_der));
    assembled(
        certificate_der,
        private_key_der,
        expected_peer_id,
        ed25519_key(private_key_der),
        raw_key(certificate_key(certificate_der)),
        verdict(server_certificate_fault(certificate_der, server_name, now_unix_seconds)),
        peer_id,
        endpoint_of(peer_id),
    )
}

/// The receiver's identity: one Ed25519 key pair and its certificate.
pub struct ReceiverIdentity {
    peer_id: PeerId,
    endpoint_id: EndpointId,
    public_key: [u8; 32],
    certificate_der: Vec<u8>,
    private_key_der: Vec<u8>,
}

impl View for ReceiverIdentity {
    type V = ReceiverIdentityView;

    closed spec fn view(&self) -> ReceiverIdentityView {
        ReceiverIdentityView {
            peer_id: self.peer_id@,
            endpoint_id: self.endpoint_id@,
            public_key: self.public_key@,
            certificate_der: self.certificate_der@,
            private_key_der: self.private_key_der@,
        }
    }
}

impl ReceiverIdentity {
    /// The identity that a certificate and a key make, given what they turned
    /// out to be.
    pub fn assemble(
        certificate_der: Vec<u8>,
        private_key_der: Vec<u8>,
        expected_peer_id: &str,
        evidence: IdentityEvidence,
    ) -> (result: Result<Self, PairingFault>)
        ensures
            viewed(result) == assembled(
                certificate_der@,
                private_key_der@,
                expected_peer_id@,
                crate::pairing::certificate::optional_bytes(evidence.public_key),
                viewed(evidence.certificate_key),
                evidence.server_verdict,
                evidence.peer_id@,
                evidence.endpoint_id@,
            ),
    {
        if certificate_der.len() == 0 || certificate_der.len() > MAX_CERTIFICATE_BYTES {
            return Err(PairingFault::CertificateSize);
        }
        let raw: Vec<u8> = match evidence.public_key {
            Some(key) => key,
            None => return Err(PairingFault::PrivateKey),
        };
        if raw.len() != 32 {
            return Err(PairingFault::PublicKeyLength);
        }
        let public_key: [u8; 32] = to_array(&raw);
        let certificate_key: [u8; 32] = match evidence.certificate_key {
            Ok(key) => key,
            Err(fault) => return Err(fault),
        };
        if !same_bytes(&certificate_key, &public_key) {
            return Err(PairingFault::CertificateKeyMismatch);
        }
        match evidence.server_verdict {
            Ok(_) => {},
            Err(fault) => return Err(PairingFault::ServerCertificate(fault)),
        }
        let expected: [u8; 32] = match decode_fixed::<32>(expected_peer_id) {
            Ok(expected) => expected,
            Err(error) => return Err(PairingFault::Hex(error)),
        };
        if !same_bytes(&expected, &evidence.peer_id.bytes) {
            return Err(PairingFault::PeerIdMismatch);
        }
        Ok(
            ReceiverIdentity {
                peer_id: evidence.peer_id,
                endpoint_id: evidence.endpoint_id,
                public_key,
                certificate_der,
                private_key_der,
            },
        )
    }

    /// Loads an identity: the certificate and the private key must belong
    /// together, the certificate must authenticate the server name at the given
    /// time, and the peer id must be the expected one.
    pub fn load(
        certificate_der: Vec<u8>,
        private_key_der: Vec<u8>,
        expected_peer_id: &str,
        server_name: &str,
        now_unix_seconds: u64,
    ) -> (result: Result<Self, PairingFault>)
        ensures
            viewed(result) == loaded(
                certificate_der@,
                private_key_der@,
                expected_peer_id@,
                server_name@,
                now_unix_seconds,
            ),
            result matches Ok(identity) ==> identity@.wf(),
    {
        let public_key: Option<Vec<u8>> = ed25519_public_key(private_key_der.as_slice());
        let peer: [u8; 32] = match &public_key {
            Some(key) => sha256(key.as_slice()),
            None => sha256(&[]),
        };
        proof {
            assert(peer@ == sha256_digest(public_half(private_key_der@))) by {
                let nothing: [u8; 0] = [];
                assert(nothing@ =~= Seq::<u8>::empty());
            }
        }
        let evidence = IdentityEvidence {
            public_key,
            certificate_key: certificate_public_key(certificate_der.as_slice()),
            server_verdict: verify_server_certificate(
                certificate_der.as_slice(),
                server_name,
                now_unix_seconds,
            ),
            peer_id: PeerId::from_bytes(peer),
            endpoint_id: endpoint_from_peer(peer),
        };
        Self::assemble(certificate_der, private_key_der, expected_peer_id, evidence)
    }

    /// The endpoint id that the receiver listens under.
    pub fn endpoint_id(&self) -> (endpoint_id: EndpointId)
        ensures
            endpoint_id@ == self@.endpoint_id,
    {
        self.endpoint_id
    }

    /// The peer id of the receiver.
    pub fn peer_id(&self) -> (peer_id: PeerId)
        ensures
            peer_id@ == self@.peer_id,
    {
        self.peer_id
    }

    /// The raw public key of the receiver.
    pub fn public_key(&self) -> (public_key: [u8; 32])
        ensures
            public_key@ == self@.public_key,
    {
        self.public_key
    }

    /// The certificate that the receiver shows.
    pub fn certificate_der(&self) -> (certificate_der: &[u8])
        ensures
            certificate_der@ == self@.certificate_der,
    {
        self.certificate_der.as_slice()
    }

    /// The private key of the receiver.
    pub fn private_key_der(&self) -> (private_key_der: &[u8])
        ensures
            private_key_der@ == self@.private_key_der,
    {
        self.private_key_der.as_slice()
    }

    /// The identity that the receiver presents under a name.
    pub fn long_term_identity(&self, display_name: &str) -> (identity: LongTermIdentity)
        ensures
            identity@.peer_id == self@.peer_id,
            identity@.public_key == self@.public_key,
            identity@.display_name == display_name@,
    {
        LongTermIdentity {
            peer_id: self.peer_id,
            public_key: copied(&self.public_key),
            display_name: display_name.to_owned(),
        }
    }

    /// The receiver's signature of a transcript. `None` does not come of a
    /// loaded identity.
    pub fn sign_transcript(&self, transcript_hash: &[u8; 32]) -> (signature: Option<Vec<u8>>)
        ensures
            match signature {
                Some(signature) => signature@ == ed25519_signature(
                    self@.private_key_der,
                    transcript_hash@,
                ),
                None => ed25519_key(self@.private_key_der) is None,
            },
            self@.wf() ==> {
                &&& signature matches Some(signature)
                &&& signature@.len() == 64
                &&& ed25519_accepts(self@.public_key, transcript_hash@, signature@)
            },
    {
        ed25519_sign(self.private_key_der.as_slice(), transcript_hash)
    }
}

/// Whether a public key accepts the signature of a transcript.
pub fn verify_transcript(
    public_key: &[u8],
    transcript_hash: &[u8; 32],
    signature: &[u8],
) -> (accepted: bool)
    ensures
        accepted == ed25519_accepts(public_key@, transcript_hash@, signature@),
        accepted ==> public_key@.len() == 32 && signature@.len() == 64,
{
    ed25519_verify(public_key, transcript_hash, signature)
}

/// What a [`ReceiverIdentityFile`] says.
#[verifier::ext_equal]
pub ghost struct IdentityFileView {
    pub version: u8,
    pub peer_id: Seq<char>,
    pub endpoint_id: Seq<char>,
    pub certificate_der_hex: Seq<char>,
    pub private_key_der_hex: Seq<char>,
}

/// The file in which the receiver keeps its identity.
#[derive(Clone, Debug, PartialEq, Eq)]
pub struct ReceiverIdentityFile {
    pub version: u8,
    pub peer_id: String,
    pub endpoint_id: String,
    pub certificate_der_hex: String,
    pub private_key_der_hex: String,
}

impl View for ReceiverIdentityFile {
    type V = IdentityFileView;

    open spec fn view(&self) -> IdentityFileView {
        IdentityFileView {
            version: self.version,
            peer_id: self.peer_id@,
            endpoint_id: self.endpoint_id@,
            certificate_der_hex: self.certificate_der_hex@,
            private_key_der_hex: self.private_key_der_hex@,
        }
    }
}

impl IdentityFileView {
    /// The file that keeps an identity.
    pub open spec fn of(identity: ReceiverIdentityView) -> Self {
        IdentityFileView {
            version: PAIRING_VERSION,
            peer_id: hex_text(identity.peer_id),
            endpoint_id: hex_text(identity.endpoint_id),
            certificate_der_hex: hex_text(identity.certificate_der),
            private_key_der_hex: hex_text(identity.private_key_der),
        }
    }

    /// The identity that the file keeps, or why it keeps none.
    pub open spec fn restored(self, server_name: Seq<char>, now_unix_seconds: u64) -> Result<
        ReceiverIdentityView,
        PairingFault,
    > {
        if self.version != PAIRING_VERSION {
            Err(PairingFault::IdentityFileVersion)
        } else {
            match (
                decoded(self.certificate_der_hex, MAX_CERTIFICATE_BYTES as nat),
                decoded(self.private_key_der_hex, MAX_CERTIFICATE_BYTES as nat),
            ) {
                (Err(error), _) => Err(PairingFault::Hex(error)),
                (Ok(_), Err(error)) => Err(PairingFault::Hex(error)),
                (Ok(certificate), Ok(private_key)) => match loaded(
                    certificate,
                    private_key,
                    self.peer_id,
                    server_name,
                    now_unix_seconds,
                ) {
                    Err(fault) => Err(fault),
                    Ok(identity) => if self.endpoint_id != hex_text(identity.endpoint_id) {
                        Err(PairingFault::IdentityEndpoint)
                    } else {
                        Ok(identity)
                    },
                },
            }
        }
    }
}

/// Whether a file of this size is read as an identity file.
pub fn check_identity_file_size(length: u64) -> (result: Result<(), PairingFault>)
    ensures
        result == if length > MAX_STATE_BYTES {
            Err::<(), PairingFault>(PairingFault::IdentityFileSize)
        } else {
            Ok(())
        },
        length <= 262_144 <==> result is Ok,
{
    if length > MAX_STATE_BYTES {
        return Err(PairingFault::IdentityFileSize);
    }
    Ok(())
}

impl ReceiverIdentity {
    /// The identity that a file keeps. A file that does not keep a valid one is
    /// refused, never replaced.
    pub fn from_file(
        file: &ReceiverIdentityFile,
        server_name: &str,
        now_unix_seconds: u64,
    ) -> (result: Result<Self, PairingFault>)
        ensures
            viewed(result) == file@.restored(server_name@, now_unix_seconds),
            result matches Ok(identity) ==> identity@.wf(),
    {
        if file.version != PAIRING_VERSION {
            return Err(PairingFault::IdentityFileVersion);
        }
        let certificate: Vec<u8> = match decode_hex_bounded(
            file.certificate_der_hex.as_str(),
            MAX_CERTIFICATE_BYTES,
        ) {
            Ok(bytes) => bytes,
            Err(error) => return Err(PairingFault::Hex(error)),
        };
        let private_key: Vec<u8> = match decode_hex_bounded(
            file.private_key_der_hex.as_str(),
            MAX_CERTIFICATE_BYTES,
        ) {
            Ok(bytes) => bytes,
            Err(error) => return Err(PairingFault::Hex(error)),
        };
        let identity: Self = match Self::load(
            certificate,
            private_key,
            file.peer_id.as_str(),
            server_name,
            now_unix_seconds,
        ) {
            Ok(identity) => identity,
            Err(fault) => return Err(fault),
        };
        let endpoint: String = encode_hex(&identity.endpoint_id.bytes);
        if !same_text(file.endpoint_id.as_str(), endpoint.as_str()) {
            return Err(PairingFault::IdentityEndpoint);
        }
        Ok(identity)
    }

    /// The file that keeps this identity.
    pub fn to_file(&self) -> (file: ReceiverIdentityFile)
        ensures
            file@ == IdentityFileView::of(self@),
    {
        ReceiverIdentityFile {
            version: PAIRING_VERSION,
            peer_id: encode_hex(&self.peer_id.bytes),
            endpoint_id: encode_hex(&self.endpoint_id.bytes),
            certificate_der_hex: encode_hex(self.certificate_der.as_slice()),
            private_key_der_hex: encode_hex(self.private_key_der.as_slice()),
        }
    }

    /// Makes an identity of a freshly generated key and certificate, or passes
    /// on why none was generated.
    pub fn adopt(
        generated: Result<GeneratedIdentity, GenerationFault>,
        server_name: &str,
        now_unix_seconds: u64,
    ) -> (result: Result<Self, PairingFault>)
        ensures
            viewed(result) == adopted(generated, server_name@, now_unix_seconds),
            result matches Ok(identity) ==> identity@.wf(),
    {
        let generated: GeneratedIdentity = match generated {
            Ok(generated) => generated,
            Err(fault) => return Err(PairingFault::Generation(fault)),
        };
        if generated.public_key.len() != 32 {
            return Err(PairingFault::GeneratedKey);
        }
        let peer_id: String = encode_hex(&sha256(generated.public_key.as_slice()));
        Self::load(
            generated.certificate_der,
            generated.private_key_der,
            peer_id.as_str(),
            server_name,
            now_unix_seconds,
        )
    }

    /// Makes an identity of a freshly generated key, with a self-signed server
    /// certificate for the name. `None` stands for a key that did not come.
    pub fn create(key: Option<GeneratedKey>, server_name: &str, now_unix_seconds: u64) -> (result:
        Result<Self, PairingFault>)
        ensures
            viewed(result) == created(key, server_name@, now_unix_seconds),
            result matches Ok(identity) ==> {
                &&& identity@.wf()
                &&& key matches Some(key) && identity@.private_key_der == key.private_key_der@
                &&& keeps_authenticating(identity@.certificate_der)
                &&& authenticates_only(identity@.certificate_der, server_name@)
            },
            key matches Some(key) ==> ed25519_key(key.private_key_der@) == Some(key.public_key@)
                ==> key.public_key@.len() == 32 ==> match result {
                Ok(_) => vstd::utf8::is_ascii_chars(server_name@),
                Err(fault) => if vstd::utf8::is_ascii_chars(server_name@) {
                    ||| fault == PairingFault::CertificateSize
                    ||| fault == PairingFault::CertificateSyntax
                    ||| fault is ServerCertificate
                } else {
                    fault == PairingFault::Generation(GenerationFault::Parameters)
                },
            },
    {
        proof {
            crate::hex::law_decode_undoes_encode(sha256_digest(key->Some_0.public_key@), 32);
        }
        let generated: Result<GeneratedIdentity, GenerationFault> = match key {
            None => Err(GenerationFault::Key),
            Some(key) => match self_sign(
                key.private_key_der.as_slice(),
                server_name,
                CertificatePurpose::ServerAuthentication,
            ) {
                Ok(certificate_der) => Ok(
                    GeneratedIdentity {
                        certificate_der,
                        private_key_der: key.private_key_der,
                        public_key: key.public_key,
                    },
                ),
                Err(fault) => Err(fault),
            },
        };
        Self::adopt(generated, server_name, now_unix_seconds)
    }

    /// The receiver's identity: the one in its file, or a new one where there
    /// is no file. `file` is the parsed identity file, if there is one. A new
    /// identity is to be written to the file.
    ///
    /// A new identity has a random key and the self-signed server certificate of
    /// that key for the name. From its file it is restored as long as the
    /// certificate is valid, and, where the name is a plain host name, under no
    /// other such name.
    pub fn load_or_create(
        file: Option<&ReceiverIdentityFile>,
        server_name: &str,
        now_unix_seconds: u64,
    ) -> (result: Result<Self, PairingFault>)
        ensures
            result matches Ok(identity) ==> identity@.wf(),
            match file {
                Some(file) => viewed(result) == file@.restored(server_name@, now_unix_seconds),
                None => {
                    &&& server_name@.len() == 0 ==> viewed(result) == Err::<
                        ReceiverIdentityView,
                        PairingFault,
                    >(PairingFault::ServerNameEmpty)
                    &&& server_name@.len() > 0 ==> exists|key: Option<GeneratedKey>|
                        #![trigger created(key, server_name@, now_unix_seconds)]
                        {
                            &&& viewed(result) == created(key, server_name@, now_unix_seconds)
                            &&& key matches Some(key) ==> ed25519_key(key.private_key_der@) == Some(
                                key.public_key@,
                            )
                        }
                    &&& result matches Ok(identity) ==> is_lasting(
                        identity@,
                        server_name@,
                        now_unix_seconds,
                    )
                    &&& result matches Err(fault) ==> {
                        ||| fault == PairingFault::ServerNameEmpty
                        ||| fault == PairingFault::Generation(GenerationFault::Key)
                        ||| fault == PairingFault::Generation(GenerationFault::Parameters)
                            && !vstd::utf8::is_ascii_chars(server_name@)
                        ||| fault == PairingFault::CertificateSize
                        ||| fault == PairingFault::CertificateSyntax
                        ||| fault is ServerCertificate
                    }
                },
            },
    {
        match file {
            Some(file) => Self::from_file(file, server_name, now_unix_seconds),
            None => {
                if server_name.unicode_len() == 0 {
                    return Err(PairingFault::ServerNameEmpty);
                }
                let key: Option<GeneratedKey> = generate_key();
                let result: Result<Self, PairingFault> = Self::create(
                    key,
                    server_name,
                    now_unix_seconds,
                );
                proof {
                    if let Ok(identity) = viewed(result) {
                        lemma_created_is_lasting(identity, server_name@, now_unix_seconds);
                    }
                }
                result
            },
        }
    }
}

/// The identity that comes of a generated key, or why none does.
pub open spec fn created(
    key: Option<GeneratedKey>,
    server_name: Seq<char>,
    now_unix_seconds: u64,
) -> Result<ReceiverIdentityView, PairingFault> {
    match key {
        None => Err(PairingFault::Generation(GenerationFault::Key)),
        Some(key) => match self_signed_certificate(
            key.private_key_der@,
            server_name,
            CertificatePurpose::ServerAuthentication,
        ) {
            Err(fault) => Err(PairingFault::Generation(fault)),
            Ok(certificate) => if key.public_key@.len() != 32 {
                Err(PairingFault::GeneratedKey)
            } else {
                loaded(
                    certificate,
                    key.private_key_der@,
                    hex_text(sha256_digest(key.public_key@)),
                    server_name,
                    now_unix_seconds,
                )
            },
        },
    }
}

/// What holds of an identity that was created at a time for a name: its
/// certificate is the self-signed one of its key for the name, its file restores
/// it at that time and at every time of the certificate's validity, also where
/// the clock was set back, and for a plain host name it does so under no other
/// one.
pub open spec fn is_lasting(
    identity: ReceiverIdentityView,
    server_name: Seq<char>,
    created_at: u64,
) -> bool {
    &&& self_signed_certificate(
        identity.private_key_der,
        server_name,
        CertificatePurpose::ServerAuthentication,
    ) == Ok::<Seq<u8>, GenerationFault>(identity.certificate_der)
    &&& forall|now: u64|
        VALIDITY_START_SECONDS <= now <= VALIDITY_END_SECONDS || now == created_at
            ==> #[trigger] IdentityFileView::of(identity).restored(server_name, now) == Ok::<
            ReceiverIdentityView,
            PairingFault,
        >(identity)
    &&& plain_host_name(server_name) ==> forall|other: Seq<char>, later: u64|
        plain_host_name(other) && other != server_name ==> #[trigger] IdentityFileView::of(
            identity,
        ).restored(other, later) is Err
}

/// An identity lasts whose certificate keeps authenticating its name, and no
/// other plain host name.
proof fn lemma_created_is_lasting(
    identity: ReceiverIdentityView,
    server_name: Seq<char>,
    created_at: u64,
)
    requires
        identity.wf(),
        identity.private_key_der.len() <= MAX_CERTIFICATE_BYTES,
        server_certificate_fault(identity.certificate_der, server_name, created_at) is None,
        self_signed_certificate(
            identity.private_key_der,
            server_name,
            CertificatePurpose::ServerAuthentication,
        ) == Ok::<Seq<u8>, GenerationFault>(identity.certificate_der),
        keeps_authenticating(identity.certificate_der),
        authenticates_only(identity.certificate_der, server_name),
    ensures
        is_lasting(identity, server_name, created_at),
{
    let file = IdentityFileView::of(identity);
    assert forall|now: u64|
        VALIDITY_START_SECONDS <= now <= VALIDITY_END_SECONDS || now
            == created_at implies #[trigger] file.restored(server_name, now) == Ok::<ReceiverIdentityView, PairingFault>(identity) by {
        assert(server_certificate_fault(identity.certificate_der, server_name, now) is None);
        law_identity_file_restores_the_identity(identity, server_name, now);
    }
    if plain_host_name(server_name) {
        assert forall|other: Seq<char>, later: u64|
            plain_host_name(other) && other != server_name implies #[trigger] file.restored(
            other,
            later,
        ) is Err by {
            assert(server_certificate_fault(identity.certificate_der, other, later) is Some);
            crate::hex::law_decode_undoes_encode(
                identity.certificate_der,
                MAX_CERTIFICATE_BYTES as nat,
            );
            crate::hex::law_decode_undoes_encode(
                identity.private_key_der,
                MAX_CERTIFICATE_BYTES as nat,
            );
        }
    }
}

/// The identity that comes of a generated key and certificate, or why none
/// does.
pub open spec fn adopted(
    generated: Result<GeneratedIdentity, GenerationFault>,
    server_name: Seq<char>,
    now_unix_seconds: u64,
) -> Result<ReceiverIdentityView, PairingFault> {
    match generated {
        Err(fault) => Err(PairingFault::Generation(fault)),
        Ok(generated) => if generated.public_key@.len() != 32 {
            Err(PairingFault::GeneratedKey)
        } else {
            loaded(
                generated.certificate_der@,
                generated.private_key_der@,
                hex_text(sha256_digest(generated.public_key@)),
                server_name,
                now_unix_seconds,
            )
        },
    }
}

/// An identity is kept by its file: whoever reads the file back at a time at
/// which the certificate authenticates the server name gets the same identity.
/// The private key must be no longer than a certificate may be, as that of every
/// new identity is; a longer one could not be read back.
pub proof fn law_identity_file_restores_the_identity(
    identity: ReceiverIdentityView,
    server_name: Seq<char>,
    now_unix_seconds: u64,
)
    requires
        identity.wf(),
        identity.private_key_der.len() <= MAX_CERTIFICATE_BYTES,
        server_certificate_fault(identity.certificate_der, server_name, now_unix_seconds) is None,
    ensures
        IdentityFileView::of(identity).restored(server_name, now_unix_seconds) == Ok::<
            ReceiverIdentityView,
            PairingFault,
        >(identity),
{
    crate::hex::law_decode_undoes_encode(
        identity.certificate_der,
        MAX_CERTIFICATE_BYTES as nat,
    );
    crate::hex::law_decode_undoes_encode(
        identity.private_key_der,
        MAX_CERTIFICATE_BYTES as nat,
    );
    crate::hex::law_decode_undoes_encode(identity.peer_id, 32);
}

/// A tampered identity file is refused: whatever identity a file restores, its
/// key, certificate, peer id and endpoint id belong together.
pub proof fn law_restored_identity_is_consistent(
    file: IdentityFileView,
    server_name: Seq<char>,
    now_unix_seconds: u64,
)
    requires
        file.restored(server_name, now_unix_seconds) is Ok,
    ensures
        ({
            let identity = file.restored(server_name, now_unix_seconds)->Ok_0;
            &&& ed25519_key(identity.private_key_der) == Some(identity.public_key)
            &&& certificate_key(identity.certificate_der) == Some(identity.public_key)
            &&& identity.peer_id == sha256_digest(identity.public_key)
            &&& identity.endpoint_id == endpoint_of(identity.peer_id)
            &&& file.endpoint_id == hex_text(identity.endpoint_id)
            &&& decoded_fixed(file.peer_id, 32) == Ok::<Seq<u8>, crate::hex::HexError>(
                identity.peer_id,
            )
            &&& server_certificate_fault(identity.certificate_der, server_name, now_unix_seconds)
                is None
        }),
{
}


/// An identity is loaded exactly where its certificate is neither empty nor too
/// long, its private key is an Ed25519 key whose public half the certificate
/// carries, the certificate authenticates the server name at that time, and the
/// expected peer id is the digest of the public key. What is loaded is what was
/// given.
pub proof fn law_identity_is_loaded_where_its_parts_agree(
    certificate_der: Seq<u8>,
    private_key_der: Seq<u8>,
    expected_peer_id: Seq<char>,
    server_name: Seq<char>,
    now_unix_seconds: u64,
)
    ensures
        ({
            let result = loaded(
                certificate_der,
                private_key_der,
                expected_peer_id,
                server_name,
                now_unix_seconds,
            );
            &&& result is Ok <==> {
                &&& 0 < certificate_der.len() <= 65_536
                &&& ed25519_key(private_key_der) matches Some(key)
                &&& key.len() == 32
                &&& certificate_key(certificate_der) == Some(key)
                &&& server_certificate_fault(certificate_der, server_name, now_unix_seconds) is None
                &&& decoded_fixed(expected_peer_id, 32) == Ok::<Seq<u8>, crate::hex::HexError>(
                    sha256_digest(key),
                )
            }
            &&& result matches Ok(identity) ==> {
                &&& identity.certificate_der == certificate_der
                &&& identity.private_key_der == private_key_der
                &&& ed25519_key(private_key_der) == Some(identity.public_key)
                &&& identity.peer_id == sha256_digest(identity.public_key)
                &&& identity.endpoint_id == endpoint_of(identity.peer_id)
            }
        }),
{
}

/// Every part of an identity is kept in the file under its own name, as
/// hexadecimal text, in a file of version 1; and a file of another version keeps
/// none.
pub proof fn law_identity_file_names_its_parts(
    identity: ReceiverIdentityView,
    file: IdentityFileView,
    server_name: Seq<char>,
    now_unix_seconds: u64,
)
    ensures
        IdentityFileView::of(identity).version == 1,
        IdentityFileView::of(identity).peer_id == hex_text(identity.peer_id),
        IdentityFileView::of(identity).endpoint_id == hex_text(identity.endpoint_id),
        IdentityFileView::of(identity).certificate_der_hex == hex_text(identity.certificate_der),
        IdentityFileView::of(identity).private_key_der_hex == hex_text(identity.private_key_der),
        file.version != 1 ==> file.restored(server_name, now_unix_seconds) == Err::<
            ReceiverIdentityView,
            PairingFault,
        >(PairingFault::IdentityFileVersion),
        file.restored(server_name, now_unix_seconds) matches Ok(restored) ==> {
            &&& decoded(file.certificate_der_hex, 65_536) == Ok::<Seq<u8>, crate::hex::HexError>(
                restored.certificate_der,
            )
            &&& decoded(file.private_key_der_hex, 65_536) == Ok::<Seq<u8>, crate::hex::HexError>(
                restored.private_key_der,
            )
        },
{
}


/// What is wrong with an identity is said in one order: the size of its
/// certificate, its private key, the key in its certificate, whether the two
/// belong together, whether the certificate authenticates the name, and last the
/// peer id that was expected.
pub proof fn law_identity_faults_have_one_order(
    certificate_der: Seq<u8>,
    private_key_der: Seq<u8>,
    expected_peer_id: Seq<char>,
    server_name: Seq<char>,
    now_unix_seconds: u64,
)
    ensures
        ({
            let result = loaded(
                certificate_der,
                private_key_der,
                expected_peer_id,
                server_name,
                now_unix_seconds,
            );
            let private_key = ed25519_key(private_key_der);
            let shown = certificate_key(certificate_der);
            let server = server_certificate_fault(certificate_der, server_name, now_unix_seconds);
            let expected = decoded_fixed(expected_peer_id, 32);
            let sized = 0 < certificate_der.len() <= 65_536;
            let keyed = sized && private_key is Some && private_key->Some_0.len() == 32;
            let read = keyed && shown is Some && shown->Some_0.len() == 32;
            let matched = read && shown == private_key;
            let named = matched && server is None;
            &&& !sized ==> result == Err::<ReceiverIdentityView, PairingFault>(
                PairingFault::CertificateSize,
            )
            &&& sized && private_key is None ==> result == Err::<
                ReceiverIdentityView,
                PairingFault,
            >(PairingFault::PrivateKey)
            &&& sized && private_key is Some && !keyed ==> result == Err::<
                ReceiverIdentityView,
                PairingFault,
            >(PairingFault::PublicKeyLength)
            &&& keyed && shown is None ==> result == Err::<ReceiverIdentityView, PairingFault>(
                PairingFault::CertificateSyntax,
            )
            &&& keyed && shown is Some && !read ==> result == Err::<
                ReceiverIdentityView,
                PairingFault,
            >(PairingFault::CertificateKey)
            &&& read && !matched ==> result == Err::<ReceiverIdentityView, PairingFault>(
                PairingFault::CertificateKeyMismatch,
            )
            &&& matched && !named ==> result == Err::<ReceiverIdentityView, PairingFault>(
                PairingFault::ServerCertificate(server->Some_0),
            )
            &&& named && expected is Err ==> result == Err::<ReceiverIdentityView, PairingFault>(
                PairingFault::Hex(expected->Err_0),
            )
            &&& named && expected is Ok ==> {
                &&& result is Ok <==> expected->Ok_0 == sha256_digest(private_key->Some_0)
                &&& result is Err ==> result == Err::<ReceiverIdentityView, PairingFault>(
                    PairingFault::PeerIdMismatch,
                )
            }
        }),
{
}

} // verus!
