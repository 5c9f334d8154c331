//! The values that the pairing ceremony works on.
use crate::crypto::{sha256, sha256_digest};
use vstd::prelude::*;

verus! {

/// Who a peer is: the SHA-256 digest of its public key.
#[derive(Clone, Copy, Debug, PartialEq, Eq)]
pub struct PeerId {
    pub bytes: [u8; 32],
}

impl View for PeerId {
    type V = Seq<u8>;

    open spec fn view(&self) -> Seq<u8> {
        self.bytes@
    }
}

impl PeerId {
    pub fn from_bytes(bytes: [u8; 32]) -> (peer_id: Self)
        ensures
            peer_id@ == bytes@,
            peer_id.bytes == bytes,
    {
        PeerId { bytes }
    }

    pub fn as_bytes(&self) -> (bytes: &[u8; 32])
        ensures
            bytes@ == self@,
            *bytes == self.bytes,
    {
        &self.bytes
    }
}

/// Where a peer is reached: derived from its peer id.
#[derive(Clone, Copy, Debug, PartialEq, Eq)]
pub struct EndpointId {
    pub bytes: [u8; 16],
}

impl View for EndpointId {
    type V = Seq<u8>;

    open spec fn view(&self) -> Seq<u8> {
        self.bytes@
    }
}

impl EndpointId {
    pub fn from_bytes(bytes: [u8; 16]) -> (endpoint_id: Self)
        ensures
            endpoint_id@ == bytes@,
            endpoint_id.bytes == bytes,
    {
        EndpointId { bytes }
    }

    pub fn as_bytes(&self) -> (bytes: &[u8; 16])
        ensures
            bytes@ == self@,
            *bytes == self.bytes,
    {
        &self.bytes
    }
}

/// The words that precede a peer id where its endpoint id is derived.
pub open spec fn endpoint_domain() -> Seq<u8> {
    vstd::utf8::encode_utf8("nanalive-link-endpoint-v1"@)
}

/// The endpoint id of a peer: the first half of a digest of its peer id.
pub open spec fn endpoint_of(peer: Seq<u8>) -> Seq<u8> {
    sha256_digest(endpoint_domain() + peer).take(16)
}

/// `bytes` appended to `target`.
fn append_bytes(target: &mut Vec<u8>, bytes: &[u8])
    ensures
        final(target)@ == old(target)@ + bytes@,
{
    let mut i: usize = 0;
    while i < bytes.len()
        invariant
            i <= bytes@.len(),
            target@ == old(target)@ + bytes@.take(i as int),
        decreases bytes@.len() - i,
    {
        target.push(bytes[i]);
        assert(bytes@.take(i + 1) =~= bytes@.take(i as int).push(bytes@[i as int]));
        i += 1;
    }
    assert(bytes@.take(i as int) =~= bytes@);
}

/// The endpoint id that a digest stands for: its first half.
pub fn endpoint_from_digest(digest: [u8; 32]) -> (endpoint: EndpointId)
    ensures
        endpoint@ == digest@.take(16),
{
    let mut endpoint: [u8; 16] = [0u8; 16];
    let mut i: usize = 0;
    while i < 16
        invariant
            i <= 16,
            forall|k: int| 0 <= k < i ==> endpoint@[k] == digest@[k],
        decreases 16 - i,
    {
        endpoint[i] = digest[i];
        i += 1;
    }
    assert(endpoint@ =~= digest@.take(16));
    EndpointId::from_bytes(endpoint)
}

/// The endpoint id of a peer.
pub fn endpoint_from_peer(peer: [u8; 32]) -> (endpoint: EndpointId)
    ensures
        endpoint@ == endpoint_of(peer@),
{
    let mut input: Vec<u8> = Vec::new();
    append_bytes(&mut input, "nanalive-link-endpoint-v1".as_bytes());
    append_bytes(&mut input, &peer);
    assert(input@ =~= endpoint_domain() + peer@);
    endpoint_from_digest(sha256(input.as_slice()))
}

/// Whether two byte strings are the same.
pub fn same_bytes(a: &[u8], b: &[u8]) -> (same: bool)
    ensures
        same == (a@ == b@),
{
    if a.len() != b.len() {
        return false;
    }
    let mut i: usize = 0;
    while i < a.len()
        invariant
            i <= a@.len(),
            a@.len() == b@.len(),
            forall|k: int| 0 <= k < i ==> a@[k] == b@[k],
        decreases a@.len() - i,
    {
        if a[i] != b[i] {
            assert(a@[i as int] != b@[i as int]);
            return false;
        }
        i += 1;
    }
    assert(a@ =~= b@);
    true
}

/// Whether two texts are the same.
pub fn same_text(a: &str, b: &str) -> (same: bool)
    ensures
        same == (a@ == b@),
{
    let left: String = a.to_owned();
    let right: String = b.to_owned();
    left == right
}

/// A copy of some bytes.
pub fn copied(bytes: &[u8]) -> (copy: Vec<u8>)
    ensures
        copy@ == bytes@,
{
    let mut copy: Vec<u8> = Vec::new();
    append_bytes(&mut copy, bytes);
    assert(copy@ =~= bytes@);
    copy
}

/// What a [`LongTermIdentity`] says.
#[verifier::ext_equal]
pub ghost struct IdentityView {
    pub peer_id: Seq<u8>,
    pub public_key: Seq<u8>,
    pub display_name: Seq<char>,
}

/// A peer's lasting identity.
#[derive(Clone, Debug, PartialEq, Eq)]
pub struct LongTermIdentity {
    pub peer_id: PeerId,
    pub public_key: Vec<u8>,
    pub display_name: String,
}

impl View for LongTermIdentity {
    type V = IdentityView;

    open spec fn view(&self) -> IdentityView {
        IdentityView {
            peer_id: self.peer_id@,
            public_key: self.public_key@,
            display_name: self.display_name@,
        }
    }
}

/// What a [`PairingOffer`] says.
#[verifier::ext_equal]
pub ghost struct OfferView {
    pub pairing_id: Seq<u8>,
    pub initiator: IdentityView,
    pub protocol_major: u16,
    pub protocol_minor: u16,
    pub challenge: Seq<u8>,
    pub expires_at_unix_ms: u64,
}

/// The offer that opens a ceremony of bilateral confirmation.
#[derive(Clone, Debug, PartialEq, Eq)]
pub struct PairingOffer {
    pub pairing_id: [u8; 16],
    pub initiator: LongTermIdentity,
    pub protocol_major: u16,
    pub protocol_minor: u16,
    pub challenge: [u8; 32],
    pub expires_at_unix_ms: u64,
}

impl View for PairingOffer {
    type V = OfferView;

    open spec fn view(&self) -> OfferView {
        OfferView {
            pairing_id: self.pairing_id@,
            initiator: self.initiator@,
            protocol_major: self.protocol_major,
            protocol_minor: self.protocol_minor,
            challenge: self.challenge@,
            expires_at_unix_ms: self.expires_at_unix_ms,
        }
    }
}

/// What a [`PairingResponse`] says.
#[verifier::ext_equal]
pub ghost struct ResponseView {
    pub pairing_id: Seq<u8>,
    pub responder: IdentityView,
    pub transcript_hash: Seq<u8>,
    pub short_code: Seq<char>,
}

/// The answer to an offer.
#[derive(Clone, Debug, PartialEq, Eq)]
pub struct PairingResponse {
    pub pairing_id: [u8; 16],
    pub responder: LongTermIdentity,
    pub transcript_hash: [u8; 32],
    pub short_code: String,
}

impl View for PairingResponse {
    type V = ResponseView;

    open spec fn view(&self) -> ResponseView {
        ResponseView {
            pairing_id: self.pairing_id@,
            responder: self.responder@,
            transcript_hash: self.transcript_hash@,
            short_code: self.short_code@,
        }
    }
}

/// What a [`PairingConfirmation`] says.
#[verifier::ext_equal]
pub ghost struct ConfirmationView {
    pub pairing_id: Seq<u8>,
    pub signer_peer_id: Seq<u8>,
    pub transcript_hash: Seq<u8>,
    pub signature: Seq<u8>,
}

/// One side's signature under the ceremony.
#[derive(Clone, Debug, PartialEq, Eq)]
pub struct PairingConfirmation {
    pub pairing_id: [u8; 16],
    pub signer_peer_id: PeerId,
    pub transcript_hash: [u8; 32],
    pub signature: Vec<u8>,
}

impl View for PairingConfirmation {
    type V = ConfirmationView;

    open spec fn view(&self) -> ConfirmationView {
        ConfirmationView {
            pairing_id: self.pairing_id@,
            signer_peer_id: self.signer_peer_id@,
            transcript_hash: self.transcript_hash@,
            signature: self.signature@,
        }
    }
}

/// Whether a trusted key may still be used.
#[derive(Clone, Copy, Debug, PartialEq, Eq, Structural)]
pub enum KeyState {
    Active,
    /// Rotated, revoked, or anything else.
    Other,
}

/// What a [`LinkPermissions`] allows.
#[verifier::ext_equal]
pub ghost struct PermissionsView {
    pub connect: bool,
    pub datagram: bool,
    pub namespaces: Seq<Seq<char>>,
    pub other: bool,
}

/// What a trusted peer may do.
#[derive(Clone, Debug, PartialEq, Eq)]
pub struct LinkPermissions {
    pub connect: bool,
    pub datagram: bool,
    /// The namespaces that the peer may open, in order.
    pub namespaces: Vec<String>,
    /// Something that this receiver never grants.
    pub other: bool,
}

impl View for LinkPermissions {
    type V = PermissionsView;

    open spec fn view(&self) -> PermissionsView {
        PermissionsView {
            connect: self.connect,
            datagram: self.datagram,
            namespaces: texts(self.namespaces@),
            other: self.other,
        }
    }
}

/// The characters of several strings.
pub open spec fn texts(strings: Seq<String>) -> Seq<Seq<char>> {
    Seq::new(strings.len(), |i: int| strings[i]@)
}

/// What a paired sender may do: connect, send datagrams and open the media
/// namespace.
pub open spec fn sender_permissions() -> PermissionsView {
    PermissionsView {
        connect: true,
        datagram: true,
        namespaces: seq!["nanalive.link.media"@],
        other: false,
    }
}

impl LinkPermissions {
    /// What a paired sender may do.
    pub fn of_paired_sender() -> (permissions: Self)
        ensures
            permissions@ == sender_permissions(),
    {
        let mut namespaces: Vec<String> = Vec::new();
        namespaces.push("nanalive.link.media".to_owned());
        let permissions = LinkPermissions { connect: true, datagram: true, namespaces, other: false };
        assert(permissions@.namespaces =~= sender_permissions().namespaces);
        permissions
    }

    /// Whether two peers may do the same.
    pub fn same_as(&self, other: &Self) -> (same: bool)
        ensures
            same == (self@ == other@),
    {
        if self.connect != other.connect || self.datagram != other.datagram || self.other
            != other.other || self.namespaces.len() != other.namespaces.len() {
            assert(self@.namespaces.len() == self.namespaces@.len());
            assert(other@.namespaces.len() == other.namespaces@.len());
            return false;
        }
        let mut i: usize = 0;
        while i < self.namespaces.len()
            invariant
                i <= self.namespaces@.len(),
                self.namespaces@.len() == other.namespaces@.len(),
                forall|k: int| 0 <= k < i ==> self.namespaces@[k]@ == other.namespaces@[k]@,
            decreases self.namespaces@.len() - i,
        {
            if !same_text(self.namespaces[i].as_str(), other.namespaces[i].as_str()) {
                assert(self@.namespaces[i as int] != other@.namespaces[i as int]);
                return false;
            }
            i += 1;
        }
        assert(self@.namespaces =~= other@.namespaces);
        true
    }
}

/// What a [`TrustRecord`] says.
#[verifier::ext_equal]
pub ghost struct TrustRecordView {
    pub peer_id: Seq<u8>,
    pub public_key: Seq<u8>,
    pub alias: Seq<char>,
    pub first_paired_at_unix_ms: u64,
    pub permissions: PermissionsView,
    pub key_state: KeyState,
    pub last_pairing_challenge_hash: Seq<u8>,
    /// How many keys of this peer were replaced.
    pub replaced_keys: nat,
}

/// A peer that is trusted, as the trust store keeps it.
#[derive(Clone, Debug, PartialEq, Eq)]
pub struct TrustRecord {
    pub peer_id: PeerId,
    pub public_key: Vec<u8>,
    pub alias: String,
    pub first_paired_at_unix_ms: u64,
    pub permissions: LinkPermissions,
    pub key_state: KeyState,
    pub last_pairing_challenge_hash: [u8; 32],
    /// How many keys of this peer were replaced: none, for what this receiver
    /// writes.
    pub replaced_keys: usize,
}

impl View for TrustRecord {
    type V = TrustRecordView;

    open spec fn view(&self) -> TrustRecordView {
        TrustRecordView {
            peer_id: self.peer_id@,
            public_key: self.public_key@,
            alias: self.alias@,
            first_paired_at_unix_ms: self.first_paired_at_unix_ms,
            permissions: self.permissions@,
            key_state: self.key_state,
            last_pairing_challenge_hash: self.last_pairing_challenge_hash@,
            replaced_keys: self.replaced_keys as nat,
        }
    }
}

impl TrustRecord {
    /// Whether two records say the same.
    pub fn same_as(&self, other: &Self) -> (same: bool)
        ensures
            same == (self@ == other@),
    {
        same_bytes(&self.peer_id.bytes, &other.peer_id.bytes) && same_bytes(
            self.public_key.as_slice(),
            other.public_key.as_slice(),
        ) && same_text(self.alias.as_str(), other.alias.as_str()) && self.first_paired_at_unix_ms
            == other.first_paired_at_unix_ms && self.permissions.same_as(&other.permissions)
            && self.key_state == other.key_state && same_bytes(
            &self.last_pairing_challenge_hash,
            &other.last_pairing_challenge_hash,
        ) && self.replaced_keys == other.replaced_keys
    }
}


/// An endpoint id is the first half of the SHA-256 digest of the words
/// `nanalive-link-endpoint-v1` and the peer id after them.
pub proof fn law_endpoint_is_derived_from_its_peer(peer: Seq<u8>)
    ensures
        endpoint_of(peer) == sha256_digest(
            vstd::utf8::encode_utf8("nanalive-link-endpoint-v1"@) + peer,
        ).take(16),
{
}

/// A paired sender may connect, send datagrams and open the media namespace, and
/// nothing else.
pub proof fn law_paired_sender_may_only_stream()
    ensures
        sender_permissions().connect,
        sender_permissions().datagram,
        !sender_permissions().other,
        sender_permissions().namespaces.len() == 1,
        sender_permissions().namespaces[0] == "nanalive.link.media"@,
{
}

} // verus!
