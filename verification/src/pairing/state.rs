//! What the receiver remembers of its pairing, and how it recovers from an
//! interruption.
use crate::crypto::{certificate_key, sha256, sha256_digest};
use crate::hex::{decode_fixed, decode_hex_bounded, decoded, decoded_fixed, encode_hex, hex_text};
use crate::pairing::certificate::{
    certificate_public_key, checked, fingerprint_fault, raw_key, validate_fingerprint,
    MAX_CERTIFICATE_BYTES,
};
use crate::pairing::exchange::{ExchangeView, ValidatedExchange};
use crate::pairing::fault::{viewed, PairingFault};
use crate::pairing::identity::{MAX_STATE_BYTES, PAIRING_VERSION};
use crate::pairing::native::{
    copied, endpoint_from_peer, endpoint_of, same_bytes, same_text, sender_permissions, texts,
    EndpointId, KeyState, LinkPermissions, PeerId, TrustRecord, TrustRecordView,
};
use vstd::prelude::*;

verus! {

/// The most consumed challenges that a stored state may list.
pub const MAX_CONSUMED_CHALLENGES: usize = 64;

/// Whether the trust store already holds the paired sender.
#[derive(Clone, Copy, Debug, PartialEq, Eq, Structural)]
pub enum ProfileStatus {
    PendingTrust,
    Committed,
}

/// What a [`PairedSenderProfile`] says.
#[verifier::ext_equal]
pub ghost struct ProfileView {
    pub status: ProfileStatus,
    pub peer_id: Seq<char>,
    pub endpoint_id: Seq<char>,
    pub certificate_der_hex: Seq<char>,
    pub certificate_sha256: Seq<char>,
    pub pairing_id: Seq<char>,
    pub receiver_confirmation_json: Seq<char>,
    pub sender_name: Seq<char>,
    pub paired_at_unix_ms: u64,
    pub challenge_hash: Seq<char>,
}

/// The paired sender, as the receiver remembers it.
#[derive(Clone, Debug, PartialEq, Eq)]
pub struct PairedSenderProfile {
    pub status: ProfileStatus,
    pub peer_id: String,
    pub endpoint_id: String,
    pub certificate_der_hex: String,
    pub certificate_sha256: String,
    pub pairing_id: String,
    pub receiver_confirmation_json: String,
    pub sender_name: String,
    pub paired_at_unix_ms: u64,
    pub challenge_hash: String,
}

impl View for PairedSenderProfile {
    type V = ProfileView;

    open spec fn view(&self) -> ProfileView {
        ProfileView {
            status: self.status,
            peer_id: self.peer_id@,
            endpoint_id: self.endpoint_id@,
            certificate_der_hex: self.certificate_der_hex@,
            certificate_sha256: self.certificate_sha256@,
            pairing_id: self.pairing_id@,
            receiver_confirmation_json: self.receiver_confirmation_json@,
            sender_name: self.sender_name@,
            paired_at_unix_ms: self.paired_at_unix_ms,
            challenge_hash: self.challenge_hash@,
        }
    }
}

/// What a [`ReceiverPairingState`] says.
#[verifier::ext_equal]
pub ghost struct PairingStateView {
    pub version: u8,
    pub paired_sender: Option<ProfileView>,
    pub consumed_challenges: Seq<Seq<char>>,
}

/// What the receiver remembers of its pairing.
#[derive(Clone, Debug, PartialEq, Eq)]
pub struct ReceiverPairingState {
    pub version: u8,
    pub paired_sender: Option<PairedSenderProfile>,
    pub consumed_challenges: Vec<String>,
}

impl View for ReceiverPairingState {
    type V = PairingStateView;

    open spec fn view(&self) -> PairingStateView {
        PairingStateView {
            version: self.version,
            paired_sender: match self.paired_sender {
                Some(profile) => Some(profile@),
                None => None,
            },
            consumed_challenges: texts(self.consumed_challenges@),
        }
    }
}

/// Whether a stored state of this size is read, or written.
pub fn check_state_size(length: u64) -> (result: Result<(), PairingFault>)
    ensures
        result == if length > MAX_STATE_BYTES {
            Err::<(), PairingFault>(PairingFault::StateSize)
        } else {
            Ok(())
        },
        length <= 262_144 <==> result is Ok,
{
    if length > MAX_STATE_BYTES {
        return Err(PairingFault::StateSize);
    }
    Ok(())
}

impl PairingStateView {
    /// No sender, no consumed challenge.
    pub open spec fn fresh() -> Self {
        PairingStateView {
            version: PAIRING_VERSION,
            paired_sender: None,
            consumed_challenges: Seq::empty(),
        }
    }

    /// A stored state that may be used.
    pub open spec fn usable(self) -> bool {
        &&& self.version == PAIRING_VERSION
        &&& self.consumed_challenges.len() <= MAX_CONSUMED_CHALLENGES
    }

    /// The state with its profile committed.
    pub open spec fn committed(self) -> Self {
        PairingStateView {
            paired_sender: match self.paired_sender {
                Some(profile) => Some(
                    ProfileView { status: ProfileStatus::Committed, ..profile },
                ),
                None => None,
            },
            ..self
        }
    }
}

/// The state to go on from: the stored one where there is one, else a fresh
/// one. A stored state of another version, or one that lists too many consumed
/// challenges, is refused.
pub fn load_receiver_state(stored: Option<ReceiverPairingState>) -> (result: Result<
    ReceiverPairingState,
    PairingFault,
>)
    ensures
        viewed(result) == match stored {
            None => Ok::<PairingStateView, PairingFault>(PairingStateView::fresh()),
            Some(state) => if state@.usable() {
                Ok(state@)
            } else {
                Err(PairingFault::StateInvalid)
            },
        },
{
    match stored {
        None => {
            let state = ReceiverPairingState {
                version: PAIRING_VERSION,
                paired_sender: None,
                consumed_challenges: Vec::new(),
            };
            assert(state@.consumed_challenges =~= Seq::<Seq<char>>::empty());
            Ok(state)
        },
        Some(state) => {
            if state.version != PAIRING_VERSION || state.consumed_challenges.len()
                > MAX_CONSUMED_CHALLENGES {
                return Err(PairingFault::StateInvalid);
            }
            Ok(state)
        },
    }
}

/// The mark that a consumed challenge leaves, or why the text is no challenge.
pub open spec fn challenge_mark(challenge: Seq<char>) -> Result<Seq<char>, PairingFault> {
    match decoded_fixed(challenge, 32) {
        Err(error) => Err(PairingFault::Hex(error)),
        Ok(bytes) => Ok(hex_text(sha256_digest(bytes))),
    }
}

/// The mark that a consumed challenge leaves.
pub fn challenge_digest(challenge_hex: &str) -> (result: Result<String, PairingFault>)
    ensures
        viewed(result) == challenge_mark(challenge_hex@),
{
    let challenge: [u8; 32] = match decode_fixed::<32>(challenge_hex) {
        Ok(bytes) => bytes,
        Err(error) => return Err(PairingFault::Hex(error)),
    };
    Ok(encode_hex(&sha256(&challenge)))
}

/// Why a challenge may not be used, if it may not.
pub open spec fn challenge_fault(consumed: Seq<Seq<char>>, challenge: Seq<char>) -> Option<
    PairingFault,
> {
    match challenge_mark(challenge) {
        Err(fault) => Some(fault),
        Ok(mark) => if consumed.contains(mark) {
            Some(PairingFault::ChallengeConsumed)
        } else {
            None
        },
    }
}

impl ReceiverPairingState {
    /// Whether a challenge with this mark was consumed.
    pub fn has_consumed(&self, mark: &str) -> (found: bool)
        ensures
            found == self@.consumed_challenges.contains(mark@),
    {
        let mut i: usize = 0;
        while i < self.consumed_challenges.len()
            invariant
                i <= self.consumed_challenges@.len(),
                forall|k: int| 0 <= k < i ==> self.consumed_challenges@[k]@ != mark@,
            decreases self.consumed_challenges@.len() - i,
        {
            if same_text(self.consumed_challenges[i].as_str(), mark) {
                assert(self@.consumed_challenges[i as int] == mark@);
                return true;
            }
            i += 1;
        }
        assert forall|k: int| 0 <= k < self@.consumed_challenges.len() implies
            self@.consumed_challenges[k] != mark@ by {}
        false
    }
}

/// Refuses a challenge that was consumed before.
pub fn reject_consumed_challenge(state: &ReceiverPairingState, challenge_hex: &str) -> (result:
    Result<(), PairingFault>)
    ensures
        result == checked(challenge_fault(state@.consumed_challenges, challenge_hex@)),
{
    let mark: String = match challenge_digest(challenge_hex) {
        Ok(mark) => mark,
        Err(fault) => return Err(fault),
    };
    if state.has_consumed(mark.as_str()) {
        return Err(PairingFault::ChallengeConsumed);
    }
    Ok(())
}

impl ProfileView {
    /// The profile is the one of the sender of this exchange.
    pub open spec fn matches(self, exchange: ExchangeView) -> bool {
        &&& self.peer_id == hex_text(exchange.sender_peer_id)
        &&& self.endpoint_id == hex_text(exchange.expected_endpoint)
        &&& self.certificate_der_hex == hex_text(exchange.sender_certificate_der)
        &&& self.certificate_sha256 == hex_text(sha256_digest(exchange.sender_certificate_der))
        &&& self.pairing_id == exchange.wire.pairing_response.pairing_id
    }

    /// The record that the trust store must hold for this profile, given what
    /// its certificate turned out to be, or why the profile is inconsistent.
    pub open spec fn record_for(
        self,
        peer_id: Seq<u8>,
        key: Seq<u8>,
        key_digest: Seq<u8>,
        endpoint: Seq<u8>,
    ) -> Result<TrustRecordView, PairingFault> {
        if peer_id != key_digest {
            Err(PairingFault::ProfileInconsistent)
        } else {
            match (decoded_fixed(self.endpoint_id, 16), decoded_fixed(self.challenge_hash, 32)) {
                (Err(error), _) => Err(PairingFault::Hex(error)),
                (Ok(claimed), challenge_hash) => if claimed != endpoint {
                    Err(PairingFault::ProfileInconsistent)
                } else {
                    match challenge_hash {
                        Err(error) => Err(PairingFault::Hex(error)),
                        Ok(challenge_hash) => Ok(
                            TrustRecordView {
                                peer_id,
                                public_key: key,
                                alias: self.sender_name,
                                first_paired_at_unix_ms: self.paired_at_unix_ms,
                                permissions: sender_permissions(),
                                key_state: KeyState::Active,
                                last_pairing_challenge_hash: challenge_hash,
                                replaced_keys: 0,
                            },
                        ),
                    }
                },
            }
        }
    }

    /// The record that the trust store must hold for this profile, or why the
    /// profile is inconsistent.
    pub open spec fn expected_record(self) -> Result<TrustRecordView, PairingFault> {
        match (
            decoded_fixed(self.peer_id, 32),
            decoded(self.certificate_der_hex, MAX_CERTIFICATE_BYTES as nat),
        ) {
            (Err(error), _) => Err(PairingFault::Hex(error)),
            (Ok(_), Err(error)) => Err(PairingFault::Hex(error)),
            (Ok(peer_id), Ok(certificate)) => match (
                fingerprint_fault(sha256_digest(certificate), self.certificate_sha256),
                raw_key(certificate_key(certificate)),
            ) {
                (Some(fault), _) => Err(fault),
                (None, Err(fault)) => Err(fault),
                (None, Ok(key)) => self.record_for(
                    peer_id,
                    key,
                    sha256_digest(key),
                    endpoint_of(peer_id),
                ),
            },
        }
    }
}

/// Whether an exchange comes from the sender that is paired already.
pub fn validate_exchange_matches_profile(
    exchange: &ValidatedExchange,
    profile: &PairedSenderProfile,
) -> (result: Result<(), PairingFault>)
    ensures
        result == if profile@.matches(exchange@) {
            Ok::<(), PairingFault>(())
        } else {
            Err(PairingFault::ProfileMismatch)
        },
{
    let peer_id: String = encode_hex(&exchange.sender_peer_id.bytes);
    let endpoint_id: String = encode_hex(&exchange.expected_endpoint.bytes);
    let certificate: String = encode_hex(exchange.sender_certificate_der.as_slice());
    let fingerprint: String = encode_hex(&sha256(exchange.sender_certificate_der.as_slice()));
    if !same_text(profile.peer_id.as_str(), peer_id.as_str()) || !same_text(
        profile.endpoint_id.as_str(),
        endpoint_id.as_str(),
    ) || !same_text(profile.certificate_der_hex.as_str(), certificate.as_str()) || !same_text(
        profile.certificate_sha256.as_str(),
        fingerprint.as_str(),
    ) || !same_text(
        profile.pairing_id.as_str(),
        exchange.wire.pairing_response.pairing_id.as_str(),
    ) {
        return Err(PairingFault::ProfileMismatch);
    }
    Ok(())
}

impl PairedSenderProfile {
    /// The record that the trust store must hold for this profile, given what
    /// its certificate turned out to be.
    pub fn record_from(
        &self,
        peer_id: PeerId,
        key: [u8; 32],
        key_digest: [u8; 32],
        endpoint: EndpointId,
    ) -> (result: Result<TrustRecord, PairingFault>)
        ensures
            viewed(result) == self@.record_for(peer_id@, key@, key_digest@, endpoint@),
    {
        if !same_bytes(&peer_id.bytes, &key_digest) {
            return Err(PairingFault::ProfileInconsistent);
        }
        let claimed: [u8; 16] = match decode_fixed::<16>(self.endpoint_id.as_str()) {
            Ok(bytes) => bytes,
            Err(error) => return Err(PairingFault::Hex(error)),
        };
        if !same_bytes(&claimed, &endpoint.bytes) {
            return Err(PairingFault::ProfileInconsistent);
        }
        let challenge_hash: [u8; 32] = match decode_fixed::<32>(self.challenge_hash.as_str()) {
            Ok(bytes) => bytes,
            Err(error) => return Err(PairingFault::Hex(error)),
        };
        Ok(
            TrustRecord {
                peer_id,
                public_key: copied(&key),
                alias: self.sender_name.clone(),
                first_paired_at_unix_ms: self.paired_at_unix_ms,
                permissions: LinkPermissions::of_paired_sender(),
                key_state: KeyState::Active,
                last_pairing_challenge_hash: challenge_hash,
                replaced_keys: 0,
            },
        )
    }

    /// The record that the trust store must hold for this profile.
    pub fn trust_record(&self) -> (result: Result<TrustRecord, PairingFault>)
        ensures
            viewed(result) == self@.expected_record(),
    {
        let peer: [u8; 32] = match decode_fixed::<32>(self.peer_id.as_str()) {
            Ok(bytes) => bytes,
            Err(error) => return Err(PairingFault::Hex(error)),
        };
        let certificate: Vec<u8> = match decode_hex_bounded(
            self.certificate_der_hex.as_str(),
            MAX_CERTIFICATE_BYTES,
        ) {
            Ok(bytes) => bytes,
            Err(error) => return Err(PairingFault::Hex(error)),
        };
        match validate_fingerprint(certificate.as_slice(), self.certificate_sha256.as_str()) {
            Ok(_) => {},
            Err(fault) => return Err(fault),
        }
        let key: [u8; 32] = match certificate_public_key(certificate.as_slice()) {
            Ok(key) => key,
            Err(fault) => return Err(fault),
        };
        self.record_from(PeerId::from_bytes(peer), key, sha256(&key), endpoint_from_peer(peer))
    }
}

/// The record that the trust store must hold for the paired sender, if one is
/// paired.
pub fn recover_profile_trust(state: &ReceiverPairingState) -> (result: Result<
    Option<TrustRecord>,
    PairingFault,
>)
    ensures
        match (state@.paired_sender, result) {
            (None, result) => result == Ok::<Option<TrustRecord>, PairingFault>(None),
            (Some(profile), Ok(Some(record))) => profile.expected_record() == Ok::<
                TrustRecordView,
                PairingFault,
            >(record@),
            (Some(profile), Ok(None)) => false,
            (Some(profile), Err(fault)) => profile.expected_record() == Err::<
                TrustRecordView,
                PairingFault,
            >(fault),
        },
{
    match &state.paired_sender {
        None => Ok(None),
        Some(profile) => match profile.trust_record() {
            Ok(record) => Ok(Some(record)),
            Err(fault) => Err(fault),
        },
    }
}

/// What is to be done about the trust of a profile.
#[derive(Clone, Copy, Debug, PartialEq, Eq, Structural)]
pub enum RecoveryAction {
    /// It is in order.
    Nothing,
    /// The expected record is to be put into the trust store, and after that
    /// the profile is to be committed and the state stored.
    Commit,
}

/// What is to be done about the trust of a profile, given what the trust store
/// holds, or why that is refused.
pub open spec fn recovery(
    status: ProfileStatus,
    expected: TrustRecordView,
    existing: Option<TrustRecordView>,
) -> Result<RecoveryAction, PairingFault> {
    match (existing, status) {
        (Some(existing), status) => if existing != expected {
            Err(PairingFault::TrustConflict)
        } else {
            match status {
                ProfileStatus::PendingTrust => Ok(RecoveryAction::Commit),
                ProfileStatus::Committed => Ok(RecoveryAction::Nothing),
            }
        },
        (None, ProfileStatus::Committed) => Err(PairingFault::TrustMissing),
        (None, ProfileStatus::PendingTrust) => Ok(RecoveryAction::Commit),
    }
}

/// A record that was found, seen through its view.
pub open spec fn optional_record(record: Option<&TrustRecord>) -> Option<TrustRecordView> {
    match record {
        Some(record) => Some(record@),
        None => None,
    }
}

/// Decides what is to be done about the trust of a profile, given what the
/// trust store holds.
pub fn resolve_trust(
    status: ProfileStatus,
    expected: &TrustRecord,
    existing: Option<&TrustRecord>,
) -> (result: Result<RecoveryAction, PairingFault>)
    ensures
        result == recovery(status, expected@, optional_record(existing)),
{
    match existing {
        Some(existing) => {
            if !existing.same_as(expected) {
                return Err(PairingFault::TrustConflict);
            }
        },
        None => {
            if status == ProfileStatus::Committed {
                return Err(PairingFault::TrustMissing);
            }
        },
    }
    match status {
        ProfileStatus::PendingTrust => Ok(RecoveryAction::Commit),
        ProfileStatus::Committed => Ok(RecoveryAction::Nothing),
    }
}

/// Marks the profile as one that the trust store holds.
pub fn commit_profile(state: &mut ReceiverPairingState)
    ensures
        final(state)@ == old(state)@.committed(),
{
    match &mut state.paired_sender {
        Some(profile) => {
            profile.status = ProfileStatus::Committed;
        },
        None => {},
    }
}


/// A stored state is used exactly where it is of version 1 and lists at most
/// sixty-four consumed challenges, and a fresh one is such a state with nothing
/// in it.
pub proof fn law_stored_state_is_used_within_its_limits(state: PairingStateView)
    ensures
        state.usable() <==> state.version == 1 && state.consumed_challenges.len() <= 64,
        PairingStateView::fresh().usable(),
        PairingStateView::fresh().paired_sender is None,
        PairingStateView::fresh().consumed_challenges.len() == 0,
{
}

/// Committing changes the status of the profile and nothing else.
pub proof fn law_commit_changes_the_status_alone(state: PairingStateView)
    ensures
        ({
            let next = state.committed();
            &&& next.version == state.version
            &&& next.consumed_challenges == state.consumed_challenges
            &&& next.paired_sender is Some <==> state.paired_sender is Some
            &&& state.paired_sender matches Some(profile) ==> {
                &&& next.paired_sender->Some_0.status == ProfileStatus::Committed
                &&& next.paired_sender->Some_0 == (ProfileView {
                    status: ProfileStatus::Committed,
                    ..profile
                })
            }
            &&& next.committed() == next
        }),
{
}

/// A consumed challenge is remembered by the digest of its bytes, however its
/// text was written: two texts of one challenge leave one mark. A challenge is
/// refused exactly where it is no challenge of thirty-two bytes or its mark is
/// listed.
pub proof fn law_challenges_are_marked_by_their_bytes(
    consumed: Seq<Seq<char>>,
    challenge: Seq<char>,
    other: Seq<char>,
)
    ensures
        decoded_fixed(challenge, 32) == decoded_fixed(other, 32) ==> challenge_mark(challenge)
            == challenge_mark(other),
        decoded_fixed(challenge, 32) matches Ok(bytes) ==> challenge_mark(challenge) == Ok::<
            Seq<char>,
            PairingFault,
        >(hex_text(sha256_digest(bytes))),
        challenge_fault(consumed, challenge) is None <==> {
            &&& decoded_fixed(challenge, 32) matches Ok(bytes)
            &&& !consumed.contains(hex_text(sha256_digest(bytes)))
        },
        decoded_fixed(challenge, 32) is Ok && challenge_fault(consumed, challenge) is Some
            ==> challenge_fault(consumed, challenge) == Some(PairingFault::ChallengeConsumed),
{
}

/// A profile is the one of an exchange exactly where peer id, endpoint,
/// certificate, fingerprint and pairing id all are; one that differs in any of
/// them is not.
pub proof fn law_profile_matches_in_every_part(profile: ProfileView, exchange: ExchangeView)
    ensures
        profile.matches(exchange) <==> {
            &&& profile.peer_id == hex_text(exchange.sender_peer_id)
            &&& profile.endpoint_id == hex_text(exchange.expected_endpoint)
            &&& profile.certificate_der_hex == hex_text(exchange.sender_certificate_der)
            &&& profile.certificate_sha256 == hex_text(
                sha256_digest(exchange.sender_certificate_der),
            )
            &&& profile.pairing_id == exchange.wire.pairing_response.pairing_id
        },
{
}

/// The trust record of a profile says what the profile says: its peer id, the key
/// in its certificate, the sender's name, the time of the pairing and the hash of
/// its challenge, with the permissions of a paired sender and an active key that
/// replaced none. There is one exactly where peer id, fingerprint, key and
/// endpoint of the profile belong together.
pub proof fn law_trust_record_says_what_the_profile_says(profile: ProfileView)
    ensures
        profile.expected_record() is Ok <==> {
            &&& decoded_fixed(profile.peer_id, 32) matches Ok(peer_id)
            &&& decoded(profile.certificate_der_hex, 65_536) matches Ok(certificate)
            &&& decoded_fixed(profile.certificate_sha256, 32) == Ok::<
                Seq<u8>,
                crate::hex::HexError,
            >(sha256_digest(certificate))
            &&& certificate_key(certificate) matches Some(key)
            &&& key.len() == 32
            &&& peer_id == sha256_digest(key)
            &&& decoded_fixed(profile.endpoint_id, 16) == Ok::<Seq<u8>, crate::hex::HexError>(
                endpoint_of(peer_id),
            )
            &&& decoded_fixed(profile.challenge_hash, 32) is Ok
        },
        profile.expected_record() matches Ok(record) ==> {
            &&& decoded_fixed(profile.peer_id, 32) == Ok::<Seq<u8>, crate::hex::HexError>(
                record.peer_id,
            )
            &&& certificate_key(
                decoded(profile.certificate_der_hex, 65_536)->Ok_0,
            ) == Some(record.public_key)
            &&& record.alias == profile.sender_name
            &&& record.first_paired_at_unix_ms == profile.paired_at_unix_ms
            &&& decoded_fixed(profile.challenge_hash, 32) == Ok::<Seq<u8>, crate::hex::HexError>(
                record.last_pairing_challenge_hash,
            )
            &&& record.permissions.connect
            &&& record.permissions.datagram
            &&& !record.permissions.other
            &&& record.permissions.namespaces == seq!["nanalive.link.media"@]
            &&& record.key_state == KeyState::Active
            &&& record.replaced_keys == 0
        },
{
}

/// Trust is put in order for a pending profile alone, and only where the trust
/// store holds nothing for it or exactly its record; a committed one needs its
/// record as it is. A record that says something else is never overwritten.
pub proof fn law_trust_is_never_overwritten(
    status: ProfileStatus,
    expected: TrustRecordView,
    existing: Option<TrustRecordView>,
)
    ensures
        recovery(status, expected, existing) == Ok::<RecoveryAction, PairingFault>(
            RecoveryAction::Commit,
        ) <==> status == ProfileStatus::PendingTrust && (existing is None || existing == Some(
            expected,
        )),
        recovery(status, expected, existing) == Ok::<RecoveryAction, PairingFault>(
            RecoveryAction::Nothing,
        ) <==> status == ProfileStatus::Committed && existing == Some(expected),
        existing is Some && existing != Some(expected) ==> recovery(status, expected, existing)
            == Err::<RecoveryAction, PairingFault>(PairingFault::TrustConflict),
        existing is None && status == ProfileStatus::Committed ==> recovery(
            status,
            expected,
            existing,
        ) == Err::<RecoveryAction, PairingFault>(PairingFault::TrustMissing),
{
}

} // verus!
