use nanalive_link_receiver::crypto::{
    GeneratedIdentity, GeneratedKey, GenerationFault, ServerCertificateFault, TlsFault,
    VALIDITY_END_SECONDS, VALIDITY_START_SECONDS,
};
use nanalive_link_receiver::hex::{encode_hex, HexError};
use nanalive_link_receiver::pairing::ceremony::{
    completion_from_profile, confirmation_envelope, open_pairing, record_pairing, require_paired,
    show_preview, InvitationInput, PairingCeremony, PairingRoute,
};
use nanalive_link_receiver::pairing::certificate::{
    certificate_public_key, check_fingerprint, raw_ed25519_key, validate_fingerprint,
};
use nanalive_link_receiver::pairing::exchange::{
    bind_exchange, validate_exchange, SenderExchangeWire, ValidatedExchange,
};
use nanalive_link_receiver::pairing::flow::{
    CeremonyResult, FlowEvent, FlowPurpose, FlowStage, PairingFlow,
};
use nanalive_link_receiver::pairing::identity::{
    check_identity_file_size, verify_transcript, IdentityEvidence, MAX_STATE_BYTES,
};
use nanalive_link_receiver::pairing::invitation::{issue_invitation, service_name, InvitationWire};
use nanalive_link_receiver::pairing::listening::plan_listening;
use nanalive_link_receiver::pairing::message::{
    check_identity_peer, validate_identity_peer, IdentityWire, PairingConfirmationWire,
    PairingResponseWire,
};
use nanalive_link_receiver::pairing::native::{
    endpoint_from_digest, endpoint_from_peer, EndpointId, KeyState, LinkPermissions,
    LongTermIdentity, PairingConfirmation, PeerId, TrustRecord,
};
use nanalive_link_receiver::pairing::state::{
    challenge_digest, check_state_size, commit_profile, load_receiver_state, recover_profile_trust,
    reject_consumed_challenge, resolve_trust, validate_exchange_matches_profile,
    PairedSenderProfile, ProfileStatus, ReceiverPairingState, RecoveryAction,
};
use nanalive_link_receiver::pairing::{
    complete_or_load_pairing, create_invitation, load_paired_sender, mutual_tls_server_config,
    paired_sender_if_present, preview_pairing, PairingFault, ReceiverIdentity,
};
use sha2::{Digest, Sha256};

/// Within the validity of every certificate made here.
const NOW_SECONDS: u64 = 1_700_000_000;
const NOW_MS: u64 = 1_700_000_000_000;

struct Material {
    certificate: Vec<u8>,
    private_key: Vec<u8>,
    public_key: [u8; 32],
}

fn certificate_material(server: bool) -> Material {
    let key_pair = rcgen::KeyPair::generate_for(&rcgen::PKCS_ED25519).unwrap();
    let name = if server { "receiver.local" } else { "sender.local" };
    let mut params = rcgen::CertificateParams::new(vec![name.to_owned()]).unwrap();
    params.extended_key_usages = vec![if server {
        rcgen::ExtendedKeyUsagePurpose::ServerAuth
    } else {
        rcgen::ExtendedKeyUsagePurpose::ClientAuth
    }];
    let certificate = params.self_signed(&key_pair).unwrap();
    Material {
        certificate: certificate.der().as_ref().to_vec(),
        private_key: key_pair.serialize_der(),
        public_key: key_pair.public_key_raw().try_into().unwrap(),
    }
}

fn digest(bytes: &[u8]) -> [u8; 32] {
    Sha256::digest(bytes).into()
}

fn load(material: &Material, server_name: &str) -> Result<ReceiverIdentity, PairingFault> {
    ReceiverIdentity::load(
        material.certificate.clone(),
        material.private_key.clone(),
        &encode_hex(&digest(&material.public_key)),
        server_name,
        NOW_SECONDS,
    )
}

fn receiver() -> (Material, ReceiverIdentity) {
    let material = certificate_material(true);
    let identity = load(&material, "receiver.local").unwrap();
    (material, identity)
}

fn invitation(identity: &ReceiverIdentity) -> InvitationWire {
    create_invitation(
        identity,
        "Studio receiver",
        "192.0.2.10:59631",
        "receiver.local",
        600,
        NOW_MS,
    )
    .unwrap()
}

fn sender_identity(material: &Material) -> LongTermIdentity {
    LongTermIdentity {
        peer_id: PeerId::from_bytes(digest(&material.public_key)),
        public_key: material.public_key.to_vec(),
        display_name: "NanaLive".to_owned(),
    }
}

fn exchange_for(material: &Material, pairing_id: &str) -> SenderExchangeWire {
    let identity = sender_identity(material);
    let transcript_hash = [7u8; 32];
    let pair = ring::signature::Ed25519KeyPair::from_pkcs8(&material.private_key).unwrap();
    let confirmation = PairingConfirmation {
        pairing_id: [0; 16],
        signer_peer_id: identity.peer_id,
        transcript_hash,
        signature: pair.sign(&transcript_hash).as_ref().to_vec(),
    };
    SenderExchangeWire {
        version: 1,
        service: "nanalive-link".to_owned(),
        sender_endpoint_id: encode_hex(&endpoint_from_peer(identity.peer_id.bytes).bytes),
        sender_certificate_der_hex: encode_hex(&material.certificate),
        sender_certificate_sha256: encode_hex(&digest(&material.certificate)),
        pairing_response: PairingResponseWire {
            pairing_id: pairing_id.to_owned(),
            responder: IdentityWire::from_identity(&identity),
            transcript_hash: encode_hex(&transcript_hash),
            short_code: "123456".to_owned(),
        },
        sender_confirmation: PairingConfirmationWire::from_native(&confirmation, pairing_id),
    }
}

fn fresh_state() -> ReceiverPairingState {
    load_receiver_state(None).unwrap()
}

fn paired() -> (Material, ReceiverIdentity, Material, PairingCeremony, ReceiverPairingState) {
    let (receiver_material, identity) = receiver();
    let sender = certificate_material(false);
    let invitation = invitation(&identity);
    let wire = exchange_for(&sender, &invitation.pairing_offer.pairing_id);
    let mut state = fresh_state();
    let exchange = validate_exchange(wire).unwrap();
    let ceremony = open_pairing(
        &identity,
        &state,
        false,
        InvitationInput::Read(invitation),
        exchange,
    )
    .unwrap();
    record_pairing(&mut state, &ceremony, "{\"ok\":true}", NOW_MS, [5; 32]).unwrap();
    (receiver_material, identity, sender, ceremony, state)
}

fn profile(state: &ReceiverPairingState) -> PairedSenderProfile {
    state.paired_sender.clone().unwrap()
}

#[test]
fn identity_binds_certificate_key_peer_and_endpoint() {
    let (material, identity) = receiver();
    assert_eq!(identity.public_key(), material.public_key);
    assert_eq!(identity.peer_id().bytes, digest(&material.public_key));
    assert_eq!(identity.certificate_der(), &material.certificate[..]);
    assert_eq!(identity.private_key_der(), &material.private_key[..]);
    let mut words = b"nanalive-link-endpoint-v1".to_vec();
    words.extend_from_slice(&identity.peer_id().bytes);
    assert_eq!(identity.endpoint_id().bytes, digest(&words)[..16]);
    assert_eq!(
        identity.endpoint_id(),
        endpoint_from_peer(identity.peer_id().bytes)
    );
    assert_eq!(
        certificate_public_key(&material.certificate),
        Ok(material.public_key)
    );
    let shown = identity.long_term_identity("Studio receiver");
    assert_eq!(shown.display_name, "Studio receiver");
    assert_eq!(shown.public_key, material.public_key.to_vec());
}

fn load_fault(result: Result<ReceiverIdentity, PairingFault>) -> PairingFault {
    match result {
        Ok(_) => panic!("identity was accepted"),
        Err(fault) => fault,
    }
}

#[test]
fn each_identity_refusal_is_told_apart() {
    let material = certificate_material(true);
    let other = certificate_material(true);
    let peer = encode_hex(&digest(&material.public_key));
    let refuse = |certificate: &[u8], key: &[u8], peer: &str, name: &str, at: u64| {
        load_fault(ReceiverIdentity::load(
            certificate.to_vec(),
            key.to_vec(),
            peer,
            name,
            at,
        ))
    };
    let certificate = &material.certificate[..];
    let key = &material.private_key[..];
    assert_eq!(
        refuse(&[], key, &peer, "receiver.local", NOW_SECONDS),
        PairingFault::CertificateSize
    );
    assert_eq!(
        refuse(&vec![0; 65_537], key, &peer, "receiver.local", NOW_SECONDS),
        PairingFault::CertificateSize
    );
    assert_eq!(
        refuse(certificate, b"no key", &peer, "receiver.local", NOW_SECONDS),
        PairingFault::PrivateKey
    );
    assert_eq!(
        refuse(b"no certificate", key, &peer, "receiver.local", NOW_SECONDS),
        PairingFault::CertificateSyntax
    );
    assert_eq!(
        refuse(&other.certificate, key, &peer, "receiver.local", NOW_SECONDS),
        PairingFault::CertificateKeyMismatch
    );
    assert_eq!(
        refuse(certificate, key, &peer, "changed.local", NOW_SECONDS),
        PairingFault::ServerCertificate(ServerCertificateFault::Authentication)
    );
    assert_eq!(
        refuse(certificate, key, &peer, "not a name", NOW_SECONDS),
        PairingFault::ServerCertificate(ServerCertificateFault::ServerName)
    );
    assert_eq!(
        refuse(certificate, key, &peer, "receiver.local", 1),
        PairingFault::ServerCertificate(ServerCertificateFault::Authentication)
    );
    assert_eq!(
        refuse(certificate, key, "00", "receiver.local", NOW_SECONDS),
        PairingFault::Hex(HexError::Length)
    );
    assert_eq!(
        refuse(certificate, key, &"00".repeat(32), "receiver.local", NOW_SECONDS),
        PairingFault::PeerIdMismatch
    );
}

#[test]
fn a_client_certificate_makes_no_receiver() {
    let sender = certificate_material(false);
    assert_eq!(
        load_fault(load(&sender, "sender.local")),
        PairingFault::ServerCertificate(ServerCertificateFault::Authentication)
    );
}

#[test]
fn an_identity_is_assembled_only_of_parts_that_agree() {
    let evidence = |key: Option<Vec<u8>>, certificate_key, verdict| IdentityEvidence {
        public_key: key,
        certificate_key,
        server_verdict: verdict,
        peer_id: PeerId::from_bytes([3; 32]),
        endpoint_id: EndpointId::from_bytes([4; 16]),
    };
    let peer = "03".repeat(32);
    let assemble = |evidence| ReceiverIdentity::assemble(vec![1], vec![2], &peer, evidence);
    let identity = match assemble(evidence(Some(vec![9; 32]), Ok([9; 32]), Ok(()))) {
        Ok(identity) => identity,
        Err(fault) => panic!("refused: {}", fault.text()),
    };
    assert_eq!(identity.peer_id().bytes, [3; 32]);
    assert_eq!(identity.endpoint_id().bytes, [4; 16]);
    assert_eq!(identity.certificate_der(), &[1]);
    assert_eq!(
        load_fault(assemble(evidence(Some(vec![9; 31]), Ok([9; 32]), Ok(())))),
        PairingFault::PublicKeyLength
    );
    assert_eq!(
        load_fault(assemble(evidence(
            Some(vec![9; 32]),
            Err(PairingFault::CertificateKey),
            Ok(())
        ))),
        PairingFault::CertificateKey
    );
    assert_eq!(
        load_fault(assemble(evidence(
            Some(vec![9; 32]),
            Ok([9; 32]),
            Err(ServerCertificateFault::TrustAnchor)
        ))),
        PairingFault::ServerCertificate(ServerCertificateFault::TrustAnchor)
    );
    assert_eq!(
        raw_ed25519_key(Some(vec![0; 33])),
        Err(PairingFault::CertificateKey)
    );
    assert_eq!(raw_ed25519_key(None), Err(PairingFault::CertificateSyntax));
    assert_eq!(raw_ed25519_key(Some(vec![8; 32])), Ok([8; 32]));
}

#[test]
fn a_generated_identity_is_kept_by_its_file() {
    let first = ReceiverIdentity::load_or_create(None, "receiver.local", NOW_SECONDS).unwrap_or_else(
        |fault| panic!("refused: {}", fault.text()),
    );
    let file = first.to_file();
    assert_eq!(file.version, 1);
    assert_eq!(file.peer_id, encode_hex(&first.peer_id().bytes));
    let second = ReceiverIdentity::load_or_create(Some(&file), "receiver.local", NOW_SECONDS)
        .unwrap_or_else(|fault| panic!("refused: {}", fault.text()));
    assert_eq!(second.peer_id(), first.peer_id());
    assert_eq!(second.endpoint_id(), first.endpoint_id());
    assert_eq!(second.certificate_der(), first.certificate_der());
    let other = ReceiverIdentity::load_or_create(None, "receiver.local", NOW_SECONDS)
        .unwrap_or_else(|fault| panic!("refused: {}", fault.text()));
    assert_ne!(other.peer_id(), first.peer_id());
}

#[test]
fn a_new_identity_is_restored_while_it_is_valid_and_under_its_name_alone() {
    let identity = ReceiverIdentity::load_or_create(None, "receiver.local", NOW_SECONDS)
        .unwrap_or_else(|fault| panic!("refused: {}", fault.text()));
    let file = identity.to_file();
    // Also where the clock was set back.
    for now in [
        VALIDITY_START_SECONDS,
        NOW_SECONDS - 1_000_000_000,
        NOW_SECONDS,
        NOW_SECONDS + 1_000_000_000,
        VALIDITY_END_SECONDS,
    ] {
        let restored = ReceiverIdentity::load_or_create(Some(&file), "receiver.local", now)
            .unwrap_or_else(|fault| panic!("refused: {}", fault.text()));
        assert_eq!(restored.peer_id(), identity.peer_id());
        assert_eq!(restored.endpoint_id(), identity.endpoint_id());
        assert_eq!(restored.certificate_der(), identity.certificate_der());
        assert_eq!(restored.private_key_der(), identity.private_key_der());
    }
    let refusal = PairingFault::ServerCertificate(ServerCertificateFault::Authentication);
    for now in [VALIDITY_START_SECONDS - 1, VALIDITY_END_SECONDS + 1] {
        let invalid = ReceiverIdentity::load_or_create(Some(&file), "receiver.local", now);
        assert_eq!(load_fault(invalid), refusal);
    }
    for name in ["changed.local", "receiver.loca", "receiver.local2", "a.receiver.local"] {
        let renamed = ReceiverIdentity::load_or_create(Some(&file), name, NOW_SECONDS);
        assert_eq!(load_fault(renamed), refusal);
    }
}

#[test]
fn a_new_identity_has_the_self_signed_certificate_of_its_key_and_name() {
    let identity = ReceiverIdentity::load_or_create(None, "receiver.local", NOW_SECONDS)
        .unwrap_or_else(|fault| panic!("refused: {}", fault.text()));
    let pkcs8 = rustls::pki_types::PrivatePkcs8KeyDer::from(identity.private_key_der().to_vec());
    let key_pair =
        rcgen::KeyPair::from_pkcs8_der_and_sign_algo(&pkcs8, &rcgen::PKCS_ED25519).unwrap();
    let signed = |name: &str| {
        let mut params = rcgen::CertificateParams::new(vec![name.to_owned()]).unwrap();
        params.extended_key_usages = vec![rcgen::ExtendedKeyUsagePurpose::ServerAuth];
        params.self_signed(&key_pair).unwrap().der().as_ref().to_vec()
    };
    assert_eq!(identity.certificate_der(), &signed("receiver.local")[..]);
    assert_ne!(identity.certificate_der(), &signed("elsewhere.local")[..]);

    let key = GeneratedKey {
        private_key_der: identity.private_key_der().to_vec(),
        public_key: identity.public_key().to_vec(),
    };
    let again = ReceiverIdentity::create(Some(key.clone()), "receiver.local", NOW_SECONDS)
        .unwrap_or_else(|fault| panic!("refused: {}", fault.text()));
    assert_eq!(again.certificate_der(), identity.certificate_der());
    assert_eq!(
        load_fault(ReceiverIdentity::create(None, "receiver.local", NOW_SECONDS)),
        PairingFault::Generation(GenerationFault::Key)
    );
    assert_eq!(
        load_fault(ReceiverIdentity::create(Some(key), "r\u{e9}ceiver.local", NOW_SECONDS)),
        PairingFault::Generation(GenerationFault::Parameters)
    );
    assert_eq!(
        load_fault(ReceiverIdentity::load_or_create(
            None,
            "r\u{e9}ceiver.local",
            NOW_SECONDS
        )),
        PairingFault::Generation(GenerationFault::Parameters)
    );
    assert_eq!(
        load_fault(ReceiverIdentity::load_or_create(None, "not a name", NOW_SECONDS)),
        PairingFault::ServerCertificate(ServerCertificateFault::ServerName)
    );
}

#[test]
fn a_corrupt_identity_file_is_refused() {
    let identity = ReceiverIdentity::load_or_create(None, "receiver.local", NOW_SECONDS)
        .unwrap_or_else(|fault| panic!("refused: {}", fault.text()));
    let file = identity.to_file();
    let restore = |file| {
        load_fault(ReceiverIdentity::load_or_create(
            Some(file),
            "receiver.local",
            NOW_SECONDS,
        ))
    };
    assert_eq!(
        load_fault(ReceiverIdentity::load_or_create(
            Some(&file),
            "changed.local",
            NOW_SECONDS
        )),
        PairingFault::ServerCertificate(ServerCertificateFault::Authentication)
    );
    let mut changed = file.clone();
    changed.version = 2;
    assert_eq!(restore(&changed), PairingFault::IdentityFileVersion);
    let mut changed = file.clone();
    changed.endpoint_id = "00".repeat(16);
    assert_eq!(restore(&changed), PairingFault::IdentityEndpoint);
    let mut changed = file.clone();
    changed.endpoint_id = file.endpoint_id.to_uppercase();
    assert_eq!(restore(&changed), PairingFault::IdentityEndpoint);
    let mut changed = file.clone();
    changed.certificate_der_hex = "zz".to_owned();
    assert_eq!(restore(&changed), PairingFault::Hex(HexError::Character));
    let mut changed = file.clone();
    changed.private_key_der_hex.push('0');
    assert_eq!(restore(&changed), PairingFault::Hex(HexError::Size));
    assert_eq!(
        load_fault(ReceiverIdentity::load_or_create(None, "", NOW_SECONDS)),
        PairingFault::ServerNameEmpty
    );
    assert_eq!(check_identity_file_size(MAX_STATE_BYTES), Ok(()));
    assert_eq!(
        check_identity_file_size(MAX_STATE_BYTES + 1),
        Err(PairingFault::IdentityFileSize)
    );
}

#[test]
fn what_was_generated_is_checked_before_it_is_adopted() {
    for (fault, text) in [
        (GenerationFault::Key, "generate receiver Ed25519 identity"),
        (GenerationFault::Parameters, "create receiver certificate parameters"),
        (GenerationFault::SelfSign, "self-sign receiver certificate"),
    ] {
        let refused = load_fault(ReceiverIdentity::adopt(
            Err(fault),
            "receiver.local",
            NOW_SECONDS,
        ));
        assert_eq!(refused, PairingFault::Generation(fault));
        assert_eq!(refused.text(), text);
    }
    let material = certificate_material(true);
    let mut generated = GeneratedIdentity {
        certificate_der: material.certificate.clone(),
        private_key_der: material.private_key.clone(),
        public_key: material.public_key.to_vec(),
    };
    assert!(ReceiverIdentity::adopt(Ok(generated.clone()), "receiver.local", NOW_SECONDS).is_ok());
    generated.public_key = vec![0; 32];
    assert_eq!(
        load_fault(ReceiverIdentity::adopt(
            Ok(generated.clone()),
            "receiver.local",
            NOW_SECONDS
        )),
        PairingFault::PeerIdMismatch
    );
    generated.public_key.pop();
    assert_eq!(
        load_fault(ReceiverIdentity::adopt(
            Ok(generated),
            "receiver.local",
            NOW_SECONDS
        )),
        PairingFault::GeneratedKey
    );
}

#[test]
fn the_receiver_signs_transcripts_that_its_key_accepts() {
    let (material, identity) = receiver();
    let hash = [42u8; 32];
    let signature = identity.sign_transcript(&hash).unwrap();
    assert_eq!(signature.len(), 64);
    let pair = ring::signature::Ed25519KeyPair::from_pkcs8(&material.private_key).unwrap();
    assert_eq!(signature, pair.sign(&hash).as_ref());
    assert!(verify_transcript(&material.public_key, &hash, &signature));
    assert!(!verify_transcript(&material.public_key, &[43; 32], &signature));
    assert!(!verify_transcript(&[1; 31], &hash, &signature));
    assert!(!verify_transcript(&material.public_key, &hash, &signature[..63]));
}

#[test]
fn fingerprints_name_certificates() {
    let material = certificate_material(false);
    let fingerprint = encode_hex(&digest(&material.certificate));
    assert_eq!(validate_fingerprint(&material.certificate, &fingerprint), Ok(()));
    assert_eq!(
        validate_fingerprint(&material.certificate, &"00".repeat(32)),
        Err(PairingFault::Fingerprint)
    );
    assert_eq!(
        validate_fingerprint(&material.certificate, "0"),
        Err(PairingFault::Hex(HexError::Size))
    );
    assert_eq!(check_fingerprint(&[0; 32], &"00".repeat(32)), Ok(()));
    // The digest of "abc".
    assert_eq!(
        validate_fingerprint(
            b"abc",
            "ba7816bf8f01cfea414140de5dae2223b00361a396177a9cb410ff61f20015ad"
        ),
        Ok(())
    );
}

#[test]
fn an_invitation_carries_the_receiver_and_fresh_random_values() {
    let (material, identity) = receiver();
    let first = invitation(&identity);
    let second = invitation(&identity);
    assert_eq!(first.version, 1);
    assert_eq!(first.service, service_name());
    assert_eq!(first.address, "192.0.2.10:59631");
    assert_eq!(first.server_name, "receiver.local");
    assert_eq!(first.certificate_der_hex, encode_hex(&material.certificate));
    assert_eq!(
        first.certificate_sha256,
        encode_hex(&digest(&material.certificate))
    );
    assert_eq!(first.pairing_offer.protocol_major, 1);
    assert_eq!(first.pairing_offer.protocol_minor, 0);
    assert_eq!(first.pairing_offer.method, "bilateralConfirmation");
    assert_eq!(first.pairing_offer.expires_at_unix_ms, NOW_MS + 600_000);
    assert_eq!(first.pairing_offer.pairing_id.len(), 32);
    assert_eq!(first.pairing_offer.challenge.len(), 64);
    assert_ne!(first.pairing_offer.pairing_id, second.pairing_offer.pairing_id);
    assert_ne!(first.pairing_offer.challenge, second.pairing_offer.challenge);
    assert_eq!(first.validate_for(&identity), Ok(()));
    let offer = first.pairing_offer.to_native().unwrap();
    assert_eq!(offer.initiator.peer_id, identity.peer_id());
    assert_eq!(offer.expires_at_unix_ms, NOW_MS + 600_000);
}

#[test]
fn invitations_need_names_and_a_lifetime_of_at_most_a_day() {
    let (_, identity) = receiver();
    let create = |name, address, server, ttl| {
        create_invitation(&identity, name, address, server, ttl, u64::MAX)
    };
    for (name, address, server, ttl) in [
        ("", "a", "s", 1),
        ("n", "", "s", 1),
        ("n", "a", "", 1),
        ("n", "a", "s", 0),
        ("n", "a", "s", 86_401),
    ] {
        assert_eq!(
            create(name, address, server, ttl),
            Err(PairingFault::InvitationFields)
        );
    }
    let longest = create("n", "a", "s", 86_400).unwrap();
    assert_eq!(longest.pairing_offer.expires_at_unix_ms, u64::MAX);
}

#[test]
fn an_invitation_of_another_receiver_is_refused() {
    let (_, identity) = receiver();
    let (_, other) = receiver();
    let issued = issue_invitation(&identity, "n", "a", "s", 9, [1; 16], [2; 32]);
    assert_eq!(issued.pairing_offer.pairing_id, "01".repeat(16));
    assert_eq!(issued.pairing_offer.challenge, "02".repeat(32));
    assert_eq!(issued.validate_for(&identity), Ok(()));
    assert_eq!(
        issued.validate_for(&other),
        Err(PairingFault::InvitationMismatch)
    );
    let mut changed = issued.clone();
    changed.version = 2;
    assert_eq!(
        changed.validate_for(&identity),
        Err(PairingFault::InvitationMismatch)
    );
    let mut changed = issued.clone();
    changed.service = "other".to_owned();
    assert_eq!(
        changed.validate_for(&identity),
        Err(PairingFault::InvitationMismatch)
    );
    let mut changed = issued.clone();
    changed.receiver_endpoint_id = "x".to_owned();
    assert_eq!(
        changed.validate_for(&identity),
        Err(PairingFault::Hex(HexError::Size))
    );
    let mut changed = issued.clone();
    changed.certificate_der_hex = "00".to_owned();
    assert_eq!(
        changed.validate_for(&identity),
        Err(PairingFault::InvitationMismatch)
    );
    let mut changed = issued.clone();
    changed.certificate_sha256 = "00".repeat(32);
    assert_eq!(
        changed.validate_for(&identity),
        Err(PairingFault::Fingerprint)
    );
    let mut changed = issued.clone();
    changed.pairing_offer.initiator = IdentityWire::from_identity(&other.long_term_identity("n"));
    assert_eq!(
        changed.validate_for(&identity),
        Err(PairingFault::InvitationIdentity)
    );
    let mut changed = issued.clone();
    changed.pairing_offer.method = "none".to_owned();
    assert_eq!(changed.pairing_offer.to_native(), Err(PairingFault::Method));
}

#[test]
fn identities_belong_to_their_keys() {
    let material = certificate_material(false);
    let identity = sender_identity(&material);
    assert_eq!(validate_identity_peer(&identity), Ok(()));
    let wire = IdentityWire::from_identity(&identity);
    assert_eq!(wire.to_native(), Ok(identity.clone()));
    let mut changed = wire.clone();
    changed.display_name = String::new();
    assert_eq!(changed.to_native(), Err(PairingFault::IdentityPeer));
    let mut changed = wire.clone();
    changed.peer_id = "00".repeat(32);
    assert_eq!(changed.to_native(), Err(PairingFault::IdentityPeer));
    let mut changed = wire.clone();
    changed.public_key_hex = "00".repeat(31);
    assert_eq!(changed.to_native(), Err(PairingFault::IdentityKey));
    assert_eq!(
        check_identity_peer(&identity, &[0; 32]),
        Err(PairingFault::IdentityPeer)
    );
    assert_eq!(check_identity_peer(&identity, &identity.peer_id.bytes), Ok(()));
}

#[test]
fn confirmations_are_written_and_read() {
    let confirmation = PairingConfirmation {
        pairing_id: [1; 16],
        signer_peer_id: PeerId::from_bytes([2; 32]),
        transcript_hash: [3; 32],
        signature: vec![4; 64],
    };
    let wire = PairingConfirmationWire::from_native(&confirmation, &"01".repeat(16));
    assert_eq!(wire.signature_hex, "04".repeat(64));
    assert_eq!(wire.to_native(), Ok(confirmation));
    let mut long = wire.clone();
    long.signature_hex = "04".repeat(129);
    assert_eq!(long.to_native(), Err(PairingFault::Hex(HexError::Size)));
    let mut short = wire;
    short.transcript_hash = "03".to_owned();
    assert_eq!(short.to_native(), Err(PairingFault::Hex(HexError::Length)));
}

#[test]
fn certificate_tampering_is_noticed() {
    let sender = certificate_material(false);
    let other = certificate_material(false);
    let wire = exchange_for(&sender, &"11".repeat(16));
    let exchange = validate_exchange(wire.clone()).unwrap();
    assert_eq!(exchange.sender_certificate_der, sender.certificate);
    assert_eq!(exchange.sender_peer_id.bytes, digest(&sender.public_key));
    let mut changed = wire.clone();
    changed.sender_certificate_sha256 = "00".repeat(32);
    assert_eq!(validate_exchange(changed), Err(PairingFault::Fingerprint));
    let mut changed = wire.clone();
    changed.service = "other".to_owned();
    assert_eq!(validate_exchange(changed), Err(PairingFault::ExchangeEnvelope));
    let mut changed = wire.clone();
    changed.sender_certificate_der_hex = encode_hex(&other.certificate);
    changed.sender_certificate_sha256 = encode_hex(&digest(&other.certificate));
    assert_eq!(validate_exchange(changed), Err(PairingFault::ResponseKey));
    let mut changed = wire.clone();
    changed.sender_certificate_der_hex = "00".to_owned();
    changed.sender_certificate_sha256 = encode_hex(&digest(&[0]));
    assert_eq!(validate_exchange(changed), Err(PairingFault::CertificateSyntax));
    let mut changed = wire.clone();
    changed.sender_endpoint_id = "00".repeat(16);
    assert_eq!(validate_exchange(changed), Err(PairingFault::SenderEndpoint));
    let bound: Result<ValidatedExchange, PairingFault> = bind_exchange(
        wire.clone(),
        exchange.response.clone(),
        sender.certificate.clone(),
        [0; 32],
        exchange.expected_endpoint,
    );
    assert_eq!(bound, Err(PairingFault::ResponseKey));
    assert_eq!(endpoint_from_digest([6; 32]).bytes, [6; 16]);
}

#[test]
fn a_preview_shows_the_sender_and_changes_nothing() {
    let (_, identity) = receiver();
    let sender = certificate_material(false);
    let invitation = invitation(&identity);
    let wire = exchange_for(&sender, &invitation.pairing_offer.pairing_id);
    let state = fresh_state();
    let ceremony = preview_pairing(
        &identity,
        &state,
        Some(invitation.clone()),
        Some(wire.clone()),
    )
    .unwrap();
    assert_eq!(ceremony.offer.pairing_id, ceremony.exchange.response.pairing_id);
    let preview = show_preview(&ceremony, "NanaLive".to_owned(), "123456".to_owned());
    assert_eq!(preview.sender_name, "NanaLive");
    assert_eq!(preview.short_code, "123456");
    assert_eq!(preview.sender_peer_id, encode_hex(&digest(&sender.public_key)));
    assert_eq!(
        preview.certificate_sha256,
        encode_hex(&digest(&sender.certificate))
    );
    assert_eq!(preview.expires_at_unix_ms, NOW_MS + 600_000);
    assert_eq!(
        preview_pairing(&identity, &state, None, Some(wire.clone())),
        Err(PairingFault::InvitationSyntax)
    );
    assert_eq!(
        preview_pairing(&identity, &state, Some(invitation.clone()), None),
        Err(PairingFault::ExchangeSyntax)
    );
    let other = exchange_for(&sender, &"22".repeat(16));
    assert_eq!(
        preview_pairing(&identity, &state, Some(invitation), Some(other)),
        Err(PairingFault::PairingId)
    );
}

#[test]
fn a_paired_sender_is_remembered_until_restart_and_after() {
    let (receiver_material, _, sender, ceremony, mut state) = paired();
    let pending = profile(&state);
    assert_eq!(pending.status, ProfileStatus::PendingTrust);
    assert_eq!(pending.sender_name, "NanaLive");
    assert_eq!(pending.paired_at_unix_ms, NOW_MS);
    assert_eq!(pending.challenge_hash, "05".repeat(32));
    assert_eq!(state.consumed_challenges.len(), 1);

    // Interrupted before the trust store took the record.
    let expected = recover_profile_trust(&state).unwrap().unwrap();
    assert_eq!(
        expected,
        TrustRecord {
            peer_id: PeerId::from_bytes(digest(&sender.public_key)),
            public_key: sender.public_key.to_vec(),
            alias: "NanaLive".to_owned(),
            first_paired_at_unix_ms: NOW_MS,
            permissions: LinkPermissions::of_paired_sender(),
            key_state: KeyState::Active,
            last_pairing_challenge_hash: [5; 32],
            replaced_keys: 0,
        }
    );
    assert_eq!(
        resolve_trust(pending.status, &expected, None),
        Ok(RecoveryAction::Commit)
    );
    // Interrupted after it did.
    assert_eq!(
        resolve_trust(pending.status, &expected, Some(&expected)),
        Ok(RecoveryAction::Commit)
    );
    commit_profile(&mut state);
    let committed = profile(&state);
    assert_eq!(committed.status, ProfileStatus::Committed);
    assert_eq!(
        resolve_trust(committed.status, &expected, Some(&expected)),
        Ok(RecoveryAction::Nothing)
    );
    assert_eq!(load_receiver_state(Some(state.clone())), Ok(state.clone()));

    let restored = load_paired_sender(&state).unwrap();
    assert_eq!(restored.completion.sender_certificate_der, sender.certificate);
    assert_eq!(
        restored.completion.sender_endpoint_id,
        endpoint_from_peer(digest(&sender.public_key))
    );
    assert!(restored.completion.receiver_confirmation_json.is_none());
    assert_eq!(restored.public_key, sender.public_key);
    assert_eq!(paired_sender_if_present(&state), Ok(Some(restored)));

    match complete_or_load_pairing(&state, &ceremony.exchange).unwrap() {
        PairingRoute::Resend(resent) => assert_eq!(
            resent.completion.receiver_confirmation_json.as_deref(),
            Some("{\"ok\":true}")
        ),
        PairingRoute::Pair => panic!("the sender is paired already"),
    }
    assert!(mutual_tls_server_config(
        receiver_material.certificate.clone(),
        receiver_material.private_key.clone(),
        sender.certificate.clone()
    )
    .is_ok());
}

#[test]
fn committed_trust_that_was_removed_or_changed_is_refused() {
    let (_, _, _, _, mut state) = paired();
    commit_profile(&mut state);
    let expected = recover_profile_trust(&state).unwrap().unwrap();
    assert_eq!(
        resolve_trust(ProfileStatus::Committed, &expected, None),
        Err(PairingFault::TrustMissing)
    );
    let mut records: Vec<TrustRecord> = vec![expected.clone(); 8];
    records[0].alias = "Someone else".to_owned();
    records[1].key_state = KeyState::Other;
    records[2].permissions.other = true;
    records[3].permissions.namespaces.clear();
    records[4].permissions.namespaces[0].push('x');
    records[5].replaced_keys = 1;
    records[6].first_paired_at_unix_ms += 1;
    records[7].last_pairing_challenge_hash[0] ^= 1;
    for record in &records {
        for status in [ProfileStatus::Committed, ProfileStatus::PendingTrust] {
            assert_eq!(
                resolve_trust(status, &expected, Some(record)),
                Err(PairingFault::TrustConflict)
            );
        }
    }
    assert!(expected.same_as(&expected.clone()));
}

#[test]
fn an_invitation_is_used_once() {
    let (_, identity, sender, ceremony, state) = paired();
    let used = ceremony.invitation.clone();
    let mut unpaired = state.clone();
    unpaired.paired_sender = None;
    let again = validate_exchange(exchange_for(&sender, &used.pairing_offer.pairing_id)).unwrap();
    assert_eq!(
        open_pairing(
            &identity,
            &unpaired,
            false,
            InvitationInput::Read(used.clone()),
            again
        ),
        Err(PairingFault::ChallengeConsumed)
    );
    assert_eq!(
        preview_pairing(
            &identity,
            &state,
            Some(used.clone()),
            Some(exchange_for(&sender, &used.pairing_offer.pairing_id))
        ),
        Err(PairingFault::AlreadyPaired)
    );
    assert_eq!(
        reject_consumed_challenge(&state, &used.pairing_offer.challenge),
        Err(PairingFault::ChallengeConsumed)
    );
    assert_eq!(reject_consumed_challenge(&state, &"00".repeat(32)), Ok(()));
    assert_eq!(
        reject_consumed_challenge(&state, "00"),
        Err(PairingFault::Hex(HexError::Length))
    );
    assert_eq!(
        challenge_digest(&"00".repeat(32)),
        Ok(encode_hex(&digest(&[0; 32])))
    );
}

#[test]
fn another_sender_does_not_match_the_profile() {
    let (_, _, _, ceremony, state) = paired();
    let other = certificate_material(false);
    let pairing_id = &ceremony.invitation.pairing_offer.pairing_id;
    let foreign = validate_exchange(exchange_for(&other, pairing_id)).unwrap();
    assert_eq!(
        complete_or_load_pairing(&state, &foreign),
        Err(PairingFault::ProfileMismatch)
    );
    assert_eq!(
        validate_exchange_matches_profile(&ceremony.exchange, &profile(&state)),
        Ok(())
    );
    let mut renamed = profile(&state);
    renamed.pairing_id = "00".repeat(16);
    assert_eq!(
        validate_exchange_matches_profile(&ceremony.exchange, &renamed),
        Err(PairingFault::ProfileMismatch)
    );
}

#[test]
fn a_first_pairing_needs_its_invitation_and_an_unknown_sender() {
    let (_, identity) = receiver();
    let sender = certificate_material(false);
    let invitation = invitation(&identity);
    let state = fresh_state();
    let exchange =
        validate_exchange(exchange_for(&sender, &invitation.pairing_offer.pairing_id)).unwrap();
    assert_eq!(
        complete_or_load_pairing(&state, &exchange),
        Ok(PairingRoute::Pair)
    );
    let open = |trusted, input| open_pairing(&identity, &state, trusted, input, exchange.clone());
    assert_eq!(
        open(true, InvitationInput::Missing),
        Err(PairingFault::TrustWithoutProfile)
    );
    assert_eq!(
        open(false, InvitationInput::Missing),
        Err(PairingFault::InvitationRequired)
    );
    assert_eq!(
        open(false, InvitationInput::Unreadable),
        Err(PairingFault::InvitationSyntax)
    );
    let ceremony = open(false, InvitationInput::Read(invitation)).unwrap();
    assert_eq!(require_paired(true), Ok(()));
    assert_eq!(require_paired(false), Err(PairingFault::CeremonyUnfinished));
    let confirmation = PairingConfirmation {
        pairing_id: ceremony.offer.pairing_id,
        signer_peer_id: identity.peer_id(),
        transcript_hash: [9; 32],
        signature: identity.sign_transcript(&[9; 32]).unwrap(),
    };
    let envelope = confirmation_envelope(&ceremony, &confirmation);
    assert_eq!(envelope.version, 1);
    assert_eq!(envelope.service, "nanalive-link");
    assert_eq!(envelope.receiver_confirmation.to_native(), Ok(confirmation));
}

#[test]
fn an_inconsistent_profile_is_refused() {
    let (_, _, _, _, state) = paired();
    let good = profile(&state);
    let with = |change: fn(&mut PairedSenderProfile)| {
        let mut changed = state.clone();
        change(changed.paired_sender.as_mut().unwrap());
        changed
    };
    let wrong_peer = with(|profile| profile.peer_id = "00".repeat(32));
    assert_eq!(
        recover_profile_trust(&wrong_peer),
        Err(PairingFault::ProfileInconsistent)
    );
    assert_eq!(
        load_paired_sender(&wrong_peer),
        Err(PairingFault::ProfileEndpoint)
    );
    let wrong_endpoint = with(|profile| profile.endpoint_id = "00".repeat(16));
    assert_eq!(
        recover_profile_trust(&wrong_endpoint),
        Err(PairingFault::ProfileInconsistent)
    );
    assert_eq!(
        paired_sender_if_present(&wrong_endpoint),
        Err(PairingFault::ProfileEndpoint)
    );
    let wrong_fingerprint = with(|profile| profile.certificate_sha256 = "00".repeat(32));
    assert_eq!(
        recover_profile_trust(&wrong_fingerprint),
        Err(PairingFault::Fingerprint)
    );
    let wrong_challenge = with(|profile| profile.challenge_hash = "00".to_owned());
    assert_eq!(
        recover_profile_trust(&wrong_challenge),
        Err(PairingFault::Hex(HexError::Length))
    );
    assert_eq!(
        good.restore_from(
            PeerId::from_bytes([1; 32]),
            EndpointId::from_bytes([2; 16]),
            vec![3],
            [4; 32],
            [5; 32],
            false
        ),
        Err(PairingFault::ProfileCertificate)
    );
    assert_eq!(
        good.record_from(
            PeerId::from_bytes([1; 32]),
            [4; 32],
            [5; 32],
            EndpointId::from_bytes([2; 16])
        ),
        Err(PairingFault::ProfileInconsistent)
    );
    assert!(completion_from_profile(&good, false).is_ok());
}

#[test]
fn stored_states_are_checked() {
    let fresh = fresh_state();
    assert_eq!(fresh.version, 1);
    assert_eq!(load_paired_sender(&fresh), Err(PairingFault::NotPaired));
    assert_eq!(paired_sender_if_present(&fresh), Ok(None));
    assert_eq!(recover_profile_trust(&fresh), Ok(None));
    let mut state = ReceiverPairingState {
        version: 1,
        paired_sender: None,
        consumed_challenges: vec!["11".repeat(32)],
    };
    state.consumed_challenges.push("22".repeat(32));
    assert_eq!(
        load_receiver_state(Some(state.clone()))
            .unwrap()
            .consumed_challenges,
        state.consumed_challenges
    );
    state.consumed_challenges = vec![String::new(); 64];
    assert!(load_receiver_state(Some(state.clone())).is_ok());
    state.consumed_challenges.push(String::new());
    assert_eq!(
        load_receiver_state(Some(state.clone())),
        Err(PairingFault::StateInvalid)
    );
    state.consumed_challenges.clear();
    state.version = 0;
    assert_eq!(
        load_receiver_state(Some(state)),
        Err(PairingFault::StateInvalid)
    );
    assert_eq!(check_state_size(262_144), Ok(()));
    assert_eq!(check_state_size(262_145), Err(PairingFault::StateSize));
}

#[test]
fn mutual_tls_needs_a_readable_sender_and_a_matching_key() {
    let (material, _) = receiver();
    let sender = certificate_material(false);
    let fault = |certificate: &[u8], key: &[u8], client: &[u8]| {
        match mutual_tls_server_config(certificate.to_vec(), key.to_vec(), client.to_vec()) {
            Ok(_) => panic!("configuration was built"),
            Err(fault) => fault,
        }
    };
    assert_eq!(
        fault(&material.certificate, &material.private_key, b"nothing"),
        PairingFault::Tls(TlsFault::TrustRoot)
    );
    assert_eq!(
        fault(&material.certificate, &sender.private_key, &sender.certificate),
        PairingFault::Tls(TlsFault::Configuration)
    );
    assert_eq!(
        PairingFault::Tls(TlsFault::Configuration).text(),
        "build mutual TLS server configuration"
    );
}

#[test]
fn refusals_have_their_messages() {
    for (fault, text) in [
        (PairingFault::CertificateSize, "receiver certificate is invalid"),
        (PairingFault::PrivateKey, "receiver private key is not Ed25519 PKCS#8"),
        (PairingFault::AlreadyPaired, "this receiver already has a paired sender"),
        (PairingFault::NotPaired, "no sender has been paired with this receiver"),
        (
            PairingFault::TrustMissing,
            "Mutsuki trust record is missing for the committed sender profile",
        ),
        (
            PairingFault::ChallengeConsumed,
            "pairing invitation challenge has already been consumed",
        ),
        (
            PairingFault::Hex(HexError::Size),
            "hex field exceeds its allowed size",
        ),
        (
            PairingFault::ServerCertificate(ServerCertificateFault::Authentication),
            "receiver certificate cannot authenticate the configured server name",
        ),
    ] {
        assert_eq!(fault.text(), text);
    }
}

fn flow_fault(result: Result<PairingFlow, PairingFault>) -> PairingFault {
    match result {
        Err(fault) => fault,
        Ok(_) => panic!("the flow went on"),
    }
}

fn ran(reached_paired: bool) -> FlowEvent {
    FlowEvent::CeremonyRan(CeremonyResult {
        reached_paired,
        confirmation_json: "{\"ok\":true}".to_owned(),
        now_unix_ms: NOW_MS,
        challenge_hash: [5; 32],
    })
}

/// A flow that wants to know whether its sender is trusted, and its receiver.
fn first_pairing() -> (ReceiverIdentity, ValidatedExchange, InvitationWire, PairingFlow) {
    let (_, identity) = receiver();
    let sender = certificate_material(false);
    let invitation = invitation(&identity);
    let exchange =
        validate_exchange(exchange_for(&sender, &invitation.pairing_offer.pairing_id)).unwrap();
    let purpose = FlowPurpose::Complete(exchange.clone(), InvitationInput::Read(invitation.clone()));
    let flow = PairingFlow::begin(fresh_state(), purpose).unwrap();
    (identity, exchange, invitation, flow)
}

#[test]
fn a_first_pairing_stores_trusts_and_stores_again() {
    let (identity, exchange, _, flow) = first_pairing();
    assert_eq!(*flow.stage(), FlowStage::ReadSender(exchange.sender_peer_id));
    let flow = flow.next(&identity, FlowEvent::TrustRead(None)).unwrap();
    assert!(matches!(flow.stage(), FlowStage::RunCeremony(_)));
    assert_eq!(*flow.state(), fresh_state());
    let flow = flow.next(&identity, ran(true)).unwrap();
    assert!(matches!(flow.stage(), FlowStage::StorePending(_)));
    assert_eq!(profile(flow.state()).status, ProfileStatus::PendingTrust);
    let pending = flow.state().clone();
    let flow = flow.next(&identity, FlowEvent::StateStored).unwrap();
    assert!(matches!(flow.stage(), FlowStage::WriteCeremonyTrust(_)));
    assert_eq!(*flow.state(), pending);
    let flow = flow.next(&identity, FlowEvent::TrustWritten).unwrap();
    assert!(matches!(flow.stage(), FlowStage::StoreCommitted(_)));
    assert_eq!(profile(flow.state()).status, ProfileStatus::Committed);
    let flow = flow.next(&identity, FlowEvent::StateStored).unwrap();
    match flow.stage() {
        FlowStage::Finished(Some(completion)) => {
            assert_eq!(completion.sender_endpoint_id, exchange.expected_endpoint);
            assert_eq!(completion.sender_certificate_der, exchange.sender_certificate_der);
            assert_eq!(
                completion.receiver_confirmation_json.as_deref(),
                Some("{\"ok\":true}")
            );
        }
        stage => panic!("{stage:?}"),
    }
    // It is over.
    assert_eq!(
        flow_fault(flow.next(&identity, FlowEvent::StateStored)),
        PairingFault::FlowOutOfOrder
    );
}

#[test]
fn an_interrupted_pairing_is_taken_up_again() {
    let (_, identity, _, _, pending) = paired();
    let expected = recover_profile_trust(&pending).unwrap().unwrap();
    for existing in [None, Some(expected.clone())] {
        let flow = PairingFlow::begin(pending.clone(), FlowPurpose::Restore).unwrap();
        assert_eq!(*flow.stage(), FlowStage::ReadTrust(expected.clone()));
        let flow = flow.next(&identity, FlowEvent::TrustRead(existing)).unwrap();
        assert_eq!(*flow.stage(), FlowStage::WriteTrust(expected.clone()));
        assert_eq!(*flow.state(), pending);
        let flow = flow.next(&identity, FlowEvent::TrustWritten).unwrap();
        assert_eq!(*flow.stage(), FlowStage::StoreRecovered);
        assert_eq!(profile(flow.state()).status, ProfileStatus::Committed);
        let flow = flow.next(&identity, FlowEvent::StateStored).unwrap();
        let sender = load_paired_sender(flow.state()).unwrap();
        assert_eq!(*flow.stage(), FlowStage::Authorize(sender.clone()));
        let flow = flow.next(&identity, FlowEvent::Authorized).unwrap();
        assert_eq!(*flow.stage(), FlowStage::Finished(Some(sender.completion)));
    }
}

#[test]
fn a_committed_sender_is_restored_or_confirmed_again() {
    let (_, identity, _, ceremony, mut state) = paired();
    commit_profile(&mut state);
    let expected = recover_profile_trust(&state).unwrap().unwrap();
    for (purpose, confirmation) in [
        (FlowPurpose::Restore, None),
        (
            FlowPurpose::Complete(ceremony.exchange.clone(), InvitationInput::Missing),
            Some("{\"ok\":true}".to_owned()),
        ),
    ] {
        let begin = || PairingFlow::begin(state.clone(), purpose.clone()).unwrap();
        assert_eq!(
            flow_fault(begin().next(&identity, FlowEvent::TrustRead(None))),
            PairingFault::TrustMissing
        );
        let trusted = FlowEvent::TrustRead(Some(expected.clone()));
        let flow = begin().next(&identity, trusted).unwrap();
        assert_eq!(*flow.state(), state);
        let flow = flow.next(&identity, FlowEvent::Authorized).unwrap();
        match flow.stage() {
            FlowStage::Finished(Some(completion)) => {
                assert_eq!(completion.receiver_confirmation_json, confirmation);
            }
            stage => panic!("{stage:?}"),
        }
    }
    let nobody = PairingFlow::begin(fresh_state(), FlowPurpose::Restore).unwrap();
    assert_eq!(*nobody.stage(), FlowStage::Finished(None));
}

#[test]
fn a_flow_refuses_what_it_did_not_ask_for() {
    let (identity, exchange, _, flow) = first_pairing();
    assert_eq!(
        flow_fault(flow.next(&identity, FlowEvent::TrustWritten)),
        PairingFault::FlowOutOfOrder
    );
    assert_eq!(
        PairingFault::FlowOutOfOrder.text(),
        "pairing step out of order"
    );
    let (identity, _, _, flow) = first_pairing();
    let known = TrustRecord {
        peer_id: exchange.sender_peer_id,
        public_key: vec![1],
        alias: String::new(),
        first_paired_at_unix_ms: 0,
        permissions: LinkPermissions::of_paired_sender(),
        key_state: KeyState::Active,
        last_pairing_challenge_hash: [0; 32],
        replaced_keys: 0,
    };
    assert_eq!(
        flow_fault(flow.next(&identity, FlowEvent::TrustRead(Some(known)))),
        PairingFault::TrustWithoutProfile
    );
    let (identity, _, _, flow) = first_pairing();
    let flow = flow.next(&identity, FlowEvent::TrustRead(None)).unwrap();
    assert_eq!(
        flow_fault(flow.next(&identity, ran(false))),
        PairingFault::CeremonyUnfinished
    );
}

#[test]
fn the_listener_is_bound_for_the_paired_sender_alone() {
    let (_, identity, sender, _, mut state) = paired();
    commit_profile(&mut state);
    let expected = recover_profile_trust(&state).unwrap().unwrap();
    let refusal = |flow: &PairingFlow| match plan_listening(&identity, flow) {
        Ok(_) => panic!("a listener was planned"),
        Err(fault) => fault,
    };
    let flow = PairingFlow::begin(state, FlowPurpose::Restore).unwrap();
    assert_eq!(refusal(&flow), PairingFault::NotPaired);
    let flow = flow
        .next(&identity, FlowEvent::TrustRead(Some(expected)))
        .unwrap();
    // The trust store has not authorised the sender yet.
    assert_eq!(refusal(&flow), PairingFault::NotPaired);
    let flow = flow.next(&identity, FlowEvent::Authorized).unwrap();
    match plan_listening(&identity, &flow) {
        Ok(plan) => {
            assert_eq!(plan.local_endpoint, identity.endpoint_id());
            assert_eq!(
                plan.sender_endpoint,
                endpoint_from_peer(digest(&sender.public_key))
            );
        }
        Err(fault) => panic!("refused: {}", fault.text()),
    }
    let nobody = PairingFlow::begin(fresh_state(), FlowPurpose::Restore).unwrap();
    assert_eq!(refusal(&nobody), PairingFault::NotPaired);
}

#[test]
fn the_sender_that_a_flow_hands_out_is_the_one_of_its_profile() {
    let (_, identity, sender, _, mut state) = paired();
    commit_profile(&mut state);
    let expected = recover_profile_trust(&state).unwrap().unwrap();
    let flow = PairingFlow::begin(state, FlowPurpose::Restore).unwrap();
    let flow = flow
        .next(&identity, FlowEvent::TrustRead(Some(expected)))
        .unwrap();
    let flow = flow.next(&identity, FlowEvent::Authorized).unwrap();
    assert_eq!(profile(flow.state()).status, ProfileStatus::Committed);
    match flow.stage() {
        FlowStage::Finished(Some(completion)) => {
            let kept = profile(flow.state());
            assert_eq!(kept.certificate_der_hex, encode_hex(&completion.sender_certificate_der));
            assert_eq!(kept.endpoint_id, encode_hex(&completion.sender_endpoint_id.bytes));
            assert_eq!(completion.sender_certificate_der, sender.certificate);
        }
        stage => panic!("{stage:?}"),
    }
}
