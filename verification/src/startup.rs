//! What the receiver decides before it serves: where its state lies, which
//! identity it takes, and whether it pairs, previews, invites or serves.
use crate::crypto::{random_bytes, sha256, sha256_digest};
use crate::hex::{encode_hex, hex_text};
use crate::windows::tray::TrayController;
use vstd::prelude::*;
use vstd::string::StringExecFns;

verus! {

/// Why the receiver does not start.
#[derive(Clone, Copy, Debug, PartialEq, Eq, Structural)]
pub enum StartupFault {
    StateDirUnavailable,
    StateDirEmpty,
    PartialIdentity,
    InvitationFileRequired,
    AdvertisedAddressRequired,
    AdvertisedAddressUnreachable,
    PortMismatch,
    DiscoveryRandom,
}

impl StartupFault {
    pub open spec fn message(self) -> Seq<char> {
        match self {
            StartupFault::StateDirUnavailable
            => "Windows LocalAppData is unavailable; pass --state-dir explicitly"@,
            StartupFault::StateDirEmpty
            => "Windows LocalAppData is empty; pass --state-dir explicitly"@,
            StartupFault::PartialIdentity
            => "--certificate-der, --private-key-der, and --receiver-peer-id must be supplied together"@,
            StartupFault::InvitationFileRequired
            => "--pairing-invitation is required with --pairing-exchange"@,
            StartupFault::AdvertisedAddressRequired
            => "--advertised-address is required when generating an invitation"@,
            StartupFault::AdvertisedAddressUnreachable
            => "--advertised-address must be a reachable socket address"@,
            StartupFault::PortMismatch
            => "--advertised-address and --listen must use the same UDP port"@,
            StartupFault::DiscoveryRandom => "generate ephemeral discovery identity"@,
        }
    }

    /// The message shown for this fault.
    pub fn text(&self) -> (text: &'static str)
        ensures
            text@ == self.message(),
    {
        match self {
            StartupFault::StateDirUnavailable
            => "Windows LocalAppData is unavailable; pass --state-dir explicitly",
            StartupFault::StateDirEmpty
            => "Windows LocalAppData is empty; pass --state-dir explicitly",
            StartupFault::PartialIdentity
            => "--certificate-der, --private-key-der, and --receiver-peer-id must be supplied together",
            StartupFault::InvitationFileRequired
            => "--pairing-invitation is required with --pairing-exchange",
            StartupFault::AdvertisedAddressRequired
            => "--advertised-address is required when generating an invitation",
            StartupFault::AdvertisedAddressUnreachable
            => "--advertised-address must be a reachable socket address",
            StartupFault::PortMismatch
            => "--advertised-address and --listen must use the same UDP port",
            StartupFault::DiscoveryRandom => "generate ephemeral discovery identity",
        }
    }
}

/// The directory, below LocalAppData, in which the receiver keeps its state.
/// The length of LocalAppData is given where it is set.
pub fn default_windows_state_dir(local_app_data_length: Option<usize>) -> (result: Result<
    &'static str,
    StartupFault,
>)
    ensures
        match (local_app_data_length, result) {
            (None, result) => result == Err::<&'static str, StartupFault>(
                StartupFault::StateDirUnavailable,
            ),
            (Some(length), Err(fault)) => length == 0 && fault == StartupFault::StateDirEmpty,
            (Some(length), Ok(name)) => length > 0 && name@ == "NanaLiveLinkReceiver"@,
        },
{
    match local_app_data_length {
        None => Err(StartupFault::StateDirUnavailable),
        Some(length) => if length == 0 {
            Err(StartupFault::StateDirEmpty)
        } else {
            Ok("NanaLiveLinkReceiver")
        },
    }
}

/// Where the identity comes from.
#[derive(Clone, Copy, Debug, PartialEq, Eq, Structural)]
pub enum IdentitySource {
    /// Certificate, key and peer id were all given.
    Supplied,
    /// None was given: the identity file, or a new identity.
    Stored,
}

/// Where the identity comes from, or why it comes from nowhere.
pub open spec fn identity_source(certificate: bool, private_key: bool, peer_id: bool) -> Result<
    IdentitySource,
    StartupFault,
> {
    if certificate && private_key && peer_id {
        Ok(IdentitySource::Supplied)
    } else if !certificate && !private_key && !peer_id {
        Ok(IdentitySource::Stored)
    } else {
        Err(StartupFault::PartialIdentity)
    }
}

/// Where the identity comes from. Certificate, private key and peer id are
/// given together or not at all.
pub fn select_identity_source(certificate: bool, private_key: bool, peer_id: bool) -> (result:
    Result<IdentitySource, StartupFault>)
    ensures
        result == identity_source(certificate, private_key, peer_id),
{
    match (certificate, private_key, peer_id) {
        (true, true, true) => Ok(IdentitySource::Supplied),
        (false, false, false) => Ok(IdentitySource::Stored),
        _ => Err(StartupFault::PartialIdentity),
    }
}

/// What a start is for.
#[derive(Clone, Copy, Debug, PartialEq, Eq, Structural)]
pub enum StartPlan {
    /// Show the short code of an exchange, and end.
    Preview,
    /// Confirm an exchange, and serve.
    Complete,
    /// Serve the paired sender, or invite one where none is paired.
    ServeOrInvite,
}

/// What a start is for, or why it is for nothing.
pub open spec fn start_plan(exchange: bool, invitation: bool, confirm: bool) -> Result<
    StartPlan,
    StartupFault,
> {
    if !exchange {
        Ok(StartPlan::ServeOrInvite)
    } else if !invitation {
        Err(StartupFault::InvitationFileRequired)
    } else if confirm {
        Ok(StartPlan::Complete)
    } else {
        Ok(StartPlan::Preview)
    }
}

/// What a start is for. An exchange comes with the invitation that it answers.
pub fn plan_start(exchange: bool, invitation: bool, confirm: bool) -> (result: Result<
    StartPlan,
    StartupFault,
>)
    ensures
        result == start_plan(exchange, invitation, confirm),
{
    if !exchange {
        return Ok(StartPlan::ServeOrInvite);
    }
    if !invitation {
        return Err(StartupFault::InvitationFileRequired);
    }
    if confirm {
        Ok(StartPlan::Complete)
    } else {
        Ok(StartPlan::Preview)
    }
}

/// The address that an invitation advertises.
#[derive(Clone, Copy, Debug, PartialEq, Eq, Structural)]
pub enum AdvertisedAddress {
    Missing,
    /// It is no socket address.
    Unreadable,
    /// A socket address with this port.
    Port(u16),
}

/// Whether an invitation may advertise an address, or why it may not.
pub open spec fn address_verdict(advertised: AdvertisedAddress, listen_port: u16) -> Result<
    (),
    StartupFault,
> {
    match advertised {
        AdvertisedAddress::Missing => Err(StartupFault::AdvertisedAddressRequired),
        AdvertisedAddress::Unreadable => Err(StartupFault::AdvertisedAddressUnreachable),
        AdvertisedAddress::Port(port) => if port == listen_port {
            Ok(())
        } else {
            Err(StartupFault::PortMismatch)
        },
    }
}

/// Whether an invitation may advertise an address: it is a socket address with
/// the port that the receiver listens on.
pub fn check_advertised_address(advertised: AdvertisedAddress, listen_port: u16) -> (result: Result<
    (),
    StartupFault,
>)
    ensures
        result == address_verdict(advertised, listen_port),
{
    match advertised {
        AdvertisedAddress::Missing => Err(StartupFault::AdvertisedAddressRequired),
        AdvertisedAddress::Unreadable => Err(StartupFault::AdvertisedAddressUnreachable),
        AdvertisedAddress::Port(port) => if port == listen_port {
            Ok(())
        } else {
            Err(StartupFault::PortMismatch)
        },
    }
}

/// When an advertisement that starts now ends.
pub open spec fn advertised_until(now: u64, ttl_seconds: u64) -> int {
    let until = now + ttl_seconds * 1_000_000_000;
    if until <= u64::MAX {
        until
    } else {
        u64::MAX as int
    }
}

/// When an advertisement that starts now ends.
pub fn advertisement_deadline(now: u64, ttl_seconds: u64) -> (deadline: u64)
    ensures
        deadline == advertised_until(now, ttl_seconds),
{
    if ttl_seconds <= 18_446_744_073 {
        now.saturating_add(ttl_seconds * 1_000_000_000)
    } else {
        u64::MAX
    }
}

/// Whether an advertisement goes on at `now`: neither an end nor a reconnect
/// was asked for, and the invitation has not run out.
pub fn advertisement_continues(tray: &mut TrayController, now: u64, deadline: u64) -> (going_on:
    bool)
    ensures
        going_on == (!old(tray).shutdown_asked() && !old(tray).reconnect_pending() && now
            < deadline),
        final(tray).shutdown_asked() == old(tray).shutdown_asked(),
        final(tray).pending() == old(tray).pending(),
        final(tray).reconnect_pending() == (old(tray).shutdown_asked() && old(
            tray,
        ).reconnect_pending()),
{
    tray.keep_running() && now < deadline
}

/// What is said of an advertisement that ended at `now`.
pub fn advertisement_end(now: u64, deadline: u64) -> (text: &'static str)
    ensures
        text@ == if now >= deadline {
            "pairing invitation expired; discovery advertisement stopped"@
        } else {
            "pairing invitation cancelled; discovery advertisement stopped"@
        },
{
    if now >= deadline {
        "pairing invitation expired; discovery advertisement stopped"
    } else {
        "pairing invitation cancelled; discovery advertisement stopped"
    }
}

/// The name under which a token is advertised.
pub open spec fn discovery_text(token: Seq<u8>) -> Seq<char> {
    "nanalive-link-"@ + hex_text(token)
}

/// The name under which a token is advertised.
pub fn discovery_name(token: [u8; 8]) -> (name: String)
    ensures
        name@ == discovery_text(token@),
{
    let mut name: String = "nanalive-link-".to_owned();
    let digits: String = encode_hex(&token);
    name.append(digits.as_str());
    name
}

/// A temporary name for one advertisement, made of random bytes and nothing
/// else.
pub fn ephemeral_discovery_name() -> (result: Result<String, StartupFault>)
    ensures
        match result {
            Ok(name) => exists|token: Seq<u8>|
                token.len() == 8 && name@ == #[trigger] discovery_text(token),
            Err(fault) => fault == StartupFault::DiscoveryRandom,
        },
{
    match random_bytes::<8>() {
        Some(token) => {
            let name: String = discovery_name(token);
            assert(token@.len() == 8 && name@ == discovery_text(token@));
            Ok(name)
        },
        None => Err(StartupFault::DiscoveryRandom),
    }
}

/// The host name that goes with an advertised name.
pub fn discovery_host(instance: &str) -> (host: String)
    ensures
        host@ == instance@ + ".local."@,
{
    let mut host: String = instance.to_owned();
    host.append(".local.");
    host
}

/// The entry of the system's key store in which trust is kept for a trust store
/// path.
pub fn keyring_service_name(trust_store_path: &str) -> (name: String)
    ensures
        name@ == "nanalive-link-receiver-"@ + hex_text(
            sha256_digest(vstd::utf8::encode_utf8(trust_store_path@)),
        ).take(16),
{
    let digest: [u8; 32] = sha256(trust_store_path.as_bytes());
    keyring_name_from_digest(&digest)
}

/// The entry of the system's key store for the digest of a path.
pub fn keyring_name_from_digest(digest: &[u8; 32]) -> (name: String)
    ensures
        name@ == "nanalive-link-receiver-"@ + hex_text(digest@).take(16),
{
    let mut start: Vec<u8> = Vec::new();
    let mut i: usize = 0;
    while i < 8
        invariant
            i <= 8,
            start@ == digest@.take(i as int),
        decreases 8 - i,
    {
        start.push(digest[i]);
        assert(digest@.take(i + 1) =~= digest@.take(i as int).push(digest@[i as int]));
        i += 1;
    }
    let digits: String = encode_hex(start.as_slice());
    assert(digits@ =~= hex_text(digest@).take(16));
    let mut name: String = "nanalive-link-receiver-".to_owned();
    name.append(digits.as_str());
    name
}

/// A time in milliseconds since 1970, as far as 64 bits hold it.
pub open spec fn held_time(milliseconds: u128) -> u64 {
    if milliseconds <= u64::MAX {
        milliseconds as u64
    } else {
        u64::MAX
    }
}

/// Every time that 64 bits hold is kept, a later one becomes the last of them,
/// and times stay in order.
pub proof fn law_times_stay_in_order(milliseconds: u128, later: u128)
    requires
        milliseconds <= later,
    ensures
        held_time(milliseconds) <= held_time(later),
        milliseconds <= u64::MAX ==> held_time(milliseconds) == milliseconds,
        milliseconds > u64::MAX ==> held_time(milliseconds) == u64::MAX,
{
}

/// A time in milliseconds since 1970, as far as 64 bits hold it.
pub fn clamp_unix_ms(milliseconds: u128) -> (clamped: u64)
    ensures
        clamped == held_time(milliseconds),
{
    if milliseconds <= u64::MAX as u128 {
        milliseconds as u64
    } else {
        u64::MAX
    }
}

/// An advertised name says nothing but its token: it is made of the token
/// alone, and the same name means the same token.
pub proof fn law_discovery_name_is_its_token(token: Seq<u8>, other: Seq<u8>)
    requires
        discovery_text(token) == discovery_text(other),
    ensures
        token == other,
{
    let prefix = "nanalive-link-"@;
    assert(discovery_text(token).skip(prefix.len() as int) =~= hex_text(token));
    assert(discovery_text(other).skip(prefix.len() as int) =~= hex_text(other));
    crate::hex::law_encode_is_injective(token, other);
}


/// An identity is given whole or not at all: where any two of certificate, key
/// and peer id differ in whether they are given, the start is refused.
pub proof fn law_identity_is_given_whole(certificate: bool, private_key: bool, peer_id: bool)
    ensures
        certificate != private_key || private_key != peer_id <==> identity_source(
            certificate,
            private_key,
            peer_id,
        ) == Err::<IdentitySource, StartupFault>(StartupFault::PartialIdentity),
        identity_source(certificate, private_key, peer_id) == Ok::<IdentitySource, StartupFault>(
            IdentitySource::Supplied,
        ) ==> certificate && private_key && peer_id,
        identity_source(certificate, private_key, peer_id) == Ok::<IdentitySource, StartupFault>(
            IdentitySource::Stored,
        ) ==> !certificate && !private_key && !peer_id,
{
}

/// No sender is paired unasked: a pairing is completed only where an exchange, its
/// invitation and a confirmation were all given, and shown only where the
/// confirmation alone is missing. Without an exchange, neither of the others
/// matters; with one, its invitation is needed.
pub proof fn law_pairing_needs_a_confirmation(exchange: bool, invitation: bool, confirm: bool)
    ensures
        start_plan(exchange, invitation, confirm) == Ok::<StartPlan, StartupFault>(
            StartPlan::Complete,
        ) <==> exchange && invitation && confirm,
        start_plan(exchange, invitation, confirm) == Ok::<StartPlan, StartupFault>(
            StartPlan::Preview,
        ) <==> exchange && invitation && !confirm,
        start_plan(exchange, invitation, confirm) == Ok::<StartPlan, StartupFault>(
            StartPlan::ServeOrInvite,
        ) <==> !exchange,
        start_plan(exchange, invitation, confirm) == Err::<StartPlan, StartupFault>(
            StartupFault::InvitationFileRequired,
        ) <==> exchange && !invitation,
{
}

/// An invitation advertises only the port on which the receiver listens.
pub proof fn law_advertised_port_is_the_listening_one(
    advertised: AdvertisedAddress,
    listen_port: u16,
)
    ensures
        address_verdict(advertised, listen_port) is Ok <==> (advertised matches
            AdvertisedAddress::Port(port) && port == listen_port),
        advertised is Port && address_verdict(advertised, listen_port) is Err ==> address_verdict(
            advertised,
            listen_port,
        ) == Err::<(), StartupFault>(StartupFault::PortMismatch),
        advertised is Missing ==> address_verdict(advertised, listen_port) == Err::<
            (),
            StartupFault,
        >(StartupFault::AdvertisedAddressRequired),
        advertised is Unreadable ==> address_verdict(advertised, listen_port) == Err::<
            (),
            StartupFault,
        >(StartupFault::AdvertisedAddressUnreachable),
{
}

/// An advertisement lasts exactly as long as it was asked to, in whole seconds,
/// up to the end of the clock.
pub proof fn law_advertisement_lasts_as_long_as_asked(now: u64, ttl_seconds: u64)
    ensures
        now + ttl_seconds * 1_000_000_000 <= u64::MAX ==> advertised_until(now, ttl_seconds) - now
            == ttl_seconds * 1_000_000_000,
        now + ttl_seconds * 1_000_000_000 > u64::MAX ==> advertised_until(now, ttl_seconds)
            == u64::MAX,
        advertised_until(now, 0) == now,
        ttl_seconds < u64::MAX ==> advertised_until(now, (ttl_seconds + 1) as u64)
            - advertised_until(now, ttl_seconds) <= 1_000_000_000,
{
}

/// An advertised name is the name of the service, a hyphen and two lower-case
/// digits for each byte of its token.
pub proof fn law_discovery_name_has_one_form(token: Seq<u8>)
    ensures
        discovery_text(token).len() == 14 + 2 * token.len(),
        discovery_text(token).take(14) == "nanalive-link-"@,
        discovery_text(token).skip(14) == hex_text(token),
{
    reveal_strlit("nanalive-link-");
    assert(discovery_text(token).take(14) =~= "nanalive-link-"@);
    assert(discovery_text(token).skip(14) =~= hex_text(token));
}

} // verus!
