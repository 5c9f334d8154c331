//! The order in which a pairing is recovered, restored or completed.
//!
//! The trust store, the state file and the ceremony are the caller's: a flow
//! asks for one thing at a time and goes on with what came of it.
use crate::crypto::{certificate_key, sha256_digest};
use crate::hex::{
    decoded, decoded_fixed, law_decode_undoes_encode, law_decoded_is_bounded, HexError,
};
use crate::pairing::ceremony::{
    complete_or_load_pairing, open_pairing, opened, paired_sender_if_present, paired_state,
    record_pairing, require_paired, CeremonyView, CompletionView, InvitationInput, PairingCeremony,
    PairingCompletion, PairingRoute, RestoredSender, RestoredView,
};
use crate::pairing::certificate::MAX_CERTIFICATE_BYTES;
use crate::pairing::exchange::{law_validated_exchange_is_bound, ExchangeView, ValidatedExchange};
use crate::pairing::fault::{viewed, PairingFault};
use crate::pairing::identity::{ReceiverIdentity, ReceiverIdentityView};
use crate::pairing::native::{endpoint_of, PeerId, TrustRecord, TrustRecordView};
use crate::pairing::state::{
    commit_profile, recover_profile_trust, recovery, resolve_trust, PairingStateView,
    ProfileStatus, ProfileView, ReceiverPairingState, RecoveryAction,
};
use vstd::prelude::*;

verus! {

/// What a flow is for.
#[derive(Clone, Debug, PartialEq, Eq)]
pub enum FlowPurpose {
    /// Find the paired sender, if there is one.
    Restore,
    /// Pair the sender of an exchange, or hand out its confirmation again. Once
    /// the ceremony is open, it holds the exchange, and the purpose is over.
    Complete(ValidatedExchange, InvitationInput),
}

/// Where a flow stands.
#[derive(Clone, Debug, PartialEq, Eq)]
pub enum FlowStage {
    /// The record that the trust store holds for the paired sender is wanted.
    ReadTrust(TrustRecord),
    /// This record is to be put into the trust store.
    WriteTrust(TrustRecord),
    /// The committed state is to be stored.
    StoreRecovered,
    /// The trust store is to authorise this sender.
    Authorize(RestoredSender),
    /// It is wanted whether the trust store knows the sender of the exchange.
    ReadSender(PeerId),
    /// The ceremony is to be run.
    RunCeremony(PairingCeremony),
    /// The state with the new profile is to be stored.
    StorePending(PairingCompletion),
    /// The record of the ceremony is to be put into the trust store.
    WriteCeremonyTrust(PairingCompletion),
    /// The committed state is to be stored.
    StoreCommitted(PairingCompletion),
    /// The flow is over, with a paired sender or with none.
    Finished(Option<PairingCompletion>),
}

/// What came of a ceremony.
#[derive(Clone, Debug, PartialEq, Eq)]
pub struct CeremonyResult {
    pub reached_paired: bool,
    /// The receiver's confirmation, as it is handed to the sender.
    pub confirmation_json: String,
    pub now_unix_ms: u64,
    /// The hash of the challenge, as the ceremony's trust record holds it.
    pub challenge_hash: [u8; 32],
}

/// What came of what a flow asked for.
#[derive(Clone, Debug, PartialEq, Eq)]
pub enum FlowEvent {
    TrustRead(Option<TrustRecord>),
    TrustWritten,
    StateStored,
    Authorized,
    CeremonyRan(CeremonyResult),
}

/// The stage of a flow, seen through views.
pub ghost enum StageView {
    ReadTrust(TrustRecordView),
    WriteTrust(TrustRecordView),
    StoreRecovered,
    Authorize(RestoredView),
    ReadSender(Seq<u8>),
    RunCeremony(CeremonyView),
    StorePending(CompletionView),
    WriteCeremonyTrust(CompletionView),
    StoreCommitted(CompletionView),
    Finished(Option<CompletionView>),
}

/// The purpose of a flow, seen through views.
pub ghost enum PurposeView {
    Restore,
    Complete(ExchangeView, InvitationInput),
}

/// What came of what a flow asked for, seen through views.
pub ghost enum EventView {
    TrustRead(Option<TrustRecordView>),
    TrustWritten,
    StateStored,
    Authorized,
    CeremonyRan { reached_paired: bool, json: Seq<char>, now: u64, challenge_hash: Seq<u8> },
}

/// A flow, seen through views.
pub ghost struct FlowView {
    pub state: PairingStateView,
    pub purpose: PurposeView,
    pub stage: StageView,
}

impl View for FlowStage {
    type V = StageView;

    open spec fn view(&self) -> StageView {
        match *self {
            FlowStage::ReadTrust(record) => StageView::ReadTrust(record@),
            FlowStage::WriteTrust(record) => StageView::WriteTrust(record@),
            FlowStage::StoreRecovered => StageView::StoreRecovered,
            FlowStage::Authorize(sender) => StageView::Authorize(sender@),
            FlowStage::ReadSender(peer_id) => StageView::ReadSender(peer_id@),
            FlowStage::RunCeremony(ceremony) => StageView::RunCeremony(ceremony@),
            FlowStage::StorePending(completion) => StageView::StorePending(completion@),
            FlowStage::WriteCeremonyTrust(completion) => StageView::WriteCeremonyTrust(completion@),
            FlowStage::StoreCommitted(completion) => StageView::StoreCommitted(completion@),
            FlowStage::Finished(completion) => StageView::Finished(
                match completion {
                    Some(completion) => Some(completion@),
                    None => None,
                },
            ),
        }
    }
}

impl View for FlowPurpose {
    type V = PurposeView;

    open spec fn view(&self) -> PurposeView {
        match *self {
            FlowPurpose::Restore => PurposeView::Restore,
            FlowPurpose::Complete(exchange, invitation) => PurposeView::Complete(
                exchange@,
                invitation,
            ),
        }
    }
}

impl View for FlowEvent {
    type V = EventView;

    open spec fn view(&self) -> EventView {
        match *self {
            FlowEvent::TrustRead(record) => EventView::TrustRead(
                match record {
                    Some(record) => Some(record@),
                    None => None,
                },
            ),
            FlowEvent::TrustWritten => EventView::TrustWritten,
            FlowEvent::StateStored => EventView::StateStored,
            FlowEvent::Authorized => EventView::Authorized,
            FlowEvent::CeremonyRan(result) => EventView::CeremonyRan {
                reached_paired: result.reached_paired,
                json: result.confirmation_json@,
                now: result.now_unix_ms,
                challenge_hash: result.challenge_hash@,
            },
        }
    }
}

impl FlowView {
    /// A flow from its beginning: where a sender is paired, its trust comes
    /// first.
    pub open spec fn begun(state: PairingStateView, purpose: PurposeView) -> Result<
        FlowView,
        PairingFault,
    > {
        match state.paired_sender {
            None => FlowView::with_trust(state, purpose),
            Some(profile) => match profile.expected_record() {
                Err(fault) => Err(fault),
                Ok(record) => Ok(FlowView { state, purpose, stage: StageView::ReadTrust(record) }),
            },
        }
    }

    /// A flow once the trust of its state is in order.
    pub open spec fn with_trust(state: PairingStateView, purpose: PurposeView) -> Result<
        FlowView,
        PairingFault,
    > {
        match (state.paired_sender, purpose) {
            (None, PurposeView::Restore) => Ok(
                FlowView { state, purpose, stage: StageView::Finished(None) },
            ),
            (None, PurposeView::Complete(exchange, _)) => Ok(
                FlowView {
                    state,
                    purpose,
                    stage: StageView::ReadSender(exchange.sender_peer_id),
                },
            ),
            (Some(profile), PurposeView::Restore) => match profile.sender(false) {
                Err(fault) => Err(fault),
                Ok(sender) => Ok(FlowView { state, purpose, stage: StageView::Authorize(sender) }),
            },
            (Some(profile), PurposeView::Complete(exchange, _)) => if !profile.matches(exchange) {
                Err(PairingFault::ProfileMismatch)
            } else {
                match profile.sender(true) {
                    Err(fault) => Err(fault),
                    Ok(sender) => Ok(
                        FlowView { state, purpose, stage: StageView::Authorize(sender) },
                    ),
                }
            },
        }
    }

    /// The status of the profile in the state.
    pub open spec fn status(self) -> ProfileStatus {
        match self.state.paired_sender {
            Some(profile) => profile.status,
            None => ProfileStatus::PendingTrust,
        }
    }

    /// The flow after it was read what the trust store holds for the paired
    /// sender.
    pub open spec fn trust_read(
        self,
        expected: TrustRecordView,
        existing: Option<TrustRecordView>,
    ) -> Result<FlowView, PairingFault> {
        match recovery(self.status(), expected, existing) {
            Err(fault) => Err(fault),
            Ok(RecoveryAction::Nothing) => FlowView::with_trust(self.state, self.purpose),
            Ok(RecoveryAction::Commit) => Ok(
                FlowView { stage: StageView::WriteTrust(expected), ..self },
            ),
        }
    }

    /// The flow after it was read whether the trust store knows the sender of
    /// the exchange.
    pub open spec fn sender_read(self, identity: ReceiverIdentityView, trusted: bool) -> Result<
        FlowView,
        PairingFault,
    > {
        match self.purpose {
            PurposeView::Restore => Err(PairingFault::FlowOutOfOrder),
            PurposeView::Complete(exchange, invitation) => match opened(
                identity,
                self.state,
                trusted,
                invitation,
                exchange,
            ) {
                Err(fault) => Err(fault),
                Ok(ceremony) => Ok(
                    FlowView {
                        purpose: PurposeView::Restore,
                        stage: StageView::RunCeremony(ceremony),
                        ..self
                    },
                ),
            },
        }
    }

    /// The flow after the ceremony was run.
    pub open spec fn ceremony_ran(
        self,
        ceremony: CeremonyView,
        reached_paired: bool,
        json: Seq<char>,
        now: u64,
        challenge_hash: Seq<u8>,
    ) -> Result<FlowView, PairingFault> {
        if !reached_paired {
            Err(PairingFault::CeremonyUnfinished)
        } else {
            match paired_state(self.state, ceremony, json, now, challenge_hash) {
                Err(fault) => Err(fault),
                Ok(state) => Ok(
                    FlowView {
                        state,
                        stage: StageView::StorePending(
                            CompletionView {
                                sender_endpoint_id: ceremony.exchange.expected_endpoint,
                                sender_certificate_der: ceremony.exchange.sender_certificate_der,
                                receiver_confirmation_json: Some(json),
                            },
                        ),
                        ..self
                    },
                ),
            }
        }
    }

    /// The flow after an event, or why it is refused.
    pub open spec fn followed_by(self, identity: ReceiverIdentityView, event: EventView) -> Result<
        FlowView,
        PairingFault,
    > {
        match (self.stage, event) {
            (StageView::ReadTrust(expected), EventView::TrustRead(existing)) => self.trust_read(
                expected,
                existing,
            ),
            (StageView::WriteTrust(_), EventView::TrustWritten) => Ok(
                FlowView {
                    state: self.state.committed(),
                    stage: StageView::StoreRecovered,
                    ..self
                },
            ),
            (StageView::StoreRecovered, EventView::StateStored) => FlowView::with_trust(
                self.state,
                self.purpose,
            ),
            (StageView::Authorize(sender), EventView::Authorized) => Ok(
                FlowView { stage: StageView::Finished(Some(sender.completion)), ..self },
            ),
            (StageView::ReadSender(_), EventView::TrustRead(existing)) => self.sender_read(
                identity,
                existing is Some,
            ),
            (
                StageView::RunCeremony(ceremony),
                EventView::CeremonyRan { reached_paired, json, now, challenge_hash },
            ) => self.ceremony_ran(ceremony, reached_paired, json, now, challenge_hash),
            (StageView::StorePending(completion), EventView::StateStored) => Ok(
                FlowView { stage: StageView::WriteCeremonyTrust(completion), ..self },
            ),
            (StageView::WriteCeremonyTrust(completion), EventView::TrustWritten) => Ok(
                FlowView {
                    state: self.state.committed(),
                    stage: StageView::StoreCommitted(completion),
                    ..self
                },
            ),
            (StageView::StoreCommitted(completion), EventView::StateStored) => Ok(
                FlowView { stage: StageView::Finished(Some(completion)), ..self },
            ),
            _ => Err(PairingFault::FlowOutOfOrder),
        }
    }

    /// How many events may still follow.
    pub open spec fn remaining(self) -> int {
        match self.stage {
            StageView::ReadTrust(_) => 9,
            StageView::WriteTrust(_) => 8,
            StageView::StoreRecovered => 7,
            StageView::ReadSender(_) => 5,
            StageView::RunCeremony(_) => 4,
            StageView::StorePending(_) => 3,
            StageView::WriteCeremonyTrust(_) => 2,
            StageView::StoreCommitted(_) => 1,
            StageView::Authorize(_) => 1,
            StageView::Finished(_) => 0,
        }
    }
}

/// A pairing that is being recovered, restored or completed. A flow comes of
/// [`PairingFlow::begin`] and [`PairingFlow::next`] alone.
pub struct PairingFlow {
    state: ReceiverPairingState,
    purpose: FlowPurpose,
    stage: FlowStage,
}

impl View for PairingFlow {
    type V = FlowView;

    closed spec fn view(&self) -> FlowView {
        FlowView { state: self.state@, purpose: self.purpose@, stage: self.stage@ }
    }
}

impl PairingFlow {
    /// Begins a flow on a state.
    pub fn begin(state: ReceiverPairingState, purpose: FlowPurpose) -> (result: Result<
        Self,
        PairingFault,
    >)
        ensures
            viewed(result) == FlowView::begun(state@, purpose@),
            (purpose@ matches PurposeView::Complete(exchange, _) ==> is_validated(exchange)) ==> (
            result matches Ok(flow) ==> flow@.inv()),
    {
        proof {
            if purpose@ matches PurposeView::Complete(exchange, _) ==> is_validated(exchange) {
                lemma_begun(state@, purpose@);
            }
        }
        match recover_profile_trust(&state) {
            Err(fault) => Err(fault),
            Ok(None) => Self::go_on(state, purpose),
            Ok(Some(record)) => Ok(
                PairingFlow { state, purpose, stage: FlowStage::ReadTrust(record) },
            ),
        }
    }

    /// The state as it is to be stored.
    pub fn state(&self) -> (state: &ReceiverPairingState)
        ensures
            state@ == self@.state,
    {
        &self.state
    }

    /// What the flow asks for.
    pub fn stage(&self) -> (stage: &FlowStage)
        ensures
            stage@ == self@.stage,
    {
        &self.stage
    }

    /// Goes on once the trust of the state is in order.
    fn go_on(state: ReceiverPairingState, purpose: FlowPurpose) -> (result: Result<
        Self,
        PairingFault,
    >)
        ensures
            viewed(result) == FlowView::with_trust(state@, purpose@),
    {
        let stage: FlowStage = match &purpose {
            FlowPurpose::Restore => match paired_sender_if_present(&state) {
                Ok(None) => FlowStage::Finished(None),
                Ok(Some(sender)) => FlowStage::Authorize(sender),
                Err(fault) => return Err(fault),
            },
            FlowPurpose::Complete(exchange, _) => match complete_or_load_pairing(&state, exchange) {
                Ok(PairingRoute::Resend(sender)) => FlowStage::Authorize(sender),
                Ok(PairingRoute::Pair) => FlowStage::ReadSender(exchange.sender_peer_id),
                Err(fault) => return Err(fault),
            },
        };
        Ok(PairingFlow { state, purpose, stage })
    }

    /// Whether the profile in the state is committed.
    fn profile_status(&self) -> (status: ProfileStatus)
        ensures
            status == self@.status(),
    {
        match &self.state.paired_sender {
            Some(profile) => profile.status,
            None => ProfileStatus::PendingTrust,
        }
    }

    /// Goes on with what the trust store holds for the paired sender.
    fn take_trust(self, expected: TrustRecord, existing: Option<TrustRecord>) -> (result: Result<
        Self,
        PairingFault,
    >)
        ensures
            viewed(result) == self@.trust_read(
                expected@,
                match existing {
                    Some(existing) => Some(existing@),
                    None => None,
                },
            ),
    {
        let status: ProfileStatus = self.profile_status();
        match resolve_trust(status, &expected, existing.as_ref()) {
            Err(fault) => Err(fault),
            Ok(RecoveryAction::Nothing) => Self::go_on(self.state, self.purpose),
            Ok(RecoveryAction::Commit) => Ok(
                PairingFlow {
                    state: self.state,
                    purpose: self.purpose,
                    stage: FlowStage::WriteTrust(expected),
                },
            ),
        }
    }

    /// Goes on once it is known whether the trust store knows the sender of the
    /// exchange.
    fn take_sender(self, identity: &ReceiverIdentity, trusted: bool) -> (result: Result<
        Self,
        PairingFault,
    >)
        ensures
            viewed(result) == self@.sender_read(identity@, trusted),
    {
        let PairingFlow { state, purpose, stage: _ } = self;
        match purpose {
            FlowPurpose::Restore => Err(PairingFault::FlowOutOfOrder),
            FlowPurpose::Complete(exchange, invitation) => match open_pairing(
                identity,
                &state,
                trusted,
                invitation,
                exchange,
            ) {
                Ok(ceremony) => Ok(
                    PairingFlow {
                        state,
                        purpose: FlowPurpose::Restore,
                        stage: FlowStage::RunCeremony(ceremony),
                    },
                ),
                Err(fault) => Err(fault),
            },
        }
    }

    /// Goes on with what came of the ceremony.
    fn take_ceremony(self, ceremony: PairingCeremony, ran: CeremonyResult) -> (result: Result<
        Self,
        PairingFault,
    >)
        ensures
            viewed(result) == self@.ceremony_ran(
                ceremony@,
                ran.reached_paired,
                ran.confirmation_json@,
                ran.now_unix_ms,
                ran.challenge_hash@,
            ),
    {
        match require_paired(ran.reached_paired) {
            Ok(_) => {},
            Err(fault) => return Err(fault),
        }
        let PairingFlow { state, purpose, stage: _ } = self;
        let mut state = state;
        match record_pairing(
            &mut state,
            &ceremony,
            ran.confirmation_json.as_str(),
            ran.now_unix_ms,
            ran.challenge_hash,
        ) {
            Ok(completion) => Ok(
                PairingFlow { state, purpose, stage: FlowStage::StorePending(completion) },
            ),
            Err(fault) => Err(fault),
        }
    }

    /// Goes on at another stage.
    fn at_stage(self, stage: FlowStage) -> (next: Self)
        ensures
            next@ == (FlowView { stage: stage@, ..self@ }),
    {
        PairingFlow { state: self.state, purpose: self.purpose, stage }
    }

    /// Commits the profile, and goes on at another stage.
    fn committed_at(self, stage: FlowStage) -> (next: Self)
        ensures
            next@ == (FlowView { state: self@.state.committed(), stage: stage@, ..self@ }),
    {
        let mut state = self.state;
        commit_profile(&mut state);
        PairingFlow { state, purpose: self.purpose, stage }
    }

    /// Goes on with what came of what the flow asked for. A flow that is
    /// refused is over; nothing that it asked for before is undone.
    pub fn next(self, identity: &ReceiverIdentity, event: FlowEvent) -> (result: Result<
        Self,
        PairingFault,
    >)
        ensures
            viewed(result) == self@.followed_by(identity@, event@),
            self@.inv() ==> (result matches Ok(next) ==> next@.inv()),
    {
        proof {
            if self@.inv() {
                lemma_event_keeps_flow(self@, identity@, event@);
            }
        }
        let PairingFlow { state, purpose, stage } = self;
        // What is left of the flow while its stage is looked at.
        let rest = PairingFlow { state, purpose, stage: FlowStage::StoreRecovered };
        match (stage, event) {
            (FlowStage::ReadTrust(expected), FlowEvent::TrustRead(existing)) => rest.take_trust(
                expected,
                existing,
            ),
            (FlowStage::WriteTrust(_), FlowEvent::TrustWritten) => Ok(
                rest.committed_at(FlowStage::StoreRecovered),
            ),
            (FlowStage::StoreRecovered, FlowEvent::StateStored) => Self::go_on(
                rest.state,
                rest.purpose,
            ),
            (FlowStage::Authorize(sender), FlowEvent::Authorized) => Ok(
                rest.at_stage(FlowStage::Finished(Some(sender.completion))),
            ),
            (FlowStage::ReadSender(_), FlowEvent::TrustRead(existing)) => rest.take_sender(
                identity,
                existing.is_some(),
            ),
            (FlowStage::RunCeremony(ceremony), FlowEvent::CeremonyRan(ran)) => rest.take_ceremony(
                ceremony,
                ran,
            ),
            (FlowStage::StorePending(completion), FlowEvent::StateStored) => Ok(
                rest.at_stage(FlowStage::WriteCeremonyTrust(completion)),
            ),
            (FlowStage::WriteCeremonyTrust(completion), FlowEvent::TrustWritten) => Ok(
                rest.committed_at(FlowStage::StoreCommitted(completion)),
            ),
            (FlowStage::StoreCommitted(completion), FlowEvent::StateStored) => Ok(
                rest.at_stage(FlowStage::Finished(Some(completion))),
            ),
            _ => Err(PairingFault::FlowOutOfOrder),
        }
    }
}

/// A flow ends: every event that is not refused brings it nearer to its end.
pub proof fn law_flow_ends(flow: FlowView, identity: ReceiverIdentityView, event: EventView)
    requires
        flow.followed_by(identity, event) is Ok,
    ensures
        flow.followed_by(identity, event)->Ok_0.remaining() < flow.remaining(),
        flow.followed_by(identity, event)->Ok_0.remaining() >= 0,
{
}

/// Trust is written only for a profile that was stored before, and a profile is
/// committed only after its trust was written. So at no point of a pairing does
/// the trust store hold a sender of which the stored state knows nothing.
pub proof fn law_trust_is_written_between_two_stores(
    flow: FlowView,
    identity: ReceiverIdentityView,
    event: EventView,
)
    requires
        flow.followed_by(identity, event) is Ok,
    ensures
        ({
            let next = flow.followed_by(identity, event)->Ok_0;
            &&& next.stage is StorePending ==> {
                &&& flow.stage is RunCeremony
                &&& next.state.paired_sender is Some
                &&& next.state.paired_sender->Some_0.status == ProfileStatus::PendingTrust
            }
            &&& next.stage is WriteCeremonyTrust ==> {
                &&& flow.stage is StorePending
                &&& event == EventView::StateStored
                &&& next.state == flow.state
            }
            &&& next.stage is StoreCommitted ==> {
                &&& flow.stage is WriteCeremonyTrust
                &&& event == EventView::TrustWritten
                &&& next.state == flow.state.committed()
            }
            &&& next.stage is StoreRecovered ==> {
                &&& flow.stage is WriteTrust
                &&& event == EventView::TrustWritten
                &&& next.state == flow.state.committed()
            }
            &&& next.state != flow.state ==> next.stage is StorePending || next.stage
                is StoreCommitted || next.stage is StoreRecovered
        }),
{
}

/// A sender is handed out only after the trust store authorised it, or at the
/// end of a ceremony whose profile was stored as committed.
pub proof fn law_sender_is_authorised_or_just_paired(
    flow: FlowView,
    identity: ReceiverIdentityView,
    event: EventView,
)
    requires
        flow.followed_by(identity, event) is Ok,
        flow.followed_by(identity, event)->Ok_0.stage is Finished,
        flow.followed_by(identity, event)->Ok_0.stage->Finished_0 is Some,
    ensures
        (flow.stage is Authorize && event == EventView::Authorized) || (flow.stage is StoreCommitted
            && event == EventView::StateStored),
{
}

/// A start on a committed profile whose trust record is missing, or says
/// something else, ends in a refusal: removed trust is never put back.
pub proof fn law_removed_trust_is_not_restored(
    flow: FlowView,
    identity: ReceiverIdentityView,
    existing: Option<TrustRecordView>,
)
    requires
        flow.stage is ReadTrust,
        flow.state.paired_sender is Some,
        flow.state.paired_sender->Some_0.status == ProfileStatus::Committed,
        existing != Some(flow.stage->ReadTrust_0),
    ensures
        flow.followed_by(identity, EventView::TrustRead(existing)) is Err,
{
}

/// A first pairing that goes through asks for its steps in one order, and ends
/// with the committed profile and the confirmation of the ceremony.
pub proof fn law_first_pairing_ends_committed(
    state: PairingStateView,
    identity: ReceiverIdentityView,
    exchange: ExchangeView,
    invitation: InvitationInput,
    json: Seq<char>,
    now: u64,
    challenge_hash: Seq<u8>,
)
    requires
        state.paired_sender is None,
        opened(identity, state, false, invitation, exchange) is Ok,
        ({
            let ceremony = opened(identity, state, false, invitation, exchange)->Ok_0;
            paired_state(state, ceremony, json, now, challenge_hash) is Ok
        }),
    ensures
        ({
            let ceremony = opened(identity, state, false, invitation, exchange)->Ok_0;
            let pending = paired_state(state, ceremony, json, now, challenge_hash)->Ok_0;
            let ran = EventView::CeremonyRan { reached_paired: true, json, now, challenge_hash };
            let begun = FlowView::begun(state, PurposeView::Complete(exchange, invitation))->Ok_0;
            let ceremonial = begun.followed_by(identity, EventView::TrustRead(None))->Ok_0;
            let recorded = ceremonial.followed_by(identity, ran)->Ok_0;
            let stored = recorded.followed_by(identity, EventView::StateStored)->Ok_0;
            let trusted = stored.followed_by(identity, EventView::TrustWritten)->Ok_0;
            let done = trusted.followed_by(identity, EventView::StateStored)->Ok_0;
            &&& begun.stage == StageView::ReadSender(exchange.sender_peer_id)
            &&& ceremonial.stage == StageView::RunCeremony(ceremony)
            &&& recorded.state == pending && recorded.stage is StorePending
            &&& stored.state == pending && stored.stage is WriteCeremonyTrust
            &&& trusted.state == pending.committed() && trusted.stage is StoreCommitted
            &&& done.state == pending.committed()
            &&& done.stage == StageView::Finished(
                Some(
                    CompletionView {
                        sender_endpoint_id: ceremony.exchange.expected_endpoint,
                        sender_certificate_der: ceremony.exchange.sender_certificate_der,
                        receiver_confirmation_json: Some(json),
                    },
                ),
            )
        }),
{
}

/// A profile names a sender: the certificate that it must show, and the endpoint
/// that is derived from the key in it.
pub open spec fn names_sender(profile: ProfileView, sender: CompletionView) -> bool {
    &&& decoded(profile.certificate_der_hex, MAX_CERTIFICATE_BYTES as nat) == Ok::<
        Seq<u8>,
        HexError,
    >(sender.sender_certificate_der)
    &&& decoded_fixed(profile.endpoint_id, 16) == Ok::<Seq<u8>, HexError>(
        sender.sender_endpoint_id,
    )
    &&& certificate_key(sender.sender_certificate_der) matches Some(key)
    &&& sender.sender_endpoint_id == endpoint_of(sha256_digest(key))
}

/// An exchange is one that was validated.
pub open spec fn is_validated(exchange: ExchangeView) -> bool {
    exchange.wire.validated() == Ok::<ExchangeView, PairingFault>(exchange)
}

impl FlowView {
    /// The profile in the state names a sender.
    pub open spec fn keeps(self, sender: CompletionView) -> bool {
        self.state.paired_sender matches Some(profile) && names_sender(profile, sender)
    }

    /// The profile in the state is committed.
    pub open spec fn is_committed(self) -> bool {
        self.state.paired_sender matches Some(profile) && profile.status == ProfileStatus::Committed
    }

    /// What holds of a flow at every stage: the exchange that it is for was
    /// validated, and the sender that it is about to hand out is the one that
    /// its profile names.
    pub open spec fn inv(self) -> bool {
        &&& self.purpose matches PurposeView::Complete(exchange, _) ==> is_validated(exchange)
        &&& match self.stage {
            StageView::ReadTrust(_) => self.state.paired_sender is Some,
            StageView::WriteTrust(_) => self.state.paired_sender is Some,
            StageView::StoreRecovered => self.is_committed(),
            StageView::Authorize(sender) => self.is_committed() && self.keeps(sender.completion),
            StageView::ReadSender(_) => self.state.paired_sender is None,
            StageView::RunCeremony(ceremony) => {
                &&& self.state.paired_sender is None
                &&& is_validated(ceremony.exchange)
            },
            StageView::StorePending(sender) => self.keeps(sender),
            StageView::WriteCeremonyTrust(sender) => self.keeps(sender),
            StageView::StoreCommitted(sender) => self.is_committed() && self.keeps(sender),
            StageView::Finished(Some(sender)) => self.is_committed() && self.keeps(sender),
            StageView::Finished(None) => self.state.paired_sender is None,
        }
    }

    /// The flow after some events, or why it was refused.
    pub open spec fn run(
        state: PairingStateView,
        purpose: PurposeView,
        identity: ReceiverIdentityView,
        events: Seq<EventView>,
    ) -> Result<FlowView, PairingFault>
        decreases events.len(),
    {
        if events.len() == 0 {
            FlowView::begun(state, purpose)
        } else {
            match FlowView::run(state, purpose, identity, events.drop_last()) {
                Err(fault) => Err(fault),
                Ok(flow) => flow.followed_by(identity, events.last()),
            }
        }
    }
}

/// A flow whose trust is in order is consistent.
proof fn lemma_with_trust(state: PairingStateView, purpose: PurposeView)
    requires
        purpose matches PurposeView::Complete(exchange, _) ==> is_validated(exchange),
        state.paired_sender matches Some(profile) ==> profile.status == ProfileStatus::Committed,
    ensures
        FlowView::with_trust(state, purpose) matches Ok(flow) ==> flow.inv(),
{
}

/// No event breaks what holds of a flow at every stage.
proof fn lemma_event_keeps_flow(flow: FlowView, identity: ReceiverIdentityView, event: EventView)
    requires
        flow.inv(),
    ensures
        flow.followed_by(identity, event) matches Ok(next) ==> next.inv(),
{
    match flow.stage {
        StageView::ReadTrust(_) => {
            if flow.is_committed() {
                lemma_with_trust(flow.state, flow.purpose);
            }
        },
        StageView::StoreRecovered => {
            lemma_with_trust(flow.state, flow.purpose);
        },
        StageView::RunCeremony(ceremony) => {
            let exchange = ceremony.exchange;
            law_validated_exchange_is_bound(exchange.wire);
            law_decoded_is_bounded(
                exchange.wire.sender_certificate_der_hex,
                MAX_CERTIFICATE_BYTES as nat,
            );
            law_decoded_is_bounded(exchange.wire.sender_endpoint_id, 16);
            law_decode_undoes_encode(
                exchange.sender_certificate_der,
                MAX_CERTIFICATE_BYTES as nat,
            );
            law_decode_undoes_encode(exchange.expected_endpoint, 16);
        },
        _ => {},
    }
}

/// A flow is consistent from its beginning.
proof fn lemma_begun(state: PairingStateView, purpose: PurposeView)
    requires
        purpose matches PurposeView::Complete(exchange, _) ==> is_validated(exchange),
    ensures
        FlowView::begun(state, purpose) matches Ok(flow) ==> flow.inv(),
{
    if state.paired_sender is None {
        lemma_with_trust(state, purpose);
    }
}

/// The flow is consistent after any events.
proof fn lemma_run(
    state: PairingStateView,
    purpose: PurposeView,
    identity: ReceiverIdentityView,
    events: Seq<EventView>,
)
    requires
        purpose matches PurposeView::Complete(exchange, _) ==> is_validated(exchange),
    ensures
        FlowView::run(state, purpose, identity, events) matches Ok(flow) ==> flow.inv(),
    decreases events.len(),
{
    if events.len() == 0 {
        lemma_begun(state, purpose);
    } else {
        let before = FlowView::run(state, purpose, identity, events.drop_last());
        lemma_run(state, purpose, identity, events.drop_last());
        if before is Ok {
            lemma_event_keeps_flow(before->Ok_0, identity, events.last());
        }
    }
}

/// Whoever a flow hands out is the paired sender, whatever state it began with
/// and whatever happened on its way: the profile in the state is committed and
/// holds exactly the certificate and the endpoint that are handed out, and the
/// endpoint is the one of the Ed25519 key in that certificate. A flow that hands
/// out nobody ends with nobody paired.
pub proof fn law_only_the_paired_sender_is_handed_out(
    state: PairingStateView,
    purpose: PurposeView,
    identity: ReceiverIdentityView,
    events: Seq<EventView>,
)
    requires
        purpose matches PurposeView::Complete(exchange, _) ==> is_validated(exchange),
    ensures
        FlowView::run(state, purpose, identity, events) matches Ok(flow) ==> {
            &&& flow.inv()
            &&& flow.stage matches StageView::Finished(Some(sender)) ==> {
                &&& flow.state.paired_sender matches Some(profile)
                &&& profile.status == ProfileStatus::Committed
                &&& names_sender(profile, sender)
            }
            &&& flow.stage == StageView::Finished(None) ==> flow.state.paired_sender is None
        },
{
    lemma_run(state, purpose, identity, events);
}


/// A paired sender whose trust is in order is authorised and handed out, as its
/// profile names it: on a plain start without the confirmation, and with it where
/// the same exchange comes again. Where the pairing was interrupted before its
/// profile was committed, the record is written and the committed state stored
/// first.
pub proof fn law_paired_sender_is_handed_out_again(
    state: PairingStateView,
    purpose: PurposeView,
    identity: ReceiverIdentityView,
    existing: Option<TrustRecordView>,
)
    requires
        state.paired_sender is Some,
        ({
            let profile = state.paired_sender->Some_0;
            &&& profile.expected_record() is Ok
            &&& profile.sender(purpose is Complete) is Ok
            &&& purpose matches PurposeView::Complete(exchange, _) ==> profile.matches(exchange)
            &&& existing == Some(profile.expected_record()->Ok_0) || (existing is None
                && profile.status == ProfileStatus::PendingTrust)
        }),
    ensures
        ({
            let profile = state.paired_sender->Some_0;
            let record = profile.expected_record()->Ok_0;
            let sender = profile.sender(purpose is Complete)->Ok_0;
            let begun = FlowView::begun(state, purpose)->Ok_0;
            let read = begun.followed_by(identity, EventView::TrustRead(existing))->Ok_0;
            let stored = read.followed_by(identity, EventView::TrustWritten)->Ok_0;
            let ready = if profile.status == ProfileStatus::Committed {
                read
            } else {
                stored.followed_by(identity, EventView::StateStored)->Ok_0
            };
            let done = ready.followed_by(identity, EventView::Authorized)->Ok_0;
            &&& begun.stage == StageView::ReadTrust(record)
            &&& profile.status == ProfileStatus::PendingTrust ==> {
                &&& read.stage == StageView::WriteTrust(record)
                &&& stored.stage == StageView::StoreRecovered
                &&& stored.is_committed()
            }
            &&& ready.stage == StageView::Authorize(sender)
            &&& done.stage == StageView::Finished(Some(sender.completion))
            &&& done.is_committed()
            &&& sender.completion.receiver_confirmation_json == if purpose is Complete {
                Some(profile.receiver_confirmation_json)
            } else {
                None
            }
        }),
{
    let profile = state.paired_sender->Some_0;
    let committed = ProfileView { status: ProfileStatus::Committed, ..profile };
    assert(committed.sender(true) == profile.sender(true));
    assert(committed.sender(false) == profile.sender(false));
    assert(state.committed().paired_sender == Some(committed));
}

/// A flow goes on only with what it asked for: every other event is refused.
pub proof fn law_flow_refuses_what_it_did_not_ask_for(
    flow: FlowView,
    identity: ReceiverIdentityView,
    event: EventView,
)
    ensures
        ({
            let asked = {
                ||| (flow.stage is ReadTrust || flow.stage is ReadSender) && event is TrustRead
                ||| (flow.stage is WriteTrust || flow.stage is WriteCeremonyTrust) && event
                    is TrustWritten
                ||| (flow.stage is StoreRecovered || flow.stage is StorePending || flow.stage
                    is StoreCommitted) && event is StateStored
                ||| flow.stage is Authorize && event is Authorized
                ||| flow.stage is RunCeremony && event is CeremonyRan
            };
            &&& !asked ==> flow.followed_by(identity, event) == Err::<FlowView, PairingFault>(
                PairingFault::FlowOutOfOrder,
            )
            &&& flow.stage is RunCeremony && event is CeremonyRan && !event->reached_paired
                ==> flow.followed_by(identity, event) == Err::<FlowView, PairingFault>(
                PairingFault::CeremonyUnfinished,
            )
        }),
{
}

} // verus!
