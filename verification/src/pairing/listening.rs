//! How the receiver listens for the sender that it is paired with.
use crate::crypto::{
    certificate_key, client_trust_root, mutual_tls_fault, sha256_digest, shown_identity,
};
use crate::hex::decoded;
use crate::pairing::ceremony::PairingCompletion;
use crate::pairing::certificate::{mutual_tls_server_config, MAX_CERTIFICATE_BYTES};
use crate::pairing::fault::PairingFault;
use crate::pairing::flow::{FlowStage, PairingFlow, StageView};
use crate::pairing::identity::ReceiverIdentity;
use crate::pairing::native::{copied, endpoint_of, EndpointId};
use crate::pairing::state::ProfileStatus;
use vstd::prelude::*;

verus! {

/// What the receiver's listener is bound with.
pub struct ListenPlan {
    pub configuration: quinn::ServerConfig,
    pub local_endpoint: EndpointId,
    /// The endpoint that alone is accepted.
    pub sender_endpoint: EndpointId,
}

/// What the listener is bound with once a flow has handed out the paired sender:
/// the receiver shows its own certificate, lets in only clients that the
/// sender's certificate vouches for, and accepts only the sender's endpoint.
/// Where the flow has handed out nobody, there is nobody to listen for.
pub fn plan_listening(identity: &ReceiverIdentity, flow: &PairingFlow) -> (result: Result<
    ListenPlan,
    PairingFault,
>)
    ensures
        match flow@.stage {
            StageView::Finished(Some(sender)) => {
                &&& match result {
                    Ok(plan) => {
                        &&& client_trust_root(plan.configuration) == Some(
                            sender.sender_certificate_der,
                        )
                        &&& shown_identity(plan.configuration) == (
                            identity@.certificate_der,
                            identity@.private_key_der,
                        )
                        &&& plan.local_endpoint@ == identity@.endpoint_id
                        &&& plan.sender_endpoint@ == sender.sender_endpoint_id
                    },
                    Err(fault) => fault is Tls,
                }
                &&& identity@.wf() ==> match mutual_tls_fault(
                    identity@.certificate_der,
                    identity@.private_key_der,
                    sender.sender_certificate_der,
                ) {
                    Some(fault) => result matches Err(refused) && refused == PairingFault::Tls(
                        fault,
                    ),
                    None => result is Ok,
                }
            },
            _ => result matches Err(refused) && refused == PairingFault::NotPaired,
        },
        flow@.inv() ==> (result matches Ok(plan) ==> {
            &&& flow@.state.paired_sender matches Some(profile)
            &&& profile.status == ProfileStatus::Committed
            &&& decoded(profile.certificate_der_hex, MAX_CERTIFICATE_BYTES as nat) matches Ok(
                certificate,
            )
            &&& client_trust_root(plan.configuration) == Some(certificate)
            &&& certificate_key(certificate) matches Some(key)
            &&& plan.sender_endpoint@ == endpoint_of(sha256_digest(key))
        }),
{
    let sender: &PairingCompletion = match flow.stage() {
        FlowStage::Finished(Some(sender)) => sender,
        _ => return Err(PairingFault::NotPaired),
    };
    match mutual_tls_server_config(
        copied(identity.certificate_der()),
        copied(identity.private_key_der()),
        copied(sender.sender_certificate_der.as_slice()),
    ) {
        Ok(configuration) => Ok(
            ListenPlan {
                configuration,
                local_endpoint: identity.endpoint_id(),
                sender_endpoint: sender.sender_endpoint_id,
            },
        ),
        Err(fault) => Err(fault),
    }
}

} // verus!
