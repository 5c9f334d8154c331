//! Pairing: who the receiver is, whom it trusts, and how that comes about.
pub mod ceremony;
pub mod certificate;
pub mod exchange;
pub mod fault;
pub mod flow;
pub mod identity;
pub mod invitation;
pub mod listening;
pub mod message;
pub mod native;
pub mod state;

pub use ceremony::{
    complete_or_load_pairing, load_paired_sender, paired_sender_if_present, preview_pairing,
    PairingCompletion, PairingPreview,
};
pub use certificate::mutual_tls_server_config;
pub use fault::PairingFault;
pub use identity::ReceiverIdentity;
pub use invitation::create_invitation;
