//! NanaLive Link receiver: session, pairing and presentation rules.
pub mod adaptive;
pub mod connection;
pub mod control_laws;
pub mod crypto;
pub mod frame_matcher;
pub mod hex;
pub mod history_laws;
pub mod media_laws;
pub mod model;
pub mod ordered;
pub mod pairing;
pub mod receiver;
pub mod serving;
pub mod session_laws;
pub mod startup;
pub mod transport;
pub mod windows;
pub mod wire;
