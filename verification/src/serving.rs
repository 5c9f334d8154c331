//! How the receiver serves its sender: one session after the other, until it is
//! asked to end.
use crate::windows::tray::TrayState;
use vstd::prelude::*;

verus! {

/// What the receiver is about.
#[derive(Clone, Copy, Debug, PartialEq, Eq, Structural)]
pub enum ServeStage {
    /// The next connection of the sender is to be accepted.
    Listening,
    /// The session over the accepted connection is to be run.
    Serving,
    /// The receiver ends.
    Ended,
}

/// What happened.
#[derive(Clone, Debug, PartialEq, Eq)]
pub enum ServeEvent {
    /// The tray or the user asked for a reconnect or for an end.
    ControlAsked,
    /// The sender connected from this address.
    Accepted(String),
    AcceptFailed,
    SessionEnded { failed: bool },
}

/// The stage in which the receiver waits, unless it was asked to end.
pub open spec fn waiting(shutdown: bool) -> ServeStage {
    if shutdown {
        ServeStage::Ended
    } else {
        ServeStage::Listening
    }
}

impl ServeStage {
    /// The stage after an event. An event that does not belong to the stage
    /// changes nothing.
    pub open spec fn followed_by(self, event: ServeEvent, shutdown: bool) -> ServeStage {
        match (self, event) {
            (ServeStage::Listening, ServeEvent::Accepted(_)) => ServeStage::Serving,
            (ServeStage::Listening, ServeEvent::ControlAsked) => waiting(shutdown),
            (ServeStage::Listening, ServeEvent::AcceptFailed) => waiting(shutdown),
            (ServeStage::Serving, ServeEvent::SessionEnded { .. }) => waiting(shutdown),
            _ => self,
        }
    }
}

/// The tray shows that the receiver listens on an address.
pub open spec fn listens(state: TrayState, address: Seq<char>) -> bool {
    state matches TrayState::Listening(shown) && shown@ == address
}

/// The tray shows an error.
pub open spec fn warns(state: TrayState, text: Seq<char>) -> bool {
    state matches TrayState::Error(shown) && shown@ == text
}

/// The states that the tray shows of an event, one after the other.
pub open spec fn shows(
    stage: ServeStage,
    event: ServeEvent,
    shutdown: bool,
    address: Seq<char>,
    states: Seq<TrayState>,
) -> bool {
    match (stage, event) {
        (ServeStage::Listening, ServeEvent::Accepted(remote)) => {
            &&& states.len() == 1
            &&& states[0] matches TrayState::Connected(shown)
            &&& shown@ == remote@
        },
        (ServeStage::Listening, ServeEvent::AcceptFailed) => {
            &&& states.len() == 1
            &&& warns(states[0], "Unable to accept sender"@)
        },
        (ServeStage::Serving, ServeEvent::SessionEnded { failed }) => {
            let errors: int = if failed {
                1
            } else {
                0
            };
            &&& states.len() == errors + if shutdown {
                0int
            } else {
                1
            }
            &&& failed ==> warns(states[0], "Receiver session failed"@)
            &&& !shutdown ==> listens(states[errors], address)
        },
        _ => states.len() == 0,
    }
}

/// A receiver that serves its sender on an address.
pub struct ServeLoop {
    stage: ServeStage,
    address: String,
}

impl ServeLoop {
    pub closed spec fn at(&self) -> ServeStage {
        self.stage
    }

    pub closed spec fn listen_address(&self) -> Seq<char> {
        self.address@
    }

    /// Begins to listen on an address, and says so in the tray.
    pub fn begin(address: &str, shutdown: bool) -> (begun: (Self, TrayState))
        ensures
            begun.0.at() == waiting(shutdown),
            begun.0.listen_address() == address@,
            listens(begun.1, address@),
    {
        let stage: ServeStage = if shutdown {
            ServeStage::Ended
        } else {
            ServeStage::Listening
        };
        (
            ServeLoop { stage, address: address.to_owned() },
            TrayState::Listening(address.to_owned()),
        )
    }

    /// What the receiver is about.
    pub fn stage(&self) -> (stage: ServeStage)
        ensures
            stage == self.at(),
    {
        self.stage
    }

    /// Goes on after an event, and gives the states that the tray is to show.
    /// `shutdown` says that the receiver was asked to end by now.
    pub fn advance(&mut self, event: ServeEvent, shutdown: bool) -> (states: Vec<TrayState>)
        ensures
            final(self).at() == old(self).at().followed_by(event, shutdown),
            final(self).listen_address() == old(self).listen_address(),
            shows(old(self).at(), event, shutdown, old(self).listen_address(), states@),
    {
        let mut states: Vec<TrayState> = Vec::new();
        let rest: ServeStage = if shutdown {
            ServeStage::Ended
        } else {
            ServeStage::Listening
        };
        match (self.stage, event) {
            (ServeStage::Listening, ServeEvent::Accepted(remote)) => {
                states.push(TrayState::Connected(remote));
                self.stage = ServeStage::Serving;
            },
            (ServeStage::Listening, ServeEvent::ControlAsked) => {
                self.stage = rest;
            },
            (ServeStage::Listening, ServeEvent::AcceptFailed) => {
                states.push(TrayState::Error("Unable to accept sender".to_owned()));
                self.stage = rest;
            },
            (ServeStage::Serving, ServeEvent::SessionEnded { failed }) => {
                if failed {
                    states.push(TrayState::Error("Receiver session failed".to_owned()));
                }
                if !shutdown {
                    states.push(TrayState::Listening(self.address.clone()));
                }
                self.stage = rest;
            },
            _ => {},
        }
        states
    }
}

/// No sender ends the receiver: whatever happens to a connection, the receiver
/// goes on until it is asked to end. Once it ended, nothing brings it back.
pub proof fn law_only_a_request_ends_the_receiver(
    stage: ServeStage,
    event: ServeEvent,
    shutdown: bool,
)
    ensures
        stage != ServeStage::Ended && !shutdown ==> stage.followed_by(event, shutdown)
            != ServeStage::Ended,
        stage == ServeStage::Ended ==> stage.followed_by(event, shutdown) == ServeStage::Ended,
        stage == ServeStage::Serving && event is SessionEnded ==> stage.followed_by(event, shutdown)
            == waiting(shutdown),
{
}


/// The receiver listens again after every session, and says so: first that the
/// session failed, where it did, and last the address on which it listens. A
/// sender that came is shown by its own address, and one that could not be
/// accepted leaves the receiver listening.
pub proof fn law_tray_follows_the_sessions(
    event: ServeEvent,
    shutdown: bool,
    address: Seq<char>,
    states: Seq<TrayState>,
)
    ensures
        shows(ServeStage::Serving, event, shutdown, address, states) && event is SessionEnded ==> {
            &&& !shutdown ==> states.len() > 0 && (states.last() matches TrayState::Listening(shown)
                && shown@ == address)
            &&& event->failed ==> states.len() > 0 && (states[0] matches TrayState::Error(shown)
                && shown@ == "Receiver session failed"@)
            &&& !event->failed && shutdown ==> states.len() == 0
            &&& ServeStage::Serving.followed_by(event, shutdown) == if shutdown {
                ServeStage::Ended
            } else {
                ServeStage::Listening
            }
        },
        shows(ServeStage::Listening, event, shutdown, address, states) ==> {
            &&& event matches ServeEvent::Accepted(remote) ==> {
                &&& states.len() == 1
                &&& states[0] matches TrayState::Connected(shown) && shown@ == remote@
                &&& ServeStage::Listening.followed_by(event, shutdown) == ServeStage::Serving
            }
            &&& event is AcceptFailed ==> {
                &&& states.len() == 1
                &&& states[0] matches TrayState::Error(shown) && shown@
                    == "Unable to accept sender"@
            }
            &&& event is AcceptFailed || event is ControlAsked ==> (
            ServeStage::Listening.followed_by(event, shutdown) == ServeStage::Ended <==> shutdown)
        },
        shows(ServeStage::Ended, event, shutdown, address, states) ==> states.len() == 0,
{
}

} // verus!
