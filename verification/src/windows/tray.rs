//! What the tray icon shows, and what its menu asks for.
use std::collections::VecDeque;
use vstd::prelude::*;
use vstd::string::StringExecFns;

verus! {

/// What the receiver is doing, as the tray shows it.
#[derive(Clone, Debug, PartialEq, Eq)]
pub enum TrayState {
    Listening(String),
    Connected(String),
    Decoding,
    SpoutActive(String),
    Error(String),
}

/// `prefix` and `rest` in one string.
fn joined(prefix: &str, rest: &str) -> (text: String)
    ensures
        text@ == prefix@ + rest@,
{
    let mut text: String = prefix.to_owned();
    text.append(rest);
    text
}

impl TrayState {
    pub open spec fn status(self) -> Seq<char> {
        match self {
            TrayState::Listening(address) => "Listening: "@ + address@,
            TrayState::Connected(address) => "Connected: "@ + address@,
            TrayState::Decoding => "Hardware decoding active"@,
            TrayState::SpoutActive(name) => "Spout active: "@ + name@,
            TrayState::Error(error) => "Error: "@ + error@,
        }
    }

    /// The text of the status entry.
    pub fn text(&self) -> (text: String)
        ensures
            text@ == self.status(),
    {
        match self {
            TrayState::Listening(address) => joined("Listening: ", address.as_str()),
            TrayState::Connected(address) => joined("Connected: ", address.as_str()),
            TrayState::Decoding => "Hardware decoding active".to_owned(),
            TrayState::SpoutActive(name) => joined("Spout active: ", name.as_str()),
            TrayState::Error(error) => joined("Error: ", error.as_str()),
        }
    }

    /// The text of the tooltip.
    pub fn tooltip(&self) -> (text: String)
        ensures
            text@ == "NanaLive Link - "@ + self.status(),
    {
        let status: String = self.text();
        joined("NanaLive Link - ", status.as_str())
    }
}

/// An entry of the tray menu that was clicked.
#[derive(Clone, Copy, Debug, PartialEq, Eq, Structural)]
pub enum TrayMenuEntry {
    Reconnect,
    Exit,
    Other,
}

/// The mailbox between the receiver and the tray: states that are still to be
/// shown, and what the menu asked for.
pub struct TrayController {
    states: VecDeque<TrayState>,
    reconnect: bool,
    shutdown: bool,
}

impl TrayController {
    /// The states that are still to be shown, the earliest first.
    pub closed spec fn pending(&self) -> Seq<TrayState> {
        self.states@
    }

    /// A reconnect was asked for and not yet taken.
    pub closed spec fn reconnect_pending(&self) -> bool {
        self.reconnect
    }

    /// The receiver was asked to end.
    pub closed spec fn shutdown_asked(&self) -> bool {
        self.shutdown
    }

    /// Nothing to show, nothing asked for.
    pub fn start() -> (tray: Self)
        ensures
            tray.pending() == Seq::<TrayState>::empty(),
            !tray.reconnect_pending(),
            !tray.shutdown_asked(),
    {
        TrayController { states: VecDeque::new(), reconnect: false, shutdown: false }
    }

    /// Lets a state be shown after those that wait.
    pub fn set_state(&mut self, state: TrayState)
        ensures
            final(self).pending() == old(self).pending().push(state),
            final(self).reconnect_pending() == old(self).reconnect_pending(),
            final(self).shutdown_asked() == old(self).shutdown_asked(),
    {
        self.states.push_back(state);
    }

    /// The next state to show.
    pub fn next_state(&mut self) -> (state: Option<TrayState>)
        ensures
            final(self).reconnect_pending() == old(self).reconnect_pending(),
            final(self).shutdown_asked() == old(self).shutdown_asked(),
            match state {
                Some(state) => {
                    &&& old(self).pending().len() > 0
                    &&& state == old(self).pending()[0]
                    &&& final(self).pending() == old(self).pending().drop_first()
                },
                None => old(self).pending().len() == 0 && final(self).pending()
                    == old(self).pending(),
            },
    {
        self.states.pop_front()
    }

    /// Whether a reconnect was asked for since this was last called.
    pub fn take_reconnect(&mut self) -> (asked: bool)
        ensures
            asked == old(self).reconnect_pending(),
            !final(self).reconnect_pending(),
            final(self).pending() == old(self).pending(),
            final(self).shutdown_asked() == old(self).shutdown_asked(),
    {
        let asked: bool = self.reconnect;
        self.reconnect = false;
        asked
    }

    /// Takes a click on the menu.
    pub fn menu_clicked(&mut self, entry: TrayMenuEntry)
        ensures
            final(self).pending() == old(self).pending(),
            final(self).reconnect_pending() == (old(self).reconnect_pending() || entry
                == TrayMenuEntry::Reconnect),
            final(self).shutdown_asked() == (old(self).shutdown_asked() || entry
                == TrayMenuEntry::Exit),
    {
        match entry {
            TrayMenuEntry::Reconnect => {
                self.reconnect = true;
            },
            TrayMenuEntry::Exit => {
                self.shutdown = true;
            },
            TrayMenuEntry::Other => {},
        }
    }

    /// Whether to go on with what is being done: the receiver was not asked to
    /// end, and no reconnect was asked for. A reconnect that ends it is taken.
    pub fn keep_running(&mut self) -> (going_on: bool)
        ensures
            going_on == (!old(self).shutdown_asked() && !old(self).reconnect_pending()),
            final(self).reconnect_pending() == (old(self).shutdown_asked() && old(
                self,
            ).reconnect_pending()),
            final(self).shutdown_asked() == old(self).shutdown_asked(),
            final(self).pending() == old(self).pending(),
    {
        !self.shutdown && !self.take_reconnect()
    }

    /// Asks the receiver to end.
    pub fn ask_shutdown(&mut self)
        ensures
            final(self).pending() == old(self).pending(),
            final(self).reconnect_pending() == old(self).reconnect_pending(),
            final(self).shutdown_asked(),
    {
        self.shutdown = true;
    }

    /// Whether the receiver was asked to end.
    pub fn is_shutdown(&self) -> (asked: bool)
        ensures
            asked == self.shutdown_asked(),
    {
        self.shutdown
    }
}

/// The width and the height of the icon.
pub const ICON_SIZE: u32 = 16;

/// The colour of one pixel of the icon.
pub open spec fn icon_pixel(x: int, y: int) -> Seq<u8> {
    let inside = 2 <= x < 14 && 2 <= y < 14;
    let accent = inside && (x == 4 || x == 11 || y == 4 || y == 11);
    if accent {
        seq![255u8, 255, 255, 255]
    } else if inside {
        seq![105u8, 75, 220, 255]
    } else {
        seq![0u8, 0, 0, 0]
    }
}

/// The bytes of the icon, row by row, four for each pixel.
pub open spec fn icon_bytes() -> Seq<u8> {
    Seq::new(1024, |i: int| icon_pixel(i / 4 % 16, i / 64)[i % 4])
}

/// The built-in icon, as RGBA bytes of 16 by 16 pixels.
pub fn receiver_icon() -> (rgba: Vec<u8>)
    ensures
        rgba@ == icon_bytes(),
        rgba@.len() == ICON_SIZE * ICON_SIZE * 4,
{
    let mut rgba: Vec<u8> = Vec::new();
    let mut pixel: u32 = 0;
    while pixel < 256
        invariant
            pixel <= 256,
            rgba@ == icon_bytes().take(4 * pixel),
        decreases 256 - pixel,
    {
        let x: u32 = pixel % 16;
        let y: u32 = pixel / 16;
        let inside: bool = 2 <= x && x < 14 && 2 <= y && y < 14;
        let accent: bool = inside && (x == 4 || x == 11 || y == 4 || y == 11);
        let (red, green, blue, alpha): (u8, u8, u8, u8) = if accent {
            (255, 255, 255, 255)
        } else if inside {
            (105, 75, 220, 255)
        } else {
            (0, 0, 0, 0)
        };
        rgba.push(red);
        rgba.push(green);
        rgba.push(blue);
        rgba.push(alpha);
        assert(rgba@ =~= icon_bytes().take(4 * (pixel + 1)));
        pixel += 1;
    }
    assert(icon_bytes().take(1024) =~= icon_bytes());
    rgba
}

/// States are shown in the order in which they were set: a state goes behind
/// those that wait, and showing the first of them does not disturb the rest.
pub proof fn law_states_are_shown_in_order(pending: Seq<TrayState>, state: TrayState)
    ensures
        pending.push(state).len() == pending.len() + 1,
        pending.push(state).last() == state,
        pending.len() > 0 ==> pending.push(state)[0] == pending[0],
        pending.len() > 0 ==> pending.push(state).drop_first() == pending.drop_first().push(state),
{
    if pending.len() > 0 {
        assert(pending.push(state).drop_first() =~= pending.drop_first().push(state));
    }
}


/// The icon is a white frame on a violet square with a clear border: the same
/// from every side, clear exactly in the outer two rows and columns, and white
/// exactly on the fifth row and column from each side within the square.
pub proof fn law_icon_is_a_framed_square(x: int, y: int)
    requires
        0 <= x < 16,
        0 <= y < 16,
    ensures
        icon_pixel(x, y) == icon_pixel(y, x),
        icon_pixel(x, y) == icon_pixel(15 - x, y),
        icon_pixel(x, y) == icon_pixel(x, 15 - y),
        icon_pixel(x, y).len() == 4,
        icon_pixel(x, y)[3] == 0 <==> x < 2 || y < 2 || x > 13 || y > 13,
        icon_pixel(x, y)[3] == 0 || icon_pixel(x, y)[3] == 255,
        icon_pixel(x, y)[0] == 255 <==> 2 <= x <= 13 && 2 <= y <= 13 && (x == 4 || y == 4 || x == 11
            || y == 11),
        icon_pixel(x, y)[0] == 255 ==> icon_pixel(x, y)[1] == 255 && icon_pixel(x, y)[2] == 255,
        icon_pixel(x, y)[3] == 255 && icon_pixel(x, y)[0] != 255 ==> icon_pixel(x, y)[0] == 105
            && icon_pixel(x, y)[1] == 75 && icon_pixel(x, y)[2] == 220,
        forall|channel: int|
            0 <= channel < 4 ==> icon_bytes()[64 * y + 4 * x + channel] == #[trigger] icon_pixel(
                x,
                y,
            )[channel],
{
    assert forall|channel: int| 0 <= channel < 4 implies icon_bytes()[64 * y + 4 * x + channel]
        == #[trigger] icon_pixel(x, y)[channel] by {
        let i = 64 * y + 4 * x + channel;
        assert(i / 4 == 16 * y + x);
        assert(i / 4 % 16 == x);
        assert(i / 64 == y);
        assert(i % 4 == channel);
    }
}

} // verus!
