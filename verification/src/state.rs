//! The values that the badge's tasks share.

use vstd::prelude::*;

verus! {

/// Which part of the screen has to be redrawn.
///
/// `Full` redraws every widget with the slow, clean waveform. `TopBar`, `Time`
/// and `Image` redraw one widget with the fast waveform. `Shutdown` ends the
/// refresh loop before deep sleep.
#[derive(Clone, Copy, PartialEq, Eq, Structural, Debug)]
pub enum Screen {
    Time,
    TopBar,
    Image,
    Full,
    Shutdown,
}

/// The five buttons of the panel.
#[derive(Clone, Copy, PartialEq, Eq, Structural, Debug)]
pub enum Button {
    A,
    B,
    C,
    Up,
    Down,
}

/// The last weather report: the temperature in tenths of a degree Celsius and
/// the WMO condition code.
#[derive(Clone, Copy, PartialEq, Eq, Structural, Debug)]
pub struct CurrentWeather {
    pub temperature: i16,
    pub weathercode: u8,
}

/// What survives a power cycle: the selected image, how many wireless networks
/// were seen, and the last weather report.
#[derive(Clone, Copy, PartialEq, Eq, Structural, Debug)]
pub struct PersistedState {
    pub image: u8,
    pub networks_seen: u32,
    pub weather: Option<CurrentWeather>,
}

/// A request over the network that did not produce a response body.
#[derive(Clone, Copy, PartialEq, Eq, Structural, Debug)]
pub struct HttpError;

} // verus!
