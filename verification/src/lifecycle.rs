//! The system process's view of the emulator: spawn arguments, the playing
//! flag, the save-then-kill stop sequence, exit classification, event
//! routing and battery reporting.

use vstd::prelude::*;

use crate::games::Game;
use crate::gesture::Gesture;
use crate::input::{Button, ButtonEvent};

verus! {

/// Events the system process reports to the interface layer.
#[derive(Debug, PartialEq, Eq)]
pub enum SystemMessage {
    ButtonEvent(ButtonEvent),
    BatteryPercentage(u8),
    Error(String),
    Sleep,
    Wake,
    Shutdown,
    MainMenu,
    Switcher,
}

/// Errors the orchestrator reports upward.
#[derive(Clone, Copy, Debug, PartialEq, Eq, Structural)]
pub enum StopError {
    /// The emulator reported a failure while writing the save state; the
    /// process is left running.
    SaveFailed,
}

/// How the emulator subprocess ended.
#[derive(Clone, Copy, Debug, PartialEq, Eq, Structural)]
pub enum ExitClass {
    /// It exited with a status code: a crash, reported upward.
    Crashed(i32),
    /// It was ended by a signal, which is how the orchestrator itself stops
    /// it: intentional, not reported.
    Intentional,
}

/// Classifies an exit status: a status code means a crash, exit by signal
/// (no code) is intentional.
pub fn classify_exit(code: Option<i32>) -> (r: ExitClass)
    ensures
        match code {
            Some(c) => r == ExitClass::Crashed(c),
            None => r == ExitClass::Intentional,
        },
{
    match code {
        Some(c) => ExitClass::Crashed(c),
        None => ExitClass::Intentional,
    }
}

/// The argument list the emulator subprocess is spawned with: the plugin
/// path built from the game's plugin name, the game path, and the flag that
/// resumes from the auto slot.
pub fn emulator_args(game: &Game) -> (r: Vec<String>)
    ensures
        r@.len() == 3,
        r@[0]@ == "/mnt/SDCARD/Cores/"@ + game.spec_core() + "_libretro.so"@,
        r@[1]@ == game.spec_path(),
        r@[2]@ == "--load-auto"@,
{
    let mut core_arg = String::from_str("/mnt/SDCARD/Cores/");
    core_arg.append(game.core_name());
    core_arg.append("_libretro.so");
    let mut r: Vec<String> = Vec::new();
    r.push(core_arg);
    r.push(String::from_str(game.as_path()));
    r.push(String::from_str("--load-auto"));
    r
}

/// Whether the emulator subprocess is running, as the orchestrator tracks
/// it.
pub struct PlayState {
    pub playing: bool,
}

impl PlayState {
    /// Not playing.
    pub fn new() -> (r: PlayState)
        ensures
            !r.playing,
    {
        PlayState { playing: false }
    }

    pub fn playing(&self) -> (r: bool)
        ensures
            r == self.playing,
    {
        self.playing
    }

    /// Records that the emulator subprocess was spawned.
    pub fn play_started(&mut self)
        ensures
            final(self).playing,
    {
        self.playing = true;
    }

    /// Records that the emulator subprocess ended on its own.
    pub fn play_ended(&mut self)
        ensures
            !final(self).playing,
    {
        self.playing = false;
    }

    /// Whether stopping must first ask the emulator to save: only when it
    /// is actually playing.  When it is not, stopping is a harmless no-op.
    pub fn begin_stop(&self) -> (save_first: bool)
        ensures
            save_first == self.playing,
    {
        self.playing
    }

    /// Finishes the stop sequence after the save request came back.  When
    /// nothing was playing, nothing is killed and the call succeeds.  When
    /// the save failed, the error is reported and the emulator is left
    /// running.  Only a successful save leads to the kill.
    pub fn finish_stop(&mut self, save_ok: bool) -> (r: Result<bool, StopError>)
        ensures
            !old(self).playing ==> r == Result::<bool, StopError>::Ok(false),
            !old(self).playing ==> *final(self) == *old(self),
            old(self).playing && !save_ok ==> r == Result::<bool, StopError>::Err(
                StopError::SaveFailed,
            ),
            old(self).playing && !save_ok ==> *final(self) == *old(self),
            old(self).playing && save_ok ==> r == Result::<bool, StopError>::Ok(true),
            old(self).playing && save_ok ==> !final(self).playing,
    {
        if !self.playing {
            Ok(false)
        } else if !save_ok {
            Err(StopError::SaveFailed)
        } else {
            self.playing = false;
            Ok(true)
        }
    }
}

/// Where one button event is handled by the system process.
#[derive(Clone, Copy, Debug, PartialEq, Eq, Structural)]
pub enum EventRoute {
    /// Power events always go to the power gesture handler.
    Power,
    /// Menu events go to the menu gesture handler while awake.
    Menu,
    /// Other events reach the interface only while awake and not playing.
    Forward,
    /// Everything else is dropped.
    Drop,
}

/// Routes one button event: Power is always handled; Menu is handled while
/// not sleeping; anything else is forwarded to the interface only while
/// neither sleeping nor playing.
pub fn route_event(ev: &ButtonEvent, sleeping: bool, playing: bool) -> (r: EventRoute)
    ensures
        ev.spec_button() == Button::Power ==> r == EventRoute::Power,
        ev.spec_button() == Button::Menu && !sleeping ==> r == EventRoute::Menu,
        ev.spec_button() != Button::Power && !(ev.spec_button() == Button::Menu && !sleeping)
            ==> r == (if !sleeping && !playing {
            EventRoute::Forward
        } else {
            EventRoute::Drop
        }),
{
    let b = *ev.button();
    if b == Button::Power {
        EventRoute::Power
    } else if b == Button::Menu && !sleeping {
        EventRoute::Menu
    } else if !sleeping && !playing {
        EventRoute::Forward
    } else {
        EventRoute::Drop
    }
}

/// What a finished Power gesture asks for: a long press shuts the system
/// down, a short press toggles sleep.  When a game is active, both the
/// shutdown and the path into sleep first request a save; waking does not.
pub fn power_gesture_plan(g: Gesture, sleeping: bool, playing: bool) -> (r: (
    bool,
    SystemMessage,
))
    ensures
        g == Gesture::Long ==> r == (playing, SystemMessage::Shutdown),
        g == Gesture::Short && sleeping ==> r == (false, SystemMessage::Wake),
        g == Gesture::Short && !sleeping ==> r == (playing, SystemMessage::Sleep),
{
    match g {
        Gesture::Long => (playing, SystemMessage::Shutdown),
        Gesture::Short => {
            if sleeping {
                (false, SystemMessage::Wake)
            } else {
                (playing, SystemMessage::Sleep)
            }
        },
    }
}

/// What a finished Menu gesture asks for: a long press opens the main
/// menu, a short press the app switcher; a running game is stopped (with
/// its save) first in either case.
pub fn menu_gesture_plan(g: Gesture, playing: bool) -> (r: (bool, SystemMessage))
    ensures
        g == Gesture::Long ==> r == (playing, SystemMessage::MainMenu),
        g == Gesture::Short ==> r == (playing, SystemMessage::Switcher),
{
    match g {
        Gesture::Long => (playing, SystemMessage::MainMenu),
        Gesture::Short => (playing, SystemMessage::Switcher),
    }
}

/// The battery percentage to report, if any: polling is suppressed while
/// the system sleeps.
pub fn battery_report(sleeping: bool, percentage: u8) -> (r: Option<u8>)
    ensures
        sleeping ==> r is None,
        !sleeping ==> r == Some(percentage),
{
    if sleeping {
        None
    } else {
        Some(percentage)
    }
}

} // verus!
