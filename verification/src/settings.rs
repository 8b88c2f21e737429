//! Persisted user settings and the decisions around them.

use vstd::prelude::*;

verus! {

/// The persisted settings: backlight brightness and audio volume steps.
#[derive(Clone, Copy, Debug, PartialEq, Eq, Structural)]
pub struct Settings {
    pub brightness: u8,
    pub volume: u8,
}

impl Default for Settings {
    /// The settings a fresh device starts with.
    fn default() -> (r: Settings)
        ensures
            r.brightness == 6,
            r.volume == 8,
    {
        Settings { brightness: 6, volume: 8 }
    }
}

impl Settings {
    /// Decides what to start with: a settings file that parsed is taken as
    /// it is; a missing, empty or invalid file falls back to the defaults,
    /// which must then be written out.
    pub fn settings_or_default(parsed: Option<Settings>) -> (r: (Settings, bool))
        ensures
            match parsed {
                Some(s) => r == (s, false),
                None => r == (Settings { brightness: 6, volume: 8 }, true),
            },
    {
        match parsed {
            Some(s) => (s, false),
            None => (Settings { brightness: 6, volume: 8 }, true),
        }
    }

    /// Replaces the settings and hands back the value to forward to the
    /// system task that applies and persists it.
    pub fn update(&mut self, new: Settings) -> (to_send: Settings)
        ensures
            *final(self) == new,
            to_send == new,
    {
        *self = new;
        new
    }

    /// What the settings task must re-apply for one incoming update, given
    /// what it applied last: exactly the fields that changed.
    pub fn changed_fields(
        prev_brightness: Option<u8>,
        prev_volume: Option<u8>,
        new: &Settings,
    ) -> (r: (bool, bool))
        ensures
            r.0 == (prev_brightness != Some(new.brightness)),
            r.1 == (prev_volume != Some(new.volume)),
    {
        let b = match prev_brightness {
            Some(p) => p != new.brightness,
            None => true,
        };
        let v = match prev_volume {
            Some(p) => p != new.volume,
            None => true,
        };
        (b, v)
    }
}

} // verus!
