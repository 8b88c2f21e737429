//! The core host: plugin negotiation and per-step state.
//!
//! The plugin drives the host synchronously through a small set of numbered
//! environment commands; the decisions for each command, the interface
//! version check, the one-time caching of the reported geometry, and the
//! joypad state the plugin polls are all modelled here.  The raw pointer
//! traffic of the plugin interface stays outside the library: callers read
//! the command's argument, call in, and perform the returned action.

use vstd::prelude::*;

use crate::geometry::AvInfo;
use crate::input::{Button, InputState};
use crate::pixel::PixelFormat;

verus! {

/// The plugin interface version this host implements.
pub const EXPECTED_API_VERSION: u32 = 1;

/// Fatal errors of plugin negotiation: the process cannot continue, because
/// there is no fallback plugin.
#[derive(Clone, Copy, Debug, PartialEq, Eq, Structural)]
pub enum HostError {
    /// The plugin was built against another interface version.
    ApiVersionMismatch,
    /// The plugin asked to use a pixel format the host does not know.
    UnknownPixelFormat,
}

/// What the caller must do with the command's data argument after an
/// environment call.
#[derive(Clone, Copy, Debug, PartialEq, Eq, Structural)]
pub enum EnvAction {
    /// Write the given flag into the argument.
    WriteBool(bool),
    /// Write the process-scoped system/save directory string, which stays
    /// valid for the process lifetime.
    ProvideDirectory,
    /// The pixel format was accepted and recorded; nothing to write back.
    AcceptPixelFormat,
    /// Record the variable definitions the plugin announced; they are kept
    /// but not yet applied.
    StoreVariables,
    /// Install the log forwarder for the plugin's leveled log calls.
    InstallLogger,
    /// Nothing to do.
    Nothing,
}

/// Host state owned by the run loop and mutated through the plugin's
/// synchronous callbacks.
pub struct HostState {
    /// Negotiated pixel format; none until the plugin sets one.
    pub pixel_format: Option<PixelFormat>,
    /// Bytes per source pixel; defaults to four until a format is set.
    pub bytes_per_pixel: u8,
    /// Geometry and timing, cached at the first query for process lifetime.
    pub av_info: Option<AvInfo>,
    /// Buttons currently held, as polled by the plugin.
    pub input: InputState,
}

impl HostState {
    pub open spec fn wf(self) -> bool {
        &&& match self.pixel_format {
            Some(f) => self.bytes_per_pixel == f.spec_bytes_per_pixel(),
            None => self.bytes_per_pixel == 4,
        }
        &&& match self.av_info {
            Some(av) => av.wf(),
            None => true,
        }
    }

    /// The initial state: no format negotiated, defaults in place.
    pub fn new() -> (r: HostState)
        ensures
            r.wf(),
            r.pixel_format is None,
            r.av_info is None,
            forall|b: Button| !r.input.spec_held(b),
    {
        HostState {
            pixel_format: None,
            bytes_per_pixel: 4,
            av_info: None,
            input: InputState::new(),
        }
    }

    /// Verifies the plugin's reported interface version.  Anything but the
    /// expected version is fatal: the process must not continue with an
    /// incompatible plugin.
    pub fn check_api_version(version: u32) -> (r: Result<(), HostError>)
        ensures
            r is Ok <==> version == EXPECTED_API_VERSION,
            r is Err ==> r == Result::<(), HostError>::Err(HostError::ApiVersionMismatch),
    {
        if version == EXPECTED_API_VERSION {
            Ok(())
        } else {
            Err(HostError::ApiVersionMismatch)
        }
    }

    /// Caches the reported geometry and timing.  Only the first report is
    /// kept: later calls leave the cached value untouched, so every reader
    /// sees the geometry of the initial query.
    pub fn set_av_info(&mut self, info: AvInfo)
        requires
            old(self).wf(),
            info.wf(),
        ensures
            final(self).wf(),
            final(self).av_info == Some(
                match old(self).av_info {
                    Some(prev) => prev,
                    None => info,
                },
            ),
            final(self).pixel_format == old(self).pixel_format,
            final(self).bytes_per_pixel == old(self).bytes_per_pixel,
            final(self).input == old(self).input,
    {
        if self.av_info.is_none() {
            self.av_info = Some(info);
        }
    }

    /// The cached geometry, if the plugin has reported it.
    pub fn av_info(&self) -> (r: Option<AvInfo>)
        ensures
            r == self.av_info,
    {
        self.av_info
    }

    /// The negotiated pixel format, if the plugin has set one.
    pub fn pixel_format(&self) -> (r: Option<PixelFormat>)
        ensures
            r == self.pixel_format,
    {
        self.pixel_format
    }

    /// Bytes per source pixel under the negotiated format.
    pub fn bytes_per_pixel(&self) -> (r: u8)
        ensures
            r == self.bytes_per_pixel,
    {
        self.bytes_per_pixel
    }

    /// Decides one environment command from the plugin.
    ///
    /// `raw_arg` carries the command's numeric argument where it has one
    /// (the proposed pixel format); it is ignored otherwise.  The returned
    /// flag is the callback's boolean answer to the plugin, and the action
    /// says what the caller writes back through the data pointer.  Commands
    /// the host does not recognise are declined without an error; only a
    /// pixel format outside the three known ones is fatal.
    pub fn environment_call(&mut self, command: u32, raw_arg: u32) -> (r: Result<
        (bool, EnvAction),
        HostError,
    >)
        requires
            old(self).wf(),
        ensures
            final(self).wf(),
            final(self).av_info == old(self).av_info,
            final(self).input == old(self).input,
            command == 3 ==> r == Result::<(bool, EnvAction), HostError>::Ok(
                (false, EnvAction::WriteBool(true)),
            ) && *final(self) == *old(self),
            command == 9 || command == 31 ==> r == Result::<(bool, EnvAction), HostError>::Ok(
                (true, EnvAction::ProvideDirectory),
            ) && *final(self) == *old(self),
            command == 10 ==> match PixelFormat::spec_from_uint(raw_arg) {
                Some(f) => {
                    &&& r == Result::<(bool, EnvAction), HostError>::Ok(
                        (true, EnvAction::AcceptPixelFormat),
                    )
                    &&& final(self).pixel_format == Some(f)
                    &&& final(self).bytes_per_pixel == f.spec_bytes_per_pixel()
                },
                None => {
                    &&& r == Result::<(bool, EnvAction), HostError>::Err(
                        HostError::UnknownPixelFormat,
                    )
                    &&& *final(self) == *old(self)
                },
            },
            command == 16 ==> r == Result::<(bool, EnvAction), HostError>::Ok(
                (true, EnvAction::StoreVariables),
            ) && *final(self) == *old(self),
            command == 15 ==> r == Result::<(bool, EnvAction), HostError>::Ok(
                (false, EnvAction::Nothing),
            ) && *final(self) == *old(self),
            command == 17 ==> r == Result::<(bool, EnvAction), HostError>::Ok(
                (true, EnvAction::WriteBool(false)),
            ) && *final(self) == *old(self),
            command == 27 ==> r == Result::<(bool, EnvAction), HostError>::Ok(
                (true, EnvAction::InstallLogger),
            ) && *final(self) == *old(self),
            command == 63 || command == 64 ==> r == Result::<(bool, EnvAction), HostError>::Ok(
                (true, EnvAction::Nothing),
            ) && *final(self) == *old(self),
            !(command == 3 || command == 9 || command == 31 || command == 10 || command == 16
                || command == 15 || command == 17 || command == 27 || command == 63 || command
                == 64) ==> r == Result::<(bool, EnvAction), HostError>::Ok(
                (false, EnvAction::Nothing),
            ) && *final(self) == *old(self),
    {
        match command {
            3 => Ok((false, EnvAction::WriteBool(true))),
            9 | 31 => Ok((true, EnvAction::ProvideDirectory)),
            10 => {
                match PixelFormat::from_uint(raw_arg) {
                    Some(format) => {
                        self.bytes_per_pixel = format.bytes_per_pixel();
                        self.pixel_format = Some(format);
                        Ok((true, EnvAction::AcceptPixelFormat))
                    },
                    None => Err(HostError::UnknownPixelFormat),
                }
            },
            16 => Ok((true, EnvAction::StoreVariables)),
            15 => Ok((false, EnvAction::Nothing)),
            17 => Ok((true, EnvAction::WriteBool(false))),
            27 => Ok((true, EnvAction::InstallLogger)),
            63 | 64 => Ok((true, EnvAction::Nothing)),
            _ => Ok((false, EnvAction::Nothing)),
        }
    }

    /// Replaces the held-button set for the next emulation step.
    pub fn set_input(&mut self, input: InputState)
        requires
            old(self).wf(),
        ensures
            final(self).wf(),
            final(self).input == input,
            final(self).pixel_format == old(self).pixel_format,
            final(self).bytes_per_pixel == old(self).bytes_per_pixel,
            final(self).av_info == old(self).av_info,
    {
        self.input = input;
    }

    /// Answers the plugin's joypad poll: 1 when the button bound to the
    /// queried joypad id is held, 0 for anything else (including ids the
    /// device has no button for).
    pub fn input_state_response(&self, device_id: u32) -> (r: i16)
        ensures
            match HostState::spec_joypad_button(device_id) {
                Some(b) => r == (if self.input.spec_held(b) {
                    1int
                } else {
                    0int
                }),
                None => r == 0,
            },
    {
        match HostState::joypad_button(device_id) {
            Some(b) => {
                if self.input.is_held(b) {
                    1
                } else {
                    0
                }
            },
            None => 0,
        }
    }

    /// The device button bound to a joypad id of the plugin interface.
    pub open spec fn spec_joypad_button(device_id: u32) -> Option<Button> {
        if device_id == 0 {
            Some(Button::B)
        } else if device_id == 1 {
            Some(Button::Y)
        } else if device_id == 2 {
            Some(Button::Select)
        } else if device_id == 3 {
            Some(Button::Start)
        } else if device_id == 4 {
            Some(Button::Up)
        } else if device_id == 5 {
            Some(Button::Down)
        } else if device_id == 6 {
            Some(Button::Left)
        } else if device_id == 7 {
            Some(Button::Right)
        } else if device_id == 8 {
            Some(Button::A)
        } else if device_id == 9 {
            Some(Button::X)
        } else if device_id == 10 {
            Some(Button::L1)
        } else if device_id == 11 {
            Some(Button::R1)
        } else if device_id == 12 {
            Some(Button::L2)
        } else if device_id == 13 {
            Some(Button::R2)
        } else {
            None
        }
    }

    pub fn joypad_button(device_id: u32) -> (r: Option<Button>)
        ensures
            r == HostState::spec_joypad_button(device_id),
    {
        match device_id {
            0 => Some(Button::B),
            1 => Some(Button::Y),
            2 => Some(Button::Select),
            3 => Some(Button::Start),
            4 => Some(Button::Up),
            5 => Some(Button::Down),
            6 => Some(Button::Left),
            7 => Some(Button::Right),
            8 => Some(Button::A),
            9 => Some(Button::X),
            10 => Some(Button::L1),
            11 => Some(Button::R1),
            12 => Some(Button::L2),
            13 => Some(Button::R2),
            _ => None,
        }
    }
}

} // verus!
