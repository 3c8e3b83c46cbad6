//! What a tick asks of the audio device.

use vstd::prelude::*;

verus! {

/// The calls that the host owes the audio device after a tick, in the order
/// in which it must make them.
#[derive(Clone, Copy, Debug, PartialEq, Eq, Structural)]
pub enum AudioCommand {
    /// Leave the device as it is.
    Idle,
    /// Start the device: the sound timer runs and the device was inactive.
    Start,
    /// Stop the device: the sound timer has just reached zero.
    Stop,
    /// Start the device, then stop it: the sound timer ran from one to zero
    /// while the device was inactive.
    StartThenStop,
}

impl AudioCommand {
    /// Whether the command has the host start the device.
    pub open spec fn starts(self) -> bool {
        self == AudioCommand::Start || self == AudioCommand::StartThenStop
    }

    /// Whether the command has the host stop the device.
    pub open spec fn stops(self) -> bool {
        self == AudioCommand::Stop || self == AudioCommand::StartThenStop
    }
}

/// The command for one timer step: start the device iff the sound timer runs
/// and the device is inactive, stop it iff the timer goes from one to zero.
pub open spec fn audio_command(sound_timer: u8, audio_active: bool) -> AudioCommand {
    let start = sound_timer > 0 && !audio_active;
    let stop = sound_timer == 1;
    if start && stop {
        AudioCommand::StartThenStop
    } else if start {
        AudioCommand::Start
    } else if stop {
        AudioCommand::Stop
    } else {
        AudioCommand::Idle
    }
}

} // verus!
