use vstd::prelude::*;

verus! {

/// A control operation triggered by a global chord.
#[derive(Clone, Copy, Debug, PartialEq, Eq)]
pub enum Command {
    StartRecord,
    Stop,
    Play,
}

/// The identities of the three registered chords.
#[derive(Clone, Copy, Debug, PartialEq, Eq)]
pub struct Chords {
    pub record: u32,
    pub stop: u32,
    pub playback: u32,
}

pub open spec fn command_for(chords: Chords, id: u32, pressed: bool) -> Option<Command> {
    if !pressed {
        None
    } else if id == chords.record {
        Some(Command::StartRecord)
    } else if id == chords.stop {
        Some(Command::Stop)
    } else if id == chords.playback {
        Some(Command::Play)
    } else {
        None
    }
}

/// Decides which operation a hotkey notification triggers: only presses
/// dispatch, releases and unknown chords are ignored.
pub fn dispatch(chords: &Chords, id: u32, pressed: bool) -> (r: Option<Command>)
    ensures
        r == command_for(*chords, id, pressed),
{
    if !pressed {
        None
    } else if id == chords.record {
        Some(Command::StartRecord)
    } else if id == chords.stop {
        Some(Command::Stop)
    } else if id == chords.playback {
        Some(Command::Play)
    } else {
        None
    }
}

} // verus!
