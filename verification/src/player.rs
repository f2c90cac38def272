//! The audio engine's protocol: the commands it takes, the events it
//! reports, and what it does with a command given whether a track is
//! loaded. The audio output itself is the program's.
use vstd::prelude::*;

verus! {

/// A command to the audio engine.
pub enum PlayerCommand {
    /// Play this audio, replacing the current track.
    Play(Vec<u8>),
    Pause,
    Resume,
    /// Seek to this position, in milliseconds.
    Seek(u64),
    Shutdown,
}

/// What the audio engine reports.
pub enum PlayerEvent {
    Started,
    Finished,
    Paused,
    Resumed,
    Error(String),
}

/// What the engine does with a command.
#[derive(PartialEq, Eq, Structural, Clone, Copy, Debug)]
pub enum EngineAction {
    /// Stop the loaded track, if any, and start the new one.
    StartNew,
    /// Pause the loaded track and report it.
    PauseLoaded,
    /// Resume the loaded track and report it.
    ResumeLoaded,
    /// Seek in the loaded track.
    SeekLoaded,
    /// Stop the loaded track, if any, and end the engine.
    Stop,
    /// Nothing: there is no track to act on.
    Ignore,
}

/// The action for a command when a track is loaded or not: pausing,
/// resuming and seeking need a loaded track.
pub open spec fn action_spec(loaded: bool, cmd: PlayerCommand) -> EngineAction {
    match cmd {
        PlayerCommand::Play(_) => EngineAction::StartNew,
        PlayerCommand::Pause => if loaded { EngineAction::PauseLoaded } else { EngineAction::Ignore },
        PlayerCommand::Resume => if loaded { EngineAction::ResumeLoaded } else { EngineAction::Ignore },
        PlayerCommand::Seek(_) => if loaded { EngineAction::SeekLoaded } else { EngineAction::Ignore },
        PlayerCommand::Shutdown => EngineAction::Stop,
    }
}

/// The action for a command.
pub fn engine_action(loaded: bool, cmd: &PlayerCommand) -> (r: EngineAction)
    ensures
        r == action_spec(loaded, *cmd),
{
    match cmd {
        PlayerCommand::Play(_) => EngineAction::StartNew,
        PlayerCommand::Pause => if loaded { EngineAction::PauseLoaded } else { EngineAction::Ignore },
        PlayerCommand::Resume => if loaded { EngineAction::ResumeLoaded } else { EngineAction::Ignore },
        PlayerCommand::Seek(_) => if loaded { EngineAction::SeekLoaded } else { EngineAction::Ignore },
        PlayerCommand::Shutdown => EngineAction::Stop,
    }
}

} // verus!
