//! Media control through the `playerctl` command-line utility.

use crate::config::MediaAction;
use crate::text::{contains, occurs_in};
use vstd::prelude::*;
use vstd::string::StringSliceAdditionalSpecFns;

verus! {

/// The program that every request is handed to.
pub const PLAYERCTL: &'static str = "playerctl";

/// What the utility writes to its error stream when no player is running.
pub const NO_PLAYER_NOTICE: &'static str = "No player could handle this command";

/// One call of the utility.
#[derive(Clone, Copy, Debug, PartialEq, Eq, Structural)]
pub enum PlayerCommand {
    /// Toggle between playing and paused.
    PlayPause,
    /// Skip to the next track.
    Next,
    /// Go back to the previous track.
    Previous,
    /// Pause playback.
    Pause,
    /// Ask for the current volume.
    Volume,
    /// Raise the volume by five percent.
    RaiseVolume,
    /// Lower the volume by five percent.
    LowerVolume,
}

impl PlayerCommand {
    /// The arguments of the call. Each starts with `-a`, which sends the
    /// command to every running player; a volume change is relative.
    pub open spec fn arguments(self) -> Seq<Seq<char>> {
        match self {
            PlayerCommand::PlayPause => seq!["-a"@, "play-pause"@],
            PlayerCommand::Next => seq!["-a"@, "next"@],
            PlayerCommand::Previous => seq!["-a"@, "previous"@],
            PlayerCommand::Pause => seq!["-a"@, "pause"@],
            PlayerCommand::Volume => seq!["-a"@, "volume"@],
            PlayerCommand::RaiseVolume => seq!["-a"@, "volume"@, "0.05+"@],
            PlayerCommand::LowerVolume => seq!["-a"@, "volume"@, "0.05-"@],
        }
    }

    /// The arguments to start `playerctl` with.
    pub fn args(self) -> (args: Vec<String>)
        ensures
            args.deep_view() == self.arguments(),
    {
        let mut args: Vec<String> = Vec::new();
        args.push("-a".to_owned());
        match self {
            PlayerCommand::PlayPause => {
                args.push("play-pause".to_owned());
            },
            PlayerCommand::Next => {
                args.push("next".to_owned());
            },
            PlayerCommand::Previous => {
                args.push("previous".to_owned());
            },
            PlayerCommand::Pause => {
                args.push("pause".to_owned());
            },
            PlayerCommand::Volume => {
                args.push("volume".to_owned());
            },
            PlayerCommand::RaiseVolume => {
                args.push("volume".to_owned());
                args.push("0.05+".to_owned());
            },
            PlayerCommand::LowerVolume => {
                args.push("volume".to_owned());
                args.push("0.05-".to_owned());
            },
        }
        args
    }
}

/// How a call of the utility ended.
#[derive(Clone, Copy, Debug, PartialEq, Eq, Structural)]
pub enum Outcome {
    /// The utility exited with success.
    Succeeded,
    /// The utility failed only because no player is running: nothing to do,
    /// and nothing went wrong.
    NoActivePlayer,
    /// The utility failed for another reason.
    Failed,
}

/// The calls that carry `action` out. Stopping only pauses, since many
/// players cannot resume after a stop; raising the volume first asks for it.
pub open spec fn commands_for(action: MediaAction) -> Seq<PlayerCommand> {
    match action {
        MediaAction::PlayPause => seq![PlayerCommand::PlayPause],
        MediaAction::Next => seq![PlayerCommand::Next],
        MediaAction::Previous => seq![PlayerCommand::Previous],
        MediaAction::VolumeUp => seq![PlayerCommand::Volume, PlayerCommand::RaiseVolume],
        MediaAction::VolumeDown => seq![PlayerCommand::LowerVolume],
        MediaAction::Stop => seq![PlayerCommand::Pause],
    }
}

/// What an exit means: success, the harmless lack of a player, or a failure.
pub open spec fn outcome_of(success: bool, stderr: Seq<u8>) -> Outcome {
    if success {
        Outcome::Succeeded
    } else if occurs_in(stderr, NO_PLAYER_NOTICE.spec_bytes()) {
        Outcome::NoActivePlayer
    } else {
        Outcome::Failed
    }
}

/// The media controller for systems where `playerctl` speaks to the players.
#[derive(Debug)]
pub struct LinuxMediaController;

impl LinuxMediaController {
    /// The controller. It holds nothing: every command is a fresh call of
    /// the utility.
    pub fn new() -> Self {
        LinuxMediaController
    }

    /// Judges the exit of one call. No outcome is an error for the caller:
    /// the next command is carried out whatever this one came to.
    pub fn absorb(&self, success: bool, stderr: &[u8]) -> (outcome: Outcome)
        ensures
            outcome == outcome_of(success, stderr@),
    {
        if success {
            Outcome::Succeeded
        } else if contains(stderr, NO_PLAYER_NOTICE.as_bytes()) {
            Outcome::NoActivePlayer
        } else {
            Outcome::Failed
        }
    }

    /// Toggles between playing and paused.
    pub fn play_pause(&self) -> (commands: Vec<PlayerCommand>)
        ensures
            commands@ == commands_for(MediaAction::PlayPause),
    {
        let commands = vec![PlayerCommand::PlayPause];
        commands
    }

    /// Skips to the next track.
    pub fn next(&self) -> (commands: Vec<PlayerCommand>)
        ensures
            commands@ == commands_for(MediaAction::Next),
    {
        let commands = vec![PlayerCommand::Next];
        commands
    }

    /// Goes back to the previous track.
    pub fn previous(&self) -> (commands: Vec<PlayerCommand>)
        ensures
            commands@ == commands_for(MediaAction::Previous),
    {
        let commands = vec![PlayerCommand::Previous];
        commands
    }

    /// Raises the volume by five percent, after asking for it.
    pub fn volume_up(&self) -> (commands: Vec<PlayerCommand>)
        ensures
            commands@ == commands_for(MediaAction::VolumeUp),
    {
        let commands = vec![PlayerCommand::Volume, PlayerCommand::RaiseVolume];
        commands
    }

    /// Lowers the volume by five percent.
    pub fn volume_down(&self) -> (commands: Vec<PlayerCommand>)
        ensures
            commands@ == commands_for(MediaAction::VolumeDown),
    {
        let commands = vec![PlayerCommand::LowerVolume];
        commands
    }

    /// Pauses rather than stops, so that playback can be resumed.
    pub fn stop(&self) -> (commands: Vec<PlayerCommand>)
        ensures
            commands@ == commands_for(MediaAction::Stop),
    {
        let commands = vec![PlayerCommand::Pause];
        commands
    }
}

} // verus!
