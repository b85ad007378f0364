//! The media command executor: what has to happen on the machine for a media
//! action to take effect.

pub mod linux;
pub mod windows;

use crate::config::MediaAction;
use linux::{commands_for, LinuxMediaController, PlayerCommand};
use vstd::prelude::*;
use windows::{media_key_for, press_release, KeyStroke, WindowsMediaController};

verus! {

/// The kind of system the program runs on.
#[derive(Clone, Copy, Debug, PartialEq, Eq, Structural)]
pub enum Platform {
    Windows,
    Linux,
}

/// One thing for the host to do.
#[derive(Clone, Copy, Debug, PartialEq, Eq, Structural)]
pub enum Effect {
    /// Start the player-control utility with this command.
    Run(PlayerCommand),
    /// Inject this keyboard event.
    Inject(KeyStroke),
}

/// The calls of the utility, each as an effect.
pub open spec fn run_all(commands: Seq<PlayerCommand>) -> Seq<Effect> {
    Seq::new(commands.len(), |i: int| Effect::Run(commands[i]))
}

/// The keyboard events, each as an effect.
pub open spec fn inject_all(strokes: Seq<KeyStroke>) -> Seq<Effect> {
    Seq::new(strokes.len(), |i: int| Effect::Inject(strokes[i]))
}

/// What carries `action` out on `platform`, in the order in which it has to
/// happen.
pub open spec fn effects_of(platform: Platform, action: MediaAction) -> Seq<Effect> {
    match platform {
        Platform::Linux => run_all(commands_for(action)),
        Platform::Windows => inject_all(press_release(media_key_for(action))),
    }
}

/// The controller of one platform.
#[derive(Debug)]
enum Backend {
    Windows(WindowsMediaController),
    Linux(LinuxMediaController),
}

/// Controller for media player management, on either platform.
#[derive(Debug)]
pub struct MediaController {
    inner: Backend,
}

/// Wraps each call of the utility as an effect.
fn run_each(commands: Vec<PlayerCommand>) -> (effects: Vec<Effect>)
    ensures
        effects@ == run_all(commands@),
{
    let mut effects: Vec<Effect> = Vec::new();
    let mut i: usize = 0;
    while i < commands.len()
        invariant
            i <= commands@.len(),
            effects@ == run_all(commands@.take(i as int)),
        decreases commands@.len() - i,
    {
        effects.push(Effect::Run(commands[i]));
        i += 1;
    }
    effects
}

/// Wraps each keyboard event as an effect.
fn inject_each(strokes: Vec<KeyStroke>) -> (effects: Vec<Effect>)
    ensures
        effects@ == inject_all(strokes@),
{
    let mut effects: Vec<Effect> = Vec::new();
    let mut i: usize = 0;
    while i < strokes.len()
        invariant
            i <= strokes@.len(),
            effects@ == inject_all(strokes@.take(i as int)),
        decreases strokes@.len() - i,
    {
        effects.push(Effect::Inject(strokes[i]));
        i += 1;
    }
    effects
}

impl MediaController {
    /// The platform whose commands the controller gives.
    pub closed spec fn spec_platform(&self) -> Platform {
        match self.inner {
            Backend::Windows(_) => Platform::Windows,
            Backend::Linux(_) => Platform::Linux,
        }
    }

    /// The controller for `platform`.
    pub fn new(platform: Platform) -> (controller: Self)
        ensures
            controller.platform() == platform,
    {
        match platform {
            Platform::Windows => MediaController {
                inner: Backend::Windows(WindowsMediaController::new()),
            },
            Platform::Linux => MediaController {
                inner: Backend::Linux(LinuxMediaController::new()),
            },
        }
    }

    /// The platform whose commands the controller gives.
    #[verifier::when_used_as_spec(spec_platform)]
    pub fn platform(&self) -> (platform: Platform)
        ensures
            platform == self.spec_platform(),
    {
        match &self.inner {
            Backend::Windows(_) => Platform::Windows,
            Backend::Linux(_) => Platform::Linux,
        }
    }

    /// What toggles between playing and paused.
    pub fn play_pause(&self) -> (effects: Vec<Effect>)
        ensures
            effects@ == effects_of(self.platform(), MediaAction::PlayPause),
    {
        match &self.inner {
            Backend::Windows(inner) => inject_each(inner.play_pause()),
            Backend::Linux(inner) => run_each(inner.play_pause()),
        }
    }

    /// What skips to the next track.
    pub fn next(&self) -> (effects: Vec<Effect>)
        ensures
            effects@ == effects_of(self.platform(), MediaAction::Next),
    {
        match &self.inner {
            Backend::Windows(inner) => inject_each(inner.next()),
            Backend::Linux(inner) => run_each(inner.next()),
        }
    }

    /// What goes back to the previous track.
    pub fn previous(&self) -> (effects: Vec<Effect>)
        ensures
            effects@ == effects_of(self.platform(), MediaAction::Previous),
    {
        match &self.inner {
            Backend::Windows(inner) => inject_each(inner.previous()),
            Backend::Linux(inner) => run_each(inner.previous()),
        }
    }

    /// What raises the volume.
    pub fn volume_up(&self) -> (effects: Vec<Effect>)
        ensures
            effects@ == effects_of(self.platform(), MediaAction::VolumeUp),
    {
        match &self.inner {
            Backend::Windows(inner) => inject_each(inner.volume_up()),
            Backend::Linux(inner) => run_each(inner.volume_up()),
        }
    }

    /// What lowers the volume.
    pub fn volume_down(&self) -> (effects: Vec<Effect>)
        ensures
            effects@ == effects_of(self.platform(), MediaAction::VolumeDown),
    {
        match &self.inner {
            Backend::Windows(inner) => inject_each(inner.volume_down()),
            Backend::Linux(inner) => run_each(inner.volume_down()),
        }
    }

    /// What stops playback in a way that it can be resumed from.
    pub fn stop(&self) -> (effects: Vec<Effect>)
        ensures
            effects@ == effects_of(self.platform(), MediaAction::Stop),
    {
        match &self.inner {
            Backend::Windows(inner) => inject_each(inner.stop()),
            Backend::Linux(inner) => run_each(inner.stop()),
        }
    }

    /// Carries `action` out: calls the one method that stands for it.
    pub fn execute(&self, action: MediaAction) -> (effects: Vec<Effect>)
        ensures
            effects@ == effects_of(self.platform(), action),
    {
        match action {
            MediaAction::PlayPause => self.play_pause(),
            MediaAction::Next => self.next(),
            MediaAction::Previous => self.previous(),
            MediaAction::VolumeUp => self.volume_up(),
            MediaAction::VolumeDown => self.volume_down(),
            MediaAction::Stop => self.stop(),
        }
    }
}

} // verus!
