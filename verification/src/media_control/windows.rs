//! Media control through synthetic media-key events.

use crate::config::MediaAction;
use vstd::prelude::*;

verus! {

/// The virtual-key code of the next-track key.
pub const VK_MEDIA_NEXT_TRACK: u8 = 0xB0;

/// The virtual-key code of the previous-track key.
pub const VK_MEDIA_PREV_TRACK: u8 = 0xB1;

/// The virtual-key code of the play/pause key.
pub const VK_MEDIA_PLAY_PAUSE: u8 = 0xB3;

/// The virtual-key code of the volume-down key.
pub const VK_VOLUME_DOWN: u8 = 0xAE;

/// The virtual-key code of the volume-up key.
pub const VK_VOLUME_UP: u8 = 0xAF;

/// The flag of a key from the extended part of the keyboard.
pub const KEYEVENTF_EXTENDEDKEY: u32 = 0x0001;

/// The flag of a key going up.
pub const KEYEVENTF_KEYUP: u32 = 0x0002;

/// One synthetic keyboard event: a virtual-key code and the event's flags.
#[derive(Clone, Copy, Debug, PartialEq, Eq, Structural)]
pub struct KeyStroke {
    pub code: u8,
    pub flags: u32,
}

/// A key tapped once: it goes down, then up.
pub open spec fn press_release(code: u8) -> Seq<KeyStroke> {
    seq![
        KeyStroke { code, flags: KEYEVENTF_EXTENDEDKEY },
        KeyStroke { code, flags: KEYEVENTF_EXTENDEDKEY | KEYEVENTF_KEYUP },
    ]
}

/// The flags of the two events of a tap are 1 and 3.
pub proof fn lemma_tap_flags(code: u8)
    ensures
        press_release(code) == seq![KeyStroke { code, flags: 1 }, KeyStroke { code, flags: 3 }],
{
    assert(1u32 | 2u32 == 3u32) by (bit_vector);
}

/// The media key that carries `action` out. Stopping taps play/pause, since
/// many players cannot resume after a true stop.
pub open spec fn media_key_for(action: MediaAction) -> u8 {
    match action {
        MediaAction::PlayPause => VK_MEDIA_PLAY_PAUSE,
        MediaAction::Next => VK_MEDIA_NEXT_TRACK,
        MediaAction::Previous => VK_MEDIA_PREV_TRACK,
        MediaAction::VolumeUp => VK_VOLUME_UP,
        MediaAction::VolumeDown => VK_VOLUME_DOWN,
        MediaAction::Stop => VK_MEDIA_PLAY_PAUSE,
    }
}

/// The media controller for systems that take synthetic media keys.
#[derive(Debug)]
pub struct WindowsMediaController;

impl WindowsMediaController {
    /// The controller. It holds nothing: every command is a fresh pair of
    /// key events.
    pub fn new() -> Self {
        WindowsMediaController
    }

    /// The two events that tap the key `key_code`: press, then release.
    pub fn send_media_key(&self, key_code: u8) -> (strokes: Vec<KeyStroke>)
        ensures
            strokes@ == press_release(key_code),
    {
        let press = KeyStroke { code: key_code, flags: KEYEVENTF_EXTENDEDKEY };
        let release = KeyStroke {
            code: key_code,
            flags: KEYEVENTF_EXTENDEDKEY | KEYEVENTF_KEYUP,
        };
        let strokes = vec![press, release];
        strokes
    }

    /// Taps the play/pause key.
    pub fn play_pause(&self) -> (strokes: Vec<KeyStroke>)
        ensures
            strokes@ == press_release(media_key_for(MediaAction::PlayPause)),
    {
        self.send_media_key(VK_MEDIA_PLAY_PAUSE)
    }

    /// Taps the next-track key.
    pub fn next(&self) -> (strokes: Vec<KeyStroke>)
        ensures
            strokes@ == press_release(media_key_for(MediaAction::Next)),
    {
        self.send_media_key(VK_MEDIA_NEXT_TRACK)
    }

    /// Taps the previous-track key.
    pub fn previous(&self) -> (strokes: Vec<KeyStroke>)
        ensures
            strokes@ == press_release(media_key_for(MediaAction::Previous)),
    {
        self.send_media_key(VK_MEDIA_PREV_TRACK)
    }

    /// Taps the volume-up key.
    pub fn volume_up(&self) -> (strokes: Vec<KeyStroke>)
        ensures
            strokes@ == press_release(media_key_for(MediaAction::VolumeUp)),
    {
        self.send_media_key(VK_VOLUME_UP)
    }

    /// Taps the volume-down key.
    pub fn volume_down(&self) -> (strokes: Vec<KeyStroke>)
        ensures
            strokes@ == press_release(media_key_for(MediaAction::VolumeDown)),
    {
        self.send_media_key(VK_VOLUME_DOWN)
    }

    /// Taps play/pause rather than stop, so that playback can be resumed.
    pub fn stop(&self) -> (strokes: Vec<KeyStroke>)
        ensures
            strokes@ == press_release(media_key_for(MediaAction::Stop)),
    {
        self.send_media_key(VK_MEDIA_PLAY_PAUSE)
    }
}

} // verus!
