use music_hotkey_mapper::config::MediaAction;
use music_hotkey_mapper::media_control::linux::{
    LinuxMediaController, Outcome, PlayerCommand, NO_PLAYER_NOTICE, PLAYERCTL,
};
use music_hotkey_mapper::media_control::windows::{
    KeyStroke, WindowsMediaController, KEYEVENTF_EXTENDEDKEY, KEYEVENTF_KEYUP,
    VK_MEDIA_NEXT_TRACK, VK_MEDIA_PLAY_PAUSE, VK_MEDIA_PREV_TRACK, VK_VOLUME_DOWN, VK_VOLUME_UP,
};
use music_hotkey_mapper::media_control::{Effect, MediaController, Platform};

const ALL_ACTIONS: [MediaAction; 6] = [
    MediaAction::PlayPause,
    MediaAction::Next,
    MediaAction::Previous,
    MediaAction::VolumeUp,
    MediaAction::VolumeDown,
    MediaAction::Stop,
];

fn tap(code: u8) -> Vec<KeyStroke> {
    vec![
        KeyStroke { code, flags: 0x0001 },
        KeyStroke { code, flags: 0x0003 },
    ]
}

#[test]
fn linux_methods_give_their_commands() {
    let controller = LinuxMediaController::new();
    assert_eq!(controller.play_pause(), vec![PlayerCommand::PlayPause]);
    assert_eq!(controller.next(), vec![PlayerCommand::Next]);
    assert_eq!(controller.previous(), vec![PlayerCommand::Previous]);
    assert_eq!(
        controller.volume_up(),
        vec![PlayerCommand::Volume, PlayerCommand::RaiseVolume]
    );
    assert_eq!(controller.volume_down(), vec![PlayerCommand::LowerVolume]);
}

#[test]
fn linux_stop_pauses() {
    assert_eq!(LinuxMediaController::new().stop(), vec![PlayerCommand::Pause]);
}

#[test]
fn player_commands_go_to_all_players() {
    assert_eq!(PLAYERCTL, "playerctl");
    assert_eq!(PlayerCommand::PlayPause.args(), vec!["-a", "play-pause"]);
    assert_eq!(PlayerCommand::Next.args(), vec!["-a", "next"]);
    assert_eq!(PlayerCommand::Previous.args(), vec!["-a", "previous"]);
    assert_eq!(PlayerCommand::Pause.args(), vec!["-a", "pause"]);
    assert_eq!(PlayerCommand::Volume.args(), vec!["-a", "volume"]);
}

#[test]
fn volume_changes_by_five_percent_of_the_current_volume() {
    assert_eq!(
        PlayerCommand::RaiseVolume.args(),
        vec!["-a", "volume", "0.05+"]
    );
    assert_eq!(
        PlayerCommand::LowerVolume.args(),
        vec!["-a", "volume", "0.05-"]
    );
}

#[test]
fn absorb_tells_success_no_player_and_failure_apart() {
    let controller = LinuxMediaController::new();
    assert_eq!(controller.absorb(true, b""), Outcome::Succeeded);
    assert_eq!(
        controller.absorb(true, b"No player could handle this command"),
        Outcome::Succeeded
    );
    assert_eq!(
        controller.absorb(false, b"No player could handle this command\n"),
        Outcome::NoActivePlayer
    );
    assert_eq!(
        controller.absorb(false, NO_PLAYER_NOTICE.as_bytes()),
        Outcome::NoActivePlayer
    );
    assert_eq!(
        controller.absorb(false, b"playerctl: No player could handle this command (exit 1)"),
        Outcome::NoActivePlayer
    );
    assert_eq!(controller.absorb(false, b""), Outcome::Failed);
    assert_eq!(controller.absorb(false, b"No players found"), Outcome::Failed);
    assert_eq!(
        controller.absorb(false, b"No player could handle this"),
        Outcome::Failed
    );
    assert_eq!(
        controller.absorb(false, b"no player could handle this command"),
        Outcome::Failed
    );
    assert_eq!(
        controller.absorb(false, b"\xff\xfeNo player could handle this command\xff"),
        Outcome::NoActivePlayer
    );
}

#[test]
fn no_active_player_is_a_no_op_and_the_next_command_still_runs() {
    let controller = MediaController::new(Platform::Linux);
    let inner = LinuxMediaController::new();
    let first = controller.play_pause();
    assert_eq!(first, vec![Effect::Run(PlayerCommand::PlayPause)]);
    // The utility finds no player for the first command.
    assert_eq!(
        inner.absorb(false, b"No player could handle this command"),
        Outcome::NoActivePlayer
    );
    // A command for another action is given as if nothing had happened.
    let second = controller.next();
    assert_eq!(second, vec![Effect::Run(PlayerCommand::Next)]);
    assert_eq!(PlayerCommand::Next.args(), vec!["-a", "next"]);
    assert_eq!(inner.absorb(true, b""), Outcome::Succeeded);
}

#[test]
fn a_failed_command_does_not_keep_the_next_from_running() {
    let controller = MediaController::new(Platform::Linux);
    let inner = LinuxMediaController::new();
    for action in ALL_ACTIONS {
        assert_eq!(inner.absorb(false, b"segmentation fault"), Outcome::Failed);
        assert!(!controller.execute(action).is_empty());
    }
}

#[test]
fn windows_flags() {
    assert_eq!(KEYEVENTF_EXTENDEDKEY, 0x0001);
    assert_eq!(KEYEVENTF_KEYUP, 0x0002);
    assert_eq!(VK_MEDIA_NEXT_TRACK, 0xB0);
    assert_eq!(VK_MEDIA_PREV_TRACK, 0xB1);
    assert_eq!(VK_MEDIA_PLAY_PAUSE, 0xB3);
    assert_eq!(VK_VOLUME_DOWN, 0xAE);
    assert_eq!(VK_VOLUME_UP, 0xAF);
}

#[test]
fn send_media_key_presses_then_releases() {
    let controller = WindowsMediaController::new();
    assert_eq!(controller.send_media_key(0xB3), tap(0xB3));
    assert_eq!(
        controller.send_media_key(0),
        vec![
            KeyStroke { code: 0, flags: KEYEVENTF_EXTENDEDKEY },
            KeyStroke { code: 0, flags: KEYEVENTF_EXTENDEDKEY | KEYEVENTF_KEYUP },
        ]
    );
    assert_eq!(controller.send_media_key(255), tap(255));
}

#[test]
fn windows_methods_tap_their_media_keys() {
    let controller = WindowsMediaController::new();
    assert_eq!(controller.play_pause(), tap(0xB3));
    assert_eq!(controller.next(), tap(0xB0));
    assert_eq!(controller.previous(), tap(0xB1));
    assert_eq!(controller.volume_up(), tap(0xAF));
    assert_eq!(controller.volume_down(), tap(0xAE));
}

#[test]
fn windows_stop_taps_play_pause() {
    let controller = WindowsMediaController::new();
    assert_eq!(controller.stop(), tap(0xB3));
    assert_eq!(controller.stop(), controller.play_pause());
}

#[test]
fn media_controller_knows_its_platform() {
    assert_eq!(MediaController::new(Platform::Linux).platform(), Platform::Linux);
    assert_eq!(
        MediaController::new(Platform::Windows).platform(),
        Platform::Windows
    );
}

#[test]
fn media_controller_on_linux_runs_commands() {
    let controller = MediaController::new(Platform::Linux);
    assert_eq!(
        controller.play_pause(),
        vec![Effect::Run(PlayerCommand::PlayPause)]
    );
    assert_eq!(controller.next(), vec![Effect::Run(PlayerCommand::Next)]);
    assert_eq!(
        controller.previous(),
        vec![Effect::Run(PlayerCommand::Previous)]
    );
    assert_eq!(
        controller.volume_up(),
        vec![
            Effect::Run(PlayerCommand::Volume),
            Effect::Run(PlayerCommand::RaiseVolume)
        ]
    );
    assert_eq!(
        controller.volume_down(),
        vec![Effect::Run(PlayerCommand::LowerVolume)]
    );
    assert_eq!(controller.stop(), vec![Effect::Run(PlayerCommand::Pause)]);
}

#[test]
fn media_controller_on_windows_injects_keys() {
    let controller = MediaController::new(Platform::Windows);
    let inject = |code: u8| -> Vec<Effect> { tap(code).into_iter().map(Effect::Inject).collect() };
    assert_eq!(controller.play_pause(), inject(0xB3));
    assert_eq!(controller.next(), inject(0xB0));
    assert_eq!(controller.previous(), inject(0xB1));
    assert_eq!(controller.volume_up(), inject(0xAF));
    assert_eq!(controller.volume_down(), inject(0xAE));
    assert_eq!(controller.stop(), inject(0xB3));
}

#[test]
fn execute_calls_the_method_of_the_action() {
    for platform in [Platform::Linux, Platform::Windows] {
        let controller = MediaController::new(platform);
        assert_eq!(
            controller.execute(MediaAction::PlayPause),
            controller.play_pause()
        );
        assert_eq!(controller.execute(MediaAction::Next), controller.next());
        assert_eq!(
            controller.execute(MediaAction::Previous),
            controller.previous()
        );
        assert_eq!(
            controller.execute(MediaAction::VolumeUp),
            controller.volume_up()
        );
        assert_eq!(
            controller.execute(MediaAction::VolumeDown),
            controller.volume_down()
        );
        assert_eq!(controller.execute(MediaAction::Stop), controller.stop());
    }
}
