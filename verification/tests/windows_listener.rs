use music_hotkey_mapper::config::{Config, MediaAction};
use music_hotkey_mapper::hotkey_listener::windows::{
    HotkeyRegistration, HotkeyRequest, LoopStep, Message, WindowsHotkeyListener, MOD_NOREPEAT,
    WM_HOTKEY,
};
use music_hotkey_mapper::hotkey_listener::{Dispatch, DispatchEvent, StartPlan};
use music_hotkey_mapper::keys::PhysicalKey;
use music_hotkey_mapper::media_control::windows::KeyStroke;
use music_hotkey_mapper::media_control::{Effect, MediaController, Platform};

fn listener() -> WindowsHotkeyListener {
    WindowsHotkeyListener::new(MediaController::new(Platform::Windows))
}

fn hotkey(id: i32, time: u64) -> Message {
    Message { status: 1, message: WM_HOTKEY, hotkey_id: id, time }
}

/// Runs one message through the listener and hands the registration back.
fn feed(
    listener: &WindowsHotkeyListener,
    registration: HotkeyRegistration,
    message: &Message,
    table: &Config,
) -> (HotkeyRegistration, Option<Dispatch>) {
    match listener.handle_message(registration, message, table) {
        LoopStep::Continue(held, outcome) => (held, outcome),
        LoopStep::Leave(ids) => panic!("the loop ended and gave back {:?}", ids),
    }
}

fn injected(code: u8) -> Vec<Effect> {
    vec![
        Effect::Inject(KeyStroke { code, flags: 1 }),
        Effect::Inject(KeyStroke { code, flags: 3 }),
    ]
}

#[test]
fn constants() {
    assert_eq!(MOD_NOREPEAT, 0x4000);
    assert_eq!(WM_HOTKEY, 0x0312);
}

#[test]
fn register_hotkeys_claims_each_bound_key() {
    let requests = listener().register_hotkeys(&Config::default());
    assert_eq!(
        requests,
        vec![
            HotkeyRequest { id: 7, modifiers: 0x4000, vk: 0x76 },
            HotkeyRequest { id: 8, modifiers: 0x4000, vk: 0x77 },
            HotkeyRequest { id: 9, modifiers: 0x4000, vk: 0x78 },
            HotkeyRequest { id: 10, modifiers: 0x4000, vk: 0x79 },
            HotkeyRequest { id: 11, modifiers: 0x4000, vk: 0x7A },
            HotkeyRequest { id: 12, modifiers: 0x4000, vk: 0x7B },
        ]
    );
    assert!(listener().register_hotkeys(&Config::new()).is_empty());
}

#[test]
fn start_claims_what_register_hotkeys_lists() {
    let mut table = Config::new();
    table.insert(PhysicalKey::F1, MediaAction::Stop);
    match listener().start(&table) {
        StartPlan::Register(requests) => {
            assert_eq!(requests, vec![HotkeyRequest { id: 1, modifiers: 0x4000, vk: 0x70 }]);
        }
        StartPlan::Subscribe => panic!("the registering source has to claim its keys"),
    }
}

#[test]
fn two_refused_keys_leave_four_to_handle_and_to_give_back() {
    let listener = listener();
    let table = Config::default();
    let requests = listener.register_hotkeys(&table);
    assert_eq!(requests.len(), 6);
    // F8 and F11 are claimed by another program.
    let outcomes = vec![true, false, true, true, false, true];
    let mut registration = listener.registration(&requests, &outcomes).unwrap();
    assert_eq!(registration.len(), 4);
    for id in [7, 9, 10, 12] {
        assert!(registration.holds(id));
    }
    for id in [8, 11] {
        assert!(!registration.holds(id));
    }

    // The four granted keys are handled.
    for (id, key, action, code) in [
        (7, PhysicalKey::F7, MediaAction::Previous, 0xB1),
        (9, PhysicalKey::F9, MediaAction::Next, 0xB0),
        (10, PhysicalKey::F10, MediaAction::Stop, 0xB3),
        (12, PhysicalKey::F12, MediaAction::VolumeUp, 0xAF),
    ] {
        let (held, outcome) = feed(&listener, registration, &hotkey(id, 40), &table);
        registration = held;
        let outcome = outcome.unwrap();
        assert_eq!(outcome.effects, injected(code));
        assert_eq!(outcome.event, DispatchEvent { key, action, timestamp: 40 });
    }
    // The two refused keys are not, although the table binds them.
    for id in [8, 11] {
        let (held, outcome) = feed(&listener, registration, &hotkey(id, 41), &table);
        registration = held;
        assert!(outcome.is_none());
    }
    assert_eq!(registration.len(), 4);

    // At shutdown four hotkeys are given back, not six.
    let quit = Message { status: 0, message: 0x0012, hotkey_id: 0, time: 50 };
    match listener.handle_message(registration, &quit, &table) {
        LoopStep::Leave(given_back) => {
            assert_eq!(given_back.len(), 4);
            assert_eq!(given_back, vec![7, 9, 10, 12]);
        }
        LoopStep::Continue(..) => panic!("a quit message has to end the loop"),
    }
}

#[test]
fn all_keys_granted() {
    let listener = listener();
    let requests = listener.register_hotkeys(&Config::default());
    let registration = listener.registration(&requests, &vec![true; 6]).unwrap();
    assert_eq!(registration.release(), vec![7, 8, 9, 10, 11, 12]);
}

#[test]
fn no_key_granted_stops_the_listener() {
    let listener = listener();
    let requests = listener.register_hotkeys(&Config::default());
    assert!(listener.registration(&requests, &vec![false; 6]).is_none());
    assert!(listener.registration(&requests, &vec![]).is_none());
    assert!(listener.registration(&vec![], &vec![]).is_none());
    assert!(listener.registration(&vec![], &vec![true]).is_none());
}

#[test]
fn one_key_granted_is_enough() {
    let listener = listener();
    let requests = listener.register_hotkeys(&Config::default());
    let outcomes = vec![false, false, false, false, false, true];
    let registration = listener.registration(&requests, &outcomes).unwrap();
    assert_eq!(registration.len(), 1);
    assert_eq!(registration.release(), vec![12]);
}

#[test]
fn a_claim_without_an_answer_counts_as_refused() {
    let listener = listener();
    let requests = listener.register_hotkeys(&Config::default());
    let registration = listener.registration(&requests, &vec![true, true]).unwrap();
    assert_eq!(registration.release(), vec![7, 8]);
}

#[test]
fn handle_hotkey_maps_the_number_back_to_the_key() {
    let listener = listener();
    let table = Config::default();
    let outcome = listener.handle_hotkey(8, &table, 3).unwrap();
    assert_eq!(outcome.effects, injected(0xB3));
    assert_eq!(
        outcome.event,
        DispatchEvent { key: PhysicalKey::F8, action: MediaAction::PlayPause, timestamp: 3 }
    );
    // A number without a key, and a key without a binding.
    assert!(listener.handle_hotkey(0, &table, 3).is_none());
    assert!(listener.handle_hotkey(13, &table, 3).is_none());
    assert!(listener.handle_hotkey(-8, &table, 3).is_none());
    assert!(listener.handle_hotkey(1, &table, 3).is_none());
}

#[test]
fn other_messages_are_passed_over() {
    let listener = listener();
    let table = Config::default();
    let requests = listener.register_hotkeys(&table);
    let registration = listener.registration(&requests, &vec![true; 6]).unwrap();
    // A timer message that happens to carry the number of a held hotkey.
    let timer = Message { status: 1, message: 0x0113, hotkey_id: 8, time: 1 };
    let (registration, outcome) = feed(&listener, registration, &timer, &table);
    assert!(outcome.is_none());
    // A hotkey message with a number that no key has.
    let (registration, outcome) = feed(&listener, registration, &hotkey(99, 1), &table);
    assert!(outcome.is_none());
    // The hotkeys are all still held.
    assert_eq!(registration.release(), vec![7, 8, 9, 10, 11, 12]);
}

#[test]
fn the_loop_ends_on_quit_and_on_an_error() {
    let listener = listener();
    let table = Config::default();
    let requests = listener.register_hotkeys(&table);
    for status in [0, -1, -5, i32::MIN] {
        let registration = listener.registration(&requests, &vec![true; 6]).unwrap();
        // Even a hotkey message does not keep the loop going then.
        let message = Message { status, message: WM_HOTKEY, hotkey_id: 8, time: 1 };
        // Whatever ended the loop, every held hotkey is given back once.
        match listener.handle_message(registration, &message, &table) {
            LoopStep::Leave(given_back) => assert_eq!(given_back, vec![7, 8, 9, 10, 11, 12]),
            LoopStep::Continue(..) => panic!("status {} has to end the loop", status),
        }
    }
}

#[test]
fn keys_bound_after_the_start_are_not_claimed() {
    let listener = listener();
    let mut table = Config::new();
    table.insert(PhysicalKey::F8, MediaAction::PlayPause);
    let requests = listener.register_hotkeys(&table);
    let registration = listener.registration(&requests, &vec![true]).unwrap();
    // The table changes while the listener runs.
    let mut new_table = Config::new();
    new_table.insert(PhysicalKey::F8, MediaAction::Next);
    new_table.insert(PhysicalKey::F2, MediaAction::Stop);
    table.replace(new_table);
    // The claimed key goes by the new table.
    let (registration, outcome) = feed(&listener, registration, &hotkey(8, 7), &table);
    assert_eq!(outcome.unwrap().event.action, MediaAction::Next);
    // The newly bound key was never claimed and does not fire.
    let (registration, outcome) = feed(&listener, registration, &hotkey(2, 8), &table);
    assert!(outcome.is_none());
    assert_eq!(registration.release(), vec![8]);
}
