//! The settings surface, without its widgets: the messages it exchanges with
//! the rest of the program, what it remembers, and what its buttons decide.

use crate::config::{Config, MediaAction};
use crate::hotkey_listener::DispatchEvent;
use crate::keys::{lemma_name_spelling, PhysicalKey};
use vstd::prelude::*;

verus! {

/// Messages from the settings surface to the program.
#[derive(Debug)]
pub enum UiMessage {
    /// The edited configuration was saved and is to be used from now on.
    SaveConfig(Config),
    /// The user asked to quit.
    Exit,
}

/// Messages from the program to the settings surface.
#[derive(Debug)]
pub enum AppMessage {
    /// A bound key was pressed and its command carried out.
    HotkeyPressed(DispatchEvent),
    /// The configuration in use has changed.
    ConfigUpdated(Config),
}

impl Clone for UiMessage {
    fn clone(&self) -> (copy: Self)
        ensures
            match (*self, copy) {
                (UiMessage::SaveConfig(config), UiMessage::SaveConfig(same)) => same@ == config@,
                (UiMessage::Exit, UiMessage::Exit) => true,
                _ => false,
            },
    {
        match self {
            UiMessage::SaveConfig(config) => UiMessage::SaveConfig(config.clone()),
            UiMessage::Exit => UiMessage::Exit,
        }
    }
}

impl Clone for AppMessage {
    fn clone(&self) -> (copy: Self)
        ensures
            match (*self, copy) {
                (AppMessage::HotkeyPressed(event), AppMessage::HotkeyPressed(same)) => same
                    == event,
                (AppMessage::ConfigUpdated(config), AppMessage::ConfigUpdated(same)) => same@
                    == config@,
                _ => false,
            },
    {
        match self {
            AppMessage::HotkeyPressed(event) => AppMessage::HotkeyPressed(*event),
            AppMessage::ConfigUpdated(config) => AppMessage::ConfigUpdated(config.clone()),
        }
    }
}

/// The exit code of a regular end, also when the user asked for it.
pub const EXIT_OK: i32 = 0;

/// The exit code when the settings surface could not be opened.
pub const EXIT_UI_FAILED: i32 = 1;

/// How long the last action stays on display, in milliseconds.
pub const LAST_ACTION_WINDOW: u64 = 3000;

/// What the thread that applies configuration updates does next.
#[derive(Clone, Copy, Debug, PartialEq, Eq, Structural)]
pub enum ControlStep {
    /// Wait for the next message.
    Continue,
    /// End the process with this exit code.
    Exit(i32),
    /// End this thread; the hotkeys go on working with the last table.
    Stop,
}

/// Applies one message from the settings surface to the keybinding table.
/// `None` stands for a channel that is closed or broken. A saved
/// configuration takes the place of the whole table.
pub fn handle_ui_message(config: &mut Config, received: Option<UiMessage>) -> (step: ControlStep)
    ensures
        match received {
            Some(UiMessage::SaveConfig(new_config)) => step == ControlStep::Continue
                && final(config)@ == new_config@,
            Some(UiMessage::Exit) => step == ControlStep::Exit(EXIT_OK)
                && final(config)@ == old(config)@,
            None => step == ControlStep::Stop && final(config)@ == old(config)@,
        },
{
    match received {
        Some(UiMessage::SaveConfig(new_config)) => {
            config.replace(new_config);
            ControlStep::Continue
        },
        Some(UiMessage::Exit) => ControlStep::Exit(EXIT_OK),
        None => ControlStep::Stop,
    }
}

/// The exit code of the process, given whether the settings surface ran.
pub fn exit_code(ui_ran: bool) -> (code: i32)
    ensures
        code == if ui_ran {
            EXIT_OK
        } else {
            EXIT_UI_FAILED
        },
{
    if ui_ran {
        EXIT_OK
    } else {
        EXIT_UI_FAILED
    }
}

/// Whether an event of the time `timestamp` is still on display at `now`:
/// it is for less than three seconds.
pub open spec fn on_display(timestamp: u64, now: u64) -> bool {
    now - timestamp < LAST_ACTION_WINDOW
}

/// The keys in the order in which the settings surface lists them: by
/// name, read as text.
pub open spec fn listing_order() -> Seq<PhysicalKey> {
    seq![
        PhysicalKey::F1,
        PhysicalKey::F10,
        PhysicalKey::F11,
        PhysicalKey::F12,
        PhysicalKey::F2,
        PhysicalKey::F3,
        PhysicalKey::F4,
        PhysicalKey::F5,
        PhysicalKey::F6,
        PhysicalKey::F7,
        PhysicalKey::F8,
        PhysicalKey::F9,
    ]
}

/// Whether the text `a` comes before the text `b`: at the first place where
/// they differ `a` has the lesser character, or `a` ends there and `b` goes
/// on.
pub open spec fn comes_before(a: Seq<char>, b: Seq<char>) -> bool
    decreases a.len(),
{
    if b.len() == 0 {
        false
    } else if a.len() == 0 {
        true
    } else if a[0] != b[0] {
        (a[0] as u32) < (b[0] as u32)
    } else {
        comes_before(a.drop_first(), b.drop_first())
    }
}

/// The listing holds every key once, and each key's name comes before the
/// names of the keys after it.
pub proof fn lemma_listing_is_by_name()
    ensures
        forall|key: PhysicalKey| listing_order().contains(key),
        forall|i: int, j: int|
            0 <= i < j < listing_order().len() ==> comes_before(
                #[trigger] listing_order()[i].name(),
                #[trigger] listing_order()[j].name(),
            ),
{
    let order = listing_order();
    assert forall|key: PhysicalKey| order.contains(key) by {
        assert(order[listing_rank(key)] == key);
    }
    assert forall|i: int, j: int| 0 <= i < j < order.len() implies comes_before(
        #[trigger] order[i].name(),
        #[trigger] order[j].name(),
    ) by {
        lemma_comes_before(order[i], order[j]);
    }
}

/// The place of a key in the listing.
spec fn listing_rank(key: PhysicalKey) -> int {
    match key {
        PhysicalKey::F1 => 0,
        PhysicalKey::F10 => 1,
        PhysicalKey::F11 => 2,
        PhysicalKey::F12 => 3,
        PhysicalKey::F2 => 4,
        PhysicalKey::F3 => 5,
        PhysicalKey::F4 => 6,
        PhysicalKey::F5 => 7,
        PhysicalKey::F6 => 8,
        PhysicalKey::F7 => 9,
        PhysicalKey::F8 => 10,
        PhysicalKey::F9 => 11,
    }
}

/// A key that stands earlier in the listing has the earlier name.
proof fn lemma_comes_before(a: PhysicalKey, b: PhysicalKey)
    requires
        listing_rank(a) < listing_rank(b),
    ensures
        comes_before(a.name(), b.name()),
{
    lemma_name_spelling(a);
    lemma_name_spelling(b);
    reveal_with_fuel(comes_before, 4);
}

/// The bindings of the first `n` keys of the listing.
pub open spec fn rows_upto(table: Map<PhysicalKey, MediaAction>, n: int) -> Seq<
    (PhysicalKey, MediaAction),
>
    decreases n,
{
    if n <= 0 || n > listing_order().len() {
        Seq::empty()
    } else {
        let before = rows_upto(table, n - 1);
        let key = listing_order()[n - 1];
        if table.contains_key(key) {
            before.push((key, table[key]))
        } else {
            before
        }
    }
}

/// The rows of the settings surface: the bindings in listing order.
pub open spec fn rows_of(table: Map<PhysicalKey, MediaAction>) -> Seq<(PhysicalKey, MediaAction)> {
    rows_upto(table, 12)
}

/// What the settings surface holds: the configuration under edit, which is
/// not in use until it is saved, and the last key press it was told of.
#[derive(Debug)]
pub struct HotkeyMapperApp {
    pub config: Config,
    pub last_pressed_info: Option<DispatchEvent>,
}

impl HotkeyMapperApp {
    /// The surface as it opens: `config` to edit, no key press to show.
    pub fn new(config: Config) -> (app: Self)
        ensures
            app.config@ == config@,
            app.last_pressed_info is None,
    {
        HotkeyMapperApp { config, last_pressed_info: None }
    }

    /// Takes one message from the program in: a key press becomes the last
    /// action, an updated configuration takes the place of the edited one.
    pub fn process_app_message(&mut self, message: AppMessage)
        ensures
            match message {
                AppMessage::HotkeyPressed(event) => final(self).last_pressed_info == Some(event)
                    && final(self).config@ == old(self).config@,
                AppMessage::ConfigUpdated(config) => final(self).config@ == config@
                    && final(self).last_pressed_info == old(self).last_pressed_info,
            },
    {
        match message {
            AppMessage::HotkeyPressed(event) => {
                self.last_pressed_info = Some(event);
            },
            AppMessage::ConfigUpdated(config) => {
                self.config = config;
            },
        }
    }

    /// The last action to show at the time `now`: the last key press, as
    /// long as it is less than three seconds old.
    pub fn last_action(&self, now: u64) -> (shown: Option<DispatchEvent>)
        ensures
            shown == match self.last_pressed_info {
                Some(event) => if on_display(event.timestamp, now) {
                    Some(event)
                } else {
                    None
                },
                None => None,
            },
    {
        match self.last_pressed_info {
            Some(event) => {
                if now < event.timestamp || now - event.timestamp < LAST_ACTION_WINDOW {
                    Some(event)
                } else {
                    None
                }
            },
            None => None,
        }
    }

    /// The rows to show: one for each binding under edit.
    pub fn rows(&self) -> (rows: Vec<(PhysicalKey, MediaAction)>)
        ensures
            rows@ == rows_of(self.config@),
    {
        let order: [PhysicalKey; 12] = [
            PhysicalKey::F1,
            PhysicalKey::F10,
            PhysicalKey::F11,
            PhysicalKey::F12,
            PhysicalKey::F2,
            PhysicalKey::F3,
            PhysicalKey::F4,
            PhysicalKey::F5,
            PhysicalKey::F6,
            PhysicalKey::F7,
            PhysicalKey::F8,
            PhysicalKey::F9,
        ];
        let mut rows: Vec<(PhysicalKey, MediaAction)> = Vec::new();
        let mut i: usize = 0;
        while i < 12
            invariant
                i <= 12,
                order@ == listing_order(),
                rows@ == rows_upto(self.config@, i as int),
            decreases 12 - i,
        {
            let key: PhysicalKey = order[i];
            if let Some(action) = self.config.lookup(key) {
                rows.push((key, action));
            }
            i += 1;
        }
        rows
    }

    /// A row's action was changed.
    pub fn set_action(&mut self, key: PhysicalKey, action: MediaAction)
        ensures
            final(self).config@ == old(self).config@.insert(key, action),
            final(self).last_pressed_info == old(self).last_pressed_info,
    {
        self.config.insert(key, action);
    }

    /// A row was deleted.
    pub fn remove_hotkey(&mut self, key: PhysicalKey)
        ensures
            final(self).config@ == old(self).config@.remove(key),
            final(self).last_pressed_info == old(self).last_pressed_info,
    {
        self.config.remove(key);
    }

    /// A hotkey was asked for: F1 is bound to play/pause, unless F1 is
    /// bound already.
    pub fn add_hotkey(&mut self)
        ensures
            final(self).config@ == if old(self).config@.contains_key(PhysicalKey::F1) {
                old(self).config@
            } else {
                old(self).config@.insert(PhysicalKey::F1, MediaAction::PlayPause)
            },
            final(self).last_pressed_info == old(self).last_pressed_info,
    {
        if !self.config.contains_key(PhysicalKey::F1) {
            self.config.insert(PhysicalKey::F1, MediaAction::PlayPause);
        }
    }

    /// The configuration was to be saved. Only if it was written to the
    /// file is it handed on, whole, to take the place of the table in use.
    pub fn saved(&self, written: bool) -> (message: Option<UiMessage>)
        ensures
            match message {
                Some(UiMessage::SaveConfig(config)) => written && config@ == self.config@,
                Some(UiMessage::Exit) => false,
                None => !written,
            },
    {
        if written {
            Some(UiMessage::SaveConfig(self.config.clone()))
        } else {
            None
        }
    }

    /// The configuration was read from the file again. What was read takes
    /// the place of the edited configuration; if reading failed, nothing
    /// changes.
    pub fn reloaded(&mut self, loaded: Option<Config>)
        ensures
            final(self).config@ == match loaded {
                Some(config) => config@,
                None => old(self).config@,
            },
            final(self).last_pressed_info == old(self).last_pressed_info,
    {
        if let Some(config) = loaded {
            self.config = config;
        }
    }

    /// The user asked to quit: the message for the program, and the exit
    /// code of the process.
    pub fn exit(&self) -> (farewell: (UiMessage, i32))
        ensures
            farewell.0 is Exit,
            farewell.1 == EXIT_OK,
    {
        (UiMessage::Exit, EXIT_OK)
    }
}

} // verus!
