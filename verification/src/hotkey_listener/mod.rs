//! The hotkey source and the dispatcher: from a captured key to the media
//! command and the notification that follow from it.
//!
//! Two kinds of source exist. One taps every keyboard event of the system and
//! keeps the presses of function keys; the other claims the bound keys from
//! the system at start and gives them back at shutdown. Both hand each key to
//! the same dispatcher.

pub mod linux;
pub mod windows;

use crate::config::{Config, MediaAction};
use crate::keys::PhysicalKey;
use crate::media_control::{effects_of, Effect, MediaController, Platform};
use linux::LinuxHotkeyListener;
use vstd::prelude::*;
use windows::{requests_for, HotkeyRequest, WindowsHotkeyListener};

verus! {

/// The record of one key press that led to an action. `timestamp` is the
/// time of the press, in milliseconds.
#[derive(Clone, Copy, Debug, PartialEq, Eq, Structural)]
pub struct DispatchEvent {
    pub key: PhysicalKey,
    pub action: MediaAction,
    pub timestamp: u64,
}

/// What one bound key press leads to: the effects of one media command,
/// then one notification.
#[derive(Debug)]
pub struct Dispatch {
    /// What the host has to do to carry the command out, in this order.
    pub effects: Vec<Effect>,
    /// What the host publishes to the observers afterwards.
    pub event: DispatchEvent,
}

/// A dispatch as a mathematical value.
pub struct DispatchPlan {
    pub effects: Seq<Effect>,
    pub event: DispatchEvent,
}

impl View for Dispatch {
    type V = DispatchPlan;

    open spec fn view(&self) -> DispatchPlan {
        DispatchPlan { effects: self.effects@, event: self.event }
    }
}

/// The plan that an optional dispatch stands for.
pub open spec fn plan_of(outcome: Option<Dispatch>) -> Option<DispatchPlan> {
    match outcome {
        Some(dispatch) => Some(dispatch@),
        None => None,
    }
}

/// What a press of `key` at `time` leads to under the bindings `table`:
/// nothing for an unbound key; for a bound key the effects of the bound
/// action on `platform` and the record of the press.
pub open spec fn dispatch_of(
    table: Map<PhysicalKey, MediaAction>,
    platform: Platform,
    key: PhysicalKey,
    time: u64,
) -> Option<DispatchPlan> {
    if table.contains_key(key) {
        Some(
            DispatchPlan {
                effects: effects_of(platform, table[key]),
                event: DispatchEvent { key, action: table[key], timestamp: time },
            },
        )
    } else {
        None
    }
}

/// Decides what a press of `key` leads to: looks the key up, and for a bound
/// key has the controller carry the action out and records the press.
pub fn dispatch(
    config: &Config,
    media_controller: &MediaController,
    key: PhysicalKey,
    time: u64,
) -> (outcome: Option<Dispatch>)
    ensures
        plan_of(outcome) == dispatch_of(config@, media_controller.platform(), key, time),
{
    match config.lookup(key) {
        Some(action) => {
            let effects = media_controller.execute(action);
            Some(Dispatch { effects, event: DispatchEvent { key, action, timestamp: time } })
        },
        None => None,
    }
}

/// A key that is not bound leads to nothing: no command, no notification.
pub proof fn lemma_unbound_key_is_ignored(
    table: Map<PhysicalKey, MediaAction>,
    platform: Platform,
    key: PhysicalKey,
    time: u64,
)
    requires
        !table.contains_key(key),
    ensures
        dispatch_of(table, platform, key, time) is None,
{
}

/// A bound key leads to the command of the action it is bound to and of no
/// other, and to one notification, which names the key and that action.
pub proof fn lemma_bound_key_dispatches_once(
    table: Map<PhysicalKey, MediaAction>,
    platform: Platform,
    key: PhysicalKey,
    time: u64,
)
    requires
        table.contains_key(key),
    ensures
        dispatch_of(table, platform, key, time) matches Some(plan) && {
            &&& plan.effects == effects_of(platform, table[key])
            &&& plan.event.key == key
            &&& plan.event.action == table[key]
            &&& plan.event.timestamp == time
        },
{
}

/// What the host has to set up before keys arrive.
#[derive(Debug)]
pub enum StartPlan {
    /// Open the tap on all keyboard events. Nothing has to be given back.
    Subscribe,
    /// Claim these hotkeys from the system.
    Register(Vec<HotkeyRequest>),
}

/// The hotkey source of one platform.
#[derive(Debug)]
enum ListenerKind {
    Windows(WindowsHotkeyListener),
    Linux(LinuxHotkeyListener),
}

/// The hotkey source of the platform at hand.
#[derive(Debug)]
pub struct HotkeyListener {
    inner: ListenerKind,
}

impl HotkeyListener {
    /// The listener's kind and the commands in its dispatches belong to one
    /// platform.
    #[verifier::type_invariant]
    spec fn consistent(self) -> bool {
        match self.inner {
            ListenerKind::Windows(inner) => inner.platform() == Platform::Windows,
            ListenerKind::Linux(inner) => inner.platform() == Platform::Linux,
        }
    }

    /// The platform whose hotkey source this is.
    pub closed spec fn platform(&self) -> Platform {
        match self.inner {
            ListenerKind::Windows(_) => Platform::Windows,
            ListenerKind::Linux(_) => Platform::Linux,
        }
    }

    /// The listener of the platform that `media_controller` serves.
    pub fn new(media_controller: MediaController) -> (listener: Self)
        ensures
            listener.platform() == media_controller.platform(),
    {
        match media_controller.platform() {
            Platform::Windows => HotkeyListener {
                inner: ListenerKind::Windows(WindowsHotkeyListener::new(media_controller)),
            },
            Platform::Linux => HotkeyListener {
                inner: ListenerKind::Linux(LinuxHotkeyListener::new(media_controller)),
            },
        }
    }

    /// Starts listening: says what the host has to set up. The tapping
    /// source subscribes once; the registering source claims one hotkey for
    /// each key that `config` binds at this moment.
    pub fn start(&self, config: &Config) -> (plan: StartPlan)
        ensures
            match plan {
                StartPlan::Subscribe => self.platform() == Platform::Linux,
                StartPlan::Register(requests) => self.platform() == Platform::Windows && requests@
                    == requests_for(config@),
            },
    {
        match &self.inner {
            ListenerKind::Windows(inner) => inner.start(config),
            ListenerKind::Linux(inner) => inner.start(),
        }
    }

    /// The tapping source, if this is one.
    pub fn linux(&self) -> (inner: Option<&LinuxHotkeyListener>)
        ensures
            match inner {
                Some(listener) => self.platform() == Platform::Linux && listener.platform()
                    == Platform::Linux,
                None => self.platform() == Platform::Windows,
            },
    {
        proof {
            use_type_invariant(self);
        }
        match &self.inner {
            ListenerKind::Windows(_) => None,
            ListenerKind::Linux(inner) => Some(inner),
        }
    }

    /// The registering source, if this is one.
    pub fn windows(&self) -> (inner: Option<&WindowsHotkeyListener>)
        ensures
            match inner {
                Some(listener) => self.platform() == Platform::Windows && listener.platform()
                    == Platform::Windows,
                None => self.platform() == Platform::Linux,
            },
    {
        proof {
            use_type_invariant(self);
        }
        match &self.inner {
            ListenerKind::Windows(inner) => Some(inner),
            ListenerKind::Linux(_) => None,
        }
    }
}

/// The number under which `key` is registered as a hotkey.
pub fn key_to_hotkey_id(key: &PhysicalKey) -> (id: Option<i32>)
    ensures
        id matches Some(n) && n == key.id(),
{
    Some(key.hotkey_id())
}

/// The virtual-key code of `key`.
pub fn key_to_vk(key: &PhysicalKey) -> (vk: Option<u32>)
    ensures
        vk matches Some(code) && code == key.code(),
{
    Some(key.virtual_key())
}

/// The key registered under `id`; `None` for a number that no key has.
pub fn hotkey_id_to_key(id: i32) -> (key: Option<PhysicalKey>)
    ensures
        key == PhysicalKey::with_id(id as int),
{
    PhysicalKey::from_hotkey_id(id)
}

} // verus!
