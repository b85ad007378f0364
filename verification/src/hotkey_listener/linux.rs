//! The hotkey source that taps every keyboard event of the system.

use super::{dispatch, dispatch_of, plan_of, Dispatch, DispatchPlan, StartPlan};
use crate::config::{Config, MediaAction};
use crate::keys::{parse_key, PhysicalKey};
use crate::media_control::{MediaController, Platform};
use vstd::prelude::*;

verus! {

/// What happened at the keyboard or the mouse. A key is given by its name.
#[derive(Debug)]
pub enum EventType {
    KeyPress(String),
    KeyRelease(String),
    /// Anything that is not a key going down or up.
    Other,
}

/// One event from the tap. `time` is the time of the event in milliseconds.
#[derive(Debug)]
pub struct Event {
    pub time: u64,
    pub event_type: EventType,
}

/// The function key that `event` is a press of, if it is a press of one.
/// Releases, other events and presses of other keys give `None`.
pub open spec fn pressed_key(event: Event) -> Option<PhysicalKey> {
    match event.event_type {
        EventType::KeyPress(name) => PhysicalKey::named(name@),
        _ => None,
    }
}

/// What `event` leads to under the bindings `table`.
pub open spec fn event_outcome(
    event: Event,
    table: Map<PhysicalKey, MediaAction>,
    platform: Platform,
) -> Option<DispatchPlan> {
    match pressed_key(event) {
        Some(key) => dispatch_of(table, platform, key, event.time),
        None => None,
    }
}

/// Answers one event from the tap: the press of a function key is looked
/// up and dispatched, every other event is discarded.
pub fn callback(event: &Event, config: &Config, media_controller: &MediaController) -> (outcome:
    Option<Dispatch>)
    ensures
        plan_of(outcome) == event_outcome(*event, config@, media_controller.platform()),
{
    match &event.event_type {
        EventType::KeyPress(name) => match parse_key(name.as_str()) {
            Some(key) => dispatch(config, media_controller, key, event.time),
            None => None,
        },
        _ => None,
    }
}

/// The hotkey source that listens to all keys and keeps the bound ones.
#[derive(Debug)]
pub struct LinuxHotkeyListener {
    media_controller: MediaController,
}

impl LinuxHotkeyListener {
    /// The platform whose commands the listener's dispatches hold.
    pub closed spec fn platform(&self) -> Platform {
        self.media_controller.platform()
    }

    /// The listener that has `media_controller` carry the actions out.
    pub fn new(media_controller: MediaController) -> (listener: Self)
        ensures
            listener.platform() == media_controller.platform(),
    {
        LinuxHotkeyListener { media_controller }
    }

    /// Starts listening: the host subscribes to the tap, once. No key has
    /// to be claimed, and bindings that change later are honoured, because
    /// every event is held against the table as it is then.
    pub fn start(&self) -> (plan: StartPlan)
        ensures
            plan is Subscribe,
    {
        StartPlan::Subscribe
    }

    /// Handles one event from the tap. Only the press of a function key
    /// that `config` binds leads to a dispatch.
    pub fn handle_event(&self, event: &Event, config: &Config) -> (outcome: Option<Dispatch>)
        ensures
            plan_of(outcome) == event_outcome(*event, config@, self.platform()),
    {
        callback(event, config, &self.media_controller)
    }
}

} // verus!
