//! The hotkey source that claims the bound keys from the system.

use super::{dispatch, dispatch_of, plan_of, Dispatch, DispatchPlan, StartPlan};
use crate::config::{bindings_of, lemma_bindings_in_key_order, Config, MediaAction};
use crate::keys::PhysicalKey;
use crate::media_control::{MediaController, Platform};
use vstd::prelude::*;

verus! {

/// The modifier that keeps a held key from firing again and again.
pub const MOD_NOREPEAT: u32 = 0x4000;

/// The kind of message that reports a pressed hotkey.
pub const WM_HOTKEY: u32 = 0x0312;

/// The claim of one key: the number to report it under, the modifiers and
/// the key's virtual-key code.
#[derive(Clone, Copy, Debug, PartialEq, Eq, Structural)]
pub struct HotkeyRequest {
    pub id: i32,
    pub modifiers: u32,
    pub vk: u32,
}

/// One result of waiting on the message queue. `status` is positive for an
/// ordinary message, zero for the request to quit and negative for an
/// error; `hotkey_id` is the number that a hotkey message reports.
#[derive(Clone, Copy, Debug, PartialEq, Eq, Structural)]
pub struct Message {
    pub status: i32,
    pub message: u32,
    pub hotkey_id: i32,
    pub time: u64,
}

/// The claim of `key`: without modifier keys, and without repeat.
pub open spec fn request_for(key: PhysicalKey) -> HotkeyRequest {
    HotkeyRequest { id: key.id() as i32, modifiers: MOD_NOREPEAT, vk: key.code() as u32 }
}

/// One claim for each bound key, in the order of the keys.
pub open spec fn requests_for(table: Map<PhysicalKey, MediaAction>) -> Seq<HotkeyRequest> {
    Seq::new(bindings_of(table).len(), |i: int| request_for(bindings_of(table)[i].0))
}

/// The numbers of the claims that the system granted, in the order of the
/// claims. A claim without an outcome counts as refused.
pub open spec fn granted(requests: Seq<HotkeyRequest>, outcomes: Seq<bool>) -> Seq<i32>
    decreases requests.len(),
{
    if requests.len() == 0 {
        Seq::empty()
    } else {
        let before = granted(requests.drop_last(), outcomes);
        let last = requests.len() - 1;
        if last < outcomes.len() && outcomes[last] {
            before.push(requests[last].id)
        } else {
            before
        }
    }
}

/// What a hotkey message with the number `id` leads to.
pub open spec fn hotkey_outcome(
    id: i32,
    table: Map<PhysicalKey, MediaAction>,
    platform: Platform,
    time: u64,
) -> Option<DispatchPlan> {
    match PhysicalKey::with_id(id as int) {
        Some(key) => dispatch_of(table, platform, key, time),
        None => None,
    }
}

/// What a message with a positive status leads to, while the hotkeys with
/// the numbers `held` are registered: the report of one of them is
/// dispatched, every other message is passed over.
pub open spec fn message_outcome(
    held: Seq<i32>,
    message: Message,
    table: Map<PhysicalKey, MediaAction>,
    platform: Platform,
) -> Option<DispatchPlan> {
    if message.message == WM_HOTKEY && held.contains(message.hotkey_id) {
        hotkey_outcome(message.hotkey_id, table, platform, message.time)
    } else {
        None
    }
}

/// The hotkeys that the system granted, from the listener's start to its
/// stop. Leaving the message loop gives each of them back, once.
#[derive(Debug)]
pub struct HotkeyRegistration {
    ids: Vec<i32>,
}

impl View for HotkeyRegistration {
    type V = Seq<i32>;

    closed spec fn view(&self) -> Seq<i32> {
        self.ids@
    }
}

impl HotkeyRegistration {
    /// How many hotkeys are held.
    pub fn len(&self) -> (n: usize)
        ensures
            n == self@.len(),
    {
        self.ids.len()
    }

    /// Whether the hotkey with the number `id` is held.
    pub fn holds(&self, id: i32) -> (held: bool)
        ensures
            held == self@.contains(id),
    {
        let mut i: usize = 0;
        while i < self.ids.len()
            invariant
                i <= self.ids@.len(),
                forall|j: int| 0 <= j < i ==> self.ids@[j] != id,
            decreases self.ids@.len() - i,
        {
            if self.ids[i] == id {
                return true;
            }
            i += 1;
        }
        false
    }

    /// Ends the registration outside the message loop: the numbers to give
    /// back to the system, each granted hotkey once.
    pub fn release(self) -> (ids: Vec<i32>)
        ensures
            ids@ == self@,
    {
        self.ids
    }
}

/// What the message loop does after a message.
#[derive(Debug)]
pub enum LoopStep {
    /// Carry out the dispatch, if there is one, and wait for the next
    /// message. The hotkeys stay held.
    Continue(HotkeyRegistration, Option<Dispatch>),
    /// Leave the loop and give the hotkeys with these numbers back.
    Leave(Vec<i32>),
}

/// The hotkey source that registers each bound key with the system.
#[derive(Debug)]
pub struct WindowsHotkeyListener {
    media_controller: MediaController,
}

impl WindowsHotkeyListener {
    /// The platform whose commands the listener's dispatches hold.
    pub closed spec fn platform(&self) -> Platform {
        self.media_controller.platform()
    }

    /// The listener that has `media_controller` carry the actions out.
    pub fn new(media_controller: MediaController) -> (listener: Self)
        ensures
            listener.platform() == media_controller.platform(),
    {
        WindowsHotkeyListener { media_controller }
    }

    /// Starts listening: the host claims the hotkeys of `register_hotkeys`.
    pub fn start(&self, config: &Config) -> (plan: StartPlan)
        ensures
            plan matches StartPlan::Register(requests) && requests@ == requests_for(config@),
    {
        StartPlan::Register(self.register_hotkeys(config))
    }

    /// The claims to make: one for each key that `config` binds now. Keys
    /// bound later are not claimed until the listener starts again.
    pub fn register_hotkeys(&self, config: &Config) -> (requests: Vec<HotkeyRequest>)
        ensures
            requests@ == requests_for(config@),
    {
        let bindings = config.bindings();
        let mut requests: Vec<HotkeyRequest> = Vec::new();
        let mut i: usize = 0;
        while i < bindings.len()
            invariant
                i <= bindings@.len(),
                bindings@ == bindings_of(config@),
                requests@.len() == i,
                forall|j: int| 0 <= j < i ==> requests@[j] == request_for(bindings@[j].0),
            decreases bindings@.len() - i,
        {
            let key: PhysicalKey = bindings[i].0;
            requests.push(
                HotkeyRequest {
                    id: key.hotkey_id(),
                    modifiers: MOD_NOREPEAT,
                    vk: key.virtual_key(),
                },
            );
            i += 1;
        }
        requests
    }

    /// Takes the system's answers to the claims, `outcomes[i]` for
    /// `requests[i]`. A refused key is skipped. With no key granted the
    /// listener cannot work, and the result is `None`.
    pub fn registration(
        &self,
        requests: &Vec<HotkeyRequest>,
        outcomes: &Vec<bool>,
    ) -> (held: Option<HotkeyRegistration>)
        ensures
            match held {
                Some(registration) => registration@ == granted(requests@, outcomes@)
                    && registration@.len() > 0,
                None => granted(requests@, outcomes@).len() == 0,
            },
    {
        let mut ids: Vec<i32> = Vec::new();
        let mut i: usize = 0;
        while i < requests.len()
            invariant
                i <= requests@.len(),
                ids@ == granted(requests@.take(i as int), outcomes@),
            decreases requests@.len() - i,
        {
            proof {
                assert(requests@.take(i + 1).drop_last() =~= requests@.take(i as int));
            }
            if i < outcomes.len() && outcomes[i] {
                ids.push(requests[i].id);
            }
            i += 1;
        }
        assert(requests@.take(i as int) =~= requests@);
        if ids.len() == 0 {
            None
        } else {
            Some(HotkeyRegistration { ids })
        }
    }

    /// Handles the message of a pressed hotkey: finds the key with the
    /// number `hotkey_id` and dispatches it.
    pub fn handle_hotkey(&self, hotkey_id: i32, config: &Config, time: u64) -> (outcome: Option<
        Dispatch,
    >)
        ensures
            plan_of(outcome) == hotkey_outcome(hotkey_id, config@, self.platform(), time),
    {
        match PhysicalKey::from_hotkey_id(hotkey_id) {
            Some(key) => dispatch(config, &self.media_controller, key, time),
            None => None,
        }
    }

    /// Handles one result of waiting on the message queue. A status that is
    /// not positive ends the loop, whatever it is: every held hotkey is
    /// then given back, once. Of the other messages only the report of a
    /// hotkey that `registration` holds is dispatched.
    pub fn handle_message(
        &self,
        registration: HotkeyRegistration,
        message: &Message,
        config: &Config,
    ) -> (step: LoopStep)
        ensures
            match step {
                LoopStep::Leave(ids) => message.status <= 0 && ids@ == registration@,
                LoopStep::Continue(held, outcome) => message.status > 0 && held@ == registration@
                    && plan_of(outcome) == message_outcome(
                    registration@,
                    *message,
                    config@,
                    self.platform(),
                ),
            },
    {
        if message.status <= 0 {
            LoopStep::Leave(registration.release())
        } else if message.message == WM_HOTKEY && registration.holds(message.hotkey_id) {
            let outcome = self.handle_hotkey(message.hotkey_id, config, message.time);
            LoopStep::Continue(registration, outcome)
        } else {
            LoopStep::Continue(registration, None)
        }
    }
}

/// How many of the first `n` outcomes are grants.
pub open spec fn grants(outcomes: Seq<bool>, n: int) -> nat
    decreases n,
{
    if n <= 0 {
        0
    } else {
        grants(outcomes, n - 1) + if n - 1 < outcomes.len() && outcomes[n - 1] {
            1nat
        } else {
            0nat
        }
    }
}

/// As many hotkeys are held, and given back at the end, as claims were
/// granted: a refused claim is not given back.
pub proof fn lemma_granted_count(requests: Seq<HotkeyRequest>, outcomes: Seq<bool>)
    ensures
        granted(requests, outcomes).len() == grants(outcomes, requests.len() as int),
    decreases requests.len(),
{
    if requests.len() > 0 {
        lemma_granted_count(requests.drop_last(), outcomes);
    }
}

/// Whether one of the claims has the number `id`.
pub open spec fn claims(requests: Seq<HotkeyRequest>, id: i32) -> bool {
    exists|i: int| 0 <= i < requests.len() && (#[trigger] requests[i]).id == id
}

/// Of claims whose numbers rise, the granted numbers rise too, and each is
/// the number of a claim.
proof fn lemma_granted_rise(requests: Seq<HotkeyRequest>, outcomes: Seq<bool>)
    requires
        forall|i: int, j: int|
            0 <= i < j < requests.len() ==> (#[trigger] requests[i]).id
                < (#[trigger] requests[j]).id,
    ensures
        forall|a: int, b: int|
            #![trigger granted(requests, outcomes)[a], granted(requests, outcomes)[b]]
            0 <= a < b < granted(requests, outcomes).len() ==> granted(requests, outcomes)[a]
                < granted(requests, outcomes)[b],
        forall|a: int|
            0 <= a < granted(requests, outcomes).len() ==> claims(
                requests,
                #[trigger] granted(requests, outcomes)[a],
            ),
    decreases requests.len(),
{
    if requests.len() > 0 {
        let shorter = requests.drop_last();
        lemma_granted_rise(shorter, outcomes);
        let before = granted(shorter, outcomes);
        let now = granted(requests, outcomes);
        let last = requests.len() - 1;
        assert forall|a: int| 0 <= a < before.len() implies #[trigger] before[a]
            < requests[last].id && claims(requests, before[a]) by {
            let i = choose|i: int|
                0 <= i < shorter.len() && (#[trigger] shorter[i]).id == before[a];
            assert(shorter[i] == requests[i]);
        }
        assert forall|a: int| 0 <= a < now.len() implies claims(requests, #[trigger] now[a]) by {
            if a >= before.len() {
                assert(requests[last].id == now[a]);
            }
        }
    }
}

/// The hotkeys held after claiming the bound keys of a table are distinct,
/// and each belongs to a bound key: giving each held number back gives
/// every granted hotkey back exactly once.
pub proof fn lemma_each_grant_held_once(table: Map<PhysicalKey, MediaAction>, outcomes: Seq<bool>)
    ensures
        granted(requests_for(table), outcomes).no_duplicates(),
        forall|a: int|
            0 <= a < granted(requests_for(table), outcomes).len() ==> claims(
                requests_for(table),
                #[trigger] granted(requests_for(table), outcomes)[a],
            ),
{
    let requests = requests_for(table);
    lemma_bindings_in_key_order(table);
    lemma_granted_rise(requests, outcomes);
}

} // verus!
