//! The keybinding table: which function key triggers which media action.

use crate::keys::{lemma_id_leads_back, lemma_with_id, PhysicalKey};
use crate::text::same_text;
use std::collections::HashMap;
use vstd::prelude::*;

verus! {

broadcast use vstd::std_specs::hash::group_hash_axioms;

/// A command for the media player.
#[derive(Clone, Copy, Debug, PartialEq, Eq, Hash, Structural)]
pub enum MediaAction {
    PlayPause,
    Next,
    Previous,
    VolumeUp,
    VolumeDown,
    Stop,
}

impl MediaAction {
    /// The action's name, as the configuration file writes it.
    pub open spec fn name(self) -> Seq<char> {
        match self {
            MediaAction::PlayPause => "PlayPause"@,
            MediaAction::Next => "Next"@,
            MediaAction::Previous => "Previous"@,
            MediaAction::VolumeUp => "VolumeUp"@,
            MediaAction::VolumeDown => "VolumeDown"@,
            MediaAction::Stop => "Stop"@,
        }
    }

    /// The action that carries the given name, if one does.
    pub open spec fn named(text: Seq<char>) -> Option<MediaAction> {
        if exists|action: MediaAction| action.name() == text {
            Some(choose|action: MediaAction| action.name() == text)
        } else {
            None
        }
    }

    /// The action's name.
    pub fn as_str(self) -> (name: &'static str)
        ensures
            name@ == self.name(),
    {
        match self {
            MediaAction::PlayPause => "PlayPause",
            MediaAction::Next => "Next",
            MediaAction::Previous => "Previous",
            MediaAction::VolumeUp => "VolumeUp",
            MediaAction::VolumeDown => "VolumeDown",
            MediaAction::Stop => "Stop",
        }
    }
}

/// Reads an action's name: `Some` of the action called `s`, `None` if `s`
/// names no action.
pub fn parse_action(s: &str) -> (action: Option<MediaAction>)
    ensures
        action == MediaAction::named(s@),
{
    let found = if same_text(s, MediaAction::PlayPause.as_str()) {
        Some(MediaAction::PlayPause)
    } else if same_text(s, MediaAction::Next.as_str()) {
        Some(MediaAction::Next)
    } else if same_text(s, MediaAction::Previous.as_str()) {
        Some(MediaAction::Previous)
    } else if same_text(s, MediaAction::VolumeUp.as_str()) {
        Some(MediaAction::VolumeUp)
    } else if same_text(s, MediaAction::VolumeDown.as_str()) {
        Some(MediaAction::VolumeDown)
    } else if same_text(s, MediaAction::Stop.as_str()) {
        Some(MediaAction::Stop)
    } else {
        None
    };
    proof {
        if let Some(action) = found {
            let chosen = choose|other: MediaAction| other.name() == s@;
            lemma_action_names_differ(chosen, action);
        }
    }
    found
}

/// The length of an action's name and its first letter; no two actions agree
/// in both.
pub open spec fn name_mark(action: MediaAction) -> (nat, char) {
    match action {
        MediaAction::PlayPause => (9, 'P'),
        MediaAction::Next => (4, 'N'),
        MediaAction::Previous => (8, 'P'),
        MediaAction::VolumeUp => (8, 'V'),
        MediaAction::VolumeDown => (10, 'V'),
        MediaAction::Stop => (4, 'S'),
    }
}

/// An action's name has the length and the first letter that `name_mark`
/// gives.
pub proof fn lemma_action_name_mark(action: MediaAction)
    ensures
        (action.name().len(), action.name()[0]) == name_mark(action),
{
    reveal_strlit("PlayPause");
    reveal_strlit("Next");
    reveal_strlit("Previous");
    reveal_strlit("VolumeUp");
    reveal_strlit("VolumeDown");
    reveal_strlit("Stop");
}

/// No two actions share a name.
pub proof fn lemma_action_names_differ(a: MediaAction, b: MediaAction)
    requires
        a.name() == b.name(),
    ensures
        a == b,
{
    lemma_action_name_mark(a);
    lemma_action_name_mark(b);
}

/// An action's name is read back as that action.
pub proof fn lemma_action_name_read_back(action: MediaAction)
    ensures
        MediaAction::named(action.name()) == Some(action),
{
    let chosen = choose|other: MediaAction| other.name() == action.name();
    lemma_action_names_differ(chosen, action);
}

/// The bindings a fresh installation starts with.
pub open spec fn default_bindings() -> Map<PhysicalKey, MediaAction> {
    map![
        PhysicalKey::F7 => MediaAction::Previous,
        PhysicalKey::F8 => MediaAction::PlayPause,
        PhysicalKey::F9 => MediaAction::Next,
        PhysicalKey::F10 => MediaAction::Stop,
        PhysicalKey::F11 => MediaAction::VolumeDown,
        PhysicalKey::F12 => MediaAction::VolumeUp,
    ]
}

/// The keybinding table. Its view is the mapping from key to action; a key
/// has at most one action.
#[derive(Debug)]
pub struct Config {
    /// The bound actions, each under its key's number.
    hotkeys: HashMap<i32, MediaAction>,
}

impl View for Config {
    type V = Map<PhysicalKey, MediaAction>;

    closed spec fn view(&self) -> Map<PhysicalKey, MediaAction> {
        Map::new(
            |key: PhysicalKey| self.hotkeys@.contains_key(key.id() as i32),
            |key: PhysicalKey| self.hotkeys@[key.id() as i32],
        )
    }
}

impl Config {
    /// A table without bindings.
    pub fn new() -> (config: Config)
        ensures
            config@ == Map::<PhysicalKey, MediaAction>::empty(),
    {
        let config = Config { hotkeys: HashMap::new() };
        config
    }

    /// The action bound to `key`, if any.
    pub fn lookup(&self, key: PhysicalKey) -> (action: Option<MediaAction>)
        ensures
            action == self@.get(key),
    {
        let id: i32 = key.hotkey_id();
        match self.hotkeys.get(&id) {
            Some(action) => Some(*action),
            None => None,
        }
    }

    /// Whether `key` is bound.
    pub fn contains_key(&self, key: PhysicalKey) -> (bound: bool)
        ensures
            bound == self@.contains_key(key),
    {
        let id: i32 = key.hotkey_id();
        self.hotkeys.contains_key(&id)
    }

    /// Swaps the whole table for `new_table`: nothing of the old bindings
    /// stays.
    pub fn replace(&mut self, new_table: Config)
        ensures
            final(self)@ == new_table@,
    {
        *self = new_table;
    }

    /// Binds `key` to `action` and returns what the key was bound to before.
    pub fn insert(&mut self, key: PhysicalKey, action: MediaAction) -> (previous: Option<
        MediaAction,
    >)
        ensures
            final(self)@ == old(self)@.insert(key, action),
            previous == old(self)@.get(key),
    {
        let id: i32 = key.hotkey_id();
        let previous = self.hotkeys.insert(id, action);
        proof {
            assert forall|other: PhysicalKey| other != key implies other.id() != key.id() by {
                lemma_id_leads_back(other);
                lemma_id_leads_back(key);
            }
        }
        previous
    }

    /// Takes the binding of `key` away and returns what the key was bound to.
    pub fn remove(&mut self, key: PhysicalKey) -> (previous: Option<MediaAction>)
        ensures
            final(self)@ == old(self)@.remove(key),
            previous == old(self)@.get(key),
    {
        let id: i32 = key.hotkey_id();
        let previous = self.hotkeys.remove(&id);
        proof {
            assert forall|other: PhysicalKey| other != key implies other.id() != key.id() by {
                lemma_id_leads_back(other);
                lemma_id_leads_back(key);
            }
            assert(self@ =~= old(self)@.remove(key));
        }
        previous
    }

    /// The bindings in the order of their keys, F1 first.
    pub fn bindings(&self) -> (list: Vec<(PhysicalKey, MediaAction)>)
        ensures
            list@ == bindings_of(self@),
    {
        let mut list: Vec<(PhysicalKey, MediaAction)> = Vec::new();
        let mut id: i32 = 1;
        while id <= 12
            invariant
                1 <= id <= 13,
                list@ == bindings_upto(self@, id - 1),
            decreases 13 - id,
        {
            if let Some(key) = PhysicalKey::from_hotkey_id(id) {
                if let Some(action) = self.lookup(key) {
                    list.push((key, action));
                }
            }
            id += 1;
        }
        list
    }
}

impl Clone for Config {
    fn clone(&self) -> (copy: Config)
        ensures
            copy@ == self@,
    {
        let copy = Config { hotkeys: self.hotkeys.clone() };
        copy
    }
}

impl Default for Config {
    /// The table of a fresh installation: F7 to F12 bound, F1 to F6 free.
    fn default() -> (config: Config)
        ensures
            config@ == default_bindings(),
    {
        let mut config = Config::new();
        config.insert(PhysicalKey::F7, MediaAction::Previous);
        config.insert(PhysicalKey::F8, MediaAction::PlayPause);
        config.insert(PhysicalKey::F9, MediaAction::Next);
        config.insert(PhysicalKey::F10, MediaAction::Stop);
        config.insert(PhysicalKey::F11, MediaAction::VolumeDown);
        config.insert(PhysicalKey::F12, MediaAction::VolumeUp);
        config
    }
}

/// One access to a shared keybinding table. Each takes place as a whole,
/// under the table's guard.
pub enum Access {
    /// A key is looked up.
    Lookup(PhysicalKey),
    /// The table is swapped for another.
    Replace(Map<PhysicalKey, MediaAction>),
}

/// The table that stands after the accesses `history`, in this order, to a
/// table that held `initial` at first.
pub open spec fn table_after(initial: Map<PhysicalKey, MediaAction>, history: Seq<Access>) -> Map<
    PhysicalKey,
    MediaAction,
>
    decreases history.len(),
{
    if history.len() == 0 {
        initial
    } else {
        match history.last() {
            Access::Replace(table) => table,
            Access::Lookup(_) => table_after(initial, history.drop_last()),
        }
    }
}

/// Replacing is atomic with respect to looking up. Whatever accesses came
/// before it, a lookup goes by one table as a whole: the first table, or
/// one that a replace before it brought. It never sees some keys as one
/// table binds them and some as another does.
pub proof fn lemma_lookup_sees_one_table(
    initial: Map<PhysicalKey, MediaAction>,
    history: Seq<Access>,
)
    ensures
        table_after(initial, history) == initial || exists|i: int|
            0 <= i < history.len() && history[i] == Access::Replace(table_after(initial, history)),
    decreases history.len(),
{
    if history.len() > 0 {
        match history.last() {
            Access::Replace(table) => {
                assert(history[history.len() - 1] == Access::Replace(table));
            },
            Access::Lookup(_) => {
                lemma_lookup_sees_one_table(initial, history.drop_last());
                if table_after(initial, history) != initial {
                    let i = choose|i: int|
                        0 <= i < history.drop_last().len() && history.drop_last()[i]
                            == Access::Replace(table_after(initial, history.drop_last()));
                    assert(history[i] == history.drop_last()[i]);
                }
            },
        }
    }
}

/// A lookup that begins after a replace is over goes by the new table, for
/// every key, as long as no further replace comes between.
pub proof fn lemma_lookup_after_replace(
    initial: Map<PhysicalKey, MediaAction>,
    history: Seq<Access>,
    table: Map<PhysicalKey, MediaAction>,
    lookups: Seq<Access>,
)
    requires
        forall|i: int| 0 <= i < lookups.len() ==> lookups[i] is Lookup,
    ensures
        table_after(initial, history.push(Access::Replace(table)) + lookups) == table,
    decreases lookups.len(),
{
    let all = history.push(Access::Replace(table)) + lookups;
    if lookups.len() > 0 {
        assert(all.drop_last() =~= history.push(Access::Replace(table)) + lookups.drop_last());
        lemma_lookup_after_replace(initial, history, table, lookups.drop_last());
    }
}

/// The bindings of the keys numbered 1 to `n`, in the order of the keys.
pub open spec fn bindings_upto(table: Map<PhysicalKey, MediaAction>, n: int) -> Seq<
    (PhysicalKey, MediaAction),
>
    decreases n,
{
    if n <= 0 {
        Seq::empty()
    } else {
        let before = bindings_upto(table, n - 1);
        match PhysicalKey::with_id(n) {
            Some(key) => if table.contains_key(key) {
                before.push((key, table[key]))
            } else {
                before
            },
            None => before,
        }
    }
}

/// All bindings of a table, in the order of their keys, F1 first.
pub open spec fn bindings_of(table: Map<PhysicalKey, MediaAction>) -> Seq<
    (PhysicalKey, MediaAction),
> {
    bindings_upto(table, 12)
}

/// The bindings of the first `n` keys are those that the table holds for
/// them, in the order of the keys.
proof fn lemma_bindings_upto(table: Map<PhysicalKey, MediaAction>, n: int)
    requires
        0 <= n <= 12,
    ensures
        forall|i: int|
            0 <= i < bindings_upto(table, n).len() ==> {
                let binding = #[trigger] bindings_upto(table, n)[i];
                &&& binding.0.id() <= n
                &&& table.contains_key(binding.0)
                &&& table[binding.0] == binding.1
            },
        forall|i: int, j: int|
            0 <= i < j < bindings_upto(table, n).len() ==> (#[trigger] bindings_upto(
                table,
                n,
            )[i]).0.id() < (#[trigger] bindings_upto(table, n)[j]).0.id(),
        forall|key: PhysicalKey|
            table.contains_key(key) && key.id() <= n ==> bindings_upto(table, n).contains(
                (key, #[trigger] table[key]),
            ),
    decreases n,
{
    if n > 0 {
        lemma_bindings_upto(table, n - 1);
        let before = bindings_upto(table, n - 1);
        let now = bindings_upto(table, n);
        lemma_with_id(n);
        let last = PhysicalKey::with_id(n)->0;
        assert forall|key: PhysicalKey|
            table.contains_key(key) && key.id() <= n implies now.contains(
            (key, #[trigger] table[key]),
        ) by {
            if key.id() == n {
                lemma_id_leads_back(key);
                assert(now[now.len() - 1] == (key, table[key]));
            } else {
                let i = choose|i: int| 0 <= i < before.len() && before[i] == (key, table[key]);
                assert(now[i] == (key, table[key]));
            }
        }
    }
}

/// What the list of bindings holds: the table's bindings and nothing else,
/// each bound key once, in the order of the keys.
pub proof fn lemma_bindings_in_key_order(table: Map<PhysicalKey, MediaAction>)
    ensures
        forall|i: int|
            0 <= i < bindings_of(table).len() ==> {
                let binding = #[trigger] bindings_of(table)[i];
                table.contains_key(binding.0) && table[binding.0] == binding.1
            },
        forall|i: int, j: int|
            0 <= i < j < bindings_of(table).len() ==> (#[trigger] bindings_of(table)[i]).0.id() < (
            #[trigger] bindings_of(table)[j]).0.id(),
        forall|key: PhysicalKey|
            table.contains_key(key) ==> bindings_of(table).contains((key, #[trigger] table[key])),
{
    lemma_bindings_upto(table, 12);
    assert forall|key: PhysicalKey| table.contains_key(key) implies bindings_of(table).contains(
        (key, #[trigger] table[key]),
    ) by {
        lemma_id_leads_back(key);
    }
}

} // verus!
