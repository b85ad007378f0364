//! The twelve function keys that can carry a binding.
//!
//! Every other description of a key (its name in the configuration file, the
//! number it is registered under, its virtual-key code) is derived here, from
//! one enumeration.

use crate::text::same_text;
use vstd::prelude::*;

verus! {

/// One of the function keys F1 to F12.
#[derive(Clone, Copy, Debug, PartialEq, Eq, Hash, Structural)]
pub enum PhysicalKey {
    F1,
    F2,
    F3,
    F4,
    F5,
    F6,
    F7,
    F8,
    F9,
    F10,
    F11,
    F12,
}

/// The virtual-key code of F1; the other function keys follow it in order.
pub const VK_F1: u32 = 0x70;

impl PhysicalKey {
    /// The number, 1 to 12, under which the key is registered with the system.
    pub open spec fn id(self) -> int {
        match self {
            PhysicalKey::F1 => 1,
            PhysicalKey::F2 => 2,
            PhysicalKey::F3 => 3,
            PhysicalKey::F4 => 4,
            PhysicalKey::F5 => 5,
            PhysicalKey::F6 => 6,
            PhysicalKey::F7 => 7,
            PhysicalKey::F8 => 8,
            PhysicalKey::F9 => 9,
            PhysicalKey::F10 => 10,
            PhysicalKey::F11 => 11,
            PhysicalKey::F12 => 12,
        }
    }

    /// The key with the given number, if the number is one of 1 to 12.
    pub open spec fn with_id(id: int) -> Option<PhysicalKey> {
        if id == 1 {
            Some(PhysicalKey::F1)
        } else if id == 2 {
            Some(PhysicalKey::F2)
        } else if id == 3 {
            Some(PhysicalKey::F3)
        } else if id == 4 {
            Some(PhysicalKey::F4)
        } else if id == 5 {
            Some(PhysicalKey::F5)
        } else if id == 6 {
            Some(PhysicalKey::F6)
        } else if id == 7 {
            Some(PhysicalKey::F7)
        } else if id == 8 {
            Some(PhysicalKey::F8)
        } else if id == 9 {
            Some(PhysicalKey::F9)
        } else if id == 10 {
            Some(PhysicalKey::F10)
        } else if id == 11 {
            Some(PhysicalKey::F11)
        } else if id == 12 {
            Some(PhysicalKey::F12)
        } else {
            None
        }
    }

    /// The key's virtual-key code: 0x70 for F1 up to 0x7B for F12.
    pub open spec fn code(self) -> int {
        VK_F1 + self.id() - 1
    }

    /// The key's name, as the configuration file writes it.
    pub open spec fn name(self) -> Seq<char> {
        match self {
            PhysicalKey::F1 => "F1"@,
            PhysicalKey::F2 => "F2"@,
            PhysicalKey::F3 => "F3"@,
            PhysicalKey::F4 => "F4"@,
            PhysicalKey::F5 => "F5"@,
            PhysicalKey::F6 => "F6"@,
            PhysicalKey::F7 => "F7"@,
            PhysicalKey::F8 => "F8"@,
            PhysicalKey::F9 => "F9"@,
            PhysicalKey::F10 => "F10"@,
            PhysicalKey::F11 => "F11"@,
            PhysicalKey::F12 => "F12"@,
        }
    }

    /// The key that carries the given name, if one does.
    pub open spec fn named(text: Seq<char>) -> Option<PhysicalKey> {
        if exists|key: PhysicalKey| key.name() == text {
            Some(choose|key: PhysicalKey| key.name() == text)
        } else {
            None
        }
    }

    /// The number under which the key is registered with the system.
    pub fn hotkey_id(self) -> (id: i32)
        ensures
            id == self.id(),
    {
        match self {
            PhysicalKey::F1 => 1,
            PhysicalKey::F2 => 2,
            PhysicalKey::F3 => 3,
            PhysicalKey::F4 => 4,
            PhysicalKey::F5 => 5,
            PhysicalKey::F6 => 6,
            PhysicalKey::F7 => 7,
            PhysicalKey::F8 => 8,
            PhysicalKey::F9 => 9,
            PhysicalKey::F10 => 10,
            PhysicalKey::F11 => 11,
            PhysicalKey::F12 => 12,
        }
    }

    /// The key registered under `id`; `None` for a number outside 1 to 12.
    pub fn from_hotkey_id(id: i32) -> (key: Option<PhysicalKey>)
        ensures
            key == PhysicalKey::with_id(id as int),
    {
        match id {
            1 => Some(PhysicalKey::F1),
            2 => Some(PhysicalKey::F2),
            3 => Some(PhysicalKey::F3),
            4 => Some(PhysicalKey::F4),
            5 => Some(PhysicalKey::F5),
            6 => Some(PhysicalKey::F6),
            7 => Some(PhysicalKey::F7),
            8 => Some(PhysicalKey::F8),
            9 => Some(PhysicalKey::F9),
            10 => Some(PhysicalKey::F10),
            11 => Some(PhysicalKey::F11),
            12 => Some(PhysicalKey::F12),
            _ => None,
        }
    }

    /// The key's virtual-key code.
    pub fn virtual_key(self) -> (vk: u32)
        ensures
            vk == self.code(),
    {
        let id: i32 = self.hotkey_id();
        VK_F1 + (id as u32) - 1
    }

    /// The key's name.
    pub fn as_str(self) -> (name: &'static str)
        ensures
            name@ == self.name(),
    {
        match self {
            PhysicalKey::F1 => "F1",
            PhysicalKey::F2 => "F2",
            PhysicalKey::F3 => "F3",
            PhysicalKey::F4 => "F4",
            PhysicalKey::F5 => "F5",
            PhysicalKey::F6 => "F6",
            PhysicalKey::F7 => "F7",
            PhysicalKey::F8 => "F8",
            PhysicalKey::F9 => "F9",
            PhysicalKey::F10 => "F10",
            PhysicalKey::F11 => "F11",
            PhysicalKey::F12 => "F12",
        }
    }
}

/// Reads a key's name: `Some` of the key called `s`, `None` if `s` names no
/// function key.
pub fn parse_key(s: &str) -> (key: Option<PhysicalKey>)
    ensures
        key == PhysicalKey::named(s@),
{
    let mut id: i32 = 1;
    while id <= 12
        invariant
            1 <= id <= 13,
            forall|other: PhysicalKey| other.id() < id ==> other.name() != s@,
        decreases 13 - id,
    {
        if let Some(candidate) = PhysicalKey::from_hotkey_id(id) {
            if same_text(s, candidate.as_str()) {
                proof {
                    let chosen = choose|key: PhysicalKey| key.name() == s@;
                    lemma_names_differ(chosen, candidate);
                }
                return Some(candidate);
            }
        }
        id += 1;
    }
    None
}

/// Each key has a number of its own between 1 and 12, and the number leads
/// back to the key.
pub proof fn lemma_id_leads_back(key: PhysicalKey)
    ensures
        1 <= key.id() <= 12,
        PhysicalKey::with_id(key.id()) == Some(key),
{
}

/// A number stands for a key exactly when it lies between 1 and 12, and the
/// key it stands for has that number.
pub proof fn lemma_with_id(id: int)
    ensures
        PhysicalKey::with_id(id) is Some <==> 1 <= id <= 12,
        PhysicalKey::with_id(id) matches Some(key) ==> key.id() == id,
{
}

/// The characters of a key's name: `F`, then the key's number in decimal.
pub open spec fn spelling(key: PhysicalKey) -> Seq<char> {
    match key {
        PhysicalKey::F1 => seq!['F', '1'],
        PhysicalKey::F2 => seq!['F', '2'],
        PhysicalKey::F3 => seq!['F', '3'],
        PhysicalKey::F4 => seq!['F', '4'],
        PhysicalKey::F5 => seq!['F', '5'],
        PhysicalKey::F6 => seq!['F', '6'],
        PhysicalKey::F7 => seq!['F', '7'],
        PhysicalKey::F8 => seq!['F', '8'],
        PhysicalKey::F9 => seq!['F', '9'],
        PhysicalKey::F10 => seq!['F', '1', '0'],
        PhysicalKey::F11 => seq!['F', '1', '1'],
        PhysicalKey::F12 => seq!['F', '1', '2'],
    }
}

/// A key's name is spelled `F` and the key's number.
pub proof fn lemma_name_spelling(key: PhysicalKey)
    ensures
        key.name() == spelling(key),
{
    reveal_strlit("F1");
    reveal_strlit("F2");
    reveal_strlit("F3");
    reveal_strlit("F4");
    reveal_strlit("F5");
    reveal_strlit("F6");
    reveal_strlit("F7");
    reveal_strlit("F8");
    reveal_strlit("F9");
    reveal_strlit("F10");
    reveal_strlit("F11");
    reveal_strlit("F12");
}

/// No two keys share a name.
pub proof fn lemma_names_differ(a: PhysicalKey, b: PhysicalKey)
    requires
        a.name() == b.name(),
    ensures
        a == b,
{
    lemma_name_spelling(a);
    lemma_name_spelling(b);
    // Names of one length differ in their last character.
    assert(spelling(a).len() == spelling(b).len());
    assert(spelling(a)[1] == spelling(b)[1]);
    if spelling(a).len() == 3 {
        assert(spelling(a)[2] == spelling(b)[2]);
    }
}

/// A key's name is read back as that key.
pub proof fn lemma_name_read_back(key: PhysicalKey)
    ensures
        PhysicalKey::named(key.name()) == Some(key),
{
    let chosen = choose|other: PhysicalKey| other.name() == key.name();
    lemma_names_differ(chosen, key);
}

} // verus!
