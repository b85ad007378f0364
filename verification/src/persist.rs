//! The configuration file: a JSON object with the one member `hotkeys`,
//! which maps the name of a key to the name of an action.

use crate::config::{
    bindings_of, bindings_upto, default_bindings, lemma_action_name_read_back,
    lemma_bindings_in_key_order, parse_action, Config, MediaAction,
};
use crate::json::{
    describe, entry_names_differ, json_members, json_text, names_differ, parse_members,
    render_members,
};
use crate::keys::{
    lemma_id_leads_back, lemma_name_read_back, lemma_names_differ, parse_key, PhysicalKey,
};
use crate::text::same_text;
use vstd::prelude::*;
use vstd::string::StringExecFns;

verus! {

/// Why a configuration could not be read or written.
#[derive(Debug, PartialEq, Eq)]
pub enum ConfigError {
    /// An entry's key is none of `F1` to `F12`. Holds the name found.
    InvalidKey(String),
    /// An entry's action is none of the six actions. Holds the name found.
    InvalidAction(String),
    /// The object has no member `hotkeys`.
    MissingHotkeys,
    /// The text is no JSON object of the expected shape, or the bindings
    /// could not be written as one. Holds the JSON library's message.
    Malformed(String),
}

/// An error as a mathematical value. The message of a malformed text is not
/// part of it.
pub enum ConfigFault {
    InvalidKey(Seq<char>),
    InvalidAction(Seq<char>),
    MissingHotkeys,
    Malformed,
}

impl View for ConfigError {
    type V = ConfigFault;

    open spec fn view(&self) -> ConfigFault {
        match self {
            ConfigError::InvalidKey(name) => ConfigFault::InvalidKey(name@),
            ConfigError::InvalidAction(name) => ConfigFault::InvalidAction(name@),
            ConfigError::MissingHotkeys => ConfigFault::MissingHotkeys,
            ConfigError::Malformed(_) => ConfigFault::Malformed,
        }
    }
}

/// The text that describes an error. For a malformed text it is the JSON
/// library's message, whatever that says.
pub open spec fn message_of(fault: ConfigFault, detail: Seq<char>) -> Seq<char> {
    match fault {
        ConfigFault::InvalidKey(name) => "Invalid key: "@ + name,
        ConfigFault::InvalidAction(name) => "Invalid action: "@ + name,
        ConfigFault::MissingHotkeys => "missing field `hotkeys`"@,
        ConfigFault::Malformed => detail,
    }
}

impl ConfigError {
    /// The JSON library's message, if the error holds one.
    pub open spec fn detail(&self) -> Seq<char> {
        match self {
            ConfigError::Malformed(detail) => detail@,
            _ => Seq::empty(),
        }
    }

    /// Describes the error in words.
    pub fn message(&self) -> (text: String)
        ensures
            text@ == message_of(self@, self.detail()),
    {
        match self {
            ConfigError::InvalidKey(name) => "Invalid key: ".to_owned().concat(name.as_str()),
            ConfigError::InvalidAction(name) => "Invalid action: ".to_owned().concat(name.as_str()),
            ConfigError::MissingHotkeys => "missing field `hotkeys`".to_owned(),
            ConfigError::Malformed(detail) => detail.clone(),
        }
    }
}

/// The name of the one member of the configuration object.
pub const HOTKEYS: &'static str = "hotkeys";

/// The entries of a table: for each bound key its name and the name of its
/// action, in the order of the keys.
pub open spec fn entries_of(table: Map<PhysicalKey, MediaAction>) -> Seq<(Seq<char>, Seq<char>)> {
    Seq::new(
        bindings_of(table).len(),
        |i: int| (bindings_of(table)[i].0.name(), bindings_of(table)[i].1.name()),
    )
}

/// The first action name among `entries` that names no action.
pub open spec fn unknown_action(entries: Seq<(Seq<char>, Seq<char>)>) -> Option<Seq<char>>
    decreases entries.len(),
{
    if entries.len() == 0 {
        None
    } else {
        match unknown_action(entries.drop_last()) {
            Some(name) => Some(name),
            None => if MediaAction::named(entries.last().1) is None {
                Some(entries.last().1)
            } else {
                None
            },
        }
    }
}

/// The first key name among `entries` that names no key.
pub open spec fn unknown_key(entries: Seq<(Seq<char>, Seq<char>)>) -> Option<Seq<char>>
    decreases entries.len(),
{
    if entries.len() == 0 {
        None
    } else {
        match unknown_key(entries.drop_last()) {
            Some(name) => Some(name),
            None => if PhysicalKey::named(entries.last().0) is None {
                Some(entries.last().0)
            } else {
                None
            },
        }
    }
}

/// The table that `entries` describe. Where a key occurs twice, the later
/// entry holds.
pub open spec fn table_of(entries: Seq<(Seq<char>, Seq<char>)>) -> Map<PhysicalKey, MediaAction>
    decreases entries.len(),
{
    if entries.len() == 0 {
        Map::empty()
    } else {
        let before = table_of(entries.drop_last());
        match (PhysicalKey::named(entries.last().0), MediaAction::named(entries.last().1)) {
            (Some(key), Some(action)) => before.insert(key, action),
            _ => before,
        }
    }
}

/// What reading `entries` gives: the first unknown action is an error; if
/// all actions are known, the first unknown key is one; otherwise the table.
pub open spec fn read_entries(entries: Seq<(Seq<char>, Seq<char>)>) -> Result<
    Map<PhysicalKey, MediaAction>,
    ConfigFault,
> {
    match unknown_action(entries) {
        Some(name) => Err(ConfigFault::InvalidAction(name)),
        None => match unknown_key(entries) {
            Some(name) => Err(ConfigFault::InvalidKey(name)),
            None => Ok(table_of(entries)),
        },
    }
}

/// A result of reading as a mathematical value.
pub open spec fn outcome_of(result: Result<Config, ConfigError>) -> Result<
    Map<PhysicalKey, MediaAction>,
    ConfigFault,
> {
    match result {
        Ok(config) => Ok(config@),
        Err(error) => Err(error@),
    }
}

/// Writes a table as entries of names.
pub fn serialize(config: &Config) -> (entries: Vec<(String, String)>)
    ensures
        entries.deep_view() == entries_of(config@),
{
    let bindings = config.bindings();
    let mut entries: Vec<(String, String)> = Vec::new();
    let mut i: usize = 0;
    while i < bindings.len()
        invariant
            i <= bindings@.len(),
            bindings@ == bindings_of(config@),
            entries@.len() == i,
            forall|j: int|
                0 <= j < i ==> #[trigger] entries@[j].deep_view() == (
                    bindings@[j].0.name(),
                    bindings@[j].1.name(),
                ),
        decreases bindings@.len() - i,
    {
        let key: PhysicalKey = bindings[i].0;
        let action: MediaAction = bindings[i].1;
        entries.push((key.as_str().to_owned(), action.as_str().to_owned()));
        i += 1;
    }
    entries
}

/// Reads a table from entries of names. An entry with an unknown action or
/// an unknown key is an error; nothing is skipped.
pub fn deserialize(entries: &Vec<(String, String)>) -> (result: Result<Config, ConfigError>)
    ensures
        outcome_of(result) == read_entries(entries.deep_view()),
{
    let ghost names = entries.deep_view();
    let mut i: usize = 0;
    while i < entries.len()
        invariant
            i <= entries@.len(),
            names == entries.deep_view(),
            unknown_action(names.take(i as int)) is None,
        decreases entries@.len() - i,
    {
        proof {
            assert(names.take(i + 1).drop_last() =~= names.take(i as int));
        }
        if parse_action(entries[i].1.as_str()).is_none() {
            proof {
                lemma_unknown_action_stays(names, i + 1);
            }
            return Err(ConfigError::InvalidAction(entries[i].1.clone()));
        }
        i += 1;
    }
    assert(names.take(i as int) =~= names);
    let mut config = Config::new();
    let mut k: usize = 0;
    while k < entries.len()
        invariant
            k <= entries@.len(),
            names == entries.deep_view(),
            unknown_action(names) is None,
            unknown_key(names.take(k as int)) is None,
            config@ == table_of(names.take(k as int)),
        decreases entries@.len() - k,
    {
        proof {
            assert(names.take(k + 1).drop_last() =~= names.take(k as int));
            lemma_actions_known(names, k as int);
        }
        match parse_key(entries[k].0.as_str()) {
            Some(key) => {
                if let Some(action) = parse_action(entries[k].1.as_str()) {
                    config.insert(key, action);
                }
            },
            None => {
                proof {
                    lemma_unknown_key_stays(names, k + 1);
                }
                return Err(ConfigError::InvalidKey(entries[k].0.clone()));
            },
        }
        k += 1;
    }
    Ok(config)
}

/// An unknown action found among the first `n` entries is the first one of
/// all entries.
proof fn lemma_unknown_action_stays(entries: Seq<(Seq<char>, Seq<char>)>, n: int)
    requires
        0 <= n <= entries.len(),
        unknown_action(entries.take(n)) is Some,
    ensures
        unknown_action(entries) == unknown_action(entries.take(n)),
    decreases entries.len() - n,
{
    if n < entries.len() {
        assert(entries.take(n + 1).drop_last() =~= entries.take(n));
        lemma_unknown_action_stays(entries, n + 1);
    } else {
        assert(entries.take(n) =~= entries);
    }
}

/// An unknown key found among the first `n` entries is the first one of all
/// entries.
proof fn lemma_unknown_key_stays(entries: Seq<(Seq<char>, Seq<char>)>, n: int)
    requires
        0 <= n <= entries.len(),
        unknown_key(entries.take(n)) is Some,
    ensures
        unknown_key(entries) == unknown_key(entries.take(n)),
    decreases entries.len() - n,
{
    if n < entries.len() {
        assert(entries.take(n + 1).drop_last() =~= entries.take(n));
        lemma_unknown_key_stays(entries, n + 1);
    } else {
        assert(entries.take(n) =~= entries);
    }
}

/// Where no action is unknown, each entry's action is known.
proof fn lemma_actions_known(entries: Seq<(Seq<char>, Seq<char>)>, at: int)
    requires
        0 <= at < entries.len(),
        unknown_action(entries) is None,
    ensures
        MediaAction::named(entries[at].1) is Some,
    decreases entries.len(),
{
    if at < entries.len() - 1 {
        lemma_actions_known(entries.drop_last(), at);
    }
}

/// The entries of the first member called `name`.
pub open spec fn member_named(
    members: Seq<(Seq<char>, Seq<(Seq<char>, Seq<char>)>)>,
    name: Seq<char>,
) -> Option<Seq<(Seq<char>, Seq<char>)>>
    decreases members.len(),
{
    if members.len() == 0 {
        None
    } else {
        match member_named(members.drop_last(), name) {
            Some(entries) => Some(entries),
            None => if members.last().0 == name {
                Some(members.last().1)
            } else {
                None
            },
        }
    }
}

/// What reading the text of a configuration file gives.
pub open spec fn read_text(text: Seq<char>) -> Result<Map<PhysicalKey, MediaAction>, ConfigFault> {
    match json_members(text) {
        None => Err(ConfigFault::Malformed),
        Some(members) => read_members(members),
    }
}

/// The members of the configuration object of a table.
pub open spec fn members_of(table: Map<PhysicalKey, MediaAction>) -> Seq<
    (Seq<char>, Seq<(Seq<char>, Seq<char>)>),
> {
    seq![(HOTKEYS@, entries_of(table))]
}

/// What the members of a configuration object give: the table of the
/// member `hotkeys`, and an error if that member is missing or does not
/// read as a table.
pub open spec fn read_members(members: Seq<(Seq<char>, Seq<(Seq<char>, Seq<char>)>)>) -> Result<
    Map<PhysicalKey, MediaAction>,
    ConfigFault,
> {
    match member_named(members, HOTKEYS@) {
        None => Err(ConfigFault::MissingHotkeys),
        Some(entries) => read_entries(entries),
    }
}

/// Finds the entries of the member `hotkeys`.
fn find_hotkeys(members: &Vec<(String, Vec<(String, String)>)>) -> (at: Option<usize>)
    ensures
        match at {
            Some(i) => i < members@.len() && member_named(members.deep_view(), HOTKEYS@) == Some(
                members@[i as int].1.deep_view(),
            ),
            None => member_named(members.deep_view(), HOTKEYS@) is None,
        },
{
    let ghost names = members.deep_view();
    let mut i: usize = 0;
    while i < members.len()
        invariant
            i <= members@.len(),
            names == members.deep_view(),
            member_named(names.take(i as int), HOTKEYS@) is None,
        decreases members@.len() - i,
    {
        proof {
            assert(names.take(i + 1).drop_last() =~= names.take(i as int));
        }
        if same_text(members[i].0.as_str(), HOTKEYS) {
            proof {
                lemma_member_stays(names, HOTKEYS@, i + 1);
            }
            return Some(i);
        }
        i += 1;
    }
    assert(names.take(i as int) =~= names);
    None
}

/// Reads a table from the members of a configuration object. Members
/// other than `hotkeys` are passed over.
pub fn from_members(members: &Vec<(String, Vec<(String, String)>)>) -> (result: Result<
    Config,
    ConfigError,
>)
    ensures
        outcome_of(result) == read_members(members.deep_view()),
{
    match find_hotkeys(members) {
        Some(i) => deserialize(&members[i].1),
        None => Err(ConfigError::MissingHotkeys),
    }
}

/// Writes a table as the members of a configuration object: the one member
/// `hotkeys`, with the table's entries.
pub fn to_members(config: &Config) -> (members: Vec<(String, Vec<(String, String)>)>)
    ensures
        members.deep_view() == members_of(config@),
{
    let mut members: Vec<(String, Vec<(String, String)>)> = Vec::new();
    members.push((HOTKEYS.to_owned(), serialize(config)));
    members
}

/// A member found among the first `n` is the first one of all members.
proof fn lemma_member_stays(
    members: Seq<(Seq<char>, Seq<(Seq<char>, Seq<char>)>)>,
    name: Seq<char>,
    n: int,
)
    requires
        0 <= n <= members.len(),
        member_named(members.take(n), name) is Some,
    ensures
        member_named(members, name) == member_named(members.take(n), name),
    decreases members.len() - n,
{
    if n < members.len() {
        assert(members.take(n + 1).drop_last() =~= members.take(n));
        lemma_member_stays(members, name, n + 1);
    } else {
        assert(members.take(n) =~= members);
    }
}

impl Config {
    /// Reads a configuration from the text of a configuration file.
    pub fn load(contents: &str) -> (result: Result<Config, ConfigError>)
        ensures
            outcome_of(result) == read_text(contents@),
    {
        match parse_members(contents) {
            Ok(members) => from_members(&members),
            Err(error) => Err(ConfigError::Malformed(describe(&error))),
        }
    }

    /// Writes the configuration as the text of a configuration file.
    pub fn save(&self) -> (result: Result<String, ConfigError>)
        ensures
            match result {
                Ok(contents) => json_text(members_of(self@)) == Some(contents@),
                Err(error) => json_text(members_of(self@)) is None && error@
                    == ConfigFault::Malformed,
            },
    {
        let members = to_members(self);
        proof {
            lemma_names_of_table_differ(self@);
        }
        match render_members(&members) {
            Ok(contents) => Ok(contents),
            Err(error) => Err(ConfigError::Malformed(describe(&error))),
        }
    }
}

/// The configuration that the program starts with.
#[derive(Debug)]
pub struct Startup {
    pub config: Config,
    /// Whether `config` is the built-in table and is to be written to the
    /// file, as far as that works.
    pub write_back: bool,
}

/// The bindings to start with, given what reading the file gave: the
/// bindings read, or the built-in ones where nothing could be read.
pub open spec fn startup_of(text: Option<Seq<char>>) -> (Map<PhysicalKey, MediaAction>, bool) {
    match text {
        Some(contents) => match read_text(contents) {
            Ok(table) => (table, false),
            Err(_) => (default_bindings(), true),
        },
        None => (default_bindings(), true),
    }
}

/// Decides what to start with. `contents` is the text of the configuration
/// file, or `None` if there is no file that can be read. No error is fatal:
/// a missing file, a malformed text and an unknown name all lead to the
/// built-in table.
pub fn startup(contents: Option<&str>) -> (start: Startup)
    ensures
        (start.config@, start.write_back) == startup_of(
            match contents {
                Some(text) => Some(text@),
                None => None,
            },
        ),
{
    match contents {
        Some(text) => match Config::load(text) {
            Ok(config) => Startup { config, write_back: false },
            Err(_) => Startup { config: Config::default(), write_back: true },
        },
        None => Startup { config: Config::default(), write_back: true },
    }
}

/// The entries of the keys numbered 1 to `n`.
spec fn entries_upto(table: Map<PhysicalKey, MediaAction>, n: int) -> Seq<(Seq<char>, Seq<char>)> {
    Seq::new(
        bindings_upto(table, n).len(),
        |i: int| (bindings_upto(table, n)[i].0.name(), bindings_upto(table, n)[i].1.name()),
    )
}

/// The bindings of the keys numbered 1 to `n`.
spec fn table_upto(table: Map<PhysicalKey, MediaAction>, n: int) -> Map<PhysicalKey, MediaAction> {
    Map::new(
        |key: PhysicalKey| table.contains_key(key) && key.id() <= n,
        |key: PhysicalKey| table[key],
    )
}

/// The entries of the first `n` keys are read back as the bindings of those
/// keys.
proof fn lemma_read_entries_upto(table: Map<PhysicalKey, MediaAction>, n: int)
    requires
        0 <= n <= 12,
    ensures
        unknown_action(entries_upto(table, n)) is None,
        unknown_key(entries_upto(table, n)) is None,
        table_of(entries_upto(table, n)) == table_upto(table, n),
    decreases n,
{
    let entries = entries_upto(table, n);
    if n == 0 {
        assert(table_upto(table, 0) =~= Map::<PhysicalKey, MediaAction>::empty()) by {
            assert forall|key: PhysicalKey| !table_upto(table, 0).contains_key(key) by {
                lemma_id_leads_back(key);
            }
        }
    } else {
        lemma_read_entries_upto(table, n - 1);
        let key = PhysicalKey::with_id(n)->0;
        assert forall|other: PhysicalKey| other.id() == n implies other == key by {
            lemma_id_leads_back(other);
        }
        if table.contains_key(key) {
            let action = table[key];
            assert(entries.drop_last() =~= entries_upto(table, n - 1));
            lemma_name_read_back(key);
            lemma_action_name_read_back(action);
        }
    }
}

/// Writing a table as entries and reading them gives the same table back,
/// whichever keys it binds and to whichever actions.
pub proof fn lemma_read_what_was_written(table: Map<PhysicalKey, MediaAction>)
    ensures
        read_entries(entries_of(table)) == Ok::<Map<PhysicalKey, MediaAction>, ConfigFault>(table),
{
    lemma_read_entries_upto(table, 12);
    assert(table_upto(table, 12) =~= table) by {
        assert forall|key: PhysicalKey| key.id() <= 12 by {
            lemma_id_leads_back(key);
        }
    }
}

/// In what is written for a table no name occurs twice: each bound key has
/// one entry.
pub proof fn lemma_names_of_table_differ(table: Map<PhysicalKey, MediaAction>)
    ensures
        entry_names_differ(entries_of(table)),
        names_differ(members_of(table)),
{
    lemma_bindings_in_key_order(table);
    let entries = entries_of(table);
    assert forall|i: int, j: int| 0 <= i < j < entries.len() implies (#[trigger] entries[i]).0 != (
    #[trigger] entries[j]).0 by {
        let first = bindings_of(table)[i].0;
        let second = bindings_of(table)[j].0;
        assert(first.id() < second.id());
        if first.name() == second.name() {
            lemma_names_differ(first, second);
        }
    }
}

/// The members written for a table are read back as that table.
pub proof fn lemma_read_members_of_table(table: Map<PhysicalKey, MediaAction>)
    ensures
        read_members(members_of(table)) == Ok::<Map<PhysicalKey, MediaAction>, ConfigFault>(table),
{
    let members = members_of(table);
    assert(member_named(members.drop_last(), HOTKEYS@) is None);
    lemma_read_what_was_written(table);
}

/// Every text in which the JSON library finds the members written for a
/// table is read as that table.
pub proof fn lemma_read_text_of_table(table: Map<PhysicalKey, MediaAction>, text: Seq<char>)
    ensures
        json_members(text) == Some(members_of(table)) ==> read_text(text) == Ok::<
            Map<PhysicalKey, MediaAction>,
            ConfigFault,
        >(table),
{
    lemma_read_members_of_table(table);
}

} // verus!
