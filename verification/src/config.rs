//! The settings: a flat map from names to JSON values, and the typed reads
//! that the rest of the program makes from it.

use vstd::prelude::*;
use crate::text::{same_text, texts_of};

verus! {

/// The file, in the program's configuration directory, that holds the
/// settings.
pub const CONFIG_FILE_NAME: &'static str = ".config.dat";

/// A JSON number, held as the integer it is or, for a fraction, as the bits
/// of its 64-bit floating-point form.
#[derive(Clone, Copy, PartialEq, Eq, Debug, Structural)]
pub enum ConfigNumber {
    Unsigned(u64),
    Signed(i64),
    FloatBits(u64),
}

/// A JSON value as the settings hold it. The members of an object are kept
/// as a list, in the order in which they were given.
#[derive(Debug)]
pub enum ConfigValue {
    Null,
    Bool(bool),
    Number(ConfigNumber),
    Text(String),
    List(Vec<ConfigValue>),
    Object(Vec<(String, ConfigValue)>),
}

/// The settings. No name occurs twice.
pub struct ConfigStore {
    entries: Vec<(String, ConfigValue)>,
}

/// `entries[i]` is the entry named `key`.
pub open spec fn entry_at(entries: Seq<(String, ConfigValue)>, key: Seq<char>, i: int) -> bool {
    0 <= i < entries.len() && entries[i].0@ == key
}

/// No two entries share a name.
pub open spec fn distinct_keys(entries: Seq<(String, ConfigValue)>) -> bool {
    forall|i: int, j: int|
        0 <= i < j < entries.len() ==> (#[trigger] entries[i]).0@ != (#[trigger] entries[j]).0@
}

/// The map that a list of entries stands for.
pub open spec fn entries_map(entries: Seq<(String, ConfigValue)>) -> Map<Seq<char>, ConfigValue> {
    Map::new(
        |key: Seq<char>| exists|i: int| entry_at(entries, key, i),
        |key: Seq<char>| entries[choose|i: int| entry_at(entries, key, i)].1,
    )
}

/// What a read finds under `key`.
pub open spec fn lookup(map: Map<Seq<char>, ConfigValue>, key: Seq<char>) -> Option<ConfigValue> {
    if map.contains_key(key) {
        Some(map[key])
    } else {
        None
    }
}

/// The flag that a value holds, or the default where it holds none.
pub open spec fn bool_or(value: Option<ConfigValue>, default_value: bool) -> bool {
    match value {
        Some(ConfigValue::Bool(b)) => b,
        _ => default_value,
    }
}

/// The text that a value holds, or the default where it holds none.
pub open spec fn text_or(value: Option<ConfigValue>, default_value: Seq<char>) -> Seq<char> {
    match value {
        Some(ConfigValue::Text(s)) => s@,
        _ => default_value,
    }
}

/// The texts among `items`, in their order; items of other kinds are passed
/// over.
pub open spec fn texts_among(items: Seq<ConfigValue>) -> Seq<Seq<char>>
    decreases items.len(),
{
    if items.len() == 0 {
        Seq::empty()
    } else {
        let before = texts_among(items.drop_last());
        match items.last() {
            ConfigValue::Text(s) => before.push(s@),
            _ => before,
        }
    }
}

/// The texts of the list that a value holds, or nothing where it holds no
/// list.
pub open spec fn texts_or_none(value: Option<ConfigValue>) -> Seq<Seq<char>> {
    match value {
        Some(ConfigValue::List(items)) => texts_among(items@),
        _ => Seq::empty(),
    }
}

proof fn lemma_entries_map_at(entries: Seq<(String, ConfigValue)>, i: int)
    requires
        distinct_keys(entries),
        0 <= i < entries.len(),
    ensures
        entries_map(entries).contains_key(entries[i].0@),
        entries_map(entries)[entries[i].0@] == entries[i].1,
{
    let key = entries[i].0@;
    assert(entry_at(entries, key, i));
    let c = choose|c: int| entry_at(entries, key, c);
    assert(c == i) by {
        if c < i {
            assert(entries[c].0@ != entries[i].0@);
        } else if i < c {
            assert(entries[i].0@ != entries[c].0@);
        }
    }
}

proof fn lemma_entries_map_absent(entries: Seq<(String, ConfigValue)>, key: Seq<char>)
    requires
        forall|i: int| 0 <= i < entries.len() ==> (#[trigger] entries[i]).0@ != key,
    ensures
        !entries_map(entries).contains_key(key),
{
    assert forall|i: int| !entry_at(entries, key, i) by {
        if 0 <= i < entries.len() {
            assert(entries[i].0@ != key);
        }
    }
}

proof fn lemma_entries_map_push(
    entries: Seq<(String, ConfigValue)>,
    key: String,
    value: ConfigValue,
)
    requires
        distinct_keys(entries),
        forall|i: int| 0 <= i < entries.len() ==> (#[trigger] entries[i]).0@ != key@,
    ensures
        distinct_keys(entries.push((key, value))),
        entries_map(entries.push((key, value))) == entries_map(entries).insert(key@, value),
{
    let after = entries.push((key, value));
    assert(distinct_keys(after)) by {
        assert forall|i: int, j: int| 0 <= i < j < after.len() implies (#[trigger] after[i]).0@ != (
        #[trigger] after[j]).0@ by {
            if j < entries.len() {
                assert(entries[i].0@ != entries[j].0@);
            } else {
                assert(entries[i].0@ != key@);
            }
        }
    }
    let left = entries_map(after);
    let right = entries_map(entries).insert(key@, value);
    assert forall|k: Seq<char>| left.contains_key(k) <==> right.contains_key(k) by {
        if left.contains_key(k) {
            let i = choose|i: int| entry_at(after, k, i);
            if i < entries.len() {
                assert(entry_at(entries, k, i));
            }
        }
        if right.contains_key(k) {
            if k == key@ {
                assert(entry_at(after, k, entries.len() as int));
            } else {
                let i = choose|i: int| entry_at(entries, k, i);
                assert(entry_at(after, k, i));
            }
        }
    }
    assert forall|k: Seq<char>| left.contains_key(k) implies left[k] == right[k] by {
        let i = choose|i: int| entry_at(after, k, i);
        lemma_entries_map_at(after, i);
        if i < entries.len() {
            assert(entries[i].0@ != key@);
            lemma_entries_map_at(entries, i);
        }
    }
    assert(left =~= right);
}

proof fn lemma_entries_map_update(
    entries: Seq<(String, ConfigValue)>,
    at: int,
    key: String,
    value: ConfigValue,
)
    requires
        distinct_keys(entries),
        0 <= at < entries.len(),
        entries[at].0@ == key@,
    ensures
        distinct_keys(entries.update(at, (key, value))),
        entries_map(entries.update(at, (key, value))) == entries_map(entries).insert(key@, value),
{
    let after = entries.update(at, (key, value));
    assert(distinct_keys(after)) by {
        assert forall|i: int, j: int| 0 <= i < j < after.len() implies (#[trigger] after[i]).0@ != (
        #[trigger] after[j]).0@ by {
            assert(entries[i].0@ != entries[j].0@);
        }
    }
    let left = entries_map(after);
    let right = entries_map(entries).insert(key@, value);
    assert forall|k: Seq<char>| left.contains_key(k) <==> right.contains_key(k) by {
        if left.contains_key(k) {
            let i = choose|i: int| entry_at(after, k, i);
            assert(entry_at(entries, k, i));
        }
        if right.contains_key(k) {
            if k == key@ {
                assert(entry_at(after, k, at));
            } else {
                let i = choose|i: int| entry_at(entries, k, i);
                assert(entry_at(after, k, i));
            }
        }
    }
    assert forall|k: Seq<char>| left.contains_key(k) implies left[k] == right[k] by {
        let i = choose|i: int| entry_at(after, k, i);
        lemma_entries_map_at(after, i);
        if i != at {
            lemma_entries_map_at(entries, i);
        }
    }
    assert(left =~= right);
}

impl View for ConfigStore {
    type V = Map<Seq<char>, ConfigValue>;

    closed spec fn view(&self) -> Map<Seq<char>, ConfigValue> {
        entries_map(self.entries@)
    }
}

impl ConfigStore {
    #[verifier::type_invariant]
    spec fn well_formed(self) -> bool {
        distinct_keys(self.entries@)
    }

    /// The settings of a first run: none.
    pub fn new() -> (r: ConfigStore)
        ensures
            r@ == Map::<Seq<char>, ConfigValue>::empty(),
    {
        let r = ConfigStore { entries: Vec::new() };
        assert(r@ =~= Map::<Seq<char>, ConfigValue>::empty());
        r
    }

    /// The position of the entry named `key`.
    fn position(&self, key: &str) -> (r: Option<usize>)
        ensures
            match r {
                Some(i) => entry_at(self.entries@, key@, i as int),
                None => forall|i: int|
                    0 <= i < self.entries@.len() ==> (#[trigger] self.entries@[i]).0@ != key@,
            },
    {
        let mut i: usize = 0;
        while i < self.entries.len()
            invariant
                i <= self.entries.len(),
                forall|j: int| 0 <= j < i ==> (#[trigger] self.entries@[j]).0@ != key@,
            decreases self.entries.len() - i,
        {
            if same_text(self.entries[i].0.as_str(), key) {
                return Some(i);
            }
            i += 1;
        }
        None
    }

    /// The value stored under `key`.
    pub fn get(&self, key: &str) -> (r: Option<&ConfigValue>)
        ensures
            match r {
                Some(v) => lookup(self@, key@) == Some(*v),
                None => lookup(self@, key@) is None,
            },
    {
        proof {
            use_type_invariant(self);
        }
        match self.position(key) {
            Some(i) => {
                proof {
                    lemma_entries_map_at(self.entries@, i as int);
                }
                Some(&self.entries[i].1)
            },
            None => {
                proof {
                    lemma_entries_map_absent(self.entries@, key@);
                }
                None
            },
        }
    }

    /// Stores `value` under `key`, in place of what was there.
    pub fn insert(&mut self, key: String, value: ConfigValue)
        ensures
            final(self)@ == old(self)@.insert(key@, value),
    {
        proof {
            use_type_invariant(&*self);
        }
        let found = self.position(key.as_str());
        let mut entries: Vec<(String, ConfigValue)> = Vec::new();
        core::mem::swap(&mut self.entries, &mut entries);
        match found {
            Some(i) => {
                proof {
                    lemma_entries_map_update(entries@, i as int, key, value);
                }
                entries.set(i, (key, value));
            },
            None => {
                proof {
                    lemma_entries_map_push(entries@, key, value);
                }
                entries.push((key, value));
            },
        }
        core::mem::swap(&mut self.entries, &mut entries);
    }

    /// Whether nothing is stored.
    pub fn is_empty(&self) -> (r: bool)
        ensures
            r == (self@ == Map::<Seq<char>, ConfigValue>::empty()),
    {
        proof {
            use_type_invariant(self);
            if self.entries@.len() > 0 {
                lemma_entries_map_at(self.entries@, 0);
            } else {
                assert(self@ =~= Map::<Seq<char>, ConfigValue>::empty());
            }
        }
        self.entries.len() == 0
    }

    /// The entries, each name once.
    pub fn entries(&self) -> (r: &Vec<(String, ConfigValue)>)
        ensures
            distinct_keys(r@),
            entries_map(r@) == self@,
    {
        proof {
            use_type_invariant(self);
        }
        &self.entries
    }
}

impl ConfigValue {
    /// The flag that the value is, if it is one.
    pub open spec fn flag(self) -> Option<bool> {
        match self {
            ConfigValue::Bool(b) => Some(b),
            _ => None,
        }
    }

    /// The text that the value is, if it is one.
    pub open spec fn text(self) -> Option<Seq<char>> {
        match self {
            ConfigValue::Text(s) => Some(s@),
            _ => None,
        }
    }

    /// The texts of the list that the value is, if it is one.
    pub open spec fn texts(self) -> Option<Seq<Seq<char>>> {
        match self {
            ConfigValue::List(items) => Some(texts_among(items@)),
            _ => None,
        }
    }

    pub fn as_bool(&self) -> (r: Option<bool>)
        ensures
            r == self.flag(),
    {
        match self {
            ConfigValue::Bool(b) => Some(*b),
            _ => None,
        }
    }

    pub fn as_str(&self) -> (r: Option<&str>)
        ensures
            match r {
                Some(s) => self.text() == Some(s@),
                None => self.text() is None,
            },
    {
        match self {
            ConfigValue::Text(s) => Some(s.as_str()),
            _ => None,
        }
    }

    /// The strings of a list, in their order, without its other items.
    pub fn as_strings(&self) -> (r: Option<Vec<String>>)
        ensures
            match r {
                Some(v) => self.texts() == Some(texts_of(v@)),
                None => self.texts() is None,
            },
    {
        match self {
            ConfigValue::List(items) => {
                let mut out: Vec<String> = Vec::new();
                let mut i: usize = 0;
                assert(items@.take(0) =~= Seq::<ConfigValue>::empty());
                assert(texts_of(out@) =~= texts_among(items@.take(0)));
                while i < items.len()
                    invariant
                        i <= items.len(),
                        texts_of(out@) == texts_among(items@.take(i as int)),
                    decreases items.len() - i,
                {
                    proof {
                        let next = items@.take(i + 1);
                        assert(next.drop_last() =~= items@.take(i as int));
                        assert(next.last() == items@[i as int]);
                    }
                    match &items[i] {
                        ConfigValue::Text(s) => {
                            let ghost before = out@;
                            out.push(s.clone());
                            assert(texts_of(out@) =~= texts_of(before).push(s@));
                        },
                        _ => {},
                    }
                    i += 1;
                }
                assert(items@.take(i as int) =~= items@);
                Some(out)
            },
            _ => None,
        }
    }
}

/// Reads the value under `key` through `f`. Where nothing is stored under
/// `key`, or `f` makes nothing of what is, the result is `default`.
pub fn get_config_with_default<T, F>(store: &ConfigStore, key: &str, default: T, f: F) -> (r: T) where
    F: FnOnce(&ConfigValue) -> Option<T>,

    requires
        lookup(store@, key@) matches Some(v) ==> f.requires((&v,)),
    ensures
        match lookup(store@, key@) {
            Some(v) => exists|o: Option<T>|
                f.ensures((&v,), o) && r == match o {
                    Some(t) => t,
                    None => default,
                },
            None => r == default,
        },
{
    match store.get(key) {
        Some(value) => match f(value) {
            Some(t) => t,
            None => default,
        },
        None => default,
    }
}

/// The flag stored under `key`, or `default_value` where there is none.
pub fn get_or_bool(store: &ConfigStore, key: &str, default_value: bool) -> (r: bool)
    ensures
        r == bool_or(lookup(store@, key@), default_value),
{
    let read = |v: &ConfigValue| -> (o: Option<bool>)
        ensures
            o == v.flag(),
        { v.as_bool() };
    get_config_with_default(store, key, default_value, read)
}

/// The text stored under `key`, or `default_value` where there is none.
pub fn get_or_string(store: &ConfigStore, key: &str, default_value: String) -> (r: String)
    ensures
        r@ == text_or(lookup(store@, key@), default_value@),
{
    let read = |v: &ConfigValue| -> (o: Option<String>)
        ensures
            match o {
                Some(s) => v.text() == Some(s@),
                None => v.text() is None,
            },
        {
            match v.as_str() {
                Some(s) => Some(s.to_owned()),
                None => None,
            }
        };
    get_config_with_default(store, key, default_value, read)
}

/// The strings of the list stored under `key`; none where there is no list.
pub fn get_or_array(store: &ConfigStore, key: &str) -> (r: Vec<String>)
    ensures
        texts_of(r@) == texts_or_none(lookup(store@, key@)),
{
    let read = |v: &ConfigValue| -> (o: Option<Vec<String>>)
        ensures
            match o {
                Some(list) => v.texts() == Some(texts_of(list@)),
                None => v.texts() is None,
            },
        { v.as_strings() };
    let none: Vec<String> = Vec::new();
    assert(texts_of(none@) =~= Seq::<Seq<char>>::empty());
    get_config_with_default(store, key, none, read)
}

/// Whether the program runs for the first time: nothing is stored yet.
pub fn is_first_run(store: &ConfigStore) -> (r: bool)
    ensures
        r == (store@ == Map::<Seq<char>, ConfigValue>::empty()),
{
    store.is_empty()
}

/// Takes over the settings that were loaded from disk. Where nothing was
/// loaded, the settings stay as they are.
pub fn init_config(store: &mut ConfigStore, loaded: ConfigStore)
    ensures
        final(store)@ == if loaded@ == Map::<Seq<char>, ConfigValue>::empty() {
            old(store)@
        } else {
            loaded@
        },
{
    if !loaded.is_empty() {
        *store = loaded;
    }
}

/// The settings as they stand, entry by entry.
pub fn get_config(store: &ConfigStore) -> (r: &Vec<(String, ConfigValue)>)
    ensures
        distinct_keys(r@),
        entries_map(r@) == store@,
{
    store.entries()
}

/// Stores `value` under `key`. Writing the settings out and telling the
/// windows is the caller's part.
pub fn set_config_by_key(store: &mut ConfigStore, key: String, value: ConfigValue)
    ensures
        final(store)@ == old(store)@.insert(key@, value),
{
    store.insert(key, value);
}

/// What was stored under a name is what is read under it, and what stands
/// under other names is as before.
pub proof fn lemma_read_after_write(
    settings: Map<Seq<char>, ConfigValue>,
    key: Seq<char>,
    value: ConfigValue,
    other: Seq<char>,
)
    ensures
        lookup(settings.insert(key, value), key) == Some(value),
        other != key ==> lookup(settings.insert(key, value), other) == lookup(settings, other),
{
}

} // verus!
