//! The table of displays of a configuration: settings by name, each name
//! once, in the order in which the names were first inserted.
use vstd::prelude::*;
use vstd::string::*;

verus! {

/// Settings of one display.
#[derive(Debug, Clone, Copy, PartialEq, Eq, Structural)]
pub struct MonitorConfig {
    pub enable: bool,
    /// Time between two polls, in milliseconds.
    pub interval: u64,
    /// Time after which a capture is forwarded even if nothing changed, in
    /// milliseconds.
    pub enforce_interval: u64,
    pub dhash_resolution: u32,
    /// Smallest fingerprint distance that counts as a change.
    pub dhash_threshold: u32,
}

/// Whether no name occurs twice in `entries`.
pub open spec fn distinct_names(entries: Seq<(Seq<char>, MonitorConfig)>) -> bool {
    forall|i: int, j: int|
        0 <= i < j < entries.len() ==> (#[trigger] entries[i]).0 != (#[trigger] entries[j]).0
}

/// Index of the first entry at or after `from` whose name is `name`.
pub open spec fn position_from(
    entries: Seq<(Seq<char>, MonitorConfig)>,
    name: Seq<char>,
    from: int,
) -> Option<int>
    decreases entries.len() - from,
{
    if from < 0 || from >= entries.len() {
        None
    } else if entries[from].0 == name {
        Some(from)
    } else {
        position_from(entries, name, from + 1)
    }
}

/// Index of the entry whose name is `name`.
pub open spec fn position_of(entries: Seq<(Seq<char>, MonitorConfig)>, name: Seq<char>) -> Option<
    int,
> {
    position_from(entries, name, 0)
}

/// The settings stored under `name`.
pub open spec fn lookup(entries: Seq<(Seq<char>, MonitorConfig)>, name: Seq<char>) -> Option<
    MonitorConfig,
> {
    match position_of(entries, name) {
        Some(i) => Some(entries[i].1),
        None => None,
    }
}

/// The entries after storing `config` under `name`: an entry of that name
/// is replaced where it stands, a new name is added at the end.
pub open spec fn inserted(
    entries: Seq<(Seq<char>, MonitorConfig)>,
    name: Seq<char>,
    config: MonitorConfig,
) -> Seq<(Seq<char>, MonitorConfig)> {
    match position_of(entries, name) {
        Some(i) => entries.update(i, (name, config)),
        None => entries.push((name, config)),
    }
}

/// `position_from` finds an entry of the name if and only if there is one,
/// and then the first.
pub proof fn lemma_position_from(entries: Seq<(Seq<char>, MonitorConfig)>, name: Seq<char>, from: int)
    requires
        0 <= from,
    ensures
        match position_from(entries, name, from) {
            Some(i) => from <= i < entries.len() && entries[i].0 == name && forall|k: int|
                from <= k < i ==> (#[trigger] entries[k]).0 != name,
            None => forall|k: int| from <= k < entries.len() ==> (#[trigger] entries[k]).0 != name,
        },
    decreases entries.len() - from,
{
    if from < entries.len() && entries[from].0 != name {
        lemma_position_from(entries, name, from + 1);
    }
}

/// Settings of displays by name.
#[derive(Debug)]
pub struct MonitorTable {
    entries: Vec<(String, MonitorConfig)>,
}

impl View for MonitorTable {
    type V = Seq<(Seq<char>, MonitorConfig)>;

    closed spec fn view(&self) -> Seq<(Seq<char>, MonitorConfig)> {
        entries_view(self.entries@)
    }
}

spec fn entries_view(entries: Seq<(String, MonitorConfig)>) -> Seq<(Seq<char>, MonitorConfig)> {
    Seq::new(entries.len(), |i: int| (entries[i].0@, entries[i].1))
}

impl Clone for MonitorTable {
    fn clone(&self) -> (copy: Self)
        ensures
            copy@ == self@,
    {
        proof {
            use_type_invariant(self);
        }
        let mut entries: Vec<(String, MonitorConfig)> = Vec::new();
        let mut i: usize = 0;
        while i < self.entries.len()
            invariant
                i <= self.entries@.len(),
                entries@.len() == i,
                forall|k: int|
                    0 <= k < i ==> (#[trigger] entries@[k]).0@ == self.entries@[k].0@
                        && entries@[k].1 == self.entries@[k].1,
            decreases self.entries@.len() - i,
        {
            entries.push((self.entries[i].0.clone(), self.entries[i].1));
            i = i + 1;
        }
        assert(entries_view(entries@) =~= self@);
        MonitorTable { entries }
    }
}

impl MonitorTable {
    #[verifier::type_invariant]
    spec fn well_formed(self) -> bool {
        distinct_names(self@)
    }

    /// An empty table.
    pub fn new() -> (table: Self)
        ensures
            table@ == Seq::<(Seq<char>, MonitorConfig)>::empty(),
    {
        let table = MonitorTable { entries: Vec::new() };
        assert(table@ =~= Seq::<(Seq<char>, MonitorConfig)>::empty());
        table
    }

    /// Number of displays.
    pub fn len(&self) -> (n: usize)
        ensures
            n == self@.len(),
            distinct_names(self@),
    {
        proof {
            use_type_invariant(self);
        }
        self.entries.len()
    }

    /// Whether the table holds no display.
    pub fn is_empty(&self) -> (empty: bool)
        ensures
            empty == (self@.len() == 0),
    {
        self.entries.len() == 0
    }

    /// Removes every display.
    pub fn clear(&mut self)
        ensures
            final(self)@ == Seq::<(Seq<char>, MonitorConfig)>::empty(),
    {
        let cleared = MonitorTable::new();
        *self = cleared;
    }

    /// Name of the display at position `index`.
    pub fn name_at(&self, index: usize) -> (name: &str)
        requires
            index < self@.len(),
        ensures
            name@ == self@[index as int].0,
    {
        self.entries[index].0.as_str()
    }

    /// Settings of the display at position `index`.
    pub fn config_at(&self, index: usize) -> (config: MonitorConfig)
        requires
            index < self@.len(),
        ensures
            config == self@[index as int].1,
    {
        self.entries[index].1
    }

    fn find(&self, name: &String) -> (found: Option<usize>)
        ensures
            match found {
                Some(i) => position_of(self@, name@) == Some(i as int) && i < self@.len(),
                None => position_of(self@, name@) is None,
            },
    {
        let mut i: usize = 0;
        while i < self.entries.len()
            invariant
                i <= self.entries@.len(),
                self@.len() == self.entries@.len(),
                position_of(self@, name@) == position_from(self@, name@, i as int),
            decreases self.entries@.len() - i,
        {
            if self.entries[i].0 == *name {
                return Some(i);
            }
            i = i + 1;
        }
        None
    }

    /// The settings stored under `name`.
    pub fn get(&self, name: &str) -> (config: Option<MonitorConfig>)
        ensures
            config == lookup(self@, name@),
    {
        let key = String::from_str(name);
        match self.find(&key) {
            Some(i) => Some(self.entries[i].1),
            None => None,
        }
    }

    /// Whether settings are stored under `name`.
    pub fn contains_key(&self, name: &str) -> (present: bool)
        ensures
            present == lookup(self@, name@).is_some(),
    {
        let key = String::from_str(name);
        self.find(&key).is_some()
    }

    /// Stores `config` under `name` and returns the settings that were
    /// stored under that name before.
    pub fn insert(&mut self, name: String, config: MonitorConfig) -> (previous: Option<MonitorConfig>)
        ensures
            final(self)@ == inserted(old(self)@, name@, config),
            previous == lookup(old(self)@, name@),
    {
        proof {
            use_type_invariant(&*self);
            lemma_position_from(self@, name@, 0);
        }
        let ghost before = self@;
        match self.find(&name) {
            Some(i) => {
                let previous = self.entries[i].1;
                let mut entries: Vec<(String, MonitorConfig)> = Vec::new();
                core::mem::swap(&mut entries, &mut self.entries);
                entries.set(i, (name, config));
                assert(entries_view(entries@) =~= before.update(i as int, (name@, config)));
                let updated = MonitorTable { entries };
                *self = updated;
                Some(previous)
            },
            None => {
                let mut entries: Vec<(String, MonitorConfig)> = Vec::new();
                core::mem::swap(&mut entries, &mut self.entries);
                entries.push((name, config));
                assert(entries_view(entries@) =~= before.push((name@, config)));
                let extended = MonitorTable { entries };
                *self = extended;
                None
            },
        }
    }
}

} // verus!
