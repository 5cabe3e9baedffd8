//! Master registry of installed plugins, MCP servers and skills: registration,
//! removal, toggles, boot-time watch lists and filesystem reconciliation.
use vstd::prelude::*;
use crate::text::{chars_eq, chars_of, concat_str, join_path, path_join, string_of, string_views};

verus! {

/// How the engine loads a component.
#[derive(Debug, Clone, Copy, PartialEq, Eq, Structural)]
pub enum LoadStrategy {
    Eager,
    Lazy,
}

impl Default for LoadStrategy {
    fn default() -> (r: Self)
        ensures
            r == LoadStrategy::Lazy,
    {
        LoadStrategy::Lazy
    }
}

/// Execution mode of installed tools: on trigger, or after approval.
#[derive(Debug, Clone, Copy, PartialEq, Eq, Structural)]
pub enum ExecutionMode {
    Auto,
    Manual,
}

impl Default for ExecutionMode {
    fn default() -> (r: Self)
        ensures
            r == ExecutionMode::Auto,
    {
        ExecutionMode::Auto
    }
}

/// One installed component.
pub struct RegistryEntry {
    pub name: String,
    pub id: String,
    pub domain: String,
    pub version: String,
    pub description: String,
    pub load_strategy: LoadStrategy,
    pub semantic_triggers: Vec<String>,
    pub semantic_index: Vec<String>,
    pub trigger_events: Vec<String>,
    pub activation_events: Vec<String>,
    pub location: String,
    pub binary: Option<String>,
    pub binary_hash: Option<String>,
    pub brain: Option<String>,
    pub enabled: bool,
    pub execution_mode: ExecutionMode,
    pub permissions: Vec<String>,
}

impl Default for RegistryEntry {
    /// Empty strings and lists, lazy, disabled, automatic.
    fn default() -> (r: Self)
        ensures
            r.name@.len() == 0,
            r.id@.len() == 0,
            r.load_strategy == LoadStrategy::Lazy,
            !r.enabled,
            r.execution_mode == ExecutionMode::Auto,
            r.binary is None,
            r.brain is None,
            r.permissions@.len() == 0,
    {
        RegistryEntry {
            name: String::new(),
            id: String::new(),
            domain: String::new(),
            version: String::new(),
            description: String::new(),
            load_strategy: LoadStrategy::Lazy,
            semantic_triggers: Vec::new(),
            semantic_index: Vec::new(),
            trigger_events: Vec::new(),
            activation_events: Vec::new(),
            location: String::new(),
            binary: None,
            binary_hash: None,
            brain: None,
            enabled: false,
            execution_mode: ExecutionMode::Auto,
            permissions: Vec::new(),
        }
    }
}

/// Value `enabled` takes when a registry file omits it.
pub fn default_true() -> (r: bool)
    ensures
        r,
{
    true
}

/// Registry format version written by default.
pub fn default_version() -> (r: String)
    ensures
        r@ == "1.0.0"@,
{
    "1.0.0".to_string()
}

/// Registry schema tag written by default.
pub fn default_schema() -> (r: String)
    ensures
        r@ == "cluaiz-registry-v1"@,
{
    "cluaiz-registry-v1".to_string()
}

/// Key / entry pairs of a component table, keys by view.
pub type TableView = Seq<(Seq<char>, RegistryEntry)>;

/// First index at or after `i` whose key is `k`.
pub open spec fn find_key_from<V>(s: Seq<(Seq<char>, V)>, k: Seq<char>, i: int) -> Option<int>
    decreases s.len() - i,
{
    if i < 0 || i >= s.len() {
        None
    } else if s[i].0 == k {
        Some(i)
    } else {
        find_key_from(s, k, i + 1)
    }
}

pub open spec fn find_key<V>(s: Seq<(Seq<char>, V)>, k: Seq<char>) -> Option<int> {
    find_key_from(s, k, 0)
}

/// Entry stored under `k`.
pub open spec fn table_get<V>(s: Seq<(Seq<char>, V)>, k: Seq<char>) -> Option<V> {
    match find_key(s, k) {
        Some(i) => Some(s[i].1),
        None => None,
    }
}

/// `k` bound to `e`: replaced in place when present, appended otherwise.
pub open spec fn table_insert<V>(s: Seq<(Seq<char>, V)>, k: Seq<char>, e: V) -> Seq<(Seq<char>, V)> {
    match find_key(s, k) {
        Some(i) => s.update(i, (k, e)),
        None => s.push((k, e)),
    }
}

/// The binding of `k` removed.
pub open spec fn table_remove<V>(s: Seq<(Seq<char>, V)>, k: Seq<char>) -> Seq<(Seq<char>, V)> {
    match find_key(s, k) {
        Some(i) => s.remove(i),
        None => s,
    }
}

/// The entry under `k` with `f` applied.
pub open spec fn table_update(s: TableView, k: Seq<char>, e: RegistryEntry) -> TableView {
    match find_key(s, k) {
        Some(i) => s.update(i, (k, e)),
        None => s,
    }
}

/// No key occurs twice.
pub open spec fn keys_unique<V>(s: Seq<(Seq<char>, V)>) -> bool {
    forall|i: int, j: int| 0 <= i < j < s.len() ==> s[i].0 != s[j].0
}

/// Bindings whose key is in `live`, in order.
pub open spec fn table_retain(s: TableView, live: Seq<Seq<char>>) -> TableView
    decreases s.len(),
{
    if s.len() == 0 {
        s
    } else {
        let rest = table_retain(s.drop_last(), live);
        if live.contains(s.last().0) {
            rest.push(s.last())
        } else {
            rest
        }
    }
}

/// A map of component names to entries without duplicate names.
pub struct ComponentTable {
    entries: Vec<(String, RegistryEntry)>,
}

impl View for ComponentTable {
    type V = TableView;

    closed spec fn view(&self) -> TableView {
        self.entries@.map_values(|p: (String, RegistryEntry)| (p.0@, p.1))
    }
}

proof fn lemma_find_key_from<V>(s: Seq<(Seq<char>, V)>, k: Seq<char>, i: int)
    requires
        0 <= i,
    ensures
        find_key_from(s, k, i) matches Some(j) ==> i <= j < s.len() && s[j].0 == k && forall|m: int|
            i <= m < j ==> s[m].0 != k,
        find_key_from(s, k, i) is None ==> forall|m: int| i <= m < s.len() ==> s[m].0 != k,
    decreases s.len() - i,
{
    if i < s.len() && s[i].0 != k {
        lemma_find_key_from(s, k, i + 1);
    }
}

/// Facts about the first index of a key.
pub proof fn lemma_find_key<V>(s: Seq<(Seq<char>, V)>, k: Seq<char>)
    ensures
        find_key(s, k) matches Some(j) ==> 0 <= j < s.len() && s[j].0 == k && forall|m: int|
            0 <= m < j ==> s[m].0 != k,
        find_key(s, k) is None ==> forall|m: int| 0 <= m < s.len() ==> s[m].0 != k,
{
    lemma_find_key_from(s, k, 0);
}

/// Updating an entry in place keeps keys unique.
proof fn lemma_update_unique(s: TableView, k: Seq<char>, e: RegistryEntry)
    requires
        keys_unique(s),
    ensures
        keys_unique(table_update(s, k, e)),
{
    lemma_find_key(s, k);
    match find_key(s, k) {
        Some(i) => {
            let t = s.update(i, (k, e));
            assert forall|a: int, b: int| 0 <= a < b < t.len() implies t[a].0 != t[b].0 by {
                assert(t[a].0 == s[a].0);
                assert(t[b].0 == s[b].0);
            }
        },
        None => {},
    }
}

/// A read after a write gives the entry written, other keys read as before, and
/// keys stay unique.
pub proof fn lemma_get_after_insert<V>(s: Seq<(Seq<char>, V)>, k: Seq<char>, e: V, other: Seq<char>)
    requires
        keys_unique(s),
    ensures
        table_get(table_insert(s, k, e), k) == Some(e),
        other != k ==> table_get(table_insert(s, k, e), other) == table_get(s, other),
        keys_unique(table_insert(s, k, e)),
{
    let t = table_insert(s, k, e);
    lemma_find_key(s, k);
    lemma_find_key(s, other);
    lemma_find_key(t, k);
    lemma_find_key(t, other);
    match find_key(s, k) {
        Some(i) => {
            assert(t == s.update(i, (k, e)));
            assert(forall|m: int| 0 <= m < t.len() && m != i ==> t[m] == s[m]);
            assert(find_key(t, k) == Some(i)) by {
                if find_key(t, k) != Some(i) {
                    let j = find_key(t, k)->0;
                    assert(t[i].0 == k);
                    if j < i {
                        assert(s[j].0 == k);
                    }
                }
            }
            if other != k {
                match find_key(s, other) {
                    Some(j) => {
                        assert(t[j].0 == other);
                        assert(find_key(t, other) == Some(j));
                    },
                    None => {
                        assert(forall|m: int| 0 <= m < t.len() ==> t[m].0 != other);
                    },
                }
            }
        },
        None => {
            assert(t == s.push((k, e)));
            assert(t[s.len() as int].0 == k);
            assert(find_key(t, k) == Some(s.len() as int));
            if other != k {
                match find_key(s, other) {
                    Some(j) => {
                        assert(t[j].0 == other);
                        assert(find_key(t, other) == Some(j));
                    },
                    None => {
                        assert(forall|m: int| 0 <= m < t.len() ==> t[m].0 != other);
                    },
                }
            }
        },
    }
}

/// After a removal the key reads as absent, other keys read as before, and keys
/// stay unique.
pub proof fn lemma_get_after_remove<V>(s: Seq<(Seq<char>, V)>, k: Seq<char>, other: Seq<char>)
    requires
        keys_unique(s),
    ensures
        table_get(table_remove(s, k), k) is None,
        other != k ==> table_get(table_remove(s, k), other) == table_get(s, other),
        keys_unique(table_remove(s, k)),
{
    let t = table_remove(s, k);
    lemma_find_key(s, k);
    lemma_find_key(s, other);
    lemma_find_key(t, k);
    lemma_find_key(t, other);
    match find_key(s, k) {
        Some(i) => {
            assert(t == s.remove(i));
            assert(forall|m: int| 0 <= m < i ==> t[m] == s[m]);
            assert(forall|m: int| i <= m < t.len() ==> t[m] == s[m + 1]);
            assert(forall|m: int| 0 <= m < t.len() ==> t[m].0 != k);
            if other != k {
                match find_key(s, other) {
                    Some(j) => {
                        if j < i {
                            assert(t[j].0 == other);
                            assert(find_key(t, other) == Some(j));
                        } else {
                            assert(j != i);
                            assert(t[j - 1].0 == other);
                            assert(find_key(t, other) == Some(j - 1)) by {
                                if find_key(t, other) != Some(j - 1) {
                                    let q = find_key(t, other)->0;
                                    if q < i {
                                        assert(s[q].0 == other);
                                    } else {
                                        assert(s[q + 1].0 == other);
                                    }
                                }
                            }
                        }
                    },
                    None => {
                        assert(forall|m: int| 0 <= m < t.len() ==> t[m].0 != other);
                    },
                }
            }
        },
        None => {},
    }
}

impl ComponentTable {
    #[verifier::type_invariant]
    spec fn inv(self) -> bool {
        keys_unique(self@)
    }

    /// An empty table.
    pub fn new() -> (r: Self)
        ensures
            r@ == Seq::<(Seq<char>, RegistryEntry)>::empty(),
            keys_unique(r@),
    {
        let r = ComponentTable { entries: Vec::new() };
        assert(r@ =~= Seq::<(Seq<char>, RegistryEntry)>::empty());
        r
    }

    /// Number of components.
    pub fn len(&self) -> (n: usize)
        ensures
            n == self@.len(),
    {
        self.entries.len()
    }

    /// The (name, entry) pairs in table order.
    pub fn entries(&self) -> (r: &Vec<(String, RegistryEntry)>)
        ensures
            r@.map_values(|p: (String, RegistryEntry)| (p.0@, p.1)) == self@,
    {
        &self.entries
    }

    /// Index of the binding for `key`.
    pub fn position(&self, key: &str) -> (r: Option<usize>)
        ensures
            match r {
                Some(i) => find_key(self@, key@) == Some(i as int),
                None => find_key(self@, key@) is None,
            },
    {
        let kc = chars_of(key);
        let mut i: usize = 0;
        while i < self.entries.len()
            invariant
                kc@ == key@,
                i <= self@.len(),
                self@.len() == self.entries@.len(),
                find_key(self@, key@) == find_key_from(self@, key@, i as int),
            decreases self.entries.len() - i,
        {
            let c = chars_of(self.entries[i].0.as_str());
            assert(self@[i as int].0 == self.entries@[i as int].0@);
            if chars_eq(&c, &kc) {
                return Some(i);
            }
            i = i + 1;
        }
        None
    }

    /// The entry stored under `key`.
    pub fn get(&self, key: &str) -> (r: Option<&RegistryEntry>)
        ensures
            match r {
                Some(e) => table_get(self@, key@) == Some(*e),
                None => table_get(self@, key@) is None,
            },
    {
        proof {
            lemma_find_key(self@, key@);
        }
        match self.position(key) {
            Some(i) => {
                assert(self@[i as int].1 == self.entries@[i as int].1);
                Some(&self.entries[i].1)
            },
            None => None,
        }
    }

    /// Binds `key` to `entry` (`HashMap::insert`).
    pub fn insert(&mut self, key: String, entry: RegistryEntry)
        ensures
            final(self)@ == table_insert(old(self)@, key@, entry),
            keys_unique(final(self)@),
    {
        proof {
            use_type_invariant(&*self);
            lemma_get_after_insert(self@, key@, entry, key@);
        }
        let ghost k = key@;
        let ghost s0 = self@;
        proof {
            lemma_find_key(s0, k);
        }
        match self.position(key.as_str()) {
            Some(i) => {
                let mut entries: Vec<(String, RegistryEntry)> = Vec::new();
                std::mem::swap(&mut entries, &mut self.entries);
                let _ = entries.remove(i);
                entries.insert(i, (key, entry));
                let ghost s1 = entries@.map_values(|p: (String, RegistryEntry)| (p.0@, p.1));
                assert(s1 =~= s0.update(i as int, (k, entry)));
                self.entries = entries;
            },
            None => {
                let mut entries: Vec<(String, RegistryEntry)> = Vec::new();
                std::mem::swap(&mut entries, &mut self.entries);
                entries.push((key, entry));
                let ghost s1 = entries@.map_values(|p: (String, RegistryEntry)| (p.0@, p.1));
                assert(s1 =~= s0.push((k, entry)));
                self.entries = entries;
            },
        }
    }

    /// Removes the binding of `key`, returning its entry (`HashMap::remove`).
    pub fn remove(&mut self, key: &str) -> (r: Option<RegistryEntry>)
        ensures
            final(self)@ == table_remove(old(self)@, key@),
            r == table_get(old(self)@, key@),
            keys_unique(final(self)@),
    {
        proof {
            use_type_invariant(&*self);
            lemma_get_after_remove(self@, key@, key@);
        }
        let ghost s0 = self@;
        proof {
            lemma_find_key(s0, key@);
        }
        match self.position(key) {
            Some(i) => {
                let mut entries: Vec<(String, RegistryEntry)> = Vec::new();
                std::mem::swap(&mut entries, &mut self.entries);
                let (_, e) = entries.remove(i);
                let ghost s1 = entries@.map_values(|p: (String, RegistryEntry)| (p.0@, p.1));
                assert(s1 =~= s0.remove(i as int));
                self.entries = entries;
                Some(e)
            },
            None => None,
        }
    }

    /// Sets the `enabled` flag of the entry under `key`; false when there is none.
    pub fn set_enabled_of(&mut self, key: &str, enabled: bool) -> (found: bool)
        ensures
            found == (table_get(old(self)@, key@) is Some),
            final(self)@ == match table_get(old(self)@, key@) {
                Some(e) => table_update(old(self)@, key@, RegistryEntry { enabled, ..e }),
                None => old(self)@,
            },
            keys_unique(final(self)@),
    {
        proof {
            use_type_invariant(&*self);
            match table_get(self@, key@) {
                Some(e) => lemma_update_unique(self@, key@, RegistryEntry { enabled, ..e }),
                None => {},
            }
        }
        let ghost s0 = self@;
        proof {
            lemma_find_key(s0, key@);
        }
        match self.position(key) {
            Some(i) => {
                let mut entries: Vec<(String, RegistryEntry)> = Vec::new();
                std::mem::swap(&mut entries, &mut self.entries);
                let (k, e) = entries.remove(i);
                let e2 = RegistryEntry { enabled, ..e };
                entries.insert(i, (k, e2));
                let ghost s1 = entries@.map_values(|p: (String, RegistryEntry)| (p.0@, p.1));
                assert(s1 =~= s0.update(i as int, (key@, RegistryEntry { enabled, ..s0[i as int].1 })));
                self.entries = entries;
                true
            },
            None => false,
        }
    }

    /// Sets the execution mode of the entry under `key`; false when there is none.
    pub fn set_execution_mode_of(&mut self, key: &str, mode: ExecutionMode) -> (found: bool)
        ensures
            found == (table_get(old(self)@, key@) is Some),
            final(self)@ == match table_get(old(self)@, key@) {
                Some(e) => table_update(
                    old(self)@,
                    key@,
                    RegistryEntry { execution_mode: mode, ..e },
                ),
                None => old(self)@,
            },
            keys_unique(final(self)@),
    {
        proof {
            use_type_invariant(&*self);
            match table_get(self@, key@) {
                Some(e) => lemma_update_unique(self@, key@, RegistryEntry { execution_mode: mode, ..e }),
                None => {},
            }
        }
        let ghost s0 = self@;
        proof {
            lemma_find_key(s0, key@);
        }
        match self.position(key) {
            Some(i) => {
                let mut entries: Vec<(String, RegistryEntry)> = Vec::new();
                std::mem::swap(&mut entries, &mut self.entries);
                let (k, e) = entries.remove(i);
                let e2 = RegistryEntry { execution_mode: mode, ..e };
                entries.insert(i, (k, e2));
                let ghost s1 = entries@.map_values(|p: (String, RegistryEntry)| (p.0@, p.1));
                assert(s1 =~= s0.update(
                    i as int,
                    (key@, RegistryEntry { execution_mode: mode, ..s0[i as int].1 }),
                ));
                self.entries = entries;
                true
            },
            None => false,
        }
    }

    /// Keeps only the components whose names are in `live`; true when one was dropped.
    pub fn retain_live(&mut self, live: &[String]) -> (changed: bool)
        ensures
            final(self)@ == table_retain(old(self)@, string_views(live@)),
            changed == (final(self)@.len() != old(self)@.len()),
            keys_unique(final(self)@),
    {
        proof {
            use_type_invariant(&*self);
            lemma_retain_unique(self@, string_views(live@));
        }
        let ghost s0 = self@;
        let ghost lv = string_views(live@);
        let mut entries: Vec<(String, RegistryEntry)> = Vec::new();
        std::mem::swap(&mut entries, &mut self.entries);
        let total = entries.len();
        let mut kept: Vec<(String, RegistryEntry)> = Vec::new();
        let mut done: usize = 0;
        while entries.len() > 0
            invariant
                s0 == old(self)@,
                lv == string_views(live@),
                keys_unique(s0),
                total == s0.len(),
                done + entries@.len() == total,
                entries@.map_values(|p: (String, RegistryEntry)| (p.0@, p.1)) == s0.subrange(
                    done as int,
                    total as int,
                ),
                kept@.map_values(|p: (String, RegistryEntry)| (p.0@, p.1)) == table_retain(
                    s0.subrange(0, done as int),
                    lv,
                ),
            decreases entries.len(),
        {
            let ghost ev = entries@.map_values(|p: (String, RegistryEntry)| (p.0@, p.1));
            let (k, e) = entries.remove(0);
            proof {
                assert(ev[0] == (k@, e));
                assert(s0[done as int] == ev[0]);
                assert(s0.subrange(0, done + 1).drop_last() =~= s0.subrange(0, done as int));
                assert(entries@.map_values(|p: (String, RegistryEntry)| (p.0@, p.1)) =~= ev.subrange(
                    1,
                    ev.len() as int,
                ));
                assert(ev.subrange(1, ev.len() as int) =~= s0.subrange(done + 1, total as int));
            }
            let is_live = crate::text::strings_contain(live, k.as_str());
            let ghost kv = kept@.map_values(|p: (String, RegistryEntry)| (p.0@, p.1));
            if is_live {
                kept.push((k, e));
                assert(kept@.map_values(|p: (String, RegistryEntry)| (p.0@, p.1)) =~= kv.push(
                    s0[done as int],
                ));
            }
            done = done + 1;
        }
        assert(s0.subrange(0, total as int) =~= s0);
        let changed = kept.len() != total;
        proof {
            lemma_retain_unique(s0, lv);
        }
        self.entries = kept;
        changed
    }
}

/// Which components a listing picks.
#[derive(Debug, Clone, Copy, PartialEq, Eq, Structural)]
pub enum ListFilter {
    All,
    EnabledEager,
    EnabledLazy,
}

pub open spec fn picks(f: ListFilter, e: RegistryEntry) -> bool {
    match f {
        ListFilter::All => true,
        ListFilter::EnabledEager => e.enabled && e.load_strategy == LoadStrategy::Eager,
        ListFilter::EnabledLazy => e.enabled && e.load_strategy == LoadStrategy::Lazy,
    }
}

/// (name, kind tag, entry) for every picked binding of `s`, in table order.
pub open spec fn listed(s: TableView, tag: Seq<char>, f: ListFilter) -> Seq<(Seq<char>, Seq<char>, RegistryEntry)>
    decreases s.len(),
{
    if s.len() == 0 {
        Seq::empty()
    } else {
        let rest = listed(s.drop_last(), tag, f);
        if picks(f, s.last().1) {
            rest.push((s.last().0, tag, s.last().1))
        } else {
            rest
        }
    }
}

pub open spec fn listing_view<'a>(v: Seq<(String, &'a str, &'a RegistryEntry)>) -> Seq<(Seq<char>, Seq<char>, RegistryEntry)> {
    v.map_values(|p: (String, &'a str, &'a RegistryEntry)| (p.0@, p.1@, *p.2))
}

impl ComponentTable {
    /// Appends (name, tag, entry) for every picked binding, in table order.
    pub fn list_into<'a>(&'a self, tag: &'static str, f: ListFilter, out: &mut Vec<(String, &'static str, &'a RegistryEntry)>)
        ensures
            listing_view(final(out)@) == listing_view(old(out)@) + listed(self@, tag@, f),
    {
        let ghost s = self@;
        let ghost o = listing_view(out@);
        let mut i: usize = 0;
        while i < self.entries.len()
            invariant
                s == self@,
                s.len() == self.entries@.len(),
                forall|j: int| 0 <= j < s.len() ==> #[trigger] s[j] == (self.entries@[j].0@, self.entries@[j].1),
                i <= s.len(),
                listing_view(out@) == o + listed(s.subrange(0, i as int), tag@, f),
            decreases self.entries.len() - i,
        {
            let e = &self.entries[i].1;
            proof {
                assert(s.subrange(0, i + 1).drop_last() =~= s.subrange(0, i as int));
                assert(s[i as int] == (self.entries@[i as int].0@, self.entries@[i as int].1));
            }
            let pick = match f {
                ListFilter::All => true,
                ListFilter::EnabledEager => e.enabled && e.load_strategy == LoadStrategy::Eager,
                ListFilter::EnabledLazy => e.enabled && e.load_strategy == LoadStrategy::Lazy,
            };
            let ghost before = listing_view(out@);
            if pick {
                let name = self.entries[i].0.clone();
                out.push((name, tag, e));
                assert(listing_view(out@) =~= before.push((s[i as int].0, tag@, s[i as int].1)));
            }
            proof {
                assert(listing_view(out@) =~= o + listed(s.subrange(0, i + 1), tag@, f));
            }
            i = i + 1;
        }
        assert(s.subrange(0, s.len() as int) =~= s);
    }
}

/// Which table a component type names.
#[derive(Debug, Clone, Copy, PartialEq, Eq, Structural)]
pub enum ComponentKind {
    Plugin,
    Mcp,
    Skill,
}

/// `plugin`/`plugins`, `mcp` and `skill`/`skills` name the three tables.
pub open spec fn component_kind(t: Seq<char>) -> Option<ComponentKind> {
    if t == "plugin"@ || t == "plugins"@ {
        Some(ComponentKind::Plugin)
    } else if t == "mcp"@ {
        Some(ComponentKind::Mcp)
    } else if t == "skill"@ || t == "skills"@ {
        Some(ComponentKind::Skill)
    } else {
        None
    }
}

/// A refused registry operation.
pub enum RegistryError {
    UnknownComponentType(String),
    NotFound(String),
}

impl RegistryError {
    /// Text of the error.
    pub fn message(&self) -> (r: String)
        ensures
            r@ == match self {
                RegistryError::UnknownComponentType(t) => "Unknown component type: "@ + t@,
                RegistryError::NotFound(n) => "Component '"@ + n@ + "' not found in registry"@,
            },
    {
        match self {
            RegistryError::UnknownComponentType(t) => {
                let p = chars_of("Unknown component type: ");
                let tc = chars_of(t.as_str());
                string_of(&crate::text::concat_chars(&p, &tc))
            },
            RegistryError::NotFound(n) => {
                let p = chars_of("Component '");
                let nc = chars_of(n.as_str());
                let a = crate::text::concat_chars(&p, &nc);
                string_of(&concat_str(&a, "' not found in registry"))
            },
        }
    }
}

/// The registry of installed plugins, MCP servers and skills.
pub struct MasterRegistry {
    pub version: String,
    pub last_updated: String,
    pub schema: String,
    pub plugins: ComponentTable,
    pub mcp: ComponentTable,
    pub skills: ComponentTable,
}

pub open spec fn table_of(r: MasterRegistry, k: ComponentKind) -> TableView {
    match k {
        ComponentKind::Plugin => r.plugins@,
        ComponentKind::Mcp => r.mcp@,
        ComponentKind::Skill => r.skills@,
    }
}

/// The registry `r` with the table of kind `k` replaced by `t` (other fields unchanged).
pub open spec fn with_table(a: MasterRegistry, b: MasterRegistry, k: ComponentKind, t: TableView) -> bool {
    &&& a.version == b.version
    &&& a.last_updated == b.last_updated
    &&& a.schema == b.schema
    &&& table_of(b, k) == t
    &&& forall|o: ComponentKind| o != k ==> table_of(b, o) == table_of(a, o)
}

/// Nothing changed.
pub open spec fn unchanged(a: MasterRegistry, b: MasterRegistry) -> bool {
    &&& a.version == b.version
    &&& a.last_updated == b.last_updated
    &&& a.schema == b.schema
    &&& a.plugins@ == b.plugins@
    &&& a.mcp@ == b.mcp@
    &&& a.skills@ == b.skills@
}

impl Default for MasterRegistry {
    /// Empty strings and empty tables.
    fn default() -> (r: Self)
        ensures
            r.version@.len() == 0,
            r.schema@.len() == 0,
            r.plugins@.len() == 0,
            r.mcp@.len() == 0,
            r.skills@.len() == 0,
    {
        MasterRegistry {
            version: String::new(),
            last_updated: String::new(),
            schema: String::new(),
            plugins: ComponentTable::new(),
            mcp: ComponentTable::new(),
            skills: ComponentTable::new(),
        }
    }
}

impl MasterRegistry {
    fn kind_of(component_type: &str) -> (r: Option<ComponentKind>)
        ensures
            r == component_kind(component_type@),
    {
        let t = chars_of(component_type);
        if crate::text::eq_str(&t, "plugin") || crate::text::eq_str(&t, "plugins") {
            Some(ComponentKind::Plugin)
        } else if crate::text::eq_str(&t, "mcp") {
            Some(ComponentKind::Mcp)
        } else if crate::text::eq_str(&t, "skill") || crate::text::eq_str(&t, "skills") {
            Some(ComponentKind::Skill)
        } else {
            None
        }
    }

    /// Path of `registry.yaml` in the configuration folder.
    pub fn registry_path(config_dir: &str) -> (r: String)
        ensures
            r@ == path_join(config_dir@, "registry.yaml"@),
    {
        join_path(config_dir, "registry.yaml")
    }

    /// Path of the pre-compiled `registry.bin` cache in the configuration folder.
    pub fn registry_bin_path(config_dir: &str) -> (r: String)
        ensures
            r@ == path_join(config_dir@, "registry.bin"@),
    {
        join_path(config_dir, "registry.bin")
    }

    /// Drops components whose folders are gone; `live_*` name the folders that exist.
    /// True when something was dropped (the caller then persists the registry).
    pub fn sync_with_filesystem(
        &mut self,
        live_plugins: &[String],
        live_mcp: &[String],
        live_skills: &[String],
    ) -> (changed: bool)
        ensures
            final(self).plugins@ == table_retain(old(self).plugins@, string_views(live_plugins@)),
            final(self).mcp@ == table_retain(old(self).mcp@, string_views(live_mcp@)),
            final(self).skills@ == table_retain(old(self).skills@, string_views(live_skills@)),
            final(self).version == old(self).version,
            final(self).last_updated == old(self).last_updated,
            final(self).schema == old(self).schema,
            changed == (final(self).plugins@.len() != old(self).plugins@.len()
                || final(self).mcp@.len() != old(self).mcp@.len()
                || final(self).skills@.len() != old(self).skills@.len()),
    {
        let a = self.plugins.retain_live(live_plugins);
        let b = self.mcp.retain_live(live_mcp);
        let c = self.skills.retain_live(live_skills);
        a || b || c
    }

    /// Adds or replaces a component entry.
    pub fn register_component(&mut self, component_type: &str, name: &str, entry: RegistryEntry) -> (r: Result<(), RegistryError>)
        ensures
            match component_kind(component_type@) {
                Some(k) => r is Ok && with_table(*old(self), *final(self), k, table_insert(table_of(*old(self), k), name@, entry)),
                None => (r matches Err(RegistryError::UnknownComponentType(t)) && t@ == component_type@) && unchanged(*old(self), *final(self)),
            },
    {
        match Self::kind_of(component_type) {
            Some(ComponentKind::Plugin) => {
                self.plugins.insert(name.to_owned(), entry);
                Ok(())
            },
            Some(ComponentKind::Mcp) => {
                self.mcp.insert(name.to_owned(), entry);
                Ok(())
            },
            Some(ComponentKind::Skill) => {
                self.skills.insert(name.to_owned(), entry);
                Ok(())
            },
            None => Err(RegistryError::UnknownComponentType(component_type.to_owned())),
        }
    }

    /// Removes a component entry; refused for an unknown type or an absent name.
    pub fn deregister_component(&mut self, component_type: &str, name: &str) -> (r: Result<(), RegistryError>)
        ensures
            match component_kind(component_type@) {
                Some(k) => if table_get(table_of(*old(self), k), name@) is Some {
                    r is Ok && with_table(*old(self), *final(self), k, table_remove(table_of(*old(self), k), name@))
                } else {
                    (r matches Err(RegistryError::NotFound(n)) && n@ == name@) && unchanged(*old(self), *final(self))
                },
                None => (r matches Err(RegistryError::UnknownComponentType(t)) && t@ == component_type@) && unchanged(*old(self), *final(self)),
            },
    {
        let removed = match Self::kind_of(component_type) {
            Some(ComponentKind::Plugin) => self.plugins.remove(name).is_some(),
            Some(ComponentKind::Mcp) => self.mcp.remove(name).is_some(),
            Some(ComponentKind::Skill) => self.skills.remove(name).is_some(),
            None => {
                return Err(RegistryError::UnknownComponentType(component_type.to_owned()));
            },
        };
        if !removed {
            return Err(RegistryError::NotFound(name.to_owned()));
        }
        Ok(())
    }

    /// Enables or disables a component; refused for an unknown type or an absent name.
    pub fn set_enabled(&mut self, component_type: &str, name: &str, enabled: bool) -> (r: Result<(), RegistryError>)
        ensures
            match component_kind(component_type@) {
                Some(k) => match table_get(table_of(*old(self), k), name@) {
                    Some(e) => r is Ok && with_table(*old(self), *final(self), k, table_update(table_of(*old(self), k), name@, RegistryEntry { enabled, ..e })),
                    None => (r matches Err(RegistryError::NotFound(n)) && n@ == name@) && unchanged(*old(self), *final(self)),
                },
                None => (r matches Err(RegistryError::UnknownComponentType(t)) && t@ == component_type@) && unchanged(*old(self), *final(self)),
            },
    {
        let found = match Self::kind_of(component_type) {
            Some(ComponentKind::Plugin) => self.plugins.set_enabled_of(name, enabled),
            Some(ComponentKind::Mcp) => self.mcp.set_enabled_of(name, enabled),
            Some(ComponentKind::Skill) => self.skills.set_enabled_of(name, enabled),
            None => {
                return Err(RegistryError::UnknownComponentType(component_type.to_owned()));
            },
        };
        if !found {
            return Err(RegistryError::NotFound(name.to_owned()));
        }
        Ok(())
    }

    /// Sets a component's execution mode; refused for an unknown type or an absent name.
    pub fn set_execution_mode(&mut self, component_type: &str, name: &str, mode: ExecutionMode) -> (r: Result<(), RegistryError>)
        ensures
            match component_kind(component_type@) {
                Some(k) => match table_get(table_of(*old(self), k), name@) {
                    Some(e) => r is Ok && with_table(*old(self), *final(self), k, table_update(table_of(*old(self), k), name@, RegistryEntry { execution_mode: mode, ..e })),
                    None => (r matches Err(RegistryError::NotFound(n)) && n@ == name@) && unchanged(*old(self), *final(self)),
                },
                None => (r matches Err(RegistryError::UnknownComponentType(t)) && t@ == component_type@) && unchanged(*old(self), *final(self)),
            },
    {
        let found = match Self::kind_of(component_type) {
            Some(ComponentKind::Plugin) => self.plugins.set_execution_mode_of(name, mode),
            Some(ComponentKind::Mcp) => self.mcp.set_execution_mode_of(name, mode),
            Some(ComponentKind::Skill) => self.skills.set_execution_mode_of(name, mode),
            None => {
                return Err(RegistryError::UnknownComponentType(component_type.to_owned()));
            },
        };
        if !found {
            return Err(RegistryError::NotFound(name.to_owned()));
        }
        Ok(())
    }

    /// Enabled eager components of every type (plugins, MCP servers, then skills),
    /// loaded at boot.
    pub fn eager_components(&self) -> (r: Vec<(String, &'static str, &RegistryEntry)>)
        ensures
            listing_view(r@) == boot_listing(*self, ListFilter::EnabledEager),
    {
        let mut r: Vec<(String, &'static str, &RegistryEntry)> = Vec::new();
        assert(listing_view(r@) =~= Seq::<(Seq<char>, Seq<char>, RegistryEntry)>::empty());
        self.plugins.list_into("plugin", ListFilter::EnabledEager, &mut r);
        self.mcp.list_into("mcp", ListFilter::EnabledEager, &mut r);
        self.skills.list_into("skill", ListFilter::EnabledEager, &mut r);
        r
    }

    /// Enabled lazy components of every type (plugins, MCP servers, then skills),
    /// watched for activation events.
    pub fn lazy_watch_list(&self) -> (r: Vec<(String, &'static str, &RegistryEntry)>)
        ensures
            listing_view(r@) == boot_listing(*self, ListFilter::EnabledLazy),
    {
        let mut r: Vec<(String, &'static str, &RegistryEntry)> = Vec::new();
        assert(listing_view(r@) =~= Seq::<(Seq<char>, Seq<char>, RegistryEntry)>::empty());
        self.plugins.list_into("plugin", ListFilter::EnabledLazy, &mut r);
        self.mcp.list_into("mcp", ListFilter::EnabledLazy, &mut r);
        self.skills.list_into("skill", ListFilter::EnabledLazy, &mut r);
        r
    }

    /// Every plugin then every MCP server.
    pub fn list_all(&self) -> (r: Vec<(String, &'static str, &RegistryEntry)>)
        ensures
            listing_view(r@) == listed(self.plugins@, "plugin"@, ListFilter::All) + listed(self.mcp@, "mcp"@, ListFilter::All),
    {
        let mut r: Vec<(String, &'static str, &RegistryEntry)> = Vec::new();
        assert(listing_view(r@) =~= Seq::<(Seq<char>, Seq<char>, RegistryEntry)>::empty());
        self.plugins.list_into("plugin", ListFilter::All, &mut r);
        self.mcp.list_into("mcp", ListFilter::All, &mut r);
        r
    }
}

/// The boot listing of a filter: picked plugins, MCP servers, then skills, each
/// with its type tag.
pub open spec fn boot_listing(r: MasterRegistry, f: ListFilter) -> Seq<(Seq<char>, Seq<char>, RegistryEntry)> {
    listed(r.plugins@, "plugin"@, f) + listed(r.mcp@, "mcp"@, f) + listed(r.skills@, "skill"@, f)
}

/// What a listing holds: exactly the picked bindings of the table, with the tag.
pub proof fn lemma_listed_members(s: TableView, tag: Seq<char>, f: ListFilter, x: (Seq<char>, Seq<char>, RegistryEntry))
    ensures
        listed(s, tag, f).contains(x) <==> (x.1 == tag && picks(f, x.2) && s.contains((x.0, x.2))),
    decreases s.len(),
{
    if s.len() > 0 {
        let t = s.drop_last();
        lemma_listed_members(t, tag, f, x);
        let rest = listed(t, tag, f);
        let l = listed(s, tag, f);
        if l.contains(x) {
            let k = choose|k: int| 0 <= k < l.len() && l[k] == x;
            if k < rest.len() {
                if picks(f, s.last().1) {
                    assert(l[k] == rest[k]);
                }
                assert(rest.contains(x));
                let m = choose|m: int| 0 <= m < t.len() && t[m] == (x.0, x.2);
                assert(s[m] == t[m]);
            } else {
                assert(s[s.len() - 1] == s.last());
            }
        }
        if x.1 == tag && picks(f, x.2) && s.contains((x.0, x.2)) {
            let m = choose|m: int| 0 <= m < s.len() && s[m] == (x.0, x.2);
            if m < s.len() - 1 {
                assert(t[m] == s[m]);
                assert(rest.contains(x));
                let k = choose|k: int| 0 <= k < rest.len() && rest[k] == x;
                if picks(f, s.last().1) {
                    assert(l[k] == rest[k]);
                }
            } else {
                assert(s.last() == (x.0, x.2));
                assert(l[rest.len() as int] == x);
            }
        }
    }
}

proof fn lemma_boot_listing_members(r: MasterRegistry, f: ListFilter, x: (Seq<char>, Seq<char>, RegistryEntry))
    ensures
        boot_listing(r, f).contains(x) <==> (listed(r.plugins@, "plugin"@, f).contains(x) || listed(
            r.mcp@,
            "mcp"@,
            f,
        ).contains(x) || listed(r.skills@, "skill"@, f).contains(x)),
{
    let a = listed(r.plugins@, "plugin"@, f);
    let b = listed(r.mcp@, "mcp"@, f);
    let c = listed(r.skills@, "skill"@, f);
    let l = boot_listing(r, f);
    assert(l == a + b + c);
    if l.contains(x) {
        let k = choose|k: int| 0 <= k < l.len() && l[k] == x;
        if k < a.len() {
            assert(a[k] == x);
        } else if k < a.len() + b.len() {
            assert(b[k - a.len()] == x);
        } else {
            assert(c[k - a.len() - b.len()] == x);
        }
    }
    if a.contains(x) {
        let k = choose|k: int| 0 <= k < a.len() && a[k] == x;
        assert(l[k] == x);
    }
    if b.contains(x) {
        let k = choose|k: int| 0 <= k < b.len() && b[k] == x;
        assert(l[a.len() + k] == x);
    }
    if c.contains(x) {
        let k = choose|k: int| 0 <= k < c.len() && c[k] == x;
        assert(l[a.len() + b.len() + k] == x);
    }
}

/// Every enabled component of every type is in exactly one of the boot listings
/// (the eager one when it loads eagerly, the lazy one otherwise), a disabled one
/// is in neither, and nothing else is listed.
pub proof fn lemma_boot_listings_partition(r: MasterRegistry, x: (Seq<char>, Seq<char>, RegistryEntry))
    ensures
        boot_listing(r, ListFilter::EnabledEager).contains(x) <==> (x.2.enabled && x.2.load_strategy
            == LoadStrategy::Eager && component_of(r, x)),
        boot_listing(r, ListFilter::EnabledLazy).contains(x) <==> (x.2.enabled && x.2.load_strategy
            == LoadStrategy::Lazy && component_of(r, x)),
        !(boot_listing(r, ListFilter::EnabledEager).contains(x) && boot_listing(r, ListFilter::EnabledLazy).contains(x)),
{
    lemma_boot_listing_members(r, ListFilter::EnabledEager, x);
    lemma_boot_listing_members(r, ListFilter::EnabledLazy, x);
    lemma_listed_members(r.plugins@, "plugin"@, ListFilter::EnabledEager, x);
    lemma_listed_members(r.mcp@, "mcp"@, ListFilter::EnabledEager, x);
    lemma_listed_members(r.skills@, "skill"@, ListFilter::EnabledEager, x);
    lemma_listed_members(r.plugins@, "plugin"@, ListFilter::EnabledLazy, x);
    lemma_listed_members(r.mcp@, "mcp"@, ListFilter::EnabledLazy, x);
    lemma_listed_members(r.skills@, "skill"@, ListFilter::EnabledLazy, x);
}

/// `x` is a (name, type tag, entry) of the registry: a binding of the table its tag names.
pub open spec fn component_of(r: MasterRegistry, x: (Seq<char>, Seq<char>, RegistryEntry)) -> bool {
    ||| x.1 == "plugin"@ && r.plugins@.contains((x.0, x.2))
    ||| x.1 == "mcp"@ && r.mcp@.contains((x.0, x.2))
    ||| x.1 == "skill"@ && r.skills@.contains((x.0, x.2))
}

/// A retained table is a subsequence: it is no longer than the table it came from.
proof fn lemma_retain_len(s: TableView, live: Seq<Seq<char>>)
    ensures
        table_retain(s, live).len() <= s.len(),
    decreases s.len(),
{
    if s.len() > 0 {
        lemma_retain_len(s.drop_last(), live);
    }
}

/// Every binding of a retained table comes from the table it was taken from.
proof fn lemma_retain_members(s: TableView, live: Seq<Seq<char>>)
    ensures
        forall|i: int|
            0 <= i < table_retain(s, live).len() ==> s.contains(#[trigger] table_retain(s, live)[i]),
    decreases s.len(),
{
    if s.len() > 0 {
        lemma_retain_members(s.drop_last(), live);
        let rest = table_retain(s.drop_last(), live);
        assert forall|i: int| 0 <= i < table_retain(s, live).len() implies s.contains(
            #[trigger] table_retain(s, live)[i],
        ) by {
            if i < rest.len() {
                let x = rest[i];
                assert(s.drop_last().contains(x));
                let j = choose|j: int| 0 <= j < s.drop_last().len() && s.drop_last()[j] == x;
                assert(s[j] == x);
            } else {
                assert(s[s.len() - 1] == s.last());
            }
        }
    }
}

/// Retaining keeps keys unique.
proof fn lemma_retain_unique(s: TableView, live: Seq<Seq<char>>)
    requires
        keys_unique(s),
    ensures
        keys_unique(table_retain(s, live)),
    decreases s.len(),
{
    if s.len() > 0 {
        let t = s.drop_last();
        assert(keys_unique(t));
        lemma_retain_unique(t, live);
        lemma_retain_members(t, live);
        let rest = table_retain(t, live);
        if live.contains(s.last().0) {
            assert forall|i: int, j: int| 0 <= i < j < rest.push(s.last()).len() implies rest.push(
                s.last(),
            )[i].0 != rest.push(s.last())[j].0 by {
                if j == rest.len() {
                    let x = rest[i];
                    assert(t.contains(x));
                    let m = choose|m: int| 0 <= m < t.len() && t[m] == x;
                    assert(s[m] == t[m]);
                    assert(s[s.len() - 1] == s.last());
                }
            }
        }
    }
}

/// Every key of a retained table is live.
proof fn lemma_retain_live_keys(s: TableView, live: Seq<Seq<char>>)
    ensures
        forall|i: int| 0 <= i < table_retain(s, live).len() ==> live.contains(#[trigger] table_retain(s, live)[i].0),
    decreases s.len(),
{
    if s.len() > 0 {
        lemma_retain_live_keys(s.drop_last(), live);
        let rest = table_retain(s.drop_last(), live);
        if live.contains(s.last().0) {
            assert forall|i: int| 0 <= i < rest.push(s.last()).len() implies live.contains(
                #[trigger] rest.push(s.last())[i].0,
            ) by {
                if i < rest.len() {
                    assert(rest.push(s.last())[i] == rest[i]);
                }
            }
        }
    }
}

/// Every binding of the table whose key is live is kept.
proof fn lemma_retain_keeps_live(s: TableView, live: Seq<Seq<char>>)
    ensures
        forall|i: int| 0 <= i < s.len() && live.contains(#[trigger] s[i].0) ==> table_retain(s, live).contains(s[i]),
    decreases s.len(),
{
    if s.len() > 0 {
        let t = s.drop_last();
        lemma_retain_keeps_live(t, live);
        let rest = table_retain(t, live);
        assert forall|i: int| 0 <= i < s.len() && live.contains(#[trigger] s[i].0) implies table_retain(s, live).contains(
            s[i],
        ) by {
            if i < s.len() - 1 {
                assert(t[i] == s[i]);
                assert(rest.contains(s[i]));
                let j = choose|j: int| 0 <= j < rest.len() && rest[j] == s[i];
                if live.contains(s.last().0) {
                    assert(rest.push(s.last())[j] == s[i]);
                }
            } else {
                assert(s[i] == s.last());
                assert(table_retain(s, live) == rest.push(s.last()));
                assert(table_retain(s, live)[rest.len() as int] == s[i]);
            }
        }
    }
}

/// A table whose keys are all live is left as it is.
proof fn lemma_retain_all_live(s: TableView, live: Seq<Seq<char>>)
    requires
        forall|i: int| 0 <= i < s.len() ==> live.contains(#[trigger] s[i].0),
    ensures
        table_retain(s, live) == s,
    decreases s.len(),
{
    if s.len() > 0 {
        let t = s.drop_last();
        assert forall|i: int| 0 <= i < t.len() implies live.contains(#[trigger] t[i].0) by {
            assert(t[i] == s[i]);
        }
        lemma_retain_all_live(t, live);
        assert(s[s.len() - 1] == s.last());
        assert(t.push(s.last()) =~= s);
    }
}

/// With unique keys, a key reads as the entry of the binding that holds it.
proof fn lemma_get_unique(s: TableView, k: Seq<char>)
    requires
        keys_unique(s),
    ensures
        forall|i: int| 0 <= i < s.len() && #[trigger] s[i].0 == k ==> table_get(s, k) == Some(s[i].1),
        (forall|i: int| 0 <= i < s.len() ==> #[trigger] s[i].0 != k) ==> table_get(s, k) is None,
{
    lemma_find_key(s, k);
    assert forall|i: int| 0 <= i < s.len() && #[trigger] s[i].0 == k implies table_get(s, k) == Some(s[i].1) by {
        let j = find_key(s, k)->0;
        if j != i {
            assert(s[j].0 == s[i].0);
        }
    }
}

/// After a filesystem sync a component with a live folder reads as before, one
/// without reads as absent, keys stay unique, and a second sync changes nothing.
pub proof fn lemma_sync_keeps_live_components(s: TableView, live: Seq<Seq<char>>, k: Seq<char>)
    requires
        keys_unique(s),
    ensures
        live.contains(k) ==> table_get(table_retain(s, live), k) == table_get(s, k),
        !live.contains(k) ==> table_get(table_retain(s, live), k) is None,
        keys_unique(table_retain(s, live)),
        table_retain(table_retain(s, live), live) == table_retain(s, live),
{
    let r = table_retain(s, live);
    lemma_retain_unique(s, live);
    lemma_retain_members(s, live);
    lemma_retain_live_keys(s, live);
    lemma_retain_keeps_live(s, live);
    lemma_retain_all_live(r, live);
    lemma_get_unique(s, k);
    lemma_get_unique(r, k);
    if live.contains(k) {
        lemma_find_key(s, k);
        match find_key(s, k) {
            Some(i) => {
                assert(s[i].0 == k);
                assert(r.contains(s[i]));
                let j = choose|j: int| 0 <= j < r.len() && r[j] == s[i];
                assert(r[j].0 == k);
            },
            None => {
                assert forall|j: int| 0 <= j < r.len() implies #[trigger] r[j].0 != k by {
                    assert(s.contains(r[j]));
                    let m = choose|m: int| 0 <= m < s.len() && s[m] == r[j];
                    assert(s[m].0 != k);
                }
            },
        }
    } else {
        assert forall|j: int| 0 <= j < r.len() implies #[trigger] r[j].0 != k by {
            assert(live.contains(r[j].0));
        }
    }
}

} // verus!
