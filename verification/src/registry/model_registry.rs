//! The table of installed models, keyed by model id.
use vstd::prelude::*;
use crate::entities::{slot_name, SlotType};
use crate::registry::installed::{build_registry_entry, entry_in_slot, scanned_entry, ExtraItem, ModelRegistryEntry, WeightFile};
use crate::discovery::capabilities::RegistryModelMetadata;
use crate::registry::registry_index::{
    find_key, find_key_from, keys_unique, lemma_find_key, lemma_get_after_insert, lemma_get_after_remove, table_get,
    table_insert, table_remove,
};
use crate::text::{chars_eq, chars_of};

verus! {

/// (model id, entry) pairs, in table order.
pub type InstalledView = Seq<(Seq<char>, ModelRegistryEntry)>;

/// Every binding is keyed by its entry's own id.
pub open spec fn keyed_by_id(s: InstalledView) -> bool {
    forall|i: int| 0 <= i < s.len() ==> #[trigger] s[i].0 == s[i].1.id@
}

/// The entries of `s` whose category is `category`, in table order.
pub open spec fn in_category(s: InstalledView, category: Seq<char>) -> Seq<ModelRegistryEntry>
    decreases s.len(),
{
    if s.len() == 0 {
        Seq::empty()
    } else {
        let rest = in_category(s.drop_last(), category);
        if s.last().1.category@ == category {
            rest.push(s.last().1)
        } else {
            rest
        }
    }
}

/// The repository recorded under `id`, empty when there is no record.
pub open spec fn previous_repo(s: InstalledView, id: Seq<char>) -> Seq<char> {
    match table_get(s, id) {
        Some(e) => e.huggingface_repo@,
        None => Seq::empty(),
    }
}

/// Installed models by id (`model_registry.json`'s `installed_models`).
pub struct ModelRegistry {
    installed_models: Vec<ModelRegistryEntry>,
}

impl View for ModelRegistry {
    type V = InstalledView;

    closed spec fn view(&self) -> InstalledView {
        self.installed_models@.map_values(|e: ModelRegistryEntry| (e.id@, e))
    }
}

/// What `in_category` lists is exactly the entries of that category.
pub proof fn lemma_in_category_members(s: InstalledView, category: Seq<char>, x: ModelRegistryEntry)
    ensures
        in_category(s, category).contains(x) <==> exists|i: int|
            0 <= i < s.len() && #[trigger] s[i].1 == x && x.category@ == category,
    decreases s.len(),
{
    if s.len() > 0 {
        let p = s.drop_last();
        lemma_in_category_members(p, category, x);
        let rest = in_category(p, category);
        if in_category(s, category).contains(x) {
            if s.last().1.category@ == category && rest.push(s.last().1).last() == x && !rest.contains(x) {
                assert(s[s.len() - 1].1 == x);
            } else if rest.contains(x) {
                let i = choose|i: int| 0 <= i < p.len() && #[trigger] p[i].1 == x && x.category@ == category;
                assert(s[i].1 == x);
            } else {
                let k = choose|k: int| 0 <= k < in_category(s, category).len() && in_category(s, category)[k] == x;
                assert(s.last().1.category@ == category);
                assert(in_category(s, category) == rest.push(s.last().1));
                if k < rest.len() {
                    assert(rest.contains(x));
                } else {
                    assert(s[s.len() - 1].1 == x);
                }
            }
        }
        if exists|i: int| 0 <= i < s.len() && #[trigger] s[i].1 == x && x.category@ == category {
            let i = choose|i: int| 0 <= i < s.len() && #[trigger] s[i].1 == x && x.category@ == category;
            if i < s.len() - 1 {
                assert(p[i].1 == x);
                assert(rest.contains(x));
                if s.last().1.category@ == category {
                    assert(rest.push(s.last().1)[rest.index_of(x)] == x);
                }
            } else {
                assert(in_category(s, category) == rest.push(s.last().1));
                assert(in_category(s, category)[rest.len() as int] == x);
            }
        }
    }
}

/// A registered model is listed for its own category, and every other model
/// reads as before.
pub proof fn lemma_registered_model_listed(s: InstalledView, e: ModelRegistryEntry, other: Seq<char>)
    requires
        keys_unique(s),
        keyed_by_id(s),
    ensures
        table_get(table_insert(s, e.id@, e), e.id@) == Some(e),
        other != e.id@ ==> table_get(table_insert(s, e.id@, e), other) == table_get(s, other),
        in_category(table_insert(s, e.id@, e), e.category@).contains(e),
        keyed_by_id(table_insert(s, e.id@, e)),
{
    let t = table_insert(s, e.id@, e);
    lemma_get_after_insert(s, e.id@, e, other);
    lemma_find_key(t, e.id@);
    let j = find_key(t, e.id@)->0;
    assert(t[j].1 == e);
    lemma_in_category_members(t, e.category@, e);
    lemma_find_key(s, e.id@);
    match find_key(s, e.id@) {
        Some(i) => {
            assert(t == s.update(i, (e.id@, e)));
        },
        None => {
            assert(t == s.push((e.id@, e)));
        },
    }
    assert(keyed_by_id(t));
}

/// After an unregistration no listing holds a model of that id, and every other
/// model reads as before.
pub proof fn lemma_unregistered_model_gone(s: InstalledView, id: Seq<char>, other: Seq<char>, category: Seq<char>)
    requires
        keys_unique(s),
        keyed_by_id(s),
    ensures
        table_get(table_remove(s, id), id) is None,
        other != id ==> table_get(table_remove(s, id), other) == table_get(s, other),
        forall|x: ModelRegistryEntry| #[trigger] in_category(table_remove(s, id), category).contains(x) ==> x.id@ != id,
        keyed_by_id(table_remove(s, id)),
{
    let t = table_remove(s, id);
    lemma_get_after_remove(s, id, other);
    lemma_find_key(s, id);
    lemma_find_key(t, id);
    match find_key(s, id) {
        Some(i) => {
            assert(t == s.remove(i));
            assert(forall|m: int| 0 <= m < i ==> t[m] == s[m]);
            assert(forall|m: int| i <= m < t.len() ==> t[m] == s[m + 1]);
        },
        None => {},
    }
    assert(keyed_by_id(t));
    assert forall|x: ModelRegistryEntry| #[trigger] in_category(t, category).contains(x) implies x.id@ != id by {
        lemma_in_category_members(t, category, x);
        let i = choose|i: int| 0 <= i < t.len() && #[trigger] t[i].1 == x && x.category@ == category;
        assert(t[i].0 == x.id@);
    }
}

impl ModelRegistry {
    #[verifier::type_invariant]
    spec fn inv(self) -> bool {
        keys_unique(self@)
    }

    /// An empty registry.
    pub fn new() -> (r: Self)
        ensures
            r@ == Seq::<(Seq<char>, ModelRegistryEntry)>::empty(),
            keys_unique(r@),
            keyed_by_id(r@),
    {
        let r = ModelRegistry { installed_models: Vec::new() };
        assert(r@ =~= Seq::<(Seq<char>, ModelRegistryEntry)>::empty());
        r
    }

    /// Number of installed models.
    pub fn len(&self) -> (n: usize)
        ensures
            n == self@.len(),
    {
        self.installed_models.len()
    }

    /// The entries in table order.
    pub fn entries(&self) -> (r: &Vec<ModelRegistryEntry>)
        ensures
            r@.map_values(|e: ModelRegistryEntry| (e.id@, e)) == self@,
    {
        &self.installed_models
    }

    /// The entries in table order, giving the registry up.
    pub fn into_entries(self) -> (r: Vec<ModelRegistryEntry>)
        ensures
            r@.map_values(|e: ModelRegistryEntry| (e.id@, e)) == self@,
    {
        self.installed_models
    }

    fn position(&self, id: &str) -> (r: Option<usize>)
        ensures
            match r {
                Some(i) => find_key(self@, id@) == Some(i as int),
                None => find_key(self@, id@) is None,
            },
    {
        let kc = chars_of(id);
        let mut i: usize = 0;
        while i < self.installed_models.len()
            invariant
                kc@ == id@,
                i <= self@.len(),
                self@.len() == self.installed_models@.len(),
                find_key(self@, id@) == find_key_from(self@, id@, i as int),
            decreases self.installed_models.len() - i,
        {
            let c = chars_of(self.installed_models[i].id.as_str());
            assert(self@[i as int].0 == self.installed_models@[i as int].id@);
            if chars_eq(&c, &kc) {
                return Some(i);
            }
            i = i + 1;
        }
        None
    }

    /// The model installed under `id`.
    pub fn get(&self, id: &str) -> (r: Option<&ModelRegistryEntry>)
        ensures
            match r {
                Some(e) => table_get(self@, id@) == Some(*e),
                None => table_get(self@, id@) is None,
            },
    {
        proof {
            lemma_find_key(self@, id@);
        }
        match self.position(id) {
            Some(i) => {
                assert(self@[i as int].1 == self.installed_models@[i as int]);
                Some(&self.installed_models[i])
            },
            None => None,
        }
    }

    /// Records an installed model under its id, replacing an earlier record.
    pub fn register_model(&mut self, entry: ModelRegistryEntry)
        ensures
            final(self)@ == table_insert(old(self)@, entry.id@, entry),
            keys_unique(final(self)@),
            keyed_by_id(final(self)@),
    {
        proof {
            use_type_invariant(&*self);
        }
        let ghost s0 = self@;
        let ghost k = entry.id@;
        proof {
            lemma_find_key(s0, k);
            lemma_get_after_insert(s0, k, entry, k);
        }
        match self.position(entry.id.as_str()) {
            Some(i) => {
                let mut v: Vec<ModelRegistryEntry> = Vec::new();
                std::mem::swap(&mut v, &mut self.installed_models);
                let _ = v.remove(i);
                v.insert(i, entry);
                let ghost s1 = v@.map_values(|e: ModelRegistryEntry| (e.id@, e));
                assert(s1 =~= s0.update(i as int, (k, entry)));
                self.installed_models = v;
            },
            None => {
                let mut v: Vec<ModelRegistryEntry> = Vec::new();
                std::mem::swap(&mut v, &mut self.installed_models);
                v.push(entry);
                let ghost s1 = v@.map_values(|e: ModelRegistryEntry| (e.id@, e));
                assert(s1 =~= s0.push((k, entry)));
                self.installed_models = v;
            },
        }
    }

    /// Records what a scan found in the model folder `id`: nothing for a folder
    /// without weight files, else the entry `build_registry_entry` makes of it,
    /// keeping the repository recorded before under `id`.  Tells whether the table
    /// changed.
    pub fn record_scanned_folder(
        &mut self,
        id: &str,
        local_dir: &str,
        weights: &Vec<WeightFile>,
        extras: Vec<ExtraItem>,
        slot: SlotType,
        caps: &crate::taxonomy::rules::ModelCapabilities,
        metadata: RegistryModelMetadata,
        requires_gpu: bool,
    ) -> (changed: bool)
        ensures
            changed == (weights@.len() > 0),
            !changed ==> final(self)@ == old(self)@,
            changed ==> (table_get(final(self)@, id@) matches Some(e) && final(self)@ == table_insert(old(self)@, id@, e)
                && scanned_entry(
                e,
                id@,
                local_dir@,
                weights@,
                extras@,
                slot,
                caps.has_vision,
                metadata,
                requires_gpu,
                previous_repo(old(self)@, id@),
            )),
            keys_unique(final(self)@),
            keyed_by_id(final(self)@),
    {
        proof {
            use_type_invariant(&*self);
        }
        let previous = match self.get(id) {
            Some(e) => Some(e.huggingface_repo.clone()),
            None => None,
        };
        let ghost extras_v = extras@;
        match build_registry_entry(id, local_dir, weights, extras, slot, caps, metadata, requires_gpu, previous) {
            None => false,
            Some(e) => {
                let ghost s0 = self@;
                proof {
                    lemma_get_after_insert(s0, id@, e, id@);
                }
                self.register_model(e);
                true
            },
        }
    }

    /// Drops the record of `id`, returning it.
    pub fn unregister_model(&mut self, id: &str) -> (r: Option<ModelRegistryEntry>)
        ensures
            final(self)@ == table_remove(old(self)@, id@),
            r == table_get(old(self)@, id@),
            keys_unique(final(self)@),
            keyed_by_id(final(self)@),
    {
        proof {
            use_type_invariant(&*self);
        }
        let ghost s0 = self@;
        proof {
            lemma_find_key(s0, id@);
            lemma_get_after_remove(s0, id@, id@);
        }
        match self.position(id) {
            Some(i) => {
                let mut v: Vec<ModelRegistryEntry> = Vec::new();
                std::mem::swap(&mut v, &mut self.installed_models);
                let e = v.remove(i);
                let ghost s1 = v@.map_values(|e: ModelRegistryEntry| (e.id@, e));
                assert(s1 =~= s0.remove(i as int));
                self.installed_models = v;
                Some(e)
            },
            None => None,
        }
    }

    /// The installed models of a slot (those whose category is the slot's name),
    /// in table order.
    pub fn get_models_for_slot(&self, slot: SlotType) -> (r: Vec<&ModelRegistryEntry>)
        ensures
            r@.map_values(|e: &ModelRegistryEntry| *e) == in_category(self@, slot_name(slot)),
    {
        let ghost c = slot_name(slot);
        let ghost s = self@;
        let mut r: Vec<&ModelRegistryEntry> = Vec::new();
        let mut i: usize = 0;
        assert(s.subrange(0, 0) =~= Seq::<(Seq<char>, ModelRegistryEntry)>::empty());
        assert(r@.map_values(|e: &ModelRegistryEntry| *e) =~= Seq::<ModelRegistryEntry>::empty());
        while i < self.installed_models.len()
            invariant
                s == self@,
                c == slot_name(slot),
                i <= self.installed_models@.len(),
                s.len() == self.installed_models@.len(),
                r@.map_values(|e: &ModelRegistryEntry| *e) == in_category(s.subrange(0, i as int), c),
            decreases self.installed_models.len() - i,
        {
            let ghost before = r@.map_values(|e: &ModelRegistryEntry| *e);
            let e = &self.installed_models[i];
            assert(s.subrange(0, i + 1).drop_last() =~= s.subrange(0, i as int));
            assert(s.subrange(0, i + 1).last() == s[i as int]);
            assert(s[i as int].1 == self.installed_models@[i as int]);
            if entry_in_slot(e.category.as_str(), slot) {
                r.push(e);
                assert(r@.map_values(|e: &ModelRegistryEntry| *e) =~= before.push(*e));
            }
            i = i + 1;
        }
        assert(s.subrange(0, s.len() as int) =~= s);
        r
    }
}

} // verus!
