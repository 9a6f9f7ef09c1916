//! The tool's own record of the VMs it created: for each VM name, its OS,
//! template and creation time. Reading and writing the JSON file is the
//! binary's part; this module holds the record and its updates.
use vstd::prelude::*;
use crate::models::{Timestamp, copy_opt, opt_view};
use crate::text::str_eq;

verus! {

/// What the tool remembers of a VM it created.
pub struct VmMetadata {
    pub name: String,
    pub os: Option<String>,
    pub template: Option<String>,
    pub created_at: Timestamp,
}

/// `VmMetadata` over plain values.
pub struct VmMetadataView {
    pub name: Seq<char>,
    pub os: Option<Seq<char>>,
    pub template: Option<Seq<char>>,
    pub created_at: Timestamp,
}

impl View for VmMetadata {
    type V = VmMetadataView;

    open spec fn view(&self) -> VmMetadataView {
        VmMetadataView {
            name: self.name@,
            os: opt_view(self.os),
            template: opt_view(self.template),
            created_at: self.created_at,
        }
    }
}

impl VmMetadata {
    /// A copy of the record.
    pub fn copy(&self) -> (r: VmMetadata)
        ensures
            r@ == self@,
    {
        VmMetadata {
            name: self.name.clone(),
            os: copy_opt(&self.os),
            template: copy_opt(&self.template),
            created_at: self.created_at,
        }
    }
}

/// The state file: VM metadata keyed by VM name, each key at most once.
pub struct StateFile {
    entries: Vec<(String, VmMetadata)>,
}

impl StateFile {
    /// The key of entry `i`.
    pub closed spec fn key_at(&self, i: int) -> Seq<char> {
        self.entries@[i].0@
    }

    /// No key occurs twice.
    #[verifier::type_invariant]
    closed spec fn keys_unique(&self) -> bool {
        forall|i: int, j: int|
            0 <= i < j < self.entries@.len() ==> #[trigger] self.key_at(i) != #[trigger] self.key_at(
                j,
            )
    }

    /// Whether some entry has key `k`.
    pub closed spec fn has_key(&self, k: Seq<char>) -> bool {
        exists|i: int| 0 <= i < self.entries@.len() && #[trigger] self.key_at(i) == k
    }

    /// The entry with key `k`.
    pub closed spec fn index_of(&self, k: Seq<char>) -> int {
        choose|i: int| 0 <= i < self.entries@.len() && #[trigger] self.key_at(i) == k
    }

    /// The metadata map of the state file.
    pub closed spec fn as_map(&self) -> Map<Seq<char>, VmMetadataView> {
        Map::new(|k: Seq<char>| self.has_key(k), |k: Seq<char>| self.entries@[self.index_of(k)].1@)
    }

    /// The entries are in the map, and the map holds nothing else.
    proof fn lemma_index(&self, i: int)
        requires
            self.keys_unique(),
            0 <= i < self.entries@.len(),
        ensures
            self.has_key(self.key_at(i)),
            self.index_of(self.key_at(i)) == i,
            self@.contains_key(self.key_at(i)),
            self@[self.key_at(i)] == self.entries@[i].1@,
    {
        let k = self.key_at(i);
        assert(self.has_key(k));
        let j = self.index_of(k);
        if j != i {
            if j < i {
                assert(self.key_at(j) != self.key_at(i));
            } else {
                assert(self.key_at(i) != self.key_at(j));
            }
        }
    }

    proof fn lemma_dom(&self)
        ensures
            forall|k: Seq<char>|
                #![trigger self@.contains_key(k)]
                self@.contains_key(k) <==> exists|i: int|
                    0 <= i < self.entries@.len() && #[trigger] self.entries@[i].0@ == k,
    {
        assert forall|k: Seq<char>| #![trigger self@.contains_key(k)] self@.contains_key(k) <==> exists|i: int|
            0 <= i < self.entries@.len() && #[trigger] self.entries@[i].0@ == k by {
            if self@.contains_key(k) {
                let j = self.index_of(k);
                assert(self.entries@[j].0@ == k);
            }
            if exists|i: int| 0 <= i < self.entries@.len() && #[trigger] self.entries@[i].0@ == k {
                let j = choose|i: int| 0 <= i < self.entries@.len() && #[trigger] self.entries@[i].0@ == k;
                assert(self.key_at(j) == k);
            }
        }
    }

    /// An empty state file.
    pub fn new() -> (s: StateFile)
        ensures
            s@ == Map::<Seq<char>, VmMetadataView>::empty(),
    {
        let s = StateFile { entries: Vec::new() };
        assert(s@ =~= Map::<Seq<char>, VmMetadataView>::empty());
        s
    }

    /// The position of key `k`, if present.
    fn find(&self, k: &str) -> (r: Option<usize>)
        ensures
            match r {
                Some(i) => i < self.entries@.len() && self.key_at(i as int) == k@,
                None => !self.has_key(k@),
            },
    {
        let mut i: usize = 0;
        while i < self.entries.len()
            invariant
                i <= self.entries@.len(),
                forall|j: int| 0 <= j < i ==> #[trigger] self.key_at(j) != k@,
            decreases self.entries.len() - i,
        {
            if str_eq(self.entries[i].0.as_str(), k) {
                return Some(i);
            }
            i += 1;
        }
        None
    }

    /// The metadata recorded under `k`.
    pub fn get(&self, k: &str) -> (r: Option<&VmMetadata>)
        ensures
            match r {
                Some(m) => self@.contains_key(k@) && self@[k@] == m@,
                None => !self@.contains_key(k@),
            },
    {
        proof {
            use_type_invariant(self);
        }
        match self.find(k) {
            Some(i) => {
                proof {
                    self.lemma_index(i as int);
                }
                Some(&self.entries[i].1)
            },
            None => None,
        }
    }

    /// Records `meta` under `k`, replacing what was there.
    pub fn insert(&mut self, k: String, meta: VmMetadata)
        ensures
            final(self)@ == old(self)@.insert(k@, meta@),
    {
        proof {
            use_type_invariant(&*self);
        }
        let ghost old_map = self@;
        let ghost old_entries = self.entries@;
        proof {
            assert forall|a: int, b: int|
                0 <= a < b < old_entries.len() implies #[trigger] old_entries[a].0@
                != #[trigger] old_entries[b].0@ by {
                assert(self.key_at(a) != self.key_at(b));
            }
            self.lemma_dom();
        }
        match self.find(k.as_str()) {
            Some(i) => {
                let ghost kv = k@;
                proof {
                    assert(old_entries[i as int].0@ == kv);
                }
                let ghost mv = meta@;
                let mut entries: Vec<(String, VmMetadata)> = Vec::new();
                std::mem::swap(&mut entries, &mut self.entries);
                entries.set(i, (k, meta));
                proof {
                    assert forall|a: int, b: int|
                        0 <= a < b < entries@.len() implies #[trigger] entries@[a].0@
                        != #[trigger] entries@[b].0@ by {
                        assert(old_entries[a].0@ != old_entries[b].0@);
                    }
                }
                self.entries = entries;
                proof {
                    self.lemma_dom();
                    assert forall|key: Seq<char>|
                        #![auto]
                        self@.contains_key(key) == old_map.insert(kv, mv).contains_key(key) by {
                        if key == kv {
                            self.lemma_index(i as int);
                        } else if self.has_key(key) {
                            let j = self.index_of(key);
                            assert(old_entries[j].0@ == key);
                        } else if old_map.contains_key(key) {
                            let j = choose|j: int|
                                0 <= j < old_entries.len() && old_entries[j].0@ == key;
                            assert(self.key_at(j) == key);
                        }
                    }
                    assert forall|key: Seq<char>| #![auto] self@.contains_key(key) implies self@[key]
                        == old_map.insert(kv, mv)[key] by {
                        if key == kv {
                            self.lemma_index(i as int);
                        } else {
                            let j = self.index_of(key);
                            self.lemma_index(j);
                            assert(old_entries[j].0@ == key);
                            assert(old_map[key] == old_entries[j].1@);
                        }
                    }
                    assert(self@ =~= old_map.insert(kv, mv));
                }
            },
            None => {
                let ghost kv = k@;
                let ghost mv = meta@;
                proof {
                    assert forall|j: int| 0 <= j < old_entries.len() implies #[trigger] old_entries[
                        j
                    ].0@ != kv by {
                        if old_entries[j].0@ == kv {
                            assert(self.key_at(j) == kv);
                        }
                    }
                }
                let mut entries: Vec<(String, VmMetadata)> = Vec::new();
                std::mem::swap(&mut entries, &mut self.entries);
                entries.push((k, meta));
                proof {
                    assert forall|a: int, b: int|
                        0 <= a < b < entries@.len() implies #[trigger] entries@[a].0@
                        != #[trigger] entries@[b].0@ by {
                        if b == old_entries.len() {
                            assert(old_entries[a].0@ != kv);
                        } else {
                            assert(old_entries[a].0@ != old_entries[b].0@);
                        }
                    }
                }
                self.entries = entries;
                proof {
                    self.lemma_dom();
                    let n = old_entries.len() as int;
                    assert forall|key: Seq<char>|
                        #![auto]
                        self@.contains_key(key) == old_map.insert(kv, mv).contains_key(key) by {
                        if key == kv {
                            assert(self.key_at(n) == kv);
                        } else if self.has_key(key) {
                            let j = self.index_of(key);
                            assert(old_entries[j].0@ == key);
                        } else if old_map.contains_key(key) {
                            let j = choose|j: int|
                                0 <= j < old_entries.len() && old_entries[j].0@ == key;
                            assert(self.key_at(j) == key);
                        }
                    }
                    assert forall|key: Seq<char>| #![auto] self@.contains_key(key) implies self@[key]
                        == old_map.insert(kv, mv)[key] by {
                        if key == kv {
                            self.lemma_index(n);
                        } else {
                            let j = self.index_of(key);
                            self.lemma_index(j);
                            assert(old_entries[j].0@ == key);
                        }
                    }
                    assert(self@ =~= old_map.insert(kv, mv));
                }
            },
        }
    }

    /// Drops what is recorded under `k`.
    pub fn remove(&mut self, k: &str)
        ensures
            final(self)@ == old(self)@.remove(k@),
    {
        proof {
            use_type_invariant(&*self);
        }
        let ghost old_map = self@;
        let ghost old_entries = self.entries@;
        proof {
            assert forall|a: int, b: int|
                0 <= a < b < old_entries.len() implies #[trigger] old_entries[a].0@
                != #[trigger] old_entries[b].0@ by {
                assert(self.key_at(a) != self.key_at(b));
            }
            self.lemma_dom();
        }
        match self.find(k) {
            Some(i) => {
                proof {
                    assert(old_entries[i as int].0@ == k@);
                }
                let mut entries: Vec<(String, VmMetadata)> = Vec::new();
                std::mem::swap(&mut entries, &mut self.entries);
                entries.remove(i);
                proof {
                    assert forall|a: int, b: int|
                        0 <= a < b < entries@.len() implies #[trigger] entries@[a].0@
                        != #[trigger] entries@[b].0@ by {
                        let oa = if a < i { a } else { a + 1 };
                        let ob = if b < i { b } else { b + 1 };
                        assert(entries@[a] == old_entries[oa]);
                        assert(entries@[b] == old_entries[ob]);
                        assert(old_entries[oa].0@ != old_entries[ob].0@);
                    }
                }
                self.entries = entries;
                proof {
                    self.lemma_dom();
                    assert forall|key: Seq<char>|
                        #![auto]
                        self@.contains_key(key) == old_map.remove(k@).contains_key(key) by {
                        if self.has_key(key) {
                            let j = self.index_of(key);
                            if j < i {
                                assert(old_entries[j].0@ == key);
                                assert(old_entries[i as int].0@ != old_entries[j].0@);
                            } else {
                                assert(old_entries[j + 1].0@ == key);
                                assert(old_entries[i as int].0@ != old_entries[j + 1].0@);
                            }
                        } else if old_map.remove(k@).contains_key(key) {
                            let j = choose|j: int|
                                0 <= j < old_entries.len() && old_entries[j].0@ == key;
                            if j < i {
                                assert(self.key_at(j) == key);
                            } else {
                                assert(j != i);
                                assert(self.key_at(j - 1) == key);
                            }
                        }
                    }
                    assert forall|key: Seq<char>| #![auto] self@.contains_key(key) implies self@[key]
                        == old_map.remove(k@)[key] by {
                        let j = self.index_of(key);
                        self.lemma_index(j);
                        if j < i {
                            assert(old_entries[j].0@ == key);
                            assert(old_map[key] == old_entries[j].1@);
                        } else {
                            assert(old_entries[j + 1].0@ == key);
                            assert(old_map[key] == old_entries[j + 1].1@);
                        }
                    }
                    assert(self@ =~= old_map.remove(k@));
                }
            },
            None => {
                proof {
                    assert(self@ =~= old_map.remove(k@));
                }
            },
        }
    }

    /// The number of VMs recorded.
    pub fn len(&self) -> (r: usize)
        ensures
            r == self@.len(),
    {
        proof {
            use_type_invariant(self);
            self.lemma_len();
        }
        self.entries.len()
    }

    proof fn lemma_len(&self)
        requires
            self.keys_unique(),
        ensures
            self@.len() == self.entries@.len(),
            self@.dom().finite(),
    {
        let keys = self.entries@.map_values(|e: (String, VmMetadata)| e.0@);
        assert forall|i: int, j: int|
            0 <= i < keys.len() && 0 <= j < keys.len() && i != j implies keys[i] != keys[j] by {
            if i < j {
                assert(self.key_at(i) != self.key_at(j));
            } else {
                assert(self.key_at(j) != self.key_at(i));
            }
        }
        assert(keys.no_duplicates());
        assert forall|k: Seq<char>| self@.dom().contains(k) <==> keys.to_set().contains(k) by {
            if self@.dom().contains(k) {
                let j = self.index_of(k);
                assert(keys[j] == k);
            }
            if keys.to_set().contains(k) {
                let j = choose|j: int| 0 <= j < keys.len() && keys[j] == k;
                assert(self.key_at(j) == k);
            }
        }
        assert(self@.dom() =~= keys.to_set());
        keys.unique_seq_to_set();
    }

    /// The names and metadata recorded, in no particular order.
    pub fn entries(&self) -> (r: &Vec<(String, VmMetadata)>)
        ensures
            forall|i: int| 0 <= i < r@.len() ==> self@.contains_key(#[trigger] r@[i].0@) && self@[r@[i].0@]
                == r@[i].1@,
            forall|k: Seq<char>| #[trigger] self@.contains_key(k) ==> exists|i: int|
                0 <= i < r@.len() && r@[i].0@ == k,
    {
        proof {
            use_type_invariant(self);
            assert forall|i: int| 0 <= i < self.entries@.len() implies self@.contains_key(
                #[trigger] self.entries@[i].0@,
            ) && self@[self.entries@[i].0@] == self.entries@[i].1@ by {
                self.lemma_index(i);
            }
            assert forall|k: Seq<char>| #[trigger] self@.contains_key(k) implies exists|i: int|
                0 <= i < self.entries@.len() && self.entries@[i].0@ == k by {
                let j = self.index_of(k);
                assert(self.key_at(j) == k);
            }
        }
        &self.entries
    }
}

impl View for StateFile {
    type V = Map<Seq<char>, VmMetadataView>;

    open spec fn view(&self) -> Map<Seq<char>, VmMetadataView> {
        self.as_map()
    }
}

/// Records a VM's metadata under its name.
pub fn upsert_vm(state: &mut StateFile, metadata: VmMetadata)
    ensures
        final(state)@ == old(state)@.insert(metadata.name@, metadata@),
{
    let key = metadata.name.clone();
    state.insert(key, metadata);
}

/// Forgets a VM.
pub fn remove_vm_from_state(state: &mut StateFile, name: &str)
    ensures
        final(state)@ == old(state)@.remove(name@),
{
    state.remove(name);
}

/// What is written is what is read back: after recording `meta`, the state
/// holds exactly `meta` under its name, and every other name keeps what it
/// had.
pub proof fn law_upsert_then_lookup(
    before: Map<Seq<char>, VmMetadataView>,
    meta: VmMetadataView,
    other: Seq<char>,
)
    requires
        other != meta.name,
    ensures
        before.insert(meta.name, meta).contains_key(meta.name),
        before.insert(meta.name, meta)[meta.name] == meta,
        before.insert(meta.name, meta).contains_key(other) == before.contains_key(other),
        before.contains_key(other) ==> before.insert(meta.name, meta)[other] == before[other],
{
}

/// A removed VM is gone from the state, and every other name keeps what it
/// had.
pub proof fn law_remove_then_lookup(
    before: Map<Seq<char>, VmMetadataView>,
    name: Seq<char>,
    other: Seq<char>,
)
    requires
        other != name,
    ensures
        !before.remove(name).contains_key(name),
        before.remove(name).contains_key(other) == before.contains_key(other),
        before.contains_key(other) ==> before.remove(name)[other] == before[other],
{
}

/// Recording a VM and then forgetting it leaves a state that held no record
/// of it as it was.
pub proof fn law_upsert_then_remove(before: Map<Seq<char>, VmMetadataView>, meta: VmMetadataView)
    requires
        !before.contains_key(meta.name),
    ensures
        before.insert(meta.name, meta).remove(meta.name) == before,
{
    assert(before.insert(meta.name, meta).remove(meta.name) =~= before);
}

} // verus!
