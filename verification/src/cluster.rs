//! The bookkeeping of a test cluster: which named node has which
//! backend handle. Every lookup by a name the cluster does not know
//! fails with a `BackendError`.

use vstd::prelude::*;
use vstd::string::StringExecFns;

use crate::backend::BackendError;

verus! {

/// Whether no two entries carry the same name.
pub open spec fn names_distinct<H>(entries: Seq<(String, H)>) -> bool {
    forall|i: int, j: int|
        0 <= i < entries.len() && 0 <= j < entries.len() && i != j ==> #[trigger] entries[i].0@
            != #[trigger] entries[j].0@
}

/// The map from names to handles that a list of entries stands for;
/// a later entry overrides an earlier one with the same name.
pub open spec fn entries_map<H>(entries: Seq<(String, H)>) -> Map<Seq<char>, H>
    decreases entries.len(),
{
    if entries.len() == 0 {
        Map::empty()
    } else {
        entries_map(entries.drop_last()).insert(entries.last().0@, entries.last().1)
    }
}

/// A name is in the map exactly when some entry carries it.
proof fn lemma_entries_map_dom<H>(entries: Seq<(String, H)>, name: Seq<char>)
    ensures
        entries_map(entries).dom().contains(name) <==> exists|i: int|
            0 <= i < entries.len() && #[trigger] entries[i].0@ == name,
    decreases entries.len(),
{
    if entries.len() > 0 {
        let init = entries.drop_last();
        lemma_entries_map_dom(init, name);
        if entries_map(init).dom().contains(name) {
            let i = choose|i: int| 0 <= i < init.len() && #[trigger] init[i].0@ == name;
            assert(entries[i].0@ == name);
        }
        if exists|i: int| 0 <= i < entries.len() && #[trigger] entries[i].0@ == name {
            let i = choose|i: int| 0 <= i < entries.len() && #[trigger] entries[i].0@ == name;
            if i < entries.len() - 1 {
                assert(init[i].0@ == name);
            }
        }
    }
}

/// With distinct names, each entry's handle is what the map gives for
/// its name.
proof fn lemma_entries_map_value<H>(entries: Seq<(String, H)>, i: int)
    requires
        names_distinct(entries),
        0 <= i < entries.len(),
    ensures
        entries_map(entries).dom().contains(entries[i].0@),
        entries_map(entries)[entries[i].0@] == entries[i].1,
    decreases entries.len(),
{
    lemma_entries_map_dom(entries, entries[i].0@);
    let init = entries.drop_last();
    if i < entries.len() - 1 {
        assert(names_distinct(init)) by {
            assert forall|a: int, b: int|
                0 <= a < init.len() && 0 <= b < init.len() && a != b implies #[trigger] init[a].0@
                != #[trigger] init[b].0@ by {
                assert(init[a] == entries[a] && init[b] == entries[b]);
            }
        }
        assert(init[i] == entries[i]);
        lemma_entries_map_value(init, i);
        assert(entries.last().0@ != entries[i].0@);
    }
}

/// With distinct names, removing an entry removes its name from the map.
proof fn lemma_entries_map_remove<H>(entries: Seq<(String, H)>, i: int)
    requires
        names_distinct(entries),
        0 <= i < entries.len(),
    ensures
        entries_map(entries.remove(i)) =~= entries_map(entries).remove(entries[i].0@),
        names_distinct(entries.remove(i)),
    decreases entries.len(),
{
    let init = entries.drop_last();
    let name = entries[i].0@;
    assert(names_distinct(init)) by {
        assert forall|a: int, b: int|
            0 <= a < init.len() && 0 <= b < init.len() && a != b implies #[trigger] init[a].0@
            != #[trigger] init[b].0@ by {
            assert(init[a] == entries[a] && init[b] == entries[b]);
        }
    }
    let removed = entries.remove(i);
    assert(names_distinct(removed)) by {
        assert forall|a: int, b: int|
            0 <= a < removed.len() && 0 <= b < removed.len() && a != b implies #[trigger] removed[a].0@
            != #[trigger] removed[b].0@ by {
            let ea = if a < i { a } else { a + 1 };
            let eb = if b < i { b } else { b + 1 };
            assert(removed[a] == entries[ea] && removed[b] == entries[eb]);
        }
    }
    if i == entries.len() - 1 {
        assert(removed =~= init);
        lemma_entries_map_dom(init, name);
        if entries_map(init).dom().contains(name) {
            let j = choose|j: int| 0 <= j < init.len() && #[trigger] init[j].0@ == name;
            assert(entries[j].0@ == name);
        }
    } else {
        lemma_entries_map_remove(init, i);
        assert(removed =~= init.remove(i).push(entries.last()));
        assert(removed.drop_last() =~= init.remove(i));
        assert(entries.last().0@ != name);
    }
}

/// Calls `str`'s `Debug` formatting (`format!("{:?}", text)`): the
/// quoted, escaped text. The result is named `str_debug_text`.
#[verifier::external_body]
fn debug_text(text: &str) -> (quoted: String)
    ensures
        quoted@ == str_debug_text(text@),
{
    format!("{:?}", text)
}

/// What `str`'s `Debug` formatting produces for a text.
pub uninterp spec fn str_debug_text(text: Seq<char>) -> Seq<char>;

/// The message of the error for a node name the cluster does not know.
pub open spec fn missing_node_message(name: Seq<char>) -> Seq<char> {
    "no node named "@ + str_debug_text(name) + " in this cluster"@
}

/// The nodes of a test cluster, each a backend handle under a name.
pub struct NodeTable<H> {
    entries: Vec<(String, H)>,
}

impl<H> View for NodeTable<H> {
    type V = Map<Seq<char>, H>;

    closed spec fn view(&self) -> Map<Seq<char>, H> {
        entries_map(self.entries@)
    }
}

impl<H> NodeTable<H> {
    #[verifier::type_invariant]
    closed spec fn distinct_names(&self) -> bool {
        names_distinct(self.entries@)
    }

    /// An empty table.
    pub fn new() -> (table: Self)
        ensures
            table@ == Map::<Seq<char>, H>::empty(),
    {
        NodeTable { entries: Vec::new() }
    }

    /// The position of the entry named `name`, if there is one.
    fn position(&self, name: &String) -> (found: Option<usize>)
        ensures
            match found {
                Some(i) => i < self.entries@.len() && self.entries@[i as int].0@ == name@,
                None => forall|i: int|
                    0 <= i < self.entries@.len() ==> #[trigger] self.entries@[i].0@ != name@,
            },
    {
        let mut i: usize = 0;
        while i < self.entries.len()
            invariant
                i <= self.entries@.len(),
                forall|j: int| 0 <= j < i ==> #[trigger] self.entries@[j].0@ != name@,
            decreases self.entries@.len() - i,
        {
            if self.entries[i].0 == *name {
                return Some(i);
            }
            i = i + 1;
        }
        None
    }

    /// The number of nodes.
    pub fn len(&self) -> (n: usize)
        ensures
            n == self@.dom().len(),
    {
        proof {
            use_type_invariant(self);
            self.lemma_len();
        }
        self.entries.len()
    }

    proof fn lemma_len(&self)
        requires
            names_distinct(self.entries@),
        ensures
            self@.dom().len() == self.entries@.len(),
            self@.dom().finite(),
        decreases self.entries@.len(),
    {
        let s = self.entries@;
        lemma_entries_map_len(s);
    }

    /// Records `handle` under `name`; a handle already recorded under
    /// that name is taken out and returned.
    pub fn insert(&mut self, name: String, handle: H) -> (replaced: Option<H>)
        ensures
            final(self)@ == old(self)@.insert(name@, handle),
            replaced == (if old(self)@.dom().contains(name@) {
                Some(old(self)@[name@])
            } else {
                None::<H>
            }),
    {
        proof {
            use_type_invariant(&*self);
        }
        let found = self.position(&name);
        let mut entries: Vec<(String, H)> = Vec::new();
        std::mem::swap(&mut entries, &mut self.entries);
        let ghost before = entries@;
        let replaced = match found {
            Some(i) => {
                proof {
                    lemma_entries_map_value(before, i as int);
                    lemma_entries_map_remove(before, i as int);
                }
                let (_, old_handle) = entries.remove(i);
                Some(old_handle)
            },
            None => {
                proof {
                    lemma_entries_map_dom(before, name@);
                }
                None
            },
        };
        let ghost middle = entries@;
        proof {
            lemma_entries_map_dom(middle, name@);
            assert forall|j: int| 0 <= j < middle.len() implies #[trigger] middle[j].0@ != name@ by {
                if let Some(i) = found {
                    let k = if j < i { j } else { j + 1 };
                    assert(middle[j] == before[k]);
                    assert(k != i);
                }
            }
        }
        entries.push((name, handle));
        proof {
            let after = entries@;
            assert(after.drop_last() =~= middle);
            assert forall|a: int, b: int|
                0 <= a < after.len() && 0 <= b < after.len() && a != b implies #[trigger] after[a].0@
                != #[trigger] after[b].0@ by {
                if a < middle.len() && b < middle.len() {
                    assert(after[a] == middle[a] && after[b] == middle[b]);
                } else if a < middle.len() {
                    assert(after[a] == middle[a]);
                } else if b < middle.len() {
                    assert(after[b] == middle[b]);
                }
            }
            assert(entries_map(after) =~= old(self)@.insert(name@, handle));
        }
        self.entries = entries;
        replaced
    }

    /// The handle recorded under `name`, if any.
    pub fn get(&self, name: &str) -> (handle: Option<&H>)
        ensures
            match handle {
                Some(h) => self@.dom().contains(name@) && *h == self@[name@],
                None => !self@.dom().contains(name@),
            },
    {
        proof {
            use_type_invariant(self);
        }
        let key = String::from_str(name);
        match self.position(&key) {
            Some(i) => {
                proof {
                    lemma_entries_map_value(self.entries@, i as int);
                }
                Some(&self.entries[i].1)
            },
            None => {
                proof {
                    lemma_entries_map_dom(self.entries@, name@);
                }
                None
            },
        }
    }

    /// The handle recorded under `name`, or the error for an unknown
    /// node.
    pub fn lookup(&self, name: &str) -> (handle: Result<&H, BackendError>)
        ensures
            match handle {
                Ok(h) => self@.dom().contains(name@) && *h == self@[name@],
                Err(e) => !self@.dom().contains(name@) && (e matches BackendError::Spawn(message)
                    && message@ == missing_node_message(name@)),
            },
    {
        match self.get(name) {
            Some(h) => Ok(h),
            None => {
                proof {
                    reveal_strlit("no node named ");
                    reveal_strlit(" in this cluster");
                }
                let mut message = String::from_str("no node named ");
                let quoted = debug_text(name);
                message.append(quoted.as_str());
                message.append(" in this cluster");
                Err(BackendError::Spawn(message))
            },
        }
    }

    /// Takes out the handle recorded under `name`, if any.
    pub fn remove(&mut self, name: &str) -> (removed: Option<H>)
        ensures
            final(self)@ == old(self)@.remove(name@),
            removed == (if old(self)@.dom().contains(name@) {
                Some(old(self)@[name@])
            } else {
                None::<H>
            }),
    {
        proof {
            use_type_invariant(&*self);
        }
        let key = String::from_str(name);
        match self.position(&key) {
            Some(i) => {
                let mut entries: Vec<(String, H)> = Vec::new();
                std::mem::swap(&mut entries, &mut self.entries);
                proof {
                    lemma_entries_map_value(entries@, i as int);
                    lemma_entries_map_remove(entries@, i as int);
                }
                let (_, handle) = entries.remove(i);
                self.entries = entries;
                Some(handle)
            },
            None => {
                proof {
                    lemma_entries_map_dom(self.entries@, name@);
                    assert(entries_map(self.entries@).remove(name@) =~= entries_map(self.entries@));
                }
                None
            },
        }
    }

    /// The names of all nodes, each once.
    pub fn names(&self) -> (names: Vec<String>)
        ensures
            names@.len() == self@.dom().len(),
            forall|i: int| 0 <= i < names@.len() ==> self@.dom().contains(#[trigger] names@[i]@),
            forall|k: Seq<char>|
                self@.dom().contains(k) ==> exists|i: int| 0 <= i < names@.len() && #[trigger] names@[i]@ == k,
            forall|i: int, j: int|
                0 <= i < names@.len() && 0 <= j < names@.len() && i != j ==> #[trigger] names@[i]@
                    != #[trigger] names@[j]@,
    {
        proof {
            use_type_invariant(self);
            self.lemma_len();
        }
        let mut names: Vec<String> = Vec::new();
        let mut i: usize = 0;
        while i < self.entries.len()
            invariant
                i <= self.entries@.len(),
                names_distinct(self.entries@),
                names@.len() == i,
                forall|j: int| 0 <= j < i ==> #[trigger] names@[j]@ == self.entries@[j].0@,
            decreases self.entries@.len() - i,
        {
            names.push(self.entries[i].0.clone());
            i = i + 1;
        }
        proof {
            assert forall|j: int| 0 <= j < names@.len() implies self@.dom().contains(
                #[trigger] names@[j]@,
            ) by {
                lemma_entries_map_value(self.entries@, j);
            }
            assert forall|k: Seq<char>| self@.dom().contains(k) implies exists|j: int|
                0 <= j < names@.len() && #[trigger] names@[j]@ == k by {
                lemma_entries_map_dom(self.entries@, k);
                let j = choose|j: int| 0 <= j < self.entries@.len() && #[trigger] self.entries@[j].0@ == k;
                assert(names@[j]@ == k);
            }
            assert forall|a: int, b: int|
                0 <= a < names@.len() && 0 <= b < names@.len() && a != b implies #[trigger] names@[a]@
                != #[trigger] names@[b]@ by {
                assert(names@[a]@ == self.entries@[a].0@);
                assert(names@[b]@ == self.entries@[b].0@);
            }
        }
        names
    }
}

/// Law: in a table that is `before` with `handle` recorded under `name`
/// (what `insert` gives), looking `name` up gives `handle`; in a table
/// that is `before` with `name` removed (what `remove` gives), `name` is
/// unknown, so `lookup` fails; every other name keeps its handle in both.
pub proof fn lemma_table_read_after_write<H>(
    before: NodeTable<H>,
    inserted: NodeTable<H>,
    removed: NodeTable<H>,
    name: Seq<char>,
    handle: H,
    other: Seq<char>,
)
    requires
        inserted@ == before@.insert(name, handle),
        removed@ == before@.remove(name),
    ensures
        inserted@.dom().contains(name),
        inserted@[name] == handle,
        !removed@.dom().contains(name),
        other != name ==> (removed@.dom().contains(other) <==> before@.dom().contains(other))
            && (inserted@.dom().contains(other) <==> before@.dom().contains(other)),
        other != name && before@.dom().contains(other) ==> removed@[other] == before@[other]
            && inserted@[other] == before@[other],
{
}

/// With distinct names, the map has one name per entry.
proof fn lemma_entries_map_len<H>(entries: Seq<(String, H)>)
    requires
        names_distinct(entries),
    ensures
        entries_map(entries).dom().finite(),
        entries_map(entries).dom().len() == entries.len(),
    decreases entries.len(),
{
    if entries.len() > 0 {
        let init = entries.drop_last();
        assert(names_distinct(init)) by {
            assert forall|a: int, b: int|
                0 <= a < init.len() && 0 <= b < init.len() && a != b implies #[trigger] init[a].0@
                != #[trigger] init[b].0@ by {
                assert(init[a] == entries[a] && init[b] == entries[b]);
            }
        }
        lemma_entries_map_len(init);
        lemma_entries_map_dom(init, entries.last().0@);
        if entries_map(init).dom().contains(entries.last().0@) {
            let j = choose|j: int| 0 <= j < init.len() && #[trigger] init[j].0@ == entries.last().0@;
            assert(entries[j].0@ == entries.last().0@);
        }
    }
}

} // verus!
