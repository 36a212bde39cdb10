//! The diagram and connection stores: for each project identifier, the
//! sequence of diagram elements, or of connections, that was last saved
//! under it.
//!
//! Neither store knows of the project store: a sequence may be saved under an
//! identifier that no project has.

use crate::model::{Connection, DiagramElement};
use vstd::prelude::*;
use vstd::string::*;

verus! {

/// Values of which a store can hand out faithful copies.
pub trait Duplicate: View + Sized {
    /// A copy with the same view.
    fn duplicate(&self) -> (r: Self)
        ensures
            r@ == self@,
    ;
}

impl Duplicate for DiagramElement {
    fn duplicate(&self) -> (r: Self) {
        self.clone()
    }
}

impl Duplicate for Connection {
    fn duplicate(&self) -> (r: Self) {
        self.clone()
    }
}

/// The views of a list of items.
pub open spec fn item_views<T: View>(v: Seq<T>) -> Seq<T::V> {
    Seq::new(v.len(), |i: int| v[i]@)
}

/// What a store returns for `key`: the saved sequence, or the empty one.
pub open spec fn saved_or_empty<V>(m: Map<Seq<char>, Seq<V>>, key: Seq<char>) -> Seq<V> {
    if m.contains_key(key) {
        m[key]
    } else {
        Seq::empty()
    }
}

/// Some entry of `s` has the key `key`.
spec fn has_key<T>(s: Seq<(String, Vec<T>)>, key: Seq<char>) -> bool {
    exists|i: int| 0 <= i < s.len() && (#[trigger] s[i]).0@ == key
}

/// The position in `s` of an entry with the key `key`.
spec fn key_position<T>(s: Seq<(String, Vec<T>)>, key: Seq<char>) -> int {
    choose|i: int| 0 <= i < s.len() && (#[trigger] s[i]).0@ == key
}

/// No two entries of `s` share a key.
spec fn keys_distinct<T>(s: Seq<(String, Vec<T>)>) -> bool {
    forall|i: int, j: int| 0 <= i < j < s.len() ==> (#[trigger] s[i]).0@ != (#[trigger] s[j]).0@
}

/// The entries read as a map from key to saved sequence.
spec fn entries_map<T: View>(s: Seq<(String, Vec<T>)>) -> Map<Seq<char>, Seq<T::V>> {
    Map::new(
        |key: Seq<char>| has_key(s, key),
        |key: Seq<char>| item_views(s[key_position(s, key)].1@),
    )
}

proof fn lemma_key_position<T: View>(s: Seq<(String, Vec<T>)>, i: int)
    requires
        keys_distinct(s),
        0 <= i < s.len(),
    ensures
        has_key(s, s[i].0@),
        key_position(s, s[i].0@) == i,
        entries_map(s).contains_key(s[i].0@),
        entries_map(s)[s[i].0@] == item_views(s[i].1@),
{
    let k = key_position(s, s[i].0@);
    assert(0 <= k < s.len() && s[k].0@ == s[i].0@);
    if k < i {
        assert(s[k].0@ != s[i].0@);
    } else if i < k {
        assert(s[i].0@ != s[k].0@);
    }
}

proof fn lemma_entry_replaced<T: View>(s: Seq<(String, Vec<T>)>, i: int, entry: (String, Vec<T>))
    requires
        keys_distinct(s),
        0 <= i < s.len(),
        s[i].0@ == entry.0@,
    ensures
        keys_distinct(s.update(i, entry)),
        entries_map(s.update(i, entry)) == entries_map(s).insert(entry.0@, item_views(entry.1@)),
{
    let t = s.update(i, entry);
    let key = entry.0@;
    assert forall|a: int, b: int| 0 <= a < b < t.len() implies (#[trigger] t[a]).0@ != (
    #[trigger] t[b]).0@ by {
        assert(t[a].0@ == s[a].0@);
        assert(t[b].0@ == s[b].0@);
    }
    assert forall|k: Seq<char>| has_key(t, k) == has_key(s, k) by {
        if has_key(s, k) {
            let a = key_position(s, k);
            assert(t[a].0@ == k);
        }
        if has_key(t, k) {
            let a = key_position(t, k);
            assert(s[a].0@ == k);
        }
    }
    assert forall|k: Seq<char>| has_key(t, k) implies #[trigger] entries_map(t)[k] == entries_map(
        s,
    ).insert(key, item_views(entry.1@))[k] by {
        let a = key_position(t, k);
        lemma_key_position(t, a);
        if k != key {
            assert(a != i);
            assert(t[a] == s[a]);
            lemma_key_position(s, a);
        } else {
            lemma_key_position(s, i);
            lemma_key_position(t, i);
        }
    }
    assert(entries_map(t) =~= entries_map(s).insert(key, item_views(entry.1@)));
}

proof fn lemma_entry_added<T: View>(s: Seq<(String, Vec<T>)>, entry: (String, Vec<T>))
    requires
        keys_distinct(s),
        !has_key(s, entry.0@),
    ensures
        keys_distinct(s.push(entry)),
        entries_map(s.push(entry)) == entries_map(s).insert(entry.0@, item_views(entry.1@)),
{
    let t = s.push(entry);
    let key = entry.0@;
    assert forall|a: int, b: int| 0 <= a < b < t.len() implies (#[trigger] t[a]).0@ != (
    #[trigger] t[b]).0@ by {
        assert(t[a] == s[a]);
        if b < s.len() {
            assert(t[b] == s[b]);
        }
    }
    assert forall|k: Seq<char>| has_key(t, k) == (has_key(s, k) || k == key) by {
        if has_key(s, k) {
            let a = key_position(s, k);
            assert(t[a].0@ == k);
        }
        if k == key {
            assert(t[s.len() as int].0@ == k);
        }
        if has_key(t, k) {
            let a = key_position(t, k);
            if a < s.len() {
                assert(s[a].0@ == k);
            }
        }
    }
    assert forall|k: Seq<char>| has_key(t, k) implies #[trigger] entries_map(t)[k] == entries_map(
        s,
    ).insert(key, item_views(entry.1@))[k] by {
        let a = key_position(t, k);
        lemma_key_position(t, a);
        if a < s.len() {
            assert(t[a] == s[a]);
            lemma_key_position(s, a);
        }
    }
    assert(entries_map(t) =~= entries_map(s).insert(key, item_views(entry.1@)));
}

/// For each project identifier, the sequence of items last saved under it.
pub struct SequenceStore<T> {
    entries: Vec<(String, Vec<T>)>,
}

/// The diagram elements of each project.
pub type DiagramStore = SequenceStore<DiagramElement>;

/// The connections of each project.
pub type ConnectionStore = SequenceStore<Connection>;

impl<T: Duplicate> View for SequenceStore<T> {
    type V = Map<Seq<char>, Seq<T::V>>;

    /// The saved sequences by project identifier.
    closed spec fn view(&self) -> Map<Seq<char>, Seq<T::V>> {
        entries_map(self.entries@)
    }
}

impl<T> SequenceStore<T> {
    #[verifier::type_invariant]
    spec fn well_formed(self) -> bool {
        keys_distinct(self.entries@)
    }
}

impl<T: Duplicate> SequenceStore<T> {
    /// A store in which nothing was saved.
    pub fn new() -> (s: Self)
        ensures
            s@ == Map::<Seq<char>, Seq<T::V>>::empty(),
    {
        let s = SequenceStore { entries: Vec::new() };
        proof {
            assert(s@ =~= Map::<Seq<char>, Seq<T::V>>::empty());
        }
        s
    }

    fn find(&self, key: &String) -> (r: Option<usize>)
        ensures
            match r {
                Some(i) => i < self.entries.len() && self.entries@[i as int].0@ == key@,
                None => !has_key(self.entries@, key@),
            },
    {
        let mut i: usize = 0;
        while i < self.entries.len()
            invariant
                i <= self.entries.len(),
                forall|j: int| 0 <= j < i ==> (#[trigger] self.entries@[j]).0@ != key@,
            decreases self.entries.len() - i,
        {
            if self.entries[i].0 == *key {
                return Some(i);
            }
            i += 1;
        }
        None
    }

    /// Saves `items` as the sequence of the project `project_id`, in place
    /// of what was saved under it before. Other projects keep theirs.
    pub fn save(&mut self, project_id: String, items: Vec<T>)
        ensures
            final(self)@ == old(self)@.insert(project_id@, item_views(items@)),
    {
        proof {
            use_type_invariant(&*self);
        }
        let found = self.find(&project_id);
        let mut entries: Vec<(String, Vec<T>)> = Vec::new();
        std::mem::swap(&mut entries, &mut self.entries);
        let ghost before = entries@;
        match found {
            Some(i) => {
                proof {
                    lemma_entry_replaced(before, i as int, (project_id, items));
                }
                entries.set(i, (project_id, items));
            },
            None => {
                proof {
                    lemma_entry_added(before, (project_id, items));
                }
                entries.push((project_id, items));
            },
        }
        self.entries = entries;
    }

    /// Copies of the items last saved for the project `project_id`, in their
    /// order; none where nothing was saved for it.
    pub fn load(&self, project_id: &str) -> (r: Vec<T>)
        ensures
            item_views(r@) == saved_or_empty(self@, project_id@),
    {
        proof {
            use_type_invariant(self);
        }
        let key = String::from_str(project_id);
        let mut r: Vec<T> = Vec::new();
        match self.find(&key) {
            Some(i) => {
                proof {
                    lemma_key_position(self.entries@, i as int);
                }
                let items = &self.entries[i].1;
                let mut j: usize = 0;
                while j < items.len()
                    invariant
                        j <= items.len(),
                        r.len() == j,
                        forall|k: int| 0 <= k < j ==> r@[k]@ == items@[k]@,
                    decreases items.len() - j,
                {
                    r.push(items[j].duplicate());
                    j += 1;
                }
                proof {
                    assert(item_views(r@) =~= item_views(items@));
                }
            },
            None => {
                proof {
                    assert(item_views(r@) =~= Seq::<T::V>::empty());
                }
            },
        }
        r
    }
}

/// Saves the elements of a project's diagram.
pub fn save_diagram(diagrams: &mut DiagramStore, project_id: String, elements: Vec<DiagramElement>)
    ensures
        final(diagrams)@ == old(diagrams)@.insert(project_id@, item_views(elements@)),
{
    diagrams.save(project_id, elements)
}

/// Loads the elements of a project's diagram; none where none were saved.
pub fn load_diagram(diagrams: &DiagramStore, project_id: &str) -> (r: Vec<DiagramElement>)
    ensures
        item_views(r@) == saved_or_empty(diagrams@, project_id@),
{
    diagrams.load(project_id)
}

/// Saves the connections of a project's diagram.
pub fn save_connections(
    connections: &mut ConnectionStore,
    project_id: String,
    items: Vec<Connection>,
)
    ensures
        final(connections)@ == old(connections)@.insert(project_id@, item_views(items@)),
{
    connections.save(project_id, items)
}

/// Loads the connections of a project's diagram; none where none were saved.
pub fn load_connections(connections: &ConnectionStore, project_id: &str) -> (r: Vec<Connection>)
    ensures
        item_views(r@) == saved_or_empty(connections@, project_id@),
{
    connections.load(project_id)
}

/// What was saved is what is loaded: after a sequence was saved for a
/// project, loading that project gives the same sequence, and loading any
/// other project gives what it gave before.
pub proof fn law_saved_sequence_is_loaded<V>(
    before: Map<Seq<char>, Seq<V>>,
    after: Map<Seq<char>, Seq<V>>,
    project_id: Seq<char>,
    items: Seq<V>,
    other_id: Seq<char>,
)
    requires
        after == before.insert(project_id, items),
    ensures
        saved_or_empty(after, project_id) == items,
        other_id != project_id ==> saved_or_empty(after, other_id) == saved_or_empty(
            before,
            other_id,
        ),
{
}

} // verus!
