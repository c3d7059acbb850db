//! The per-module binding table: a transient map from a default-imported
//! local identifier name to the worker-module source path it was imported
//! from. Created empty for each module traversal; a re-insert of the same
//! name overwrites the earlier path (last writer wins).

use vstd::prelude::*;

verus! {

/// The map denoted by a sequence of (name, path) entries, later entries
/// overwriting earlier ones.
spec fn entries_map(entries: Seq<(String, String)>) -> Map<Seq<char>, Seq<char>>
    decreases entries.len(),
{
    if entries.len() == 0 {
        Map::empty()
    } else {
        entries_map(entries.drop_last()).insert(entries.last().0@, entries.last().1@)
    }
}

/// Maps each default-imported local name to the worker-module source path
/// it came from, within a single module traversal.
pub struct BindingTable {
    entries: Vec<(String, String)>,
}

impl View for BindingTable {
    type V = Map<Seq<char>, Seq<char>>;

    closed spec fn view(&self) -> Map<Seq<char>, Seq<char>> {
        entries_map(self.entries@)
    }
}

/// In `entries`, no entry at or after position `j` has key `name`.
spec fn no_key_from(entries: Seq<(String, String)>, j: int, name: Seq<char>) -> bool {
    forall|l: int| j <= l < entries.len() ==> #[trigger] entries[l].0@ != name
}

proof fn lemma_absent_key(entries: Seq<(String, String)>, name: Seq<char>)
    requires
        no_key_from(entries, 0, name),
    ensures
        !entries_map(entries).contains_key(name),
    decreases entries.len(),
{
    if entries.len() > 0 {
        assert(entries[entries.len() - 1].0@ != name);
        lemma_absent_key(entries.drop_last(), name);
    }
}

proof fn lemma_found_key(entries: Seq<(String, String)>, j: int, name: Seq<char>)
    requires
        0 <= j < entries.len(),
        entries[j].0@ == name,
        no_key_from(entries, j + 1, name),
    ensures
        entries_map(entries).contains_key(name),
        entries_map(entries)[name] == entries[j].1@,
    decreases entries.len(),
{
    if j == entries.len() - 1 {
    } else {
        assert(entries.drop_last()[j] == entries[j]);
        lemma_found_key(entries.drop_last(), j, name);
    }
}

impl BindingTable {
    /// A fresh, empty table, as required at the start of each module traversal.
    pub fn new() -> (t: BindingTable)
        ensures
            t@ == Map::<Seq<char>, Seq<char>>::empty(),
    {
        BindingTable { entries: Vec::new() }
    }

    /// Records that local `name` is bound to worker-module path `path`,
    /// overwriting any earlier binding of the same name.
    pub fn insert(&mut self, name: String, path: String)
        ensures
            final(self)@ == old(self)@.insert(name@, path@),
    {
        let ghost before = self.entries@;
        self.entries.push((name, path));
        proof {
            assert(self.entries@.drop_last() =~= before);
        }
    }

    /// Looks up the path bound to `name`, if any.
    pub fn lookup(&self, name: &String) -> (r: Option<String>)
        ensures
            match r {
                Some(path) => self@.contains_key(name@) && path@ == self@[name@],
                None => !self@.contains_key(name@),
            },
    {
        let n = self.entries.len();
        let mut j = n;
        while j > 0
            invariant
                j <= n,
                n == self.entries@.len(),
                no_key_from(self.entries@, j as int, name@),
            decreases j,
        {
            j -= 1;
            if self.entries[j].0 == *name {
                proof {
                    lemma_found_key(self.entries@, j as int, name@);
                }
                return Some(self.entries[j].1.clone());
            }
        }
        proof {
            lemma_absent_key(self.entries@, name@);
        }
        None
    }
}

} // verus!
