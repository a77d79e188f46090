//! A name-keyed lookup: from the name an element has in the file to the
//! position of its record.

use vstd::prelude::*;
use vstd::string::*;

verus! {

/// One entry of a [`NameTable`].
#[derive(Debug)]
pub struct NameEntry {
    pub name: String,
    pub position: usize,
}

/// A map from names to positions. Each name occurs once; a later insertion
/// under a name replaces the earlier one.
#[derive(Debug)]
pub struct NameTable {
    entries: Vec<NameEntry>,
}

/// The map that a list of entries stands for, a later entry replacing an
/// earlier one of the same name.
pub open spec fn map_of(entries: Seq<NameEntry>) -> Map<Seq<char>, usize>
    decreases entries.len(),
{
    if entries.len() == 0 {
        Map::empty()
    } else {
        map_of(entries.drop_last()).insert(entries.last().name@, entries.last().position)
    }
}

/// No name occurs twice.
pub open spec fn distinct_names(entries: Seq<NameEntry>) -> bool {
    forall|i: int, j: int|
        0 <= i < j < entries.len() ==> (#[trigger] entries[i]).name@ != (#[trigger] entries[j]).name@
}

/// The keys of the map are the names of the entries.
pub proof fn lemma_map_of_keys(entries: Seq<NameEntry>, name: Seq<char>)
    ensures
        map_of(entries).contains_key(name) <==> exists|i: int|
            0 <= i < entries.len() && (#[trigger] entries[i]).name@ == name,
    decreases entries.len(),
{
    if entries.len() > 0 {
        let rest = entries.drop_last();
        lemma_map_of_keys(rest, name);
        if map_of(entries).contains_key(name) {
            if entries.last().name@ == name {
                assert(entries[entries.len() - 1].name@ == name);
            } else {
                let i = choose|i: int| 0 <= i < rest.len() && (#[trigger] rest[i]).name@ == name;
                assert(entries[i].name@ == name);
            }
        }
        if exists|i: int| 0 <= i < entries.len() && (#[trigger] entries[i]).name@ == name {
            let i = choose|i: int| 0 <= i < entries.len() && (#[trigger] entries[i]).name@ == name;
            if i < rest.len() {
                assert(rest[i].name@ == name);
            }
        }
    }
}

/// Where no name occurs twice, each entry's name maps to its position.
pub proof fn lemma_map_of_entry(entries: Seq<NameEntry>, i: int)
    requires
        distinct_names(entries),
        0 <= i < entries.len(),
    ensures
        map_of(entries).contains_key(entries[i].name@),
        map_of(entries)[entries[i].name@] == entries[i].position,
    decreases entries.len(),
{
    let rest = entries.drop_last();
    if i < rest.len() {
        assert(distinct_names(rest)) by {
            assert forall|a: int, b: int| 0 <= a < b < rest.len() implies (#[trigger] rest[a]).name@
                != (#[trigger] rest[b]).name@ by {
                assert(rest[a] == entries[a]);
                assert(rest[b] == entries[b]);
            }
        }
        lemma_map_of_entry(rest, i);
        assert(rest[i] == entries[i]);
        assert(entries[i].name@ != entries[entries.len() - 1].name@);
    }
}

/// Replacing the position of one entry is an insertion under its name.
pub proof fn lemma_map_of_update(entries: Seq<NameEntry>, i: int, replaced: NameEntry)
    requires
        distinct_names(entries),
        0 <= i < entries.len(),
        replaced.name@ == entries[i].name@,
    ensures
        distinct_names(entries.update(i, replaced)),
        map_of(entries.update(i, replaced)) == map_of(entries).insert(
            replaced.name@,
            replaced.position,
        ),
    decreases entries.len(),
{
    let updated = entries.update(i, replaced);
    assert(distinct_names(updated)) by {
        assert forall|a: int, b: int| 0 <= a < b < updated.len() implies (
        #[trigger] updated[a]).name@ != (#[trigger] updated[b]).name@ by {
            assert(updated[a].name@ == entries[a].name@);
            assert(updated[b].name@ == entries[b].name@);
        }
    }
    let rest = entries.drop_last();
    if i == entries.len() - 1 {
        assert(updated.drop_last() =~= rest);
        assert(map_of(updated) =~= map_of(entries).insert(replaced.name@, replaced.position));
    } else {
        assert(distinct_names(rest)) by {
            assert forall|a: int, b: int| 0 <= a < b < rest.len() implies (#[trigger] rest[a]).name@
                != (#[trigger] rest[b]).name@ by {
                assert(rest[a] == entries[a]);
                assert(rest[b] == entries[b]);
            }
        }
        assert(rest[i] == entries[i]);
        lemma_map_of_update(rest, i, replaced);
        assert(updated.drop_last() =~= rest.update(i, replaced));
        assert(updated.last() == entries.last());
        assert(entries[i].name@ != entries[entries.len() - 1].name@);
        assert(map_of(updated) =~= map_of(entries).insert(replaced.name@, replaced.position));
    }
}

/// The position of each element that has a name, by its name, for a list of
/// names in the order of the elements. Of two elements with one name the
/// later counts; an element whose name is empty has no key.
pub open spec fn positions_by_name(names: Seq<Seq<char>>) -> Map<Seq<char>, usize>
    decreases names.len(),
{
    if names.len() == 0 {
        Map::empty()
    } else {
        let rest = positions_by_name(names.drop_last());
        if names.last().len() > 0 {
            rest.insert(names.last(), (names.len() - 1) as usize)
        } else {
            rest
        }
    }
}

/// A name is a key exactly when it is not empty and some element has it, and
/// it then maps to the position of the last such element.
pub proof fn lemma_positions_by_name(names: Seq<Seq<char>>, name: Seq<char>)
    requires
        names.len() <= usize::MAX,
    ensures
        positions_by_name(names).contains_key(name) <==> name.len() > 0 && names.contains(name),
        positions_by_name(names).contains_key(name) ==> {
            let p = positions_by_name(names)[name] as int;
            &&& 0 <= p < names.len()
            &&& names[p] == name
            &&& forall|j: int| p < j < names.len() ==> #[trigger] names[j] != name
        },
    decreases names.len(),
{
    if names.len() > 0 {
        let rest = names.drop_last();
        lemma_positions_by_name(rest, name);
        if names.last() == name {
            assert(names[names.len() - 1] == name);
        } else {
            if rest.contains(name) {
                let i = choose|i: int| 0 <= i < rest.len() && rest[i] == name;
                assert(names[i] == name);
            }
            if positions_by_name(rest).contains_key(name) {
                let p = positions_by_name(rest)[name] as int;
                assert(rest[p] == names[p]);
                assert forall|j: int| p < j < names.len() implies #[trigger] names[j] != name by {
                    if j < rest.len() {
                        assert(rest[j] == names[j]);
                    }
                }
            }
            if names.contains(name) {
                let i = choose|i: int| 0 <= i < names.len() && names[i] == name;
                assert(rest[i] == name);
            }
        }
    }
}

impl View for NameTable {
    type V = Map<Seq<char>, usize>;

    closed spec fn view(&self) -> Map<Seq<char>, usize> {
        map_of(self.entries@)
    }
}

impl NameTable {
    /// No name occurs twice.
    #[verifier::type_invariant]
    spec fn wf(self) -> bool {
        distinct_names(self.entries@)
    }

    /// The entries in the order in which their names were first inserted.
    pub closed spec fn listed(&self) -> Seq<NameEntry> {
        self.entries@
    }

    /// The empty table.
    pub fn new() -> (r: NameTable)
        ensures
            r@ == Map::<Seq<char>, usize>::empty(),
            r.listed().len() == 0,
    {
        NameTable { entries: Vec::new() }
    }

    /// Where the entry of a name stands in the list, if the name is a key.
    fn find(&self, name: &String) -> (r: Option<usize>)
        ensures
            match r {
                Some(i) => i < self.entries@.len() && self.entries@[i as int].name@ == name@,
                None => forall|i: int|
                    0 <= i < self.entries@.len() ==> (#[trigger] self.entries@[i]).name@ != name@,
            },
    {
        let mut i: usize = 0;
        while i < self.entries.len()
            invariant
                i <= self.entries@.len(),
                forall|j: int| 0 <= j < i ==> (#[trigger] self.entries@[j]).name@ != name@,
            decreases self.entries@.len() - i,
        {
            if self.entries[i].name == *name {
                return Some(i);
            }
            i = i + 1;
        }
        None
    }

    /// The position recorded under a name.
    pub fn get(&self, name: &str) -> (r: Option<usize>)
        ensures
            r == if self@.contains_key(name@) {
                Some(self@[name@])
            } else {
                None
            },
    {
        let key = String::from_str(name);
        proof {
            use_type_invariant(self);
            lemma_map_of_keys(self.entries@, name@);
        }
        match self.find(&key) {
            Some(i) => {
                proof {
                    lemma_map_of_entry(self.entries@, i as int);
                }
                Some(self.entries[i].position)
            },
            None => None,
        }
    }

    /// Records a position under a name, in place of any position recorded
    /// under it before.
    pub fn insert(&mut self, name: String, position: usize)
        ensures
            final(self)@ == old(self)@.insert(name@, position),
    {
        proof {
            use_type_invariant(&*self);
        }
        let found = self.find(&name);
        let mut entries: Vec<NameEntry> = Vec::new();
        core::mem::swap(&mut self.entries, &mut entries);
        let ghost before = entries@;
        match found {
            Some(i) => {
                proof {
                    lemma_map_of_update(before, i as int, NameEntry { name, position });
                }
                entries.set(i, NameEntry { name, position });
            },
            None => {
                entries.push(NameEntry { name, position });
                assert(entries@.drop_last() =~= before);
                assert(distinct_names(entries@)) by {
                    assert forall|a: int, b: int| 0 <= a < b < entries@.len() implies (
                    #[trigger] entries@[a]).name@ != (#[trigger] entries@[b]).name@ by {
                        assert(entries@[a] == before[a]);
                        if b < before.len() {
                            assert(entries@[b] == before[b]);
                        }
                    }
                }
            },
        }
        core::mem::swap(&mut self.entries, &mut entries);
    }

    /// Records the position of an element under its name, if it has one.
    pub fn record(&mut self, name: &String, position: usize)
        ensures
            final(self)@ == if name@.len() > 0 {
                old(self)@.insert(name@, position)
            } else {
                old(self)@
            },
    {
        if !name.as_str().is_empty() {
            self.insert(name.clone(), position);
        }
    }

    /// How many names the table holds.
    pub fn len(&self) -> (r: usize)
        ensures
            r == self.listed().len(),
    {
        self.entries.len()
    }

    /// The entries, one for each name, in the order in which the names were
    /// first inserted. They list the map: no name occurs twice, and the map
    /// is the one that the entries stand for.
    pub fn entries(&self) -> (r: &Vec<NameEntry>)
        ensures
            r@ == self.listed(),
            distinct_names(r@),
            self@ == map_of(r@),
    {
        proof {
            use_type_invariant(self);
        }
        &self.entries
    }
}

} // verus!
