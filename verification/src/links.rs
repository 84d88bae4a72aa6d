//! The mapping from link names to link specifications.

use vstd::prelude::*;

verus! {

/// How one link is to be made.
///
/// Only the simple form, a bare string, exists so far; richer forms get
/// variants of their own.
#[derive(Debug, PartialEq, Eq)]
pub enum LinkSpec {
    /// The bare string form.
    Simple(String),
}

/// The mathematical value of a [`LinkSpec`].
pub enum LinkSpecView {
    Simple(Seq<char>),
}

impl View for LinkSpec {
    type V = LinkSpecView;

    open spec fn view(&self) -> LinkSpecView {
        match self {
            LinkSpec::Simple(text) => LinkSpecView::Simple(text@),
        }
    }
}

impl Clone for LinkSpec {
    fn clone(&self) -> (copy: LinkSpec)
        ensures
            copy == *self,
    {
        match self {
            LinkSpec::Simple(text) => LinkSpec::Simple(text.clone()),
        }
    }
}

/// One entry of a [`FileMap`].
#[derive(Debug)]
struct FileEntry {
    name: String,
    spec: LinkSpec,
}

/// A finite mapping from link names to link specifications.
///
/// The entries are kept in a vector in which no name occurs twice.
#[derive(Debug)]
pub struct FileMap {
    entries: Vec<FileEntry>,
}

/// No name occurs twice among `entries`.
spec fn distinct_names(entries: Seq<FileEntry>) -> bool {
    forall|i: int, j: int|
        0 <= i < entries.len() && 0 <= j < entries.len() && entries[i].name@ == entries[j].name@
            ==> i == j
}

/// `name` is the name of one of `entries`.
spec fn names(entries: Seq<FileEntry>, name: Seq<char>) -> bool {
    exists|i: int| 0 <= i < entries.len() && #[trigger] entries[i].name@ == name
}

/// The place of `name` among `entries`, where it is the name of one of them.
spec fn place(entries: Seq<FileEntry>, name: Seq<char>) -> int {
    choose|i: int| 0 <= i < entries.len() && #[trigger] entries[i].name@ == name
}

/// The mapping that `entries` stand for.
spec fn mapping(entries: Seq<FileEntry>) -> Map<Seq<char>, LinkSpecView> {
    Map::new(
        |name: Seq<char>| names(entries, name),
        |name: Seq<char>| entries[place(entries, name)].spec@,
    )
}

/// With distinct names, the mapping takes each entry's name to that entry's
/// specification.
proof fn lemma_mapping_at(entries: Seq<FileEntry>, i: int)
    requires
        distinct_names(entries),
        0 <= i < entries.len(),
    ensures
        mapping(entries).contains_key(entries[i].name@),
        mapping(entries)[entries[i].name@] == entries[i].spec@,
{
    assert(place(entries, entries[i].name@) == i);
}

/// With distinct names, the mapping has as many keys as there are entries.
proof fn lemma_mapping_len(entries: Seq<FileEntry>)
    requires
        distinct_names(entries),
    ensures
        mapping(entries).dom().finite(),
        mapping(entries).dom().len() == entries.len(),
    decreases entries.len(),
{
    if entries.len() == 0 {
        assert(mapping(entries).dom() =~= Set::<Seq<char>>::empty());
    } else {
        let front = entries.drop_last();
        let last = entries.last();
        assert(distinct_names(front)) by {
            assert forall|i: int, j: int|
                0 <= i < front.len() && 0 <= j < front.len() && front[i].name@
                    == front[j].name@ implies i == j by {
                assert(entries[i].name@ == entries[j].name@);
            }
        }
        lemma_mapping_len(front);
        assert(!names(front, last.name@)) by {
            if names(front, last.name@) {
                let i = place(front, last.name@);
                assert(entries[i].name@ == entries[entries.len() - 1].name@);
            }
        }
        assert(mapping(entries).dom() =~= mapping(front).dom().insert(last.name@)) by {
            assert forall|k: Seq<char>| names(entries, k) <==> (names(front, k) || k
                == last.name@) by {
                if names(entries, k) {
                    let i = place(entries, k);
                    if i < front.len() {
                        assert(front[i].name@ == k);
                    }
                }
                if names(front, k) {
                    let i = place(front, k);
                    assert(entries[i].name@ == k);
                }
                if k == last.name@ {
                    assert(entries[entries.len() - 1].name@ == k);
                }
            }
        }
    }
}

impl View for FileMap {
    type V = Map<Seq<char>, LinkSpecView>;

    closed spec fn view(&self) -> Map<Seq<char>, LinkSpecView> {
        mapping(self.entries@)
    }
}

impl Clone for FileMap {
    fn clone(&self) -> (copy: FileMap)
        ensures
            copy@ == self@,
    {
        proof {
            use_type_invariant(self);
        }
        let mut entries: Vec<FileEntry> = Vec::new();
        let mut i: usize = 0;
        while i < self.entries.len()
            invariant
                i <= self.entries@.len(),
                entries@ == self.entries@.take(i as int),
            decreases self.entries@.len() - i,
        {
            let entry = &self.entries[i];
            entries.push(FileEntry { name: entry.name.clone(), spec: entry.spec.clone() });
            i += 1;
            assert(entries@ =~= self.entries@.take(i as int));
        }
        assert(entries@ =~= self.entries@);
        FileMap { entries }
    }
}

impl FileMap {
    #[verifier::type_invariant]
    spec fn well_formed(&self) -> bool {
        distinct_names(self.entries@)
    }

    /// The mapping without entries.
    pub fn new() -> (map: FileMap)
        ensures
            map@ == Map::<Seq<char>, LinkSpecView>::empty(),
    {
        let map = FileMap { entries: Vec::new() };
        assert(map@ =~= Map::<Seq<char>, LinkSpecView>::empty());
        map
    }

    /// The number of names that the mapping has an entry for.
    pub fn len(&self) -> (n: usize)
        ensures
            self@.dom().finite(),
            n == self@.len(),
    {
        proof {
            use_type_invariant(self);
            lemma_mapping_len(self.entries@);
        }
        self.entries.len()
    }

    /// Where `name` stands among the entries, if it does.
    fn position(&self, name: &String) -> (found: Option<usize>)
        ensures
            match found {
                Some(i) => i < self.entries@.len() && self.entries@[i as int].name@ == name@,
                None => !names(self.entries@, name@),
            },
    {
        let mut i: usize = 0;
        while i < self.entries.len()
            invariant
                i <= self.entries@.len(),
                forall|j: int| 0 <= j < i ==> self.entries@[j].name@ != name@,
            decreases self.entries@.len() - i,
        {
            if self.entries[i].name == *name {
                return Some(i);
            }
            i += 1;
        }
        None
    }

    /// The specification that stands under `name`, if one does.
    pub fn get(&self, name: &str) -> (found: Option<&LinkSpec>)
        ensures
            match found {
                Some(spec) => self@.contains_key(name@) && self@[name@] == spec@,
                None => !self@.contains_key(name@),
            },
    {
        proof {
            use_type_invariant(self);
        }
        let name = name.to_owned();
        match self.position(&name) {
            Some(i) => {
                proof {
                    lemma_mapping_at(self.entries@, i as int);
                }
                Some(&self.entries[i].spec)
            },
            None => None,
        }
    }

    /// The mapping with `spec` under `name`, in place of what stood there.
    pub fn with(self, name: String, spec: LinkSpec) -> (map: FileMap)
        ensures
            map@ == self@.insert(name@, spec@),
    {
        proof {
            use_type_invariant(&self);
        }
        let ghost before = self.entries@;
        let found = self.position(&name);
        let entry = FileEntry { name, spec };
        let mut entries = self.entries;
        match found {
            Some(i) => {
                entries.set(i, entry);
            },
            None => {
                entries.push(entry);
            },
        }
        proof {
            let after = entries@;
            assert forall|k: Seq<char>| names(after, k) <==> (names(before, k) || k == entry.name@) by {
                if names(before, k) {
                    let j = place(before, k);
                    assert(after[j].name@ == k);
                }
                if k == entry.name@ {
                    let j = if after.len() == before.len() {
                        place(before, k)
                    } else {
                        before.len() as int
                    };
                    assert(after[j].name@ == k);
                }
            }
            assert forall|k: Seq<char>| names(after, k) implies mapping(after)[k] == (if k
                == entry.name@ {
                entry.spec@
            } else {
                mapping(before)[k]
            }) by {
                let j = place(after, k);
                lemma_mapping_at(after, j);
                if k != entry.name@ {
                    assert(before[j].name@ == k);
                    lemma_mapping_at(before, j);
                }
            }
            assert(mapping(after) =~= mapping(before).insert(entry.name@, entry.spec@));
        }
        FileMap { entries }
    }

    /// Puts `spec` under `name`, in place of what stood there.
    pub fn insert(&mut self, name: String, spec: LinkSpec)
        ensures
            final(self)@ == old(self)@.insert(name@, spec@),
    {
        let mut map = FileMap::new();
        std::mem::swap(self, &mut map);
        *self = map.with(name, spec);
    }
}

} // verus!
