//! A registry by label: at most one handle for each label, whatever is
//! done to it.
//!
//! The entries stand in a vector and the type's invariant says that no
//! label stands twice. A hash map keyed by text would not do: vstd states
//! its key model for integers only, so nothing could be proved of it.

use vstd::prelude::*;

verus! {

/// Where the entry for `label` stands among `entries`, where there is one.
pub open spec fn position<H>(entries: Seq<(String, H)>, label: Seq<char>) -> Option<int> {
    if exists|i: int| 0 <= i < entries.len() && entries[i].0@ == label {
        Some(choose|i: int| 0 <= i < entries.len() && entries[i].0@ == label)
    } else {
        None
    }
}

/// No label stands twice among `entries`.
pub open spec fn distinct<H>(entries: Seq<(String, H)>) -> bool {
    forall|i: int, j: int|
        0 <= i < j < entries.len() ==> (#[trigger] entries[i]).0@ != (#[trigger] entries[j]).0@
}

/// The entries as a map from labels to handles.
pub open spec fn as_map<H>(entries: Seq<(String, H)>) -> Map<Seq<char>, H> {
    Map::new(
        |label: Seq<char>| position(entries, label) is Some,
        |label: Seq<char>| entries[position(entries, label)->0].1,
    )
}

/// Among distinct entries, each stands where its label is found.
pub proof fn lemma_position<H>(entries: Seq<(String, H)>, i: int)
    requires
        distinct(entries),
        0 <= i < entries.len(),
    ensures
        position(entries, entries[i].0@) == Some(i),
        as_map(entries).dom().contains(entries[i].0@),
        as_map(entries)[entries[i].0@] == entries[i].1,
{
    let label = entries[i].0@;
    let p = choose|k: int| 0 <= k < entries.len() && entries[k].0@ == label;
    if p < i {
        assert(entries[p].0@ != entries[i].0@);
    } else if i < p {
        assert(entries[i].0@ != entries[p].0@);
    }
}

/// Without one of their entries, distinct entries are distinct and map
/// every other label as before.
pub proof fn lemma_remove<H>(entries: Seq<(String, H)>, i: int)
    requires
        distinct(entries),
        0 <= i < entries.len(),
    ensures
        distinct(entries.remove(i)),
        as_map(entries.remove(i)) == as_map(entries).remove(entries[i].0@),
{
    let after = entries.remove(i);
    let label = entries[i].0@;
    assert(distinct(after)) by {
        assert forall|a: int, b: int| 0 <= a < b < after.len() implies (#[trigger] after[a]).0@
            != (#[trigger] after[b]).0@ by {
            let a0 = if a < i {
                a
            } else {
                a + 1
            };
            let b0 = if b < i {
                b
            } else {
                b + 1
            };
            assert(after[a] == entries[a0]);
            assert(after[b] == entries[b0]);
        }
    }
    assert forall|l: Seq<char>| #[trigger]
        as_map(after).dom().contains(l) == as_map(entries).remove(label).dom().contains(l) by {
        if position(after, l) is Some {
            let p = position(after, l)->0;
            let p0 = if p < i {
                p
            } else {
                p + 1
            };
            assert(entries[p0].0@ == l);
            lemma_position(entries, p0);
            lemma_position(entries, i);
        }
        if position(entries, l) is Some && l != label {
            let q = position(entries, l)->0;
            let q1 = if q < i {
                q
            } else {
                q - 1
            };
            assert(after[q1].0@ == l);
        }
    }
    assert forall|l: Seq<char>| #[trigger]
        as_map(after).dom().contains(l) implies as_map(after)[l] == as_map(entries).remove(
        label,
    )[l] by {
        let p = position(after, l)->0;
        let p0 = if p < i {
            p
        } else {
            p + 1
        };
        assert(entries[p0].0@ == l);
        lemma_position(entries, p0);
        lemma_position(after, p);
    }
    assert(as_map(after) =~= as_map(entries).remove(label));
}

/// With one more entry under a label that they do not hold, distinct
/// entries are distinct and map that label too.
pub proof fn lemma_push<H>(entries: Seq<(String, H)>, label: String, handle: H)
    requires
        distinct(entries),
        !as_map(entries).dom().contains(label@),
    ensures
        distinct(entries.push((label, handle))),
        as_map(entries.push((label, handle))) == as_map(entries).insert(label@, handle),
{
    let after = entries.push((label, handle));
    let n = entries.len() as int;
    assert forall|k: int| 0 <= k < n implies (#[trigger] entries[k]).0@ != label@ by {
        lemma_position(entries, k);
    }
    assert(distinct(after)) by {
        assert forall|a: int, b: int| 0 <= a < b < after.len() implies (#[trigger] after[a]).0@
            != (#[trigger] after[b]).0@ by {
            assert(after[a] == entries[a]);
            if b < n {
                assert(after[b] == entries[b]);
            }
        }
    }
    assert forall|l: Seq<char>| #[trigger]
        as_map(after).dom().contains(l) == as_map(entries).insert(label@, handle).dom().contains(
            l,
        ) by {
        if position(after, l) is Some {
            let p = position(after, l)->0;
            if p < n {
                assert(entries[p].0@ == l);
            }
        }
        if position(entries, l) is Some {
            let q = position(entries, l)->0;
            assert(after[q].0@ == l);
        }
        if l == label@ {
            assert(after[n].0@ == l);
        }
    }
    assert forall|l: Seq<char>| #[trigger]
        as_map(after).dom().contains(l) implies as_map(after)[l] == as_map(entries).insert(
        label@,
        handle,
    )[l] by {
        let p = position(after, l)->0;
        lemma_position(after, p);
        if p < n {
            assert(entries[p].0@ == l);
            lemma_position(entries, p);
        }
    }
    assert(as_map(after) =~= as_map(entries).insert(label@, handle));
}

/// Finds the entry for `label`.
fn find<H>(entries: &Vec<(String, H)>, label: &str) -> (r: Option<usize>)
    requires
        distinct(entries@),
    ensures
        match r {
            Some(i) => i < entries@.len() && entries@[i as int].0@ == label@ && position(
                entries@,
                label@,
            ) == Some(i as int),
            None => position(entries@, label@) is None,
        },
{
    let wanted: String = label.to_owned();
    let mut i: usize = 0;
    while i < entries.len()
        invariant
            distinct(entries@),
            0 <= i <= entries@.len(),
            wanted@ == label@,
            forall|k: int| 0 <= k < i ==> (#[trigger] entries@[k]).0@ != label@,
        decreases entries@.len() - i,
    {
        if entries[i].0 == wanted {
            proof {
                lemma_position(entries@, i as int);
            }
            return Some(i);
        }
        i = i + 1;
    }
    None
}

/// Handles by label. `H` is what the owner keeps for a label: the relay
/// client of a session, or the switch that stops a job.
pub struct Registry<H> {
    entries: Vec<(String, H)>,
}

impl<H> Registry<H> {
    /// No label stands twice.
    #[verifier::type_invariant]
    spec fn well_formed(self) -> bool {
        distinct(self.entries@)
    }

    /// The entries in the order in which they came.
    pub closed spec fn listed(&self) -> Seq<(String, H)> {
        self.entries@
    }

    /// The registry as a map from labels to handles.
    pub open spec fn view(&self) -> Map<Seq<char>, H> {
        as_map(self.listed())
    }

    /// An empty registry.
    pub fn new() -> (r: Registry<H>)
        ensures
            r@ == Map::<Seq<char>, H>::empty(),
            r.listed().len() == 0,
    {
        let r = Registry { entries: Vec::new() };
        proof {
            assert(r@ =~= Map::<Seq<char>, H>::empty());
        }
        r
    }

    /// How many entries the registry holds.
    pub fn len(&self) -> (n: usize)
        ensures
            n == self.listed().len(),
    {
        self.entries.len()
    }

    /// Whether `label` is registered.
    pub fn contains(&self, label: &str) -> (r: bool)
        ensures
            r == self@.dom().contains(label@),
    {
        proof {
            use_type_invariant(&*self);
        }
        find(&self.entries, label).is_some()
    }

    /// The handle of `label`.
    pub fn get(&self, label: &str) -> (r: Option<&H>)
        ensures
            match r {
                Some(h) => self@.dom().contains(label@) && *h == self@[label@],
                None => !self@.dom().contains(label@),
            },
    {
        proof {
            use_type_invariant(&*self);
        }
        match find(&self.entries, label) {
            Some(i) => Some(&self.entries[i].1),
            None => None,
        }
    }

    /// Takes the entry of `label` out and hands its handle over.
    pub fn remove(&mut self, label: &str) -> (r: Option<H>)
        ensures
            final(self)@ == old(self)@.remove(label@),
            match r {
                Some(h) => old(self)@.dom().contains(label@) && h == old(self)@[label@],
                None => !old(self)@.dom().contains(label@),
            },
    {
        proof {
            use_type_invariant(&*self);
        }
        let mut entries: Vec<(String, H)> = Vec::new();
        std::mem::swap(&mut entries, &mut self.entries);
        let ghost before = entries@;
        let taken = match find(&entries, label) {
            Some(i) => {
                proof {
                    lemma_remove(before, i as int);
                }
                let entry = entries.remove(i);
                Some(entry.1)
            },
            None => {
                proof {
                    assert(as_map(before) =~= as_map(before).remove(label@));
                }
                None
            },
        };
        self.entries = entries;
        taken
    }

    /// Registers `handle` under `label`. A handle that stood there before
    /// is taken out and handed back, so that its owner can shut it down.
    pub fn insert(&mut self, label: String, handle: H) -> (r: Option<H>)
        ensures
            final(self)@ == old(self)@.insert(label@, handle),
            match r {
                Some(h) => old(self)@.dom().contains(label@) && h == old(self)@[label@],
                None => !old(self)@.dom().contains(label@),
            },
    {
        proof {
            use_type_invariant(&*self);
        }
        let mut entries: Vec<(String, H)> = Vec::new();
        std::mem::swap(&mut entries, &mut self.entries);
        let ghost before = entries@;
        let displaced = match find(&entries, label.as_str()) {
            Some(i) => {
                proof {
                    lemma_remove(before, i as int);
                }
                let entry = entries.remove(i);
                Some(entry.1)
            },
            None => {
                proof {
                    assert(as_map(before) =~= as_map(before).remove(label@));
                }
                None
            },
        };
        proof {
            lemma_push(entries@, label, handle);
            assert(as_map(before).remove(label@).insert(label@, handle) =~= as_map(before).insert(
                label@,
                handle,
            ));
        }
        entries.push((label, handle));
        self.entries = entries;
        displaced
    }

    /// Empties the registry and hands every entry over, in the order in
    /// which they came. No label stands twice among them, and each comes
    /// with the handle that was registered under it.
    pub fn drain(&mut self) -> (r: Vec<(String, H)>)
        ensures
            final(self)@ == Map::<Seq<char>, H>::empty(),
            final(self).listed().len() == 0,
            r@ == old(self).listed(),
            distinct(r@),
    {
        proof {
            use_type_invariant(&*self);
        }
        let mut taken: Vec<(String, H)> = Vec::new();
        std::mem::swap(&mut self.entries, &mut taken);
        proof {
            assert(self@ =~= Map::<Seq<char>, H>::empty());
        }
        taken
    }

    /// The entries, in the order in which they came. No label stands
    /// twice among them, and each comes with the handle that is registered
    /// under it.
    pub fn entries(&self) -> (r: &Vec<(String, H)>)
        ensures
            r@ == self.listed(),
            distinct(r@),
    {
        proof {
            use_type_invariant(&*self);
        }
        &self.entries
    }
}

} // verus!
