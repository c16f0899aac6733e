//! The process registry: a mapping from a process name to its callable unit.
//! Registration inserts or silently overwrites; lookup of an absent name is a
//! normal outcome, distinct from a unit's own failure.

use vstd::prelude::*;
use crate::outcome::ProcessResponse;
use crate::string_eq;

verus! {

/// A named, stateless, synchronously callable unit of work. The embedding
/// application implements this for whatever computations it registers; a unit
/// reports failure only through the failure branch of its result.
pub trait ProcessUnit: Sized {
    /// Runs the unit once and returns its outcome: `Ok` for the success
    /// branch, `Err` for the failure branch.
    fn invoke(&self) -> Result<ProcessResponse, ProcessResponse>;
}

/// The unit registered under `name`, if any: the last entry with that name
/// wins, though a well-formed registry holds each name at most once.
pub open spec fn entry_lookup<U>(s: Seq<(String, U)>, name: Seq<char>) -> Option<U>
    decreases s.len(),
{
    if s.len() == 0 {
        None
    } else if s.last().0@ == name {
        Some(s.last().1)
    } else {
        entry_lookup(s.drop_last(), name)
    }
}

/// A lookup over entries whose keys all differ from `name` finds nothing.
proof fn lemma_lookup_absent<U>(s: Seq<(String, U)>, name: Seq<char>)
    requires
        forall|j: int| 0 <= j < s.len() ==> s[j].0@ != name,
    ensures
        entry_lookup(s, name) is None,
    decreases s.len(),
{
    if s.len() > 0 {
        lemma_lookup_absent(s.drop_last(), name);
    }
}

/// In a registry with pairwise distinct keys, a lookup finds the one entry
/// that carries the name.
proof fn lemma_lookup_found<U>(s: Seq<(String, U)>, name: Seq<char>, i: int)
    requires
        0 <= i < s.len(),
        s[i].0@ == name,
        forall|j: int, k: int| 0 <= j < k < s.len() ==> s[j].0@ != s[k].0@,
    ensures
        entry_lookup(s, name) == Some(s[i].1),
    decreases s.len(),
{
    if i == s.len() - 1 {
        assert(s.last() == s[i]);
    } else {
        assert(s.last().0@ != name);
        lemma_lookup_found(s.drop_last(), name, i);
    }
}

/// The registry state: the entries, keyed by process name. The key set is the
/// registry's sole invariant: no name appears twice.
pub struct Registry<U> {
    entries: Vec<(String, U)>,
}

impl<U> View for Registry<U> {
    type V = Map<Seq<char>, U>;

    /// The registry as a mapping from name to unit.
    closed spec fn view(&self) -> Map<Seq<char>, U> {
        Map::new(
            |k: Seq<char>| entry_lookup(self.entries@, k) is Some,
            |k: Seq<char>| entry_lookup(self.entries@, k)->Some_0,
        )
    }
}

impl<U> Registry<U> {
    /// Each name keys at most one entry.
    pub closed spec fn wf(&self) -> bool {
        forall|j: int, k: int|
            0 <= j < k < self.entries@.len() ==> self.entries@[j].0@ != self.entries@[k].0@
    }

    /// An empty registry: no name resolves.
    pub fn new() -> (r: Self)
        ensures
            r.wf(),
            r@ == Map::<Seq<char>, U>::empty(),
    {
        let r = Registry { entries: Vec::new() };
        proof {
            assert(r@ =~= Map::<Seq<char>, U>::empty());
        }
        r
    }

    /// Inserts `unit` under `name`, silently replacing an earlier entry with
    /// the same name.
    pub fn register(&mut self, name: &str, unit: U)
        requires
            old(self).wf(),
        ensures
            final(self).wf(),
            final(self)@ == old(self)@.insert(name@, unit),
    {
        let key: String = name.to_owned();
        let ghost s0 = self.entries@;
        let mut i: usize = 0;
        while i < self.entries.len()
            invariant
                self.entries@ == s0,
                s0 == old(self).entries@,
                0 <= i <= s0.len(),
                key@ == name@,
                forall|j: int, k: int| 0 <= j < k < s0.len() ==> s0[j].0@ != s0[k].0@,
                forall|j: int| 0 <= j < i ==> s0[j].0@ != name@,
            decreases s0.len() - i,
        {
            if string_eq(&self.entries[i].0, &key) {
                self.entries[i] = (key, unit);
                proof {
                    lemma_update_is_insert(s0, self.entries@, name@, unit, i as int);
                    assert(self@ =~= old(self)@.insert(name@, unit));
                }
                return ;
            }
            i = i + 1;
        }
        self.entries.push((key, unit));
        proof {
            assert(self.entries@.drop_last() =~= s0);
            assert forall|k: Seq<char>| k != name@ implies entry_lookup(self.entries@, k)
                == entry_lookup(s0, k) by {
                assert(self.entries@.last().0@ == name@);
            }
            assert(self@ =~= old(self)@.insert(name@, unit));
        }
    }

    /// Resolves `name` to the registered unit, or reports that none exists.
    pub fn resolve(&self, name: &str) -> (r: Option<&U>)
        requires
            self.wf(),
        ensures
            match r {
                Some(u) => self@.contains_key(name@) && *u == self@[name@],
                None => !self@.contains_key(name@),
            },
    {
        let key: String = name.to_owned();
        let ghost s = self.entries@;
        let mut i: usize = 0;
        while i < self.entries.len()
            invariant
                self.entries@ == s,
                self.wf(),
                0 <= i <= s.len(),
                key@ == name@,
                forall|j: int| 0 <= j < i ==> s[j].0@ != name@,
            decreases s.len() - i,
        {
            if string_eq(&self.entries[i].0, &key) {
                proof {
                    lemma_lookup_found(s, name@, i as int);
                }
                return Some(&self.entries[i].1);
            }
            i = i + 1;
        }
        proof {
            lemma_lookup_absent(s, name@);
        }
        None
    }
}

/// Replacing the one entry that carries `name` acts on the mapping as an
/// insert at `name`.
proof fn lemma_update_is_insert<U>(
    s0: Seq<(String, U)>,
    s1: Seq<(String, U)>,
    name: Seq<char>,
    unit: U,
    i: int,
)
    requires
        0 <= i < s0.len(),
        s0[i].0@ == name,
        forall|j: int, k: int| 0 <= j < k < s0.len() ==> s0[j].0@ != s0[k].0@,
        s1.len() == s0.len(),
        s1[i].0@ == name,
        s1[i].1 == unit,
        forall|j: int| 0 <= j < s0.len() && j != i ==> s1[j] == s0[j],
    ensures
        forall|j: int, k: int| 0 <= j < k < s1.len() ==> s1[j].0@ != s1[k].0@,
        entry_lookup(s1, name) == Some(unit),
        forall|k: Seq<char>| k != name ==> entry_lookup(s1, k) == entry_lookup(s0, k),
{
    assert forall|j: int, k: int| 0 <= j < k < s1.len() implies s1[j].0@ != s1[k].0@ by {
        assert(s0[j].0@ != s0[k].0@);
    }
    lemma_lookup_found(s1, name, i);
    assert forall|k: Seq<char>| k != name implies entry_lookup(s1, k) == entry_lookup(s0, k) by {
        lemma_lookup_update_other(s0, s1, i, k);
    }
}

/// A lookup for any other name passes an updated entry by.
proof fn lemma_lookup_update_other<U>(s0: Seq<(String, U)>, s1: Seq<(String, U)>, i: int, k: Seq<char>)
    requires
        0 <= i < s0.len(),
        s1.len() == s0.len(),
        forall|j: int| 0 <= j < s0.len() && j != i ==> s1[j] == s0[j],
        s0[i].0@ == s1[i].0@,
        k != s0[i].0@,
    ensures
        entry_lookup(s1, k) == entry_lookup(s0, k),
    decreases s0.len(),
{
    assert(s1.last().0@ == s0.last().0@);
    if s0.last().0@ != k {
        if i == s0.len() - 1 {
            assert(s1.drop_last() =~= s0.drop_last());
        } else {
            lemma_lookup_update_other(s0.drop_last(), s1.drop_last(), i, k);
        }
    }
}

} // verus!
