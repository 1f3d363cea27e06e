//! Name-keyed maps for the code generator: a later insertion of a name
//! shadows earlier ones.

use vstd::prelude::*;

use crate::text::str_eq;

verus! {

/// The value of the last entry named `k`, if any.
pub open spec fn lookup_in<V>(s: Seq<(String, V)>, k: Seq<char>) -> Option<V>
    decreases s.len(),
{
    if s.len() == 0 {
        None
    } else if s.last().0@ == k {
        Some(s.last().1)
    } else {
        lookup_in(s.drop_last(), k)
    }
}

/// A map from names to values.
pub struct NameMap<V> {
    pub entries: Vec<(String, V)>,
}

impl<V> NameMap<V> {
    /// The value stored for `k`, if any.
    pub open spec fn lookup(&self, k: Seq<char>) -> Option<V> {
        lookup_in(self.entries@, k)
    }

    /// The empty map.
    pub fn new() -> (m: Self)
        ensures
            forall|k: Seq<char>| m.lookup(k) is None,
            m.entries@.len() == 0,
    {
        NameMap { entries: Vec::new() }
    }

    /// Stores `v` for `k`.
    pub fn insert(&mut self, k: &str, v: V)
        ensures
            final(self).lookup(k@) == Some(v),
            forall|j: Seq<char>| j != k@ ==> final(self).lookup(j) == old(self).lookup(j),
            final(self).entries@.len() == old(self).entries@.len() + 1,
            final(self).entries@.last().0@ == k@,
            final(self).entries@.last().1 == v,
            final(self).entries@.drop_last() == old(self).entries@,
    {
        let key = k.to_owned();
        self.entries.push((key, v));
        assert(final(self).entries@.drop_last() =~= old(self).entries@);
    }

    /// The number of insertions made.
    pub fn len(&self) -> (n: usize)
        ensures
            n == self.entries@.len(),
    {
        self.entries.len()
    }

    /// The value stored for `k`, if any.
    pub fn get(&self, k: &str) -> (r: Option<&V>)
        ensures
            match r {
                Some(x) => self.lookup(k@) == Some(*x),
                None => self.lookup(k@) is None,
            },
    {
        let mut i = self.entries.len();
        assert(self.entries@.subrange(0, i as int) =~= self.entries@);
        while i > 0
            invariant
                i <= self.entries@.len(),
                lookup_in(self.entries@, k@) == lookup_in(self.entries@.subrange(0, i as int), k@),
            decreases i,
        {
            let ghost prefix = self.entries@.subrange(0, i as int);
            assert(prefix.drop_last() =~= self.entries@.subrange(0, i - 1));
            if str_eq(self.entries[i - 1].0.as_str(), k) {
                return Some(&self.entries[i - 1].1);
            }
            i = i - 1;
        }
        None
    }

    /// Whether a value is stored for `k`.
    pub fn contains_key(&self, k: &str) -> (r: bool)
        ensures
            r == self.lookup(k@) is Some,
    {
        self.get(k).is_some()
    }
}

/// Whether a list of names holds `k`.
pub open spec fn names_contain(names: Seq<String>, k: Seq<char>) -> bool {
    exists|i: int| 0 <= i < names.len() && #[trigger] names[i]@ == k
}

/// Whether `names` holds `k`.
pub fn contains_name(names: &Vec<String>, k: &str) -> (r: bool)
    ensures
        r == names_contain(names@, k@),
{
    let mut i: usize = 0;
    while i < names.len()
        invariant
            i <= names.len(),
            forall|j: int| 0 <= j < i ==> names@[j]@ != k@,
        decreases names.len() - i,
    {
        if str_eq(names[i].as_str(), k) {
            return true;
        }
        i = i + 1;
    }
    false
}

/// The counters of a counter map, by name.
pub open spec fn count_map(m: NameMap<u32>) -> Map<Seq<char>, u32> {
    Map::new(|k: Seq<char>| m.lookup(k) is Some, |k: Seq<char>| m.lookup(k)->0)
}

/// The counter of `name` after one more definition: one the first time,
/// then one more each time, wrapping around at 2^32.
pub open spec fn bumped(counts: Map<Seq<char>, u32>, name: Seq<char>) -> u32 {
    if counts.contains_key(name) {
        ((counts[name] as int + 1) % 0x1_0000_0000) as u32
    } else {
        1
    }
}

/// The type names of a map of type names, by name.
pub open spec fn type_map(m: NameMap<&'static str>) -> Map<Seq<char>, Seq<char>> {
    Map::new(|k: Seq<char>| m.lookup(k) is Some, |k: Seq<char>| m.lookup(k)->0@)
}

/// Storing `v` for `k` in a map of type names.
pub fn insert_type(m: &mut NameMap<&'static str>, k: &str, v: &'static str)
    ensures
        type_map(*final(m)) == type_map(*old(m)).insert(k@, v@),
{
    m.insert(k, v);
    assert(type_map(*m) =~= type_map(*old(m)).insert(k@, v@));
}

} // verus!
