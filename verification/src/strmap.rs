//! A mapping from names to values, with a mathematical `Map` as its view.
//!
//! Entries are kept in insertion order and a later entry for a name shadows
//! every earlier one, so inserting is a plain append and the view is the map
//! built from the entries left to right.
use vstd::prelude::*;
use vstd::string::StrSliceExecFns;

verus! {

/// A name-to-value mapping. The interpreter keeps one for variables and one
/// for function bodies; both are process-wide for the interpreter's lifetime.
pub struct StrMap<V> {
    entries: Vec<(String, V)>,
}

/// The map described by an entry sequence: each entry overrides the earlier
/// ones for its key.
pub open spec fn map_of<V: View>(es: Seq<(String, V)>) -> Map<Seq<char>, V::V>
    decreases es,
{
    if es.len() == 0 {
        Map::empty()
    } else {
        map_of(es.drop_last()).insert(es.last().0@, es.last().1@)
    }
}

impl<V: View> View for StrMap<V> {
    type V = Map<Seq<char>, V::V>;

    closed spec fn view(&self) -> Map<Seq<char>, V::V> {
        map_of(self.entries@)
    }
}

/// If entry `i` has key `k` and no later entry does, the map sends `k` to
/// entry `i`'s value.
proof fn lemma_map_of_found<V: View>(es: Seq<(String, V)>, i: int, k: Seq<char>)
    requires
        0 <= i < es.len(),
        es[i].0@ == k,
        forall|t: int| i < t < es.len() ==> es[t].0@ != k,
    ensures
        map_of(es).contains_key(k),
        map_of(es)[k] == es[i].1@,
    decreases es,
{
    if i == es.len() - 1 {
    } else {
        assert(es.drop_last()[i] == es[i]);
        lemma_map_of_found(es.drop_last(), i, k);
    }
}

/// If no entry has key `k`, the map has no key `k`.
proof fn lemma_map_of_absent<V: View>(es: Seq<(String, V)>, k: Seq<char>)
    requires
        forall|t: int| 0 <= t < es.len() ==> es[t].0@ != k,
    ensures
        !map_of(es).contains_key(k),
    decreases es,
{
    if es.len() > 0 {
        lemma_map_of_absent(es.drop_last(), k);
    }
}

impl<V: View> StrMap<V> {
    /// An empty mapping.
    pub fn new() -> (m: StrMap<V>)
        ensures
            m@ == Map::<Seq<char>, V::V>::empty(),
    {
        StrMap { entries: Vec::new() }
    }

    /// Binds `name` to `v`, overwriting any prior binding of the same name.
    pub fn insert(&mut self, name: String, v: V)
        ensures
            final(self)@ == old(self)@.insert(name@, v@),
    {
        let ghost pre = self.entries@;
        self.entries.push((name, v));
        proof {
            assert(self.entries@.drop_last() =~= pre);
        }
    }

    /// Looks the name up: the value it is bound to, or `None` if unbound.
    pub fn get(&self, name: &str) -> (r: Option<&V>)
        ensures
            match r {
                Some(v) => self@.contains_key(name@) && v@ == self@[name@],
                None => !self@.contains_key(name@),
            },
    {
        let mut i = self.entries.len();
        while i > 0
            invariant
                0 <= i <= self.entries@.len(),
                forall|t: int| i <= t < self.entries@.len() ==> self.entries@[t].0@ != name@,
            decreases i,
        {
            i = i - 1;
            if str_eq(self.entries[i].0.as_str(), name) {
                proof {
                    lemma_map_of_found(self.entries@, i as int, name@);
                }
                return Some(&self.entries[i].1);
            }
        }
        proof {
            lemma_map_of_absent(self.entries@, name@);
        }
        None
    }
}

/// Whether two string slices hold the same characters.
pub fn str_eq(a: &str, b: &str) -> (r: bool)
    ensures
        r == (a@ == b@),
{
    let n = a.unicode_len();
    if n != b.unicode_len() {
        proof {
            assert(a@.len() != b@.len());
        }
        return false;
    }
    let mut j: usize = 0;
    while j < n
        invariant
            0 <= j <= n,
            n == a@.len(),
            n == b@.len(),
            forall|t: int| 0 <= t < j ==> a@[t] == b@[t],
        decreases n - j,
    {
        if a.get_char(j) != b.get_char(j) {
            return false;
        }
        j += 1;
    }
    proof {
        assert(a@ =~= b@);
    }
    true
}

} // verus!
