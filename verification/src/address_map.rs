//! The routing table produced by discovery: a map from logical service name
//! to synthesized address.
//!
//! Keys are unique; inserting under an existing name silently replaces the
//! earlier address, so only the last-seen address for a given name survives.

use vstd::prelude::*;

verus! {

/// No two entries share a key.
pub open spec fn unique_keys(s: Seq<(String, String)>) -> bool {
    forall|i: int, j: int| 0 <= i < j < s.len() ==> (#[trigger] s[i]).0@ != (#[trigger] s[j]).0@
}

/// The map described by a sequence of (name, address) entries, a later entry
/// overriding an earlier one with the same name.
pub open spec fn assoc_map(s: Seq<(String, String)>) -> Map<Seq<char>, Seq<char>>
    decreases s.len(),
{
    if s.len() == 0 {
        Map::empty()
    } else {
        assoc_map(s.drop_last()).insert(s.last().0@, s.last().1@)
    }
}

/// A name is in the map exactly when some entry carries it.
pub proof fn lemma_assoc_map_contains(s: Seq<(String, String)>, k: Seq<char>)
    ensures
        assoc_map(s).contains_key(k) <==> exists|i: int|
            0 <= i < s.len() && (#[trigger] s[i]).0@ == k,
    decreases s.len(),
{
    if s.len() > 0 {
        lemma_assoc_map_contains(s.drop_last(), k);
        if s.last().0@ == k {
            assert(s[s.len() - 1].0@ == k);
        } else if assoc_map(s).contains_key(k) {
            let i = choose|i: int| 0 <= i < s.len() - 1 && (#[trigger] s.drop_last()[i]).0@ == k;
            assert(s[i].0@ == k);
        } else {
            assert forall|i: int| 0 <= i < s.len() implies (#[trigger] s[i]).0@ != k by {
                if i < s.len() - 1 {
                    assert(s.drop_last()[i] == s[i]);
                }
            }
        }
    }
}

/// Under unique keys, the entry carrying a name gives that name's value.
pub proof fn lemma_assoc_map_lookup(s: Seq<(String, String)>, i: int)
    requires
        unique_keys(s),
        0 <= i < s.len(),
    ensures
        assoc_map(s).contains_key(s[i].0@),
        assoc_map(s)[s[i].0@] == s[i].1@,
    decreases s.len(),
{
    if i == s.len() - 1 {
    } else {
        assert(s.drop_last()[i] == s[i]);
        lemma_assoc_map_lookup(s.drop_last(), i);
        assert(s[s.len() - 1].0@ != s[i].0@);
    }
}

/// Under unique keys the map has exactly one element per entry.
pub proof fn lemma_assoc_map_len(s: Seq<(String, String)>)
    requires
        unique_keys(s),
    ensures
        assoc_map(s).dom().finite(),
        assoc_map(s).dom().len() == s.len(),
    decreases s.len(),
{
    if s.len() > 0 {
        lemma_assoc_map_len(s.drop_last());
        lemma_assoc_map_contains(s.drop_last(), s.last().0@);
        assert forall|i: int| 0 <= i < s.len() - 1 implies (#[trigger] s.drop_last()[i]).0@
            != s.last().0@ by {
            assert(s.drop_last()[i] == s[i]);
            assert(s[s.len() - 1].0@ != s[i].0@);
        }
        assert(!assoc_map(s.drop_last()).dom().contains(s.last().0@));
        assert(assoc_map(s).dom() =~= assoc_map(s.drop_last()).dom().insert(s.last().0@));
    }
}

/// Replacing the value of the entry that carries a name is, on the map,
/// an insertion under that name.
proof fn lemma_assoc_map_update(s: Seq<(String, String)>, i: int, e: (String, String))
    requires
        unique_keys(s),
        0 <= i < s.len(),
        s[i].0@ == e.0@,
    ensures
        assoc_map(s.update(i, e)) == assoc_map(s).insert(e.0@, e.1@),
        unique_keys(s.update(i, e)),
    decreases s.len(),
{
    let t = s.update(i, e);
    assert forall|p: int, q: int| 0 <= p < q < t.len() implies (#[trigger] t[p]).0@
        != (#[trigger] t[q]).0@ by {
        assert(s[p].0@ != s[q].0@);
    }
    if i == s.len() - 1 {
        assert(t.drop_last() =~= s.drop_last());
        assert(assoc_map(t) =~= assoc_map(s).insert(e.0@, e.1@));
    } else {
        assert(t.drop_last() =~= s.drop_last().update(i, e));
        assert(s.drop_last()[i] == s[i]);
        lemma_assoc_map_update(s.drop_last(), i, e);
        assert(s[s.len() - 1].0@ != e.0@);
        assert(t.last() == s.last());
        assert(assoc_map(t) =~= assoc_map(s).insert(e.0@, e.1@));
    }
}

/// The name-to-address routing table assembled by discovery.
#[derive(Debug)]
pub struct AddressMap {
    entries: Vec<(String, String)>,
}

impl View for AddressMap {
    type V = Map<Seq<char>, Seq<char>>;

    closed spec fn view(&self) -> Map<Seq<char>, Seq<char>> {
        assoc_map(self.entries@)
    }
}

impl AddressMap {
    #[verifier::type_invariant]
    spec fn wf(&self) -> bool {
        unique_keys(self.entries@)
    }

    /// An empty table.
    pub fn new() -> (table: AddressMap)
        ensures
            table@ == Map::<Seq<char>, Seq<char>>::empty(),
    {
        AddressMap { entries: Vec::new() }
    }

    /// Registers `address` under `name`, replacing any earlier address held
    /// under the same name.
    pub fn insert(&mut self, name: String, address: String)
        ensures
            final(self)@ == old(self)@.insert(name@, address@),
    {
        proof {
            use_type_invariant(&*self);
        }
        let mut es: Vec<(String, String)> = Vec::new();
        core::mem::swap(&mut self.entries, &mut es);
        let ghost orig = es@;
        let n = es.len();
        let mut hit: Option<usize> = None;
        let mut i: usize = 0;
        while i < n
            invariant
                n == es@.len(),
                es@ == orig,
                i <= n,
                match hit {
                    Some(h) => h < n && es@[h as int].0@ == name@,
                    None => forall|j: int| 0 <= j < i ==> (#[trigger] es@[j]).0@ != name@,
                },
            decreases n - i,
        {
            if hit.is_none() && es[i].0 == name {
                hit = Some(i);
            }
            i = i + 1;
        }
        match hit {
            Some(h) => {
                proof {
                    lemma_assoc_map_update(orig, h as int, (name, address));
                }
                es.remove(h);
                es.insert(h, (name, address));
                proof {
                    assert(es@ =~= orig.update(h as int, (name, address)));
                }
            },
            None => {
                proof {
                    lemma_assoc_map_contains(orig, name@);
                }
                es.push((name, address));
                proof {
                    assert(es@.drop_last() =~= orig);
                    assert forall|p: int, q: int| 0 <= p < q < es@.len() implies (
                    #[trigger] es@[p]).0@ != (#[trigger] es@[q]).0@ by {
                        if q < es@.len() - 1 {
                            assert(orig[p].0@ != orig[q].0@);
                        } else {
                            assert(es@[p] == orig[p]);
                        }
                    }
                }
            },
        }
        self.entries = es;
    }

    /// The address registered under `name`, if any.
    pub fn get<'a>(&'a self, name: &str) -> (address: Option<&'a String>)
        ensures
            match address {
                Some(a) => self@.contains_key(name@) && a@ == self@[name@],
                None => !self@.contains_key(name@),
            },
    {
        proof {
            use_type_invariant(self);
        }
        let needle: String = name.to_owned();
        let n = self.entries.len();
        for i in 0..n
            invariant
                n == self.entries.len(),
                needle@ == name@,
                unique_keys(self.entries@),
                self@ == assoc_map(self.entries@),
                forall|j: int| 0 <= j < i ==> (#[trigger] self.entries@[j]).0@ != name@,
        {
            if self.entries[i].0 == needle {
                proof {
                    lemma_assoc_map_lookup(self.entries@, i as int);
                }
                return Some(&self.entries[i].1);
            }
        }
        proof {
            lemma_assoc_map_contains(self.entries@, name@);
        }
        None
    }

    /// How many services are registered.
    pub fn len(&self) -> (n: usize)
        ensures
            self@.dom().finite(),
            n == self@.dom().len(),
    {
        proof {
            use_type_invariant(self);
            lemma_assoc_map_len(self.entries@);
        }
        self.entries.len()
    }

    /// The registered (name, address) entries, in insertion order.
    pub fn entries(&self) -> (entries: &Vec<(String, String)>)
        ensures
            assoc_map(entries@) == self@,
            unique_keys(entries@),
    {
        proof {
            use_type_invariant(self);
        }
        &self.entries
    }
}

} // verus!
