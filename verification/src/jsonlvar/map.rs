//! The map from entry names to values that lines accumulate into.

use crate::jsonlvar::value::Value;
use vstd::prelude::*;
use vstd::string::StringExecFns;

verus! {

/// One named value.
#[derive(Debug)]
pub struct Entry {
    pub name: String,
    pub value: Value,
}

/// A finite map from names to values. A later value for a name replaces the
/// earlier one; nothing is ever removed.
#[derive(Debug)]
pub struct LineMap {
    entries: Vec<Entry>,
}

/// The map that a sequence of named values stands for, later pairs winning.
pub open spec fn pairs_map(s: Seq<(Seq<char>, crate::jsonlvar::value::ValueView)>) -> Map<
    Seq<char>,
    crate::jsonlvar::value::ValueView,
>
    decreases s.len(),
{
    if s.len() == 0 {
        Map::empty()
    } else {
        pairs_map(s.drop_last()).insert(s.last().0, s.last().1)
    }
}

/// No name occurs twice.
pub open spec fn distinct_names(s: Seq<(Seq<char>, crate::jsonlvar::value::ValueView)>) -> bool {
    forall|i: int, j: int| 0 <= i < j < s.len() ==> (#[trigger] s[i]).0 != (#[trigger] s[j]).0
}

pub proof fn lemma_pairs_map_keys(s: Seq<(Seq<char>, crate::jsonlvar::value::ValueView)>, k: Seq<char>)
    ensures
        pairs_map(s).contains_key(k) <==> exists|i: int| 0 <= i < s.len() && (#[trigger] s[i]).0 == k,
    decreases s.len(),
{
    if s.len() > 0 {
        let t = s.drop_last();
        lemma_pairs_map_keys(t, k);
        if pairs_map(s).contains_key(k) {
            if s.last().0 == k {
                assert(s[s.len() - 1].0 == k);
            } else {
                let i = choose|i: int| 0 <= i < t.len() && (#[trigger] t[i]).0 == k;
                assert(s[i].0 == k);
            }
        }
        if exists|i: int| 0 <= i < s.len() && (#[trigger] s[i]).0 == k {
            let i = choose|i: int| 0 <= i < s.len() && (#[trigger] s[i]).0 == k;
            if i < s.len() - 1 {
                assert(t[i].0 == k);
            }
        }
    }
}

pub proof fn lemma_pairs_map_value(s: Seq<(Seq<char>, crate::jsonlvar::value::ValueView)>, i: int)
    requires
        distinct_names(s),
        0 <= i < s.len(),
    ensures
        pairs_map(s).contains_key(s[i].0),
        pairs_map(s)[s[i].0] == s[i].1,
    decreases s.len(),
{
    if i < s.len() - 1 {
        let t = s.drop_last();
        assert(distinct_names(t)) by {
            assert forall|a: int, b: int| 0 <= a < b < t.len() implies (#[trigger] t[a]).0 != (
            #[trigger] t[b]).0 by {
                assert(s[a].0 != s[b].0);
            }
        }
        lemma_pairs_map_value(t, i);
        assert(t[i] == s[i]);
        assert(s[i].0 != s[s.len() - 1].0);
    }
}

pub proof fn lemma_pairs_map_update(
    s: Seq<(Seq<char>, crate::jsonlvar::value::ValueView)>,
    i: int,
    v: crate::jsonlvar::value::ValueView,
)
    requires
        distinct_names(s),
        0 <= i < s.len(),
    ensures
        distinct_names(s.update(i, (s[i].0, v))),
        pairs_map(s.update(i, (s[i].0, v))) == pairs_map(s).insert(s[i].0, v),
    decreases s.len(),
{
    let u = s.update(i, (s[i].0, v));
    assert(distinct_names(u)) by {
        assert forall|a: int, b: int| 0 <= a < b < u.len() implies (#[trigger] u[a]).0 != (
        #[trigger] u[b]).0 by {
            assert(s[a].0 != s[b].0);
        }
    }
    let t = s.drop_last();
    if i == s.len() - 1 {
        assert(u.drop_last() =~= t);
        assert(pairs_map(u) =~= pairs_map(s).insert(s[i].0, v));
    } else {
        assert(distinct_names(t)) by {
            assert forall|a: int, b: int| 0 <= a < b < t.len() implies (#[trigger] t[a]).0 != (
            #[trigger] t[b]).0 by {
                assert(s[a].0 != s[b].0);
            }
        }
        lemma_pairs_map_update(t, i, v);
        assert(t[i] == s[i]);
        assert(u.drop_last() =~= t.update(i, (s[i].0, v)));
        assert(u.last() == s.last());
        assert(s[i].0 != s[s.len() - 1].0);
        assert(pairs_map(u) =~= pairs_map(s).insert(s[i].0, v));
    }
}

pub proof fn lemma_pairs_map_len(s: Seq<(Seq<char>, crate::jsonlvar::value::ValueView)>)
    requires
        distinct_names(s),
    ensures
        pairs_map(s).dom().finite(),
        pairs_map(s).dom().len() == s.len(),
    decreases s.len(),
{
    if s.len() > 0 {
        let t = s.drop_last();
        assert(distinct_names(t)) by {
            assert forall|a: int, b: int| 0 <= a < b < t.len() implies (#[trigger] t[a]).0 != (
            #[trigger] t[b]).0 by {
                assert(s[a].0 != s[b].0);
            }
        }
        lemma_pairs_map_len(t);
        lemma_pairs_map_keys(t, s.last().0);
        if pairs_map(t).contains_key(s.last().0) {
            let i = choose|i: int| 0 <= i < t.len() && (#[trigger] t[i]).0 == s.last().0;
            assert(s[i].0 == s[s.len() - 1].0);
        }
        assert(pairs_map(s).dom() =~= pairs_map(t).dom().insert(s.last().0));
    }
}

impl LineMap {
    /// The names and values held, in the order in which the names came.
    pub closed spec fn pairs(&self) -> Seq<(Seq<char>, crate::jsonlvar::value::ValueView)> {
        self.entries@.map_values(|e: Entry| (e.name@, e.value@))
    }

    #[verifier::type_invariant]
    spec fn well_formed(&self) -> bool {
        distinct_names(self.pairs())
    }
}

impl View for LineMap {
    type V = Map<Seq<char>, crate::jsonlvar::value::ValueView>;

    closed spec fn view(&self) -> Map<Seq<char>, crate::jsonlvar::value::ValueView> {
        pairs_map(self.pairs())
    }
}

impl LineMap {
    /// The empty map.
    pub fn new() -> (m: LineMap)
        ensures
            m@ == Map::<Seq<char>, crate::jsonlvar::value::ValueView>::empty(),
    {
        let m = LineMap { entries: Vec::new() };
        assert(m.pairs() =~= Seq::empty());
        m
    }

    /// The place of `name` among the entries.
    fn position(&self, name: &String) -> (at: Option<usize>)
        ensures
            match at {
                Some(i) => i < self.entries.len() && self.entries[i as int].name@ == name@,
                None => !self@.contains_key(name@),
            },
    {
        let mut i: usize = 0;
        while i < self.entries.len()
            invariant
                i <= self.entries.len(),
                forall|j: int| 0 <= j < i ==> self.entries[j].name@ != name@,
            decreases self.entries.len() - i,
        {
            if self.entries[i].name == *name {
                return Some(i);
            }
            i = i + 1;
        }
        proof {
            lemma_pairs_map_keys(self.pairs(), name@);
            if self@.contains_key(name@) {
                let j = choose|j: int|
                    0 <= j < self.pairs().len() && (#[trigger] self.pairs()[j]).0 == name@;
                assert(self.entries[j].name@ == name@);
            }
        }
        None
    }

    /// Sets the value of `name`, replacing the value it had.
    pub fn insert(&mut self, name: String, value: Value)
        ensures
            final(self)@ == old(self)@.insert(name@, value@),
    {
        proof {
            use_type_invariant(&*self);
        }
        let ghost before = self.pairs();
        let at = self.position(&name);
        let ghost pair = (name@, value@);
        let mut entries: Vec<Entry> = Vec::new();
        assert(entries@.map_values(|e: Entry| (e.name@, e.value@)) =~= Seq::empty());
        std::mem::swap(&mut self.entries, &mut entries);
        match at {
            Some(i) => {
                entries[i].value = value;
                proof {
                    lemma_pairs_map_update(before, i as int, pair.1);
                    assert(entries@.map_values(|e: Entry| (e.name@, e.value@)) =~= before.update(
                        i as int,
                        pair,
                    ));
                }
            },
            None => {
                entries.push(Entry { name, value });
                proof {
                    lemma_pairs_map_keys(before, pair.0);
                    let after = entries@.map_values(|e: Entry| (e.name@, e.value@));
                    assert(after =~= before.push(pair));
                    assert(after.drop_last() =~= before);
                    assert forall|a: int, b: int| 0 <= a < b < after.len() implies (
                    #[trigger] after[a]).0 != (#[trigger] after[b]).0 by {
                        if b < before.len() {
                            assert(before[a].0 != before[b].0);
                        } else {
                            assert(before[a].0 != pair.0);
                        }
                    }
                }
            },
        }
        std::mem::swap(&mut self.entries, &mut entries);
    }

    /// The value of `name`, if there is one.
    pub fn get(&self, name: &str) -> (found: Option<&Value>)
        ensures
            match found {
                Some(v) => self@.contains_key(name@) && self@[name@] == v@,
                None => !self@.contains_key(name@),
            },
    {
        proof {
            use_type_invariant(self);
        }
        let key = String::from_str(name);
        match self.position(&key) {
            Some(i) => {
                proof {
                    lemma_pairs_map_value(self.pairs(), i as int);
                }
                Some(&self.entries[i].value)
            },
            None => None,
        }
    }

    /// Whether `name` has a value.
    pub fn contains_key(&self, name: &str) -> (b: bool)
        ensures
            b == self@.contains_key(name@),
    {
        self.get(name).is_some()
    }

    /// The number of names that have a value.
    pub fn len(&self) -> (n: usize)
        ensures
            self@.dom().finite(),
            n == self@.dom().len(),
    {
        proof {
            use_type_invariant(self);
            lemma_pairs_map_len(self.pairs());
        }
        self.entries.len()
    }

    /// Whether no name has a value.
    pub fn is_empty(&self) -> (b: bool)
        ensures
            b == (self@ == Map::<Seq<char>, crate::jsonlvar::value::ValueView>::empty()),
    {
        proof {
            use_type_invariant(self);
            lemma_pairs_map_len(self.pairs());
            if self.entries.len() == 0 {
                assert(self.pairs() =~= Seq::empty());
            } else {
                assert(self@.dom().len() > 0);
                assert(Map::<Seq<char>, crate::jsonlvar::value::ValueView>::empty().dom().len() == 0);
            }
        }
        self.entries.len() == 0
    }
}

} // verus!
