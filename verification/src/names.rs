//! A set of names.

use vstd::prelude::*;
use vstd::string::StringExecFns;

verus! {

/// A finite set of texts. Each text is held once.
#[derive(Debug)]
pub struct NameSet {
    names: Vec<String>,
}

impl NameSet {
    /// The texts in the order in which they came.
    pub closed spec fn listed(&self) -> Seq<Seq<char>> {
        crate::strings::texts(self.names@)
    }

    #[verifier::type_invariant]
    closed spec fn held_once(&self) -> bool {
        self.listed().no_duplicates()
    }
}

impl View for NameSet {
    type V = Set<Seq<char>>;

    closed spec fn view(&self) -> Set<Seq<char>> {
        self.listed().to_set()
    }
}

impl NameSet {
    /// The empty set.
    pub fn new() -> (set: NameSet)
        ensures
            set@ == Set::<Seq<char>>::empty(),
    {
        let set = NameSet { names: Vec::new() };
        assert(set.listed() =~= Seq::empty());
        assert(set.listed().to_set() =~= Set::empty());
        set
    }

    /// Whether `name` is in the set.
    pub fn contains(&self, name: &str) -> (b: bool)
        ensures
            b == self@.contains(name@),
    {
        let key = String::from_str(name);
        let mut i: usize = 0;
        while i < self.names.len()
            invariant
                i <= self.names.len(),
                key@ == name@,
                forall|j: int| 0 <= j < i ==> self.listed()[j] != name@,
            decreases self.names.len() - i,
        {
            if self.names[i] == key {
                assert(self.listed()[i as int] == name@);
                return true;
            }
            i = i + 1;
        }
        false
    }

    /// Puts `name` into the set. Says whether it was not there before.
    pub fn insert(&mut self, name: String) -> (fresh: bool)
        ensures
            final(self)@ == old(self)@.insert(name@),
            fresh == !old(self)@.contains(name@),
    {
        proof {
            use_type_invariant(&*self);
        }
        if self.contains(name.as_str()) {
            assert(self@.insert(name@) =~= self@);
            false
        } else {
            let ghost before = self.listed();
            let mut names: Vec<String> = Vec::new();
            assert(crate::strings::texts(names@) =~= Seq::empty());
            std::mem::swap(&mut self.names, &mut names);
            proof {
                crate::strings::lemma_texts_push(names@, name);
                before.lemma_push_to_set_commute(name@);
                assert(before.push(name@).no_duplicates());
            }
            names.push(name);
            std::mem::swap(&mut self.names, &mut names);
            true
        }
    }

    /// The number of names in the set.
    pub fn len(&self) -> (n: usize)
        ensures
            self@.finite(),
            n == self@.len(),
    {
        proof {
            use_type_invariant(self);
            self.listed().unique_seq_to_set();
        }
        self.names.len()
    }

    /// Whether the set is empty.
    pub fn is_empty(&self) -> (b: bool)
        ensures
            b == (self@.len() == 0),
            self@.finite(),
    {
        self.len() == 0
    }

    /// The names, each once, in the order in which they came.
    pub fn to_vec(&self) -> (names: Vec<String>)
        ensures
            crate::strings::texts(names@).to_set() == self@,
            crate::strings::texts(names@).no_duplicates(),
    {
        proof {
            use_type_invariant(self);
        }
        crate::strings::copy_all(&self.names)
    }
}

} // verus!
