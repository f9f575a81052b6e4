//! The set of media players the applet has been allowed to control.
use vstd::prelude::*;

verus! {

/// A set of player names; each name occurs at most once.
#[derive(Debug)]
pub struct PlayerSet {
    names: Vec<String>,
}

impl PlayerSet {
    /// The names held, in the order they were first added.
    pub closed spec fn name_seq(&self) -> Seq<Seq<char>> {
        self.names@.map_values(|s: String| s@)
    }

    #[verifier::type_invariant]
    spec fn no_name_twice(&self) -> bool {
        self.name_seq().no_duplicates()
    }
}

impl View for PlayerSet {
    type V = Set<Seq<char>>;

    closed spec fn view(&self) -> Set<Seq<char>> {
        self.name_seq().to_set()
    }
}

impl PlayerSet {
    /// The empty set.
    pub fn new() -> (set: PlayerSet)
        ensures
            set@ == Set::<Seq<char>>::empty(),
    {
        let set = PlayerSet { names: Vec::new() };
        assert(set@ =~= Set::<Seq<char>>::empty());
        set
    }

    /// Whether `name` is in the set.
    pub fn contains(&self, name: &String) -> (found: bool)
        ensures
            found == self@.contains(name@),
    {
        let n = self.names.len();
        for i in 0..n
            invariant
                n == self.names@.len(),
                forall|j: int| 0 <= j < i ==> self.names@[j]@ != name@,
        {
            if self.names[i] == *name {
                assert(self.name_seq()[i as int] == name@);
                return true;
            }
        }
        assert(!self.name_seq().contains(name@));
        false
    }

    /// Adds `name`; returns whether it was not there before.
    pub fn insert(&mut self, name: String) -> (added: bool)
        ensures
            final(self)@ == old(self)@.insert(name@),
            added == !old(self)@.contains(name@),
    {
        proof {
            use_type_invariant(&*self);
        }
        if self.contains(&name) {
            assert(old(self)@.insert(name@) =~= old(self)@);
            return false;
        }
        let ghost before = self.name_seq();
        let mut names: Vec<String> = Vec::new();
        std::mem::swap(&mut names, &mut self.names);
        names.push(name);
        proof {
            assert(names@.map_values(|s: String| s@) =~= before.push(name@));
            before.lemma_push_to_set_commute(name@);
        }
        self.names = names;
        true
    }

    /// The names held; no name occurs twice and together they are the set.
    pub fn names(&self) -> (names: &Vec<String>)
        ensures
            names@.map_values(|s: String| s@).no_duplicates(),
            names@.map_values(|s: String| s@).to_set() == self@,
    {
        proof {
            use_type_invariant(self);
        }
        &self.names
    }
}

impl Clone for PlayerSet {
    fn clone(&self) -> (copy: Self)
        ensures
            copy@ == self@,
    {
        proof {
            use_type_invariant(self);
        }
        let n = self.names.len();
        let mut names: Vec<String> = Vec::new();
        for i in 0..n
            invariant
                n == self.names@.len(),
                names@.len() == i,
                forall|j: int| 0 <= j < i ==> names@[j]@ == self.names@[j]@,
        {
            names.push(self.names[i].clone());
        }
        assert(names@.map_values(|s: String| s@) =~= self.name_seq());
        PlayerSet { names }
    }
}

} // verus!
