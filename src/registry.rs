use vstd::prelude::*;

verus! {

/// The command registry: for each command name, the Lua source of a chunk that
/// returns the command's table. Each name appears once.
pub struct Registry {
    entries: Vec<(String, String)>,
    index: Ghost<Map<Seq<char>, Seq<char>>>,
}

impl View for Registry {
    type V = Map<Seq<char>, Seq<char>>;

    closed spec fn view(&self) -> Map<Seq<char>, Seq<char>> {
        self.index@
    }
}

impl Registry {
    /// Each name appears once, and the map of names to sources is the entries'.
    pub closed spec fn wf(&self) -> bool {
        &&& forall|i: int, j: int|
            0 <= i < j < self.entries@.len() ==> #[trigger] self.entries@[i].0@
                != #[trigger] self.entries@[j].0@
        &&& forall|i: int|
            0 <= i < self.entries@.len() ==> self.index@.contains_key(#[trigger] self.entries@[i].0@)
                && self.index@[self.entries@[i].0@] == self.entries@[i].1@
        &&& forall|k: Seq<char>|
            #[trigger] self.index@.contains_key(k) ==> exists|i: int|
                0 <= i < self.entries@.len() && #[trigger] self.entries@[i].0@ == k
    }

    /// An empty registry.
    pub fn new() -> (r: Registry)
        ensures
            r.wf(),
            r@ == Map::<Seq<char>, Seq<char>>::empty(),
    {
        Registry { entries: Vec::new(), index: Ghost(Map::empty()) }
    }

    /// Where `key` stands among the entries, if it does.
    fn position(&self, key: &String) -> (r: Option<usize>)
        ensures
            match r {
                Some(i) => i < self.entries@.len() && self.entries@[i as int].0@ == key@,
                None => forall|i: int|
                    0 <= i < self.entries@.len() ==> #[trigger] self.entries@[i].0@ != key@,
            },
    {
        let mut i: usize = 0;
        while i < self.entries.len()
            invariant
                i <= self.entries@.len(),
                forall|j: int| 0 <= j < i ==> #[trigger] self.entries@[j].0@ != key@,
            decreases self.entries@.len() - i,
        {
            if self.entries[i].0 == *key {
                return Some(i);
            }
            i = i + 1;
        }
        None
    }

    /// Registers `source` under `name`, replacing what was registered there.
    pub fn insert(&mut self, name: &str, source: &str)
        requires
            old(self).wf(),
        ensures
            final(self).wf(),
            final(self)@ == old(self)@.insert(name@, source@),
    {
        let key = name.to_string();
        let text = source.to_string();
        let ghost old_entries = self.entries@;
        let ghost new_index = self.index@.insert(name@, source@);
        let found = self.position(&key);
        self.index = Ghost(new_index);
        match found {
            Some(i) => {
                self.entries.set(i, (key, text));
                proof {
                    assert forall|j: int| 0 <= j < self.entries@.len() && j != i implies
                        #[trigger] self.entries@[j] == old_entries[j] by {}
                    assert forall|j: int| 0 <= j < self.entries@.len() implies
                        #[trigger] self.entries@[j].0@ == old_entries[j].0@ by {}
                    assert forall|j: int| 0 <= j < self.entries@.len() implies
                        new_index.contains_key(#[trigger] self.entries@[j].0@)
                            && new_index[self.entries@[j].0@] == self.entries@[j].1@ by {
                        if j != i {
                            assert(old_entries[j].0@ != old_entries[i as int].0@);
                        }
                    }
                    assert forall|k: Seq<char>| #[trigger] new_index.contains_key(k) implies exists|j: int|
                        0 <= j < self.entries@.len() && #[trigger] self.entries@[j].0@ == k by {
                        if k != name@ {
                            let j = choose|j: int| 0 <= j < old_entries.len() && #[trigger] old_entries[j].0@ == k;
                            assert(self.entries@[j].0@ == k);
                        } else {
                            assert(self.entries@[i as int].0@ == k);
                        }
                    }
                }
            },
            None => {
                self.entries.push((key, text));
                proof {
                    let last = old_entries.len() as int;
                    assert forall|j: int| 0 <= j < old_entries.len() implies
                        #[trigger] self.entries@[j] == old_entries[j] by {}
                    assert forall|j: int| 0 <= j < self.entries@.len() implies
                        new_index.contains_key(#[trigger] self.entries@[j].0@)
                            && new_index[self.entries@[j].0@] == self.entries@[j].1@ by {
                        if j != last {
                            assert(self.entries@[j] == old_entries[j]);
                        }
                    }
                    assert forall|a: int, b: int| 0 <= a < b < self.entries@.len() implies
                        #[trigger] self.entries@[a].0@ != #[trigger] self.entries@[b].0@ by {
                        assert(self.entries@[a] == old_entries[a]);
                        if b != last {
                            assert(self.entries@[b] == old_entries[b]);
                        }
                    }
                    assert forall|k: Seq<char>| #[trigger] new_index.contains_key(k) implies exists|j: int|
                        0 <= j < self.entries@.len() && #[trigger] self.entries@[j].0@ == k by {
                        if k != name@ {
                            let j = choose|j: int| 0 <= j < old_entries.len() && #[trigger] old_entries[j].0@ == k;
                            assert(self.entries@[j].0@ == k);
                        } else {
                            assert(self.entries@[last].0@ == k);
                        }
                    }
                }
            },
        }
    }

    /// The source registered under `name`, if any.
    pub fn lookup(&self, name: &str) -> (r: Option<&str>)
        requires
            self.wf(),
        ensures
            r is Some <==> self@.contains_key(name@),
            r is Some ==> r->0@ == self@[name@],
    {
        let key = name.to_string();
        match self.position(&key) {
            Some(i) => Some(self.entries[i].1.as_str()),
            None => {
                proof {
                    if self.index@.contains_key(name@) {
                        let j = choose|j: int|
                            0 <= j < self.entries@.len() && #[trigger] self.entries@[j].0@ == name@;
                        assert(self.entries@[j].0@ != key@);
                    }
                }
                None
            },
        }
    }
}

} // verus!
