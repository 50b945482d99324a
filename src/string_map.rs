//! The runtime's string-keyed map that generated programs use. Its entries
//! are kept in insertion order, each key at most once.
use vstd::prelude::*;

verus! {

pub struct FormaMap {
    entries: Vec<(String, String)>,
}

/// The map that a list of entries stands for; a later entry wins.
pub open spec fn map_of(s: Seq<(String, String)>) -> Map<Seq<char>, Seq<char>>
    decreases s.len(),
{
    if s.len() == 0 {
        Map::empty()
    } else {
        map_of(s.drop_last()).insert(s.last().0@, s.last().1@)
    }
}

pub open spec fn keys_unique(s: Seq<(String, String)>) -> bool {
    forall|i: int, j: int| 0 <= i < j < s.len() ==> s[i].0@ != s[j].0@
}

proof fn lemma_map_of(s: Seq<(String, String)>)
    requires
        keys_unique(s),
    ensures
        map_of(s).dom().finite(),
        map_of(s).len() == s.len(),
        forall|k: Seq<char>|
            #[trigger] map_of(s).contains_key(k) <==> exists|i: int| 0 <= i < s.len() && s[i].0@ == k,
        forall|i: int| 0 <= i < s.len() ==> #[trigger] map_of(s)[s[i].0@] == s[i].1@,
    decreases s.len(),
{
    if s.len() > 0 {
        let t = s.drop_last();
        let n = s.len() - 1;
        lemma_map_of(t);
        assert(!map_of(t).contains_key(s[n].0@)) by {
            if map_of(t).contains_key(s[n].0@) {
                let i = choose|i: int| 0 <= i < t.len() && t[i].0@ == s[n].0@;
                assert(s[i].0@ != s[n].0@);
            }
        }
        assert forall|k: Seq<char>|
            #[trigger] map_of(s).contains_key(k) <==> exists|i: int| 0 <= i < s.len() && s[i].0@ == k by {
            if map_of(s).contains_key(k) && k != s[n].0@ {
                let i = choose|i: int| 0 <= i < t.len() && t[i].0@ == k;
                assert(s[i].0@ == k);
            }
            if exists|i: int| 0 <= i < s.len() && s[i].0@ == k {
                let i = choose|i: int| 0 <= i < s.len() && s[i].0@ == k;
                if i < n {
                    assert(t[i].0@ == k);
                }
            }
        }
        assert forall|i: int| 0 <= i < s.len() implies #[trigger] map_of(s)[s[i].0@] == s[i].1@ by {
            if i < n {
                assert(t[i] == s[i]);
                assert(s[i].0@ != s[n].0@);
            }
        }
    }
}

impl View for FormaMap {
    type V = Map<Seq<char>, Seq<char>>;

    closed spec fn view(&self) -> Map<Seq<char>, Seq<char>> {
        map_of(self.entries@)
    }
}

impl FormaMap {
    /// Each key is held once.
    #[verifier::type_invariant]
    spec fn wf(&self) -> bool {
        keys_unique(self.entries@)
    }

    /// An empty map.
    pub fn new() -> (r: FormaMap)
        ensures
            r@ == Map::<Seq<char>, Seq<char>>::empty(),
    {
        FormaMap { entries: Vec::new() }
    }

    fn find(&self, key: &String) -> (r: Option<usize>)
        ensures
            match r {
                Some(i) => i < self.entries@.len() && self.entries@[i as int].0@ == key@,
                None => !self@.contains_key(key@),
            },
    {
        proof {
            use_type_invariant(&*self);
        }
        proof {
            lemma_map_of(self.entries@);
        }
        let mut i: usize = 0;
        while i < self.entries.len()
            invariant
                i <= self.entries@.len(),
                forall|k: int| 0 <= k < i ==> #[trigger] self.entries@[k].0@ != key@,
            decreases self.entries@.len() - i,
        {
            if self.entries[i].0 == *key {
                return Some(i);
            }
            i = i + 1;
        }
        None
    }

    /// The number of entries.
    pub fn len(&self) -> (r: usize)
        ensures
            r == self@.len(),
    {
        proof {
            use_type_invariant(&*self);
        }
        proof {
            lemma_map_of(self.entries@);
        }
        self.entries.len()
    }

    /// A copy of the value held for `key`, if any.
    pub fn get(&self, key: &str) -> (r: Option<String>)
        ensures
            match r {
                Some(v) => self@.contains_key(key@) && v@ == self@[key@],
                None => !self@.contains_key(key@),
            },
    {
        proof {
            use_type_invariant(&*self);
        }
        let k = String::from_str(key);
        proof {
            lemma_map_of(self.entries@);
        }
        match self.find(&k) {
            Some(i) => Some(self.entries[i].1.clone()),
            None => None,
        }
    }

    /// Whether `key` is held.
    pub fn contains(&self, key: &str) -> (r: bool)
        ensures
            r == self@.contains_key(key@),
    {
        proof {
            use_type_invariant(&*self);
        }
        let k = String::from_str(key);
        proof {
            lemma_map_of(self.entries@);
        }
        self.find(&k).is_some()
    }

    /// Holds `value` for `key`, in place of any earlier value.
    pub fn set(&mut self, key: &str, value: &str)
        ensures
            final(self)@ == old(self)@.insert(key@, value@),
    {
        proof {
            use_type_invariant(&*self);
        }
        let k = String::from_str(key);
        let v = String::from_str(value);
        let ghost s = self.entries@;
        proof {
            lemma_map_of(s);
        }
        let found = self.find(&k);
        let mut entries: Vec<(String, String)> = Vec::new();
        std::mem::swap(&mut entries, &mut self.entries);
        match found {
            Some(i) => {
                entries.set(i, (k, v));
                let ghost u = entries@;
                assert(keys_unique(u)) by {
                    assert forall|a: int, b: int| 0 <= a < b < u.len() implies u[a].0@ != u[b].0@ by {
                        assert(s[a].0@ != s[b].0@);
                    }
                }
                proof {
                    lemma_map_of(u);
                    assert forall|kk: Seq<char>| #[trigger] map_of(u).contains_key(kk)
                        <==> map_of(s).insert(key@, value@).contains_key(kk) by {
                        if exists|j: int| 0 <= j < s.len() && s[j].0@ == kk {
                            let j = choose|j: int| 0 <= j < s.len() && s[j].0@ == kk;
                            assert(u[j].0@ == kk);
                        }
                        if exists|j: int| 0 <= j < u.len() && u[j].0@ == kk {
                            let j = choose|j: int| 0 <= j < u.len() && u[j].0@ == kk;
                            assert(s[j].0@ == kk);
                        }
                    }
                    assert forall|kk: Seq<char>| #[trigger] map_of(u).contains_key(kk) implies map_of(
                        u,
                    )[kk] == map_of(s).insert(key@, value@)[kk] by {
                        let j = choose|j: int| 0 <= j < u.len() && u[j].0@ == kk;
                        assert(map_of(u)[u[j].0@] == u[j].1@);
                        if j != i as int {
                            assert(map_of(s)[s[j].0@] == s[j].1@);
                        }
                    }
                    assert(map_of(u) =~= map_of(s).insert(key@, value@));
                }
            },
            None => {
                entries.push((k, v));
                let ghost u = entries@;
                assert(u.drop_last() =~= s);
                assert(keys_unique(u)) by {
                    assert forall|a: int, b: int| 0 <= a < b < u.len() implies u[a].0@ != u[b].0@ by {
                        if b == s.len() {
                            assert(map_of(s).contains_key(s[a].0@));
                        }
                    }
                }
            },
        }
        self.entries = entries;
    }

    /// Removes `key`; true when it was held.
    pub fn remove(&mut self, key: &str) -> (r: bool)
        ensures
            r == old(self)@.contains_key(key@),
            final(self)@ == old(self)@.remove(key@),
    {
        proof {
            use_type_invariant(&*self);
        }
        let k = String::from_str(key);
        let ghost s = self.entries@;
        proof {
            lemma_map_of(s);
        }
        let found = self.find(&k);
        let mut entries: Vec<(String, String)> = Vec::new();
        std::mem::swap(&mut entries, &mut self.entries);
        let r = match found {
            Some(i) => {
                entries.remove(i);
                let ghost u = entries@;
                assert(keys_unique(u)) by {
                    assert forall|a: int, b: int| 0 <= a < b < u.len() implies u[a].0@ != u[b].0@ by {
                        if a < i && b < i {
                            assert(s[a].0@ != s[b].0@);
                        } else if a < i {
                            assert(s[a].0@ != s[b + 1].0@);
                        } else {
                            assert(s[a + 1].0@ != s[b + 1].0@);
                        }
                    }
                }
                proof {
                    lemma_map_of(u);
                    assert forall|kk: Seq<char>| #[trigger] map_of(u).contains_key(kk)
                        <==> map_of(s).remove(key@).contains_key(kk) by {
                        if exists|j: int| 0 <= j < s.len() && s[j].0@ == kk {
                            let j = choose|j: int| 0 <= j < s.len() && s[j].0@ == kk;
                            if j < i {
                                assert(u[j].0@ == kk);
                            } else if j > i {
                                assert(u[j - 1].0@ == kk);
                                assert(s[i as int].0@ != s[j].0@);
                            }
                        }
                        if exists|j: int| 0 <= j < u.len() && u[j].0@ == kk {
                            let j = choose|j: int| 0 <= j < u.len() && u[j].0@ == kk;
                            if j < i {
                                assert(s[j].0@ == kk);
                                assert(s[j].0@ != s[i as int].0@);
                            } else {
                                assert(s[j + 1].0@ == kk);
                                assert(s[j + 1].0@ != s[i as int].0@);
                            }
                        }
                    }
                    assert forall|kk: Seq<char>| #[trigger] map_of(u).contains_key(kk) implies map_of(
                        u,
                    )[kk] == map_of(s).remove(key@)[kk] by {
                        let j = choose|j: int| 0 <= j < u.len() && u[j].0@ == kk;
                        assert(map_of(u)[u[j].0@] == u[j].1@);
                        if j < i {
                            assert(map_of(s)[s[j].0@] == s[j].1@);
                        } else {
                            assert(map_of(s)[s[j + 1].0@] == s[j + 1].1@);
                        }
                    }
                    assert(map_of(u) =~= map_of(s).remove(key@));
                }
                true
            },
            None => {
                assert(map_of(s) =~= map_of(s).remove(key@));
                false
            },
        };
        self.entries = entries;
        r
    }
}

} // verus!
