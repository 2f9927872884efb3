use vstd::prelude::*;

verus! {

/// A finite map from string keys to values, stored as two parallel vectors.
/// Its model is a `Map` from each key's characters to its value's view;
/// a key occurs at most once.
pub struct Table<V: View> {
    keys: Vec<String>,
    vals: Vec<V>,
    model: Ghost<Map<Seq<char>, V::V>>,
}

impl<V: View> View for Table<V> {
    type V = Map<Seq<char>, V::V>;

    closed spec fn view(&self) -> Map<Seq<char>, V::V> {
        self.model@
    }
}

impl<V: View> Table<V> {
    pub closed spec fn wf(&self) -> bool {
        &&& self.keys@.len() == self.vals@.len()
        &&& forall|i: int, j: int|
            0 <= i < j < self.keys@.len() ==> #[trigger] self.keys@[i]@ != #[trigger] self.keys@[j]@
        &&& forall|i: int|
            0 <= i < self.keys@.len() ==> {
                &&& self.model@.contains_key(#[trigger] self.keys@[i]@)
                &&& self.model@[self.keys@[i]@] == self.vals@[i]@
            }
        &&& forall|k: Seq<char>|
            #[trigger] self.model@.contains_key(k) ==> exists|i: int|
                0 <= i < self.keys@.len() && #[trigger] self.keys@[i]@ == k
    }

    pub fn new() -> (r: Self)
        ensures
            r.wf(),
            r@ == Map::<Seq<char>, V::V>::empty(),
    {
        Table { keys: Vec::new(), vals: Vec::new(), model: Ghost(Map::empty()) }
    }

    /// Position of `key`, if present.
    fn position(&self, key: &String) -> (r: Option<usize>)
        requires
            self.wf(),
        ensures
            match r {
                Some(i) => i < self.keys@.len() && self.keys@[i as int]@ == key@,
                None => !self@.contains_key(key@),
            },
    {
        let mut i: usize = 0;
        while i < self.keys.len()
            invariant
                self.wf(),
                i <= self.keys@.len(),
                forall|j: int| 0 <= j < i ==> self.keys@[j]@ != key@,
            decreases self.keys@.len() - i,
        {
            if self.keys[i] == *key {
                return Some(i);
            }
            i = i + 1;
        }
        None
    }

    pub fn contains_key(&self, key: &String) -> (r: bool)
        requires
            self.wf(),
        ensures
            r == self@.contains_key(key@),
    {
        match self.position(key) {
            Some(_) => true,
            None => false,
        }
    }

    /// Adds `key` with `val`; the key must be absent.
    pub fn insert_new(&mut self, key: String, val: V)
        requires
            old(self).wf(),
            !old(self)@.contains_key(key@),
        ensures
            final(self).wf(),
            final(self)@ == old(self)@.insert(key@, val@),
    {
        let ghost k = key@;
        let ghost v = val@;
        self.keys.push(key);
        self.vals.push(val);
        self.model = Ghost(self.model@.insert(k, v));
        proof {
            let n = self.keys@.len() - 1;
            assert(self.keys@[n]@ == k);
            assert forall|q: Seq<char>| #[trigger] self.model@.contains_key(q) implies exists|i: int|
                0 <= i < self.keys@.len() && #[trigger] self.keys@[i]@ == q by {
                if q == k {
                    assert(self.keys@[n]@ == q);
                } else {
                    assert(old(self).model@.contains_key(q));
                    let i = choose|i: int| 0 <= i < old(self).keys@.len() && #[trigger] old(self).keys@[i]@ == q;
                    assert(self.keys@[i]@ == q);
                }
            }
        }
    }

    /// Replaces the value of the present `key` by `val` and returns the old one.
    pub fn replace(&mut self, key: &String, val: V) -> (r: V)
        requires
            old(self).wf(),
            old(self)@.contains_key(key@),
        ensures
            final(self).wf(),
            r@ == old(self)@[key@],
            final(self)@ == old(self)@.insert(key@, val@),
    {
        let i = match self.position(key) {
            Some(i) => i,
            None => {
                proof { assert(false); }
                0
            },
        };
        let ghost v = val@;
        let mut r = val;
        std::mem::swap(&mut self.vals[i], &mut r);
        self.model = Ghost(self.model@.insert(key@, v));
        proof {
            assert forall|q: Seq<char>| #[trigger] self.model@.contains_key(q) implies exists|j: int|
                0 <= j < self.keys@.len() && #[trigger] self.keys@[j]@ == q by {
                if q == key@ {
                    assert(self.keys@[i as int]@ == q);
                } else {
                    assert(old(self).model@.contains_key(q));
                }
            }
        }
        r
    }

    /// Removes `key`, returning its value if it was present.
    pub fn remove(&mut self, key: &String) -> (r: Option<V>)
        requires
            old(self).wf(),
        ensures
            final(self).wf(),
            final(self)@ == old(self)@.remove(key@),
            match r {
                Some(v) => old(self)@.contains_key(key@) && v@ == old(self)@[key@],
                None => !old(self)@.contains_key(key@),
            },
    {
        match self.position(key) {
            None => {
                assert(self.model@.remove(key@) =~= self.model@);
                None
            },
            Some(i) => {
                let ghost ok = self.keys@;
                let ghost ov = self.vals@;
                let ghost last = (ok.len() - 1) as int;
                let _k = self.keys.swap_remove(i);
                let v = self.vals.swap_remove(i);
                self.model = Ghost(self.model@.remove(key@));
                proof {
                    assert forall|a: int| 0 <= a < self.keys@.len() implies
                        #[trigger] self.keys@[a] == (if a == i { ok[last] } else { ok[a] })
                        && self.vals@[a] == (if a == i { ov[last] } else { ov[a] }) by {}
                    assert forall|a: int, b: int|
                        0 <= a < b < self.keys@.len() implies #[trigger] self.keys@[a]@
                            != #[trigger] self.keys@[b]@ by {
                        let oa = if a == i { last } else { a };
                        let ob = if b == i { last } else { b };
                        assert(ok[oa]@ != ok[ob]@ || oa == ob);
                    }
                    assert forall|a: int| 0 <= a < self.keys@.len() implies {
                        &&& self.model@.contains_key(#[trigger] self.keys@[a]@)
                        &&& self.model@[self.keys@[a]@] == self.vals@[a]@
                    } by {
                        let oa = if a == i { last } else { a };
                        assert(self.keys@[a] == ok[oa]);
                        assert(ok[oa]@ != ok[i as int]@);
                    }
                    assert forall|q: Seq<char>| #[trigger] self.model@.contains_key(q) implies exists|j: int|
                        0 <= j < self.keys@.len() && #[trigger] self.keys@[j]@ == q by {
                        assert(old(self).model@.contains_key(q));
                        let j = choose|j: int| 0 <= j < ok.len() && #[trigger] ok[j]@ == q;
                        assert(j != i);
                        if j == last {
                            assert(self.keys@[i as int]@ == q);
                        } else {
                            assert(self.keys@[j]@ == q);
                        }
                    }
                }
                Some(v)
            },
        }
    }
}

} // verus!
