//! A key-value store keyed by byte strings: the contract's persistent state.
//! A key that was never set reads as the empty byte string.

use vstd::prelude::*;

verus! {

/// The bytes held at `key` in `m`, empty where nothing is held.
pub open spec fn stored(m: Map<Seq<u8>, Seq<u8>>, key: Seq<u8>) -> Seq<u8> {
    if m.contains_key(key) {
        m[key]
    } else {
        Seq::empty()
    }
}

pub struct Store {
    entries: Vec<(Vec<u8>, Vec<u8>)>,
    contents: Ghost<Map<Seq<u8>, Seq<u8>>>,
}

impl View for Store {
    type V = Map<Seq<u8>, Seq<u8>>;

    closed spec fn view(&self) -> Map<Seq<u8>, Seq<u8>> {
        self.contents@
    }
}

/// Whether two byte strings are equal.
pub fn bytes_eq(a: &Vec<u8>, b: &Vec<u8>) -> (r: bool)
    ensures
        r == (a@ == b@),
{
    if a.len() != b.len() {
        return false;
    }
    let mut i: usize = 0;
    while i < a.len()
        invariant
            a@.len() == b@.len(),
            i <= a@.len(),
            forall|j: int| 0 <= j < i ==> a@[j] == b@[j],
        decreases a@.len() - i,
    {
        if a[i] != b[i] {
            return false;
        }
        i = i + 1;
    }
    assert(a@ =~= b@);
    true
}

impl Store {
    /// Keys are unique, and each entry is what the view holds at its key.
    pub closed spec fn wf(&self) -> bool {
        &&& forall|i: int, j: int|
            0 <= i < j < self.entries@.len() ==> self.entries@[i].0@ != self.entries@[j].0@
        &&& forall|i: int|
            0 <= i < self.entries@.len() ==> #[trigger] self.contents@.contains_key(
                self.entries@[i].0@,
            ) && self.contents@[self.entries@[i].0@] == self.entries@[i].1@
        &&& forall|k: Seq<u8>|
            #[trigger] self.contents@.contains_key(k) ==> exists|i: int|
                0 <= i < self.entries@.len() && self.entries@[i].0@ == k
    }

    /// An empty store.
    pub fn new() -> (r: Store)
        ensures
            r.wf(),
            r@ == Map::<Seq<u8>, Seq<u8>>::empty(),
    {
        Store { entries: Vec::new(), contents: Ghost(Map::empty()) }
    }

    /// Position of `key` among the entries, if it is there.
    fn find(&self, key: &Vec<u8>) -> (r: Option<usize>)
        requires
            self.wf(),
        ensures
            match r {
                Some(i) => i < self.entries@.len() && self.entries@[i as int].0@ == key@,
                None => !self@.contains_key(key@),
            },
    {
        let mut i: usize = 0;
        while i < self.entries.len()
            invariant
                self.wf(),
                i <= self.entries@.len(),
                forall|j: int| 0 <= j < i ==> self.entries@[j].0@ != key@,
            decreases self.entries@.len() - i,
        {
            if bytes_eq(&self.entries[i].0, key) {
                return Some(i);
            }
            i = i + 1;
        }
        None
    }

    /// The bytes held at `key`, empty where nothing is held.
    pub fn get(&self, key: &Vec<u8>) -> (r: Vec<u8>)
        requires
            self.wf(),
        ensures
            r@ == stored(self@, key@),
    {
        match self.find(key) {
            Some(i) => {
                let v = self.entries[i].1.clone();
                assert(v@ =~= self.entries@[i as int].1@);
                v
            },
            None => Vec::new(),
        }
    }

    /// Holds `value` at `key`, in place of what was there.
    pub fn set(&mut self, key: Vec<u8>, value: Vec<u8>)
        requires
            old(self).wf(),
        ensures
            final(self).wf(),
            final(self)@ == old(self)@.insert(key@, value@),
    {
        let ghost k = key@;
        let ghost v = value@;
        let ghost mut at: int = 0;
        match self.find(&key) {
            Some(i) => {
                self.entries.set(i, (key, value));
                proof {
                    at = i as int;
                }
            },
            None => {
                self.entries.push((key, value));
                proof {
                    at = self.entries@.len() - 1;
                }
            },
        }
        self.contents = Ghost(self.contents@.insert(k, v));
        assert forall|k2: Seq<u8>| #[trigger] self.contents@.contains_key(k2) implies exists|i: int|
            0 <= i < self.entries@.len() && self.entries@[i].0@ == k2 by {
            if k2 == k {
                assert(self.entries@[at].0@ == k2);
            } else {
                let i = choose|i: int| 0 <= i < old(self).entries@.len() && old(self).entries@[i].0@ == k2;
                assert(self.entries@[i].0@ == k2);
            }
        }
    }
}

} // verus!
