use vstd::prelude::*;

verus! {

broadcast use vstd::seq::group_seq_axioms;

/// The map that a list of bindings stands for: a later binding of a name
/// hides every earlier one.
pub open spec fn map_of<V: View>(s: Seq<(Vec<u8>, V)>) -> Map<Seq<u8>, V::V>
    decreases s.len(),
{
    if s.len() == 0 {
        Map::empty()
    } else {
        map_of(s.drop_last()).insert(s.last().0@, s.last().1@)
    }
}

/// Past index `n` no binding names `k`: the map agrees on `k` with the
/// bindings before `n`.
proof fn lemma_map_of_prefix<V: View>(s: Seq<(Vec<u8>, V)>, n: int, k: Seq<u8>)
    requires
        0 <= n <= s.len(),
        forall|j: int| n <= j < s.len() ==> (#[trigger] s[j]).0@ != k,
    ensures
        map_of(s).contains_key(k) == map_of(s.take(n)).contains_key(k),
        map_of(s).contains_key(k) ==> map_of(s)[k] == map_of(s.take(n))[k],
    decreases s.len(),
{
    if s.len() > n {
        let t = s.drop_last();
        assert(t.take(n) =~= s.take(n));
        assert forall|j: int| n <= j < t.len() implies (#[trigger] t[j]).0@ != k by {
            assert(t[j] == s[j]);
        }
        lemma_map_of_prefix(t, n, k);
    } else {
        assert(s.take(n) =~= s);
    }
}

/// Replacing the last binding of `k` is inserting into the map.
proof fn lemma_map_of_update<V: View>(s: Seq<(Vec<u8>, V)>, i: int, e: (Vec<u8>, V))
    requires
        0 <= i < s.len(),
        s[i].0@ == e.0@,
        forall|j: int| i < j < s.len() ==> (#[trigger] s[j]).0@ != e.0@,
    ensures
        map_of(s.update(i, e)) =~= map_of(s).insert(e.0@, e.1@),
    decreases s.len(),
{
    let u = s.update(i, e);
    if i == s.len() - 1 {
        assert(u.drop_last() =~= s.drop_last());
    } else {
        let t = s.drop_last();
        assert(u.drop_last() =~= t.update(i, e));
        assert forall|j: int| i < j < t.len() implies (#[trigger] t[j]).0@ != e.0@ by {
            assert(t[j] == s[j]);
        }
        lemma_map_of_update(t, i, e);
    }
}

/// Whether two byte strings are equal.
pub fn same_bytes(a: &Vec<u8>, b: &Vec<u8>) -> (r: bool)
    ensures
        r == (a@ == b@),
{
    if a.len() != b.len() {
        return false;
    }
    let mut i: usize = 0;
    while i < a.len()
        invariant
            i <= a.len(),
            a@.len() == b@.len(),
            forall|j: int| 0 <= j < i ==> a@[j] == b@[j],
        decreases a.len() - i,
    {
        if a[i] != b[i] {
            return false;
        }
        i += 1;
    }
    assert(a@ =~= b@);
    true
}

/// Bindings from names to values: a frame of variables, or the table of
/// functions.
pub struct Table<V> {
    entries: Vec<(Vec<u8>, V)>,
}

impl<V: View> View for Table<V> {
    type V = Map<Seq<u8>, V::V>;

    closed spec fn view(&self) -> Map<Seq<u8>, V::V> {
        map_of(self.entries@)
    }
}

impl<V: View> Table<V> {
    /// A table with no bindings.
    pub fn new() -> (t: Table<V>)
        ensures
            t@ == Map::<Seq<u8>, V::V>::empty(),
    {
        Table { entries: Vec::new() }
    }

    /// Index of the last binding of `key`, if any.
    fn find(&self, key: &Vec<u8>) -> (r: Option<usize>)
        ensures
            match r {
                Some(i) => i < self.entries@.len() && self.entries@[i as int].0@ == key@ && (
                forall|j: int|
                    i < j < self.entries@.len() ==> (#[trigger] self.entries@[j]).0@ != key@),
                None => forall|j: int|
                    0 <= j < self.entries@.len() ==> (#[trigger] self.entries@[j]).0@ != key@,
            },
    {
        let mut i: usize = self.entries.len();
        while i > 0
            invariant
                i <= self.entries@.len(),
                forall|j: int| i <= j < self.entries@.len() ==> (#[trigger] self.entries@[j]).0@ != key@,
            decreases i,
        {
            i -= 1;
            if same_bytes(&self.entries[i].0, key) {
                return Some(i);
            }
        }
        None
    }

    /// The value bound to `key`.
    pub fn get(&self, key: &Vec<u8>) -> (r: Option<&V>)
        ensures
            r.is_some() == self@.contains_key(key@),
            r.is_some() ==> r.unwrap()@ == self@[key@],
    {
        match self.find(key) {
            Some(i) => {
                proof {
                    lemma_map_of_prefix(self.entries@, i + 1, key@);
                    assert(self.entries@.take(i + 1).drop_last() =~= self.entries@.take(i as int));
                }
                Some(&self.entries[i].1)
            },
            None => {
                proof {
                    lemma_map_of_prefix(self.entries@, 0, key@);
                }
                None
            },
        }
    }

    /// Binds `key` to `value`, replacing any earlier binding of `key`.
    pub fn set(&mut self, key: Vec<u8>, value: V)
        ensures
            final(self)@ == old(self)@.insert(key@, value@),
    {
        match self.find(&key) {
            Some(i) => {
                proof {
                    lemma_map_of_update(self.entries@, i as int, (key, value));
                }
                self.entries.set(i, (key, value));
            },
            None => {
                self.entries.push((key, value));
                proof {
                    assert(self.entries@.drop_last() =~= old(self).entries@);
                }
            },
        }
    }
}

} // verus!
