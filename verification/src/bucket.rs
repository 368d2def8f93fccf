use vstd::prelude::*;

verus! {

/// One durable key-value bucket, keyed by artifact path.
///
/// This is the store's contents as the manager sees them: a finite map
/// from path to record, with `get`/`set`/`remove`/`list`. Several
/// buckets coexist without interfering, simply by being distinct
/// values. Flushing the contents to disk — and the I/O failures that
/// flushing can meet — belongs to the edge that owns the store file;
/// within the model every operation is total, and removal of a missing
/// key is a no-op, so a retried removal converges.
pub struct Bucket<V> {
    entries: Vec<(String, V)>,
}

/// The map described by an association sequence; later entries win,
/// though a well-formed bucket never holds a key twice.
pub open spec fn entries_map<V>(s: Seq<(String, V)>) -> Map<Seq<char>, V>
    decreases s.len(),
{
    if s.len() == 0 {
        Map::empty()
    } else {
        entries_map(s.drop_last()).insert(s.last().0@, s.last().1)
    }
}

/// No two entries of the sequence share a key.
pub open spec fn keys_unique<V>(s: Seq<(String, V)>) -> bool {
    forall|i: int, j: int| 0 <= i < j < s.len() ==> s[i].0@ != s[j].0@
}

proof fn lemma_contains<V>(s: Seq<(String, V)>, k: Seq<char>)
    ensures
        entries_map(s).contains_key(k) <==> (exists|i: int|
            0 <= i < s.len() && (#[trigger] s[i]).0@ == k),
    decreases s.len(),
{
    if s.len() > 0 {
        lemma_contains(s.drop_last(), k);
        if s.last().0@ == k {
            assert(s[s.len() - 1].0@ == k);
        } else {
            if exists|i: int| 0 <= i < s.len() && (#[trigger] s[i]).0@ == k {
                let i = choose|i: int| 0 <= i < s.len() && (#[trigger] s[i]).0@ == k;
                assert(s.drop_last()[i].0@ == k);
            }
            if exists|i: int| 0 <= i < s.drop_last().len() && (#[trigger] s.drop_last()[i]).0@
                == k {
                let i = choose|i: int|
                    0 <= i < s.drop_last().len() && (#[trigger] s.drop_last()[i]).0@ == k;
                assert(s[i].0@ == k);
            }
        }
    }
}

proof fn lemma_unique_drop_last<V>(s: Seq<(String, V)>)
    requires
        keys_unique(s),
        s.len() > 0,
    ensures
        keys_unique(s.drop_last()),
{
    assert forall|i: int, j: int| 0 <= i < j < s.drop_last().len() implies (#[trigger] s.drop_last()[i]).0@
        != (#[trigger] s.drop_last()[j]).0@ by {
        assert(s[i].0@ != s[j].0@);
    }
}

proof fn lemma_get_at<V>(s: Seq<(String, V)>, i: int)
    requires
        keys_unique(s),
        0 <= i < s.len(),
    ensures
        entries_map(s).contains_key(s[i].0@),
        entries_map(s)[s[i].0@] == s[i].1,
    decreases s.len(),
{
    if i == s.len() - 1 {
    } else {
        lemma_unique_drop_last(s);
        lemma_get_at(s.drop_last(), i);
        assert(s.drop_last()[i] == s[i]);
        assert(s.last().0@ != s[i].0@);
    }
}

proof fn lemma_unique_remove<V>(s: Seq<(String, V)>, i: int)
    requires
        keys_unique(s),
        0 <= i < s.len(),
    ensures
        keys_unique(s.remove(i)),
{
    assert forall|p: int, q: int| 0 <= p < q < s.remove(i).len() implies (#[trigger] s.remove(
        i,
    )[p]).0@ != (#[trigger] s.remove(i)[q]).0@ by {
        let p0: int = if p < i {
            p
        } else {
            p + 1
        };
        let q0: int = if q < i {
            q
        } else {
            q + 1
        };
        assert(s.remove(i)[p] == s[p0]);
        assert(s.remove(i)[q] == s[q0]);
        assert(s[p0].0@ != s[q0].0@);
    }
}

proof fn lemma_remove_at<V>(s: Seq<(String, V)>, i: int)
    requires
        keys_unique(s),
        0 <= i < s.len(),
    ensures
        entries_map(s.remove(i)) == entries_map(s).remove(s[i].0@),
    decreases s.len(),
{
    let k = s[i].0@;
    if i == s.len() - 1 {
        assert(s.remove(i) =~= s.drop_last());
        lemma_contains(s.drop_last(), k);
        assert(forall|j: int| 0 <= j < s.len() - 1 ==> (#[trigger] s[j]).0@ != k);
        assert(forall|j: int| 0 <= j < s.drop_last().len() ==> (#[trigger] s.drop_last()[j]).0@
            != k);
        assert(!entries_map(s.drop_last()).contains_key(k));
        assert(entries_map(s).remove(k) =~= entries_map(s.drop_last()));
    } else {
        let dl = s.drop_last();
        lemma_unique_drop_last(s);
        lemma_remove_at(dl, i);
        assert(dl[i] == s[i]);
        let r = dl.remove(i).push(s.last());
        assert(s.remove(i) =~= r);
        assert(r.drop_last() =~= dl.remove(i));
        assert(entries_map(r) == entries_map(dl.remove(i)).insert(s.last().0@, s.last().1));
        assert(s.last().0@ != k);
        assert(entries_map(dl).remove(k).insert(s.last().0@, s.last().1) =~= entries_map(
            dl,
        ).insert(s.last().0@, s.last().1).remove(k));
    }
}

proof fn lemma_push<V>(s: Seq<(String, V)>, k: String, v: V)
    requires
        keys_unique(s),
        forall|i: int| 0 <= i < s.len() ==> (#[trigger] s[i]).0@ != k@,
    ensures
        keys_unique(s.push((k, v))),
        entries_map(s.push((k, v))) == entries_map(s).insert(k@, v),
{
    let t = s.push((k, v));
    assert(t.drop_last() =~= s);
    assert(t.last() == (k, v));
    assert forall|i: int, j: int| 0 <= i < j < t.len() implies (#[trigger] t[i]).0@
        != (#[trigger] t[j]).0@ by {
        if j == s.len() {
            assert(t[i] == s[i]);
        } else {
            assert(t[i] == s[i]);
            assert(t[j] == s[j]);
        }
    }
}

impl<V> View for Bucket<V> {
    type V = Map<Seq<char>, V>;

    closed spec fn view(&self) -> Map<Seq<char>, V> {
        entries_map(self.entries@)
    }
}

impl<V> Bucket<V> {
    /// The bucket never holds a key twice.
    pub closed spec fn inv(&self) -> bool {
        keys_unique(self.entries@)
    }

    /// An empty bucket.
    pub fn new() -> (b: Bucket<V>)
        ensures
            b.inv(),
            b@ == Map::<Seq<char>, V>::empty(),
    {
        let b = Bucket { entries: Vec::new() };
        proof {
            assert(b.entries@.len() == 0);
        }
        b
    }

    fn find_index(&self, key: &str) -> (r: Option<usize>)
        ensures
            (match r {
                Some(i) => i < self.entries@.len() && self.entries@[i as int].0@ == key@,
                None => forall|j: int|
                    0 <= j < self.entries@.len() ==> (#[trigger] self.entries@[j]).0@ != key@,
            }),
    {
        let owned: String = key.to_owned();
        let n = self.entries.len();
        let mut i: usize = 0;
        while i < n
            invariant
                n == self.entries@.len(),
                owned@ == key@,
                i <= n,
                forall|j: int| 0 <= j < i ==> (#[trigger] self.entries@[j]).0@ != key@,
            decreases n - i,
        {
            if self.entries[i].0 == owned {
                return Some(i);
            }
            i += 1;
        }
        None
    }

    /// Look a key up; `None` exactly when the bucket holds no entry for it.
    pub fn get(&self, key: &str) -> (r: Option<&V>)
        requires
            self.inv(),
        ensures
            (match r {
                Some(v) => self@.contains_key(key@) && *v == self@[key@],
                None => !self@.contains_key(key@),
            }),
    {
        match self.find_index(key) {
            Some(i) => {
                proof {
                    lemma_get_at(self.entries@, i as int);
                }
                Some(&self.entries[i].1)
            },
            None => {
                proof {
                    lemma_contains(self.entries@, key@);
                }
                None
            },
        }
    }

    /// Whether the bucket holds an entry for the key.
    pub fn contains(&self, key: &str) -> (r: bool)
        requires
            self.inv(),
        ensures
            r == self@.contains_key(key@),
    {
        match self.get(key) {
            Some(_) => true,
            None => false,
        }
    }

    /// Bind the key to the value, replacing any earlier binding.
    pub fn set(&mut self, key: &str, value: V)
        requires
            old(self).inv(),
        ensures
            final(self).inv(),
            final(self)@ == old(self)@.insert(key@, value),
    {
        self.remove(key);
        proof {
            lemma_contains(self.entries@, key@);
            assert(forall|j: int|
                0 <= j < self.entries@.len() ==> (#[trigger] self.entries@[j]).0@ != key@);
        }
        let owned: String = key.to_owned();
        proof {
            lemma_push(self.entries@, owned, value);
            assert(old(self)@.remove(key@).insert(key@, value) =~= old(self)@.insert(
                key@,
                value,
            ));
        }
        self.entries.push((owned, value));
    }

    /// Drop any entry for the key; removing a missing key is a no-op.
    pub fn remove(&mut self, key: &str)
        requires
            old(self).inv(),
        ensures
            final(self).inv(),
            final(self)@ == old(self)@.remove(key@),
    {
        match self.find_index(key) {
            Some(i) => {
                proof {
                    lemma_remove_at(self.entries@, i as int);
                    lemma_unique_remove(self.entries@, i as int);
                }
                self.entries.remove(i);
            },
            None => {
                proof {
                    lemma_contains(self.entries@, key@);
                    assert(self@.remove(key@) =~= self@);
                }
            },
        }
    }

    /// Every current (key, value) pair, each key once, each value the
    /// one the bucket binds the key to.
    pub fn list(&self) -> (r: &Vec<(String, V)>)
        requires
            self.inv(),
        ensures
            keys_unique(r@),
            forall|i: int|
                0 <= i < r@.len() ==> self@.contains_key((#[trigger] r@[i]).0@) && self@[r@[i].0@]
                    == r@[i].1,
            forall|k: Seq<char>| #[trigger]
                self@.contains_key(k) ==> exists|i: int| 0 <= i < r@.len() && (#[trigger] r@[i]).0@
                    == k,
    {
        proof {
            assert forall|i: int| 0 <= i < self.entries@.len() implies self@.contains_key(
                (#[trigger] self.entries@[i]).0@,
            ) && self@[self.entries@[i].0@] == self.entries@[i].1 by {
                lemma_get_at(self.entries@, i);
            }
            assert forall|k: Seq<char>| #[trigger] self@.contains_key(k) implies exists|i: int|
                0 <= i < self.entries@.len() && (#[trigger] self.entries@[i]).0@ == k by {
                lemma_contains(self.entries@, k);
            }
        }
        &self.entries
    }
}

} // verus!
