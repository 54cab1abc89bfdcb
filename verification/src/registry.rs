//! A table of bindings keyed by their local address.
use vstd::prelude::*;

verus! {

/// Whether no two entries of `s` share an address.
pub open spec fn keys_unique<V>(s: Seq<(Seq<char>, V)>) -> bool {
    forall|i: int, j: int| 0 <= i < s.len() && 0 <= j < s.len() && i != j ==> #[trigger] s[i].0
        != #[trigger] s[j].0
}

/// Whether `s` has an entry for the address `k`.
pub open spec fn has_key<V>(s: Seq<(Seq<char>, V)>, k: Seq<char>) -> bool {
    exists|i: int| 0 <= i < s.len() && #[trigger] s[i].0 == k
}

/// The entries of a table, by address and value.
pub open spec fn entries_view<V>(e: Seq<(String, V)>) -> Seq<(Seq<char>, V)> {
    e.map_values(|x: (String, V)| (x.0@, x.1))
}

/// A table from local addresses to values, in the order of insertion; each
/// address occurs at most once.
pub struct AddrMap<V> {
    entries: Vec<(String, V)>,
}

impl<V> View for AddrMap<V> {
    type V = Seq<(Seq<char>, V)>;

    closed spec fn view(&self) -> Seq<(Seq<char>, V)> {
        entries_view(self.entries@)
    }
}

impl<V> AddrMap<V> {
    /// The table is consistent: no address occurs twice.
    pub open spec fn wf(&self) -> bool {
        keys_unique(self@)
    }

    /// An empty table.
    pub fn new() -> (r: Self)
        ensures
            r@ == Seq::<(Seq<char>, V)>::empty(),
            r.wf(),
    {
        let r = AddrMap { entries: Vec::new() };
        assert(r@ =~= Seq::<(Seq<char>, V)>::empty());
        r
    }

    /// The number of entries.
    pub fn len(&self) -> (r: usize)
        ensures
            r == self@.len(),
    {
        self.entries.len()
    }

    /// The position of the entry for `addr`, if there is one.
    fn position(&self, addr: &String) -> (r: Option<usize>)
        ensures
            match r {
                Some(i) => i < self@.len() && self@[i as int].0 == addr@,
                Option::None => !has_key(self@, addr@),
            },
    {
        let mut i: usize = 0;
        while i < self.entries.len()
            invariant
                i <= self.entries@.len(),
                self@ == entries_view(self.entries@),
                forall|j: int| 0 <= j < i ==> #[trigger] self@[j].0 != addr@,
            decreases self.entries.len() - i,
        {
            if self.entries[i].0 == *addr {
                return Some(i);
            }
            i = i + 1;
        }
        None
    }

    /// Whether the table has an entry for `addr`.
    pub fn contains(&self, addr: &str) -> (r: bool)
        ensures
            r == has_key(self@, addr@),
    {
        let key = String::from_str(addr);
        self.position(&key).is_some()
    }

    /// The value for `addr`, if there is one.
    pub fn get(&self, addr: &str) -> (r: Option<&V>)
        ensures
            match r {
                Some(v) => exists|i: int| 0 <= i < self@.len() && self@[i].0 == addr@ && self@[i].1 == *v,
                Option::None => !has_key(self@, addr@),
            },
    {
        let key = String::from_str(addr);
        match self.position(&key) {
            Some(i) => Some(&self.entries[i].1),
            Option::None => None,
        }
    }

    /// Enters `v` for `addr`: it replaces the value already there, which is
    /// returned, or is added at the end.
    pub fn insert(&mut self, addr: String, v: V) -> (r: Option<V>)
        requires
            old(self).wf(),
        ensures
            final(self).wf(),
            match r {
                Some(o) => exists|i: int|
                    0 <= i < old(self)@.len() && old(self)@[i].0 == addr@ && old(self)@[i].1 == o && final(self)@
                        == old(self)@.update(i, (addr@, v)),
                Option::None => !has_key(old(self)@, addr@) && final(self)@ == old(self)@.push(
                    (addr@, v),
                ),
            },
    {
        let ghost key = addr@;
        match self.position(&addr) {
            Some(i) => {
                let old_entry = self.entries.remove(i);
                self.entries.insert(i, (addr, v));
                proof {
                    assert(old(self)@[i as int] == (old_entry.0@, old_entry.1));
                    assert(self@ =~= old(self)@.update(i as int, (key, v)));
                    assert forall|a: int, b: int|
                        0 <= a < self@.len() && 0 <= b < self@.len() && a != b implies #[trigger] self@[a].0
                        != #[trigger] self@[b].0 by {
                        assert(old(self)@[a].0 == self@[a].0);
                        assert(old(self)@[b].0 == self@[b].0);
                    }
                }
                Some(old_entry.1)
            },
            Option::None => {
                self.entries.push((addr, v));
                proof {
                    assert(self@ =~= old(self)@.push((key, v)));
                    assert forall|a: int, b: int|
                        0 <= a < self@.len() && 0 <= b < self@.len() && a != b implies #[trigger] self@[a].0
                        != #[trigger] self@[b].0 by {
                        if a < old(self)@.len() && b < old(self)@.len() {
                        } else if a < old(self)@.len() {
                            assert(old(self)@[a].0 != key);
                        } else if b < old(self)@.len() {
                            assert(old(self)@[b].0 != key);
                        }
                    }
                }
                None
            },
        }
    }

    /// Takes the entry for `addr` out of the table and returns its value.
    pub fn remove(&mut self, addr: &str) -> (r: Option<V>)
        requires
            old(self).wf(),
        ensures
            final(self).wf(),
            match r {
                Some(v) => exists|i: int|
                    0 <= i < old(self)@.len() && old(self)@[i].0 == addr@ && old(self)@[i].1 == v && final(self)@
                        == old(self)@.remove(i),
                Option::None => !has_key(old(self)@, addr@) && final(self)@ == old(self)@,
            },
    {
        let key = String::from_str(addr);
        match self.position(&key) {
            Some(i) => {
                let e = self.entries.remove(i);
                proof {
                    assert(old(self)@[i as int] == (e.0@, e.1));
                    assert(self@ =~= old(self)@.remove(i as int));
                    assert forall|a: int, b: int|
                        0 <= a < self@.len() && 0 <= b < self@.len() && a != b implies #[trigger] self@[a].0
                        != #[trigger] self@[b].0 by {
                        let oa = if a < i { a } else { a + 1 };
                        let ob = if b < i { b } else { b + 1 };
                        assert(self@[a] == old(self)@[oa]);
                        assert(self@[b] == old(self)@[ob]);
                    }
                }
                Some(e.1)
            },
            Option::None => None,
        }
    }

    /// The addresses of the table, in order.
    pub fn addrs(&self) -> (r: Vec<String>)
        ensures
            r@.len() == self@.len(),
            forall|i: int| 0 <= i < r@.len() ==> #[trigger] r@[i]@ == self@[i].0,
    {
        let mut r: Vec<String> = Vec::new();
        let mut i: usize = 0;
        while i < self.entries.len()
            invariant
                i <= self.entries@.len(),
                self@ == entries_view(self.entries@),
                r@.len() == i,
                forall|j: int| 0 <= j < i ==> #[trigger] r@[j]@ == self@[j].0,
            decreases self.entries.len() - i,
        {
            r.push(self.entries[i].0.clone());
            i = i + 1;
        }
        r
    }

    /// The values of the table, in order.
    pub fn values(&self) -> (r: Vec<&V>)
        ensures
            r@.len() == self@.len(),
            forall|i: int| 0 <= i < r@.len() ==> *#[trigger] r@[i] == self@[i].1,
    {
        let mut r: Vec<&V> = Vec::new();
        let mut i: usize = 0;
        while i < self.entries.len()
            invariant
                i <= self.entries@.len(),
                self@ == entries_view(self.entries@),
                r@.len() == i,
                forall|j: int| 0 <= j < i ==> *#[trigger] r@[j] == self@[j].1,
            decreases self.entries.len() - i,
        {
            r.push(&self.entries[i].1);
            i = i + 1;
        }
        r
    }

    /// Empties the table.
    pub fn clear(&mut self)
        ensures
            final(self)@ == Seq::<(Seq<char>, V)>::empty(),
            final(self).wf(),
    {
        self.entries.clear();
        assert(self@ =~= Seq::<(Seq<char>, V)>::empty());
    }
}

/// Entering a value for an address that is not in the table and taking the
/// address out again leaves the table as it was.
pub proof fn law_insert_then_remove<V>(
    before: Seq<(Seq<char>, V)>,
    k: Seq<char>,
    v: V,
    after: Seq<(Seq<char>, V)>,
    i: int,
)
    requires
        keys_unique(before),
        !has_key(before, k),
        0 <= i < before.push((k, v)).len(),
        before.push((k, v))[i].0 == k,
        after == before.push((k, v)).remove(i),
    ensures
        after == before,
{
    if i < before.len() {
        assert(before[i].0 == k);
    }
    assert(after =~= before);
}

/// After an address is taken out of a consistent table, the table has no entry
/// for it.
pub proof fn law_removed_address_absent<V>(
    before: Seq<(Seq<char>, V)>,
    k: Seq<char>,
    i: int,
)
    requires
        keys_unique(before),
        0 <= i < before.len(),
        before[i].0 == k,
    ensures
        !has_key(before.remove(i), k),
{
    let after = before.remove(i);
    assert forall|j: int| 0 <= j < after.len() implies #[trigger] after[j].0 != k by {
        let oj = if j < i { j } else { j + 1 };
        assert(after[j] == before[oj]);
    }
}

} // verus!
