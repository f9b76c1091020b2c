use crate::packet::{Counter, SignedInteger};
use vstd::prelude::*;

verus! {

/// The named counters of a replay, each name at most once.
///
/// Entries are kept in no particular order; callers that list them sort by
/// name. Lookups and updates are by name.
pub struct CounterMap {
    entries: Vec<Counter>,
}

/// The counters of a sequence of entries, a later entry of a name replacing an
/// earlier one.
pub open spec fn counters_of(s: Seq<Counter>) -> Map<Seq<char>, SignedInteger>
    decreases s.len(),
{
    if s.len() == 0 {
        Map::empty()
    } else {
        counters_of(s.drop_last()).insert(s.last().name@, s.last().value)
    }
}

/// No name occurs twice.
pub open spec fn names_unique(s: Seq<Counter>) -> bool {
    forall|i: int, j: int| 0 <= i < j < s.len() ==> s[i].name@ != s[j].name@
}

/// The value of a counter after adding `delta`: a new counter starts at `delta`.
pub open spec fn changed_value(m: Map<Seq<char>, SignedInteger>, name: Seq<char>, delta: SignedInteger) -> SignedInteger {
    if m.contains_key(name) {
        m[name].wrapping_add(delta)
    } else {
        delta
    }
}

proof fn lemma_counters_of_unique(s: Seq<Counter>)
    requires
        names_unique(s),
    ensures
        forall|k: Seq<char>| #[trigger] counters_of(s).contains_key(k) <==> exists|i: int| 0 <= i < s.len() && s[i].name@ == k,
        forall|i: int| 0 <= i < s.len() ==> #[trigger] counters_of(s)[s[i].name@] == s[i].value,
        counters_of(s).dom().finite(),
    decreases s.len(),
{
    if s.len() > 0 {
        let t = s.drop_last();
        assert(names_unique(t));
        lemma_counters_of_unique(t);
        assert forall|k: Seq<char>| #[trigger] counters_of(s).contains_key(k) <==> exists|i: int| 0 <= i < s.len() && s[i].name@ == k by {
            if counters_of(s).contains_key(k) && k != s.last().name@ {
                let i = choose|i: int| 0 <= i < t.len() && t[i].name@ == k;
                assert(s[i].name@ == k);
            }
            if exists|i: int| 0 <= i < s.len() && s[i].name@ == k {
                let i = choose|i: int| 0 <= i < s.len() && s[i].name@ == k;
                if i < s.len() - 1 {
                    assert(t[i].name@ == k);
                }
            }
        }
        assert forall|i: int| 0 <= i < s.len() implies #[trigger] counters_of(s)[s[i].name@] == s[i].value by {
            if i < s.len() - 1 {
                assert(t[i] == s[i]);
                assert(s[i].name@ != s.last().name@);
            }
        }
    }
}

proof fn lemma_counters_of_update(s: Seq<Counter>, i: int, c: Counter)
    requires
        names_unique(s),
        0 <= i < s.len(),
        c.name@ == s[i].name@,
    ensures
        names_unique(s.update(i, c)),
        counters_of(s.update(i, c)) == counters_of(s).insert(c.name@, c.value),
{
    let u = s.update(i, c);
    lemma_counters_of_unique(s);
    lemma_counters_of_unique(u);
    assert(counters_of(u) =~= counters_of(s).insert(c.name@, c.value)) by {
        assert forall|k: Seq<char>| #[trigger] counters_of(u).contains_key(k) == counters_of(s).insert(c.name@, c.value).contains_key(k) by {
            if exists|j: int| 0 <= j < s.len() && s[j].name@ == k {
                let j = choose|j: int| 0 <= j < s.len() && s[j].name@ == k;
                assert(u[j].name@ == k);
            }
            if exists|j: int| 0 <= j < u.len() && u[j].name@ == k {
                let j = choose|j: int| 0 <= j < u.len() && u[j].name@ == k;
                assert(s[j].name@ == k);
            }
        }
        assert forall|k: Seq<char>| #[trigger] counters_of(u).contains_key(k) implies counters_of(u)[k] == counters_of(s).insert(c.name@, c.value)[k] by {
            let j = choose|j: int| 0 <= j < u.len() && u[j].name@ == k;
            assert(counters_of(u)[u[j].name@] == u[j].value);
            assert(counters_of(s)[s[j].name@] == s[j].value);
        }
    }
}

proof fn lemma_counters_of_push(s: Seq<Counter>, c: Counter)
    requires
        names_unique(s),
        forall|i: int| 0 <= i < s.len() ==> s[i].name@ != c.name@,
    ensures
        names_unique(s.push(c)),
        counters_of(s.push(c)) == counters_of(s).insert(c.name@, c.value),
{
    assert(s.push(c).drop_last() =~= s);
}

impl CounterMap {
    pub closed spec fn wf(&self) -> bool {
        names_unique(self.entries@)
    }

    /// The counters by name.
    pub closed spec fn view(&self) -> Map<Seq<char>, SignedInteger> {
        counters_of(self.entries@)
    }

    /// No counters.
    pub fn new() -> (r: CounterMap)
        ensures
            r.wf(),
            r.view() == Map::<Seq<char>, SignedInteger>::empty(),
    {
        CounterMap { entries: Vec::new() }
    }

    fn find(&self, name: &String) -> (r: Option<usize>)
        requires
            self.wf(),
        ensures
            r matches Some(i) ==> i < self.entries@.len() && self.entries@[i as int].name@ == name@,
            r is None ==> forall|i: int| 0 <= i < self.entries@.len() ==> self.entries@[i].name@ != name@,
    {
        let mut i: usize = 0;
        while i < self.entries.len()
            invariant
                i <= self.entries@.len(),
                forall|j: int| 0 <= j < i ==> self.entries@[j].name@ != name@,
            decreases self.entries@.len() - i,
        {
            if self.entries[i].name == *name {
                return Some(i);
            }
            i = i + 1;
        }
        None
    }

    /// The value of the counter `name`, if there is one.
    pub fn get(&self, name: &String) -> (r: Option<SignedInteger>)
        requires
            self.wf(),
        ensures
            r == (if self.view().contains_key(name@) { Some(self.view()[name@]) } else { None }),
    {
        proof {
            lemma_counters_of_unique(self.entries@);
        }
        match self.find(name) {
            Some(i) => Some(self.entries[i].value),
            None => None,
        }
    }

    /// Set the counter `name` to `value`.
    pub fn set(&mut self, name: String, value: SignedInteger)
        requires
            old(self).wf(),
        ensures
            final(self).wf(),
            final(self).view() == old(self).view().insert(name@, value),
    {
        match self.find(&name) {
            Some(i) => {
                proof {
                    lemma_counters_of_update(self.entries@, i as int, Counter { name, value });
                }
                self.entries.set(i, Counter { name, value });
            },
            None => {
                proof {
                    lemma_counters_of_push(self.entries@, Counter { name, value });
                }
                self.entries.push(Counter { name, value });
            },
        }
    }

    /// Add `delta` to the counter `name` (wrapping), starting a missing counter
    /// at `delta`.
    pub fn change(&mut self, name: String, delta: SignedInteger)
        requires
            old(self).wf(),
        ensures
            final(self).wf(),
            final(self).view() == old(self).view().insert(name@, changed_value(old(self).view(), name@, delta)),
    {
        proof {
            lemma_counters_of_unique(self.entries@);
        }
        let current = self.get(&name);
        let value = match current {
            Some(v) => v.wrapping_add(delta),
            None => delta,
        };
        self.set(name, value);
    }

    /// Remove every counter.
    pub fn clear(&mut self)
        ensures
            final(self).wf(),
            final(self).view() == Map::<Seq<char>, SignedInteger>::empty(),
    {
        self.entries = Vec::new();
    }

    /// The counters of `counters`, a later counter of a name replacing an earlier one.
    pub fn from_counters(counters: &Vec<Counter>) -> (r: CounterMap)
        ensures
            r.wf(),
            r.view() == counters_of(counters@),
    {
        let mut m = CounterMap::new();
        let mut i: usize = 0;
        while i < counters.len()
            invariant
                i <= counters@.len(),
                m.wf(),
                m.view() == counters_of(counters@.take(i as int)),
            decreases counters@.len() - i,
        {
            let name = counters[i].name.clone();
            m.set(name, counters[i].value);
            assert(counters@.take(i + 1).drop_last() =~= counters@.take(i as int));
            i = i + 1;
        }
        assert(counters@.take(counters@.len() as int) =~= counters@);
        m
    }

    /// Make these counters exactly those of `from` (names that `from` lacks are
    /// removed, the others take `from`'s values).
    pub fn extend_from(&mut self, from: &CounterMap)
        requires
            from.wf(),
        ensures
            final(self).wf(),
            final(self).view() == from.view(),
    {
        let mut entries: Vec<Counter> = Vec::new();
        let mut i: usize = 0;
        while i < from.entries.len()
            invariant
                i <= from.entries@.len(),
                entries@.len() == i,
                forall|j: int| 0 <= j < i ==> #[trigger] entries@[j].name@ == from.entries@[j].name@
                    && entries@[j].value == from.entries@[j].value,
            decreases from.entries@.len() - i,
        {
            entries.push(Counter { name: from.entries[i].name.clone(), value: from.entries[i].value });
            i = i + 1;
        }
        proof {
            lemma_same_counters(entries@, from.entries@);
        }
        self.entries = entries;
    }

    /// The counters as a list, in no particular order, each name once.
    pub fn to_counters(&self) -> (r: Vec<Counter>)
        requires
            self.wf(),
        ensures
            names_unique(r@),
            counters_of(r@) == self.view(),
    {
        let mut entries: Vec<Counter> = Vec::new();
        let mut i: usize = 0;
        while i < self.entries.len()
            invariant
                i <= self.entries@.len(),
                entries@.len() == i,
                forall|j: int| 0 <= j < i ==> #[trigger] entries@[j].name@ == self.entries@[j].name@
                    && entries@[j].value == self.entries@[j].value,
            decreases self.entries@.len() - i,
        {
            entries.push(Counter { name: self.entries[i].name.clone(), value: self.entries[i].value });
            i = i + 1;
        }
        proof {
            lemma_same_counters(entries@, self.entries@);
        }
        entries
    }
}

/// Make the counters of `into` exactly those of `from`: names that `from`
/// lacks are removed, the others take `from`'s values.
pub fn extend_counter_map(from: &CounterMap, into: &mut CounterMap)
    requires
        from.wf(),
    ensures
        final(into).wf(),
        final(into).view() == from.view(),
{
    into.extend_from(from);
}

proof fn lemma_same_counters(a: Seq<Counter>, b: Seq<Counter>)
    requires
        a.len() == b.len(),
        forall|j: int| 0 <= j < a.len() ==> #[trigger] a[j].name@ == b[j].name@ && a[j].value == b[j].value,
    ensures
        counters_of(a) == counters_of(b),
        names_unique(b) ==> names_unique(a),
    decreases a.len(),
{
    if a.len() > 0 {
        lemma_same_counters(a.drop_last(), b.drop_last());
    }
}

/// Adding to a counter changes that counter alone: by `delta` (wrapping) if it
/// existed, to `delta` if it did not.
pub proof fn law_change_counter(before: CounterMap, after: CounterMap, name: Seq<char>, delta: SignedInteger)
    requires
        after.view() == before.view().insert(name, changed_value(before.view(), name, delta)),
    ensures
        after.view().contains_key(name),
        before.view().contains_key(name) ==> after.view()[name] == before.view()[name].wrapping_add(delta),
        !before.view().contains_key(name) ==> after.view()[name] == delta,
        forall|k: Seq<char>| k != name ==> (#[trigger] after.view().contains_key(k) == before.view().contains_key(k)
            && (before.view().contains_key(k) ==> after.view()[k] == before.view()[k])),
{
}

} // verus!
