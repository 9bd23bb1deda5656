use vstd::prelude::*;
use crate::proxy_core::models::routes::Host;
use crate::text::str_eq;

verus! {

/// Whether some entry of `s` is keyed by `h`.
pub open spec fn has_key<V>(s: Seq<(Host, V)>, h: Seq<char>) -> bool {
    exists|i: int| 0 <= i < s.len() && (#[trigger] s[i]).0@ == h
}

/// The map that a list of entries with distinct hosts stands for.
pub open spec fn entries_map<V>(s: Seq<(Host, V)>) -> Map<Seq<char>, V> {
    Map::new(
        |h: Seq<char>| has_key(s, h),
        |h: Seq<char>| s[choose|i: int| 0 <= i < s.len() && (#[trigger] s[i]).0@ == h].1,
    )
}

/// No two entries share a host.
pub open spec fn distinct_hosts<V>(s: Seq<(Host, V)>) -> bool {
    forall|i: int, j: int|
        0 <= i < s.len() && 0 <= j < s.len() && i != j ==> (#[trigger] s[i]).0@ != (#[trigger] s[j]).0@
}

/// The entry at `i` is what the map holds for its host.
pub proof fn lemma_entries_map_at<V>(s: Seq<(Host, V)>, i: int)
    requires
        distinct_hosts(s),
        0 <= i < s.len(),
    ensures
        entries_map(s).contains_key(s[i].0@),
        entries_map(s)[s[i].0@] == s[i].1,
{
    let h = s[i].0@;
    assert(has_key(s, h));
    let j = choose|j: int| 0 <= j < s.len() && (#[trigger] s[j]).0@ == h;
    assert(j == i);
}

/// A map from hosts to values, kept as a list of entries with distinct hosts.
#[derive(Debug)]
pub struct HostMap<V> {
    entries: Vec<(Host, V)>,
}

impl<V> View for HostMap<V> {
    type V = Map<Seq<char>, V>;

    closed spec fn view(&self) -> Map<Seq<char>, V> {
        entries_map(self.entries@)
    }
}

impl<V: Clone> HostMap<V> {
    /// A copy with the same hosts, each value cloned.
    pub fn duplicate(&self) -> (res: Self)
        ensures
            res@.dom() == self@.dom(),
            forall|k: Seq<char>| #[trigger] self@.contains_key(k) ==> cloned::<V>(self@[k], res@[k]),
    {
        proof {
            use_type_invariant(self);
        }
        let mut entries: Vec<(Host, V)> = Vec::new();
        let mut i: usize = 0;
        while i < self.entries.len()
            invariant
                i <= self.entries@.len(),
                distinct_hosts(self.entries@),
                entries@.len() == i,
                forall|j: int| 0 <= j < i ==> (#[trigger] entries@[j]).0 == self.entries@[j].0,
                forall|j: int| 0 <= j < i ==> cloned::<V>(self.entries@[j].1, #[trigger] entries@[j].1),
            decreases self.entries.len() - i,
        {
            let host = self.entries[i].0.clone();
            let value = self.entries[i].1.clone();
            entries.push((host, value));
            i = i + 1;
        }
        let ghost s = self.entries@;
        let ghost r = entries@;
        assert(distinct_hosts(r)) by {
            assert forall|a: int, b: int|
                0 <= a < r.len() && 0 <= b < r.len() && a != b implies (#[trigger] r[a]).0@
                != (#[trigger] r[b]).0@ by {
                assert(r[a].0 == s[a].0 && r[b].0 == s[b].0);
            }
        }
        let res = HostMap { entries };
        assert forall|k: Seq<char>| #![auto] has_key(r, k) == has_key(s, k) by {
            if has_key(r, k) {
                let j = choose|j: int| 0 <= j < r.len() && (#[trigger] r[j]).0@ == k;
                assert(s[j].0 == r[j].0);
            }
            if has_key(s, k) {
                let j = choose|j: int| 0 <= j < s.len() && (#[trigger] s[j]).0@ == k;
                assert(s[j].0 == r[j].0);
            }
        }
        assert(res@.dom() =~= self@.dom());
        assert forall|k: Seq<char>| #[trigger] self@.contains_key(k) implies cloned::<V>(self@[k], res@[k]) by {
            let j = choose|j: int| 0 <= j < s.len() && (#[trigger] s[j]).0@ == k;
            lemma_entries_map_at(s, j);
            assert(r[j].0 == s[j].0);
            lemma_entries_map_at(r, j);
        }
        res
    }
}


impl<V> HostMap<V> {
    /// Every map's invariant: its entries have distinct hosts.
    #[verifier::type_invariant]
    spec fn wf(&self) -> bool {
        distinct_hosts(self.entries@)
    }

    /// The empty map.
    pub fn new() -> (m: Self)
        ensures
            m@ == Map::<Seq<char>, V>::empty(),
    {
        let m = HostMap { entries: Vec::new() };
        assert(m@ =~= Map::<Seq<char>, V>::empty());
        m
    }

    /// Index of the entry for `host`, if any.
    fn find(&self, host: &str) -> (r: Option<usize>)
        ensures
            match r {
                Some(i) => i < self.entries@.len() && self.entries@[i as int].0@ == host@,
                None => !has_key(self.entries@, host@),
            },
    {
        let mut i: usize = 0;
        while i < self.entries.len()
            invariant
                i <= self.entries@.len(),
                forall|k: int| 0 <= k < i ==> (#[trigger] self.entries@[k]).0@ != host@,
            decreases self.entries.len() - i,
        {
            if str_eq(self.entries[i].0.as_str(), host) {
                return Some(i);
            }
            i = i + 1;
        }
        None
    }

    /// Number of hosts in the map.
    pub fn len(&self) -> (n: usize)
        ensures
            n == self@.dom().len(),
    {
        proof {
            use_type_invariant(self);
            lemma_dom_len_of(self.entries@);
        }
        self.entries.len()
    }

    /// The value stored for `host`.
    pub fn get(&self, host: &str) -> (r: Option<&V>)
        ensures
            match r {
                Some(v) => self@.contains_key(host@) && *v == self@[host@],
                None => !self@.contains_key(host@),
            },
    {
        match self.find(host) {
            Some(i) => {
                proof {
                    use_type_invariant(self);
                    lemma_entries_map_at(self.entries@, i as int);
                }
                Some(&self.entries[i].1)
            },
            None => None,
        }
    }

    /// Whether `host` has a value.
    pub fn contains(&self, host: &str) -> (r: bool)
        ensures
            r == self@.contains_key(host@),
    {
        self.find(host).is_some()
    }

    /// Stores `value` for `host`, replacing what was stored for it before.
    pub fn insert(&mut self, host: Host, value: V)
        ensures
            final(self)@ == old(self)@.insert(host@, value),
    {
        proof {
            use_type_invariant(&*self);
        }
        let ghost old_s = self.entries@;
        let ghost h = host@;
        let found = self.find(host.as_str());
        let mut entries: Vec<(Host, V)> = Vec::new();
        std::mem::swap(&mut entries, &mut self.entries);
        let ghost at: int = match found {
            Some(i) => i as int,
            None => old_s.len() as int,
        };
        match found {
            Some(i) => entries.set(i, (host, value)),
            None => entries.push((host, value)),
        }
        proof {
            lemma_insert_entries(old_s, entries@, at, h, value);
        }
        self.entries = entries;
    }

    /// Forgets whatever is stored for `host`.
    pub fn remove(&mut self, host: &str)
        ensures
            final(self)@ == old(self)@.remove(host@),
    {
        proof {
            use_type_invariant(&*self);
        }
        let ghost old_s = self.entries@;
        let ghost h = host@;
        match self.find(host) {
            Some(i) => {
                let mut entries: Vec<(Host, V)> = Vec::new();
                std::mem::swap(&mut entries, &mut self.entries);
                entries.remove(i);
                let ghost s = entries@;
                assert(s =~= old_s.remove(i as int));
                assert(distinct_hosts(s)) by {
                    assert forall|a: int, b: int|
                        0 <= a < s.len() && 0 <= b < s.len() && a != b implies (#[trigger] s[a]).0@
                        != (#[trigger] s[b]).0@ by {
                        let a2 = if a < i { a } else { a + 1 };
                        let b2 = if b < i { b } else { b + 1 };
                        assert(s[a] == old_s[a2] && s[b] == old_s[b2]);
                    }
                }
                assert forall|k: Seq<char>| #![auto] has_key(s, k) == (has_key(old_s, k) && k != h) by {
                    if has_key(old_s, k) && k != h {
                        let j = choose|j: int| 0 <= j < old_s.len() && (#[trigger] old_s[j]).0@ == k;
                        assert(j != i);
                        let j2 = if j < i { j } else { j - 1 };
                        assert(s[j2] == old_s[j]);
                    }
                    if has_key(s, k) {
                        let j = choose|j: int| 0 <= j < s.len() && (#[trigger] s[j]).0@ == k;
                        let j2 = if j < i { j } else { j + 1 };
                        assert(s[j] == old_s[j2]);
                        assert(j2 != i);
                    }
                }
                assert forall|k: Seq<char>| has_key(s, k) implies #[trigger] entries_map(s)[k] == entries_map(old_s)[k] by {
                    let j = choose|j: int| 0 <= j < s.len() && (#[trigger] s[j]).0@ == k;
                    lemma_entries_map_at(s, j);
                    let j2 = if j < i { j } else { j + 1 };
                    assert(s[j] == old_s[j2]);
                    lemma_entries_map_at(old_s, j2);
                }
                assert(entries_map(s) =~= entries_map(old_s).remove(h));
                self.entries = entries;
            },
            None => {
                assert(self@ =~= old(self)@.remove(h));
            },
        }
    }
}

/// Entries that hold `(h, v)` at `at` and agree with `old_s` everywhere else, where `at`
/// is either the old entry for `h` or a new last entry for a host `old_s` lacks, stand for
/// `old_s`'s map with `h` set to `v`, and still have distinct hosts.
proof fn lemma_insert_entries<V>(old_s: Seq<(Host, V)>, s: Seq<(Host, V)>, at: int, h: Seq<char>, v: V)
    requires
        distinct_hosts(old_s),
        0 <= at < s.len(),
        s[at].0@ == h,
        s[at].1 == v,
        (s.len() == old_s.len() && old_s[at].0@ == h) || (s.len() == old_s.len() + 1 && at
            == old_s.len() && !has_key(old_s, h)),
        forall|j: int| 0 <= j < s.len() && j != at ==> s[j] == old_s[j],
    ensures
        distinct_hosts(s),
        entries_map(s) == entries_map(old_s).insert(h, v),
{
    assert forall|a: int, b: int|
        0 <= a < s.len() && 0 <= b < s.len() && a != b implies (#[trigger] s[a]).0@
        != (#[trigger] s[b]).0@ by {
        if a != at && b != at {
            assert(s[a] == old_s[a] && s[b] == old_s[b]);
        } else if a == at {
            assert(s[b] == old_s[b]);
            assert(old_s[b].0@ != h);
        } else {
            assert(s[a] == old_s[a]);
            assert(old_s[a].0@ != h);
        }
    }
    assert forall|k: Seq<char>| #![auto] has_key(s, k) == (has_key(old_s, k) || k == h) by {
        if has_key(old_s, k) {
            let j = choose|j: int| 0 <= j < old_s.len() && (#[trigger] old_s[j]).0@ == k;
            if j != at {
                assert(s[j] == old_s[j]);
            }
        }
        if has_key(s, k) {
            let j = choose|j: int| 0 <= j < s.len() && (#[trigger] s[j]).0@ == k;
            if j != at {
                assert(s[j] == old_s[j]);
            }
        }
        if k == h {
            assert(s[at].0@ == h);
        }
    }
    assert forall|k: Seq<char>| #[trigger] entries_map(s).contains_key(k) implies entries_map(s)[k]
        == entries_map(old_s).insert(h, v)[k] by {
        let j = choose|j: int| 0 <= j < s.len() && (#[trigger] s[j]).0@ == k;
        lemma_entries_map_at(s, j);
        if j != at {
            assert(s[j] == old_s[j]);
            lemma_entries_map_at(old_s, j);
        }
    }
    assert(entries_map(s) =~= entries_map(old_s).insert(h, v));
}

proof fn lemma_dom_len_of<V>(s: Seq<(Host, V)>)
    requires
        distinct_hosts(s),
    ensures
        entries_map(s).dom().finite(),
        entries_map(s).dom().len() == s.len(),
    decreases s.len(),
{
    if s.len() == 0 {
        assert(entries_map(s).dom() =~= Set::<Seq<char>>::empty());
    } else {
        let p = s.drop_last();
        assert(distinct_hosts(p)) by {
            assert forall|a: int, b: int|
                0 <= a < p.len() && 0 <= b < p.len() && a != b implies (#[trigger] p[a]).0@
                != (#[trigger] p[b]).0@ by {
                assert(p[a] == s[a] && p[b] == s[b]);
            }
        }
        lemma_dom_len_of(p);
        let h = s.last().0@;
        assert(!has_key(p, h)) by {
            if has_key(p, h) {
                let j = choose|j: int| 0 <= j < p.len() && (#[trigger] p[j]).0@ == h;
                assert(p[j] == s[j]);
                assert(s[s.len() - 1].0@ == h);
            }
        }
        assert(entries_map(s).dom() =~= entries_map(p).dom().insert(h)) by {
            assert forall|k: Seq<char>| #[trigger] entries_map(s).dom().contains(k) == entries_map(p).dom().insert(h).contains(k) by {
                if has_key(p, k) {
                    let j = choose|j: int| 0 <= j < p.len() && (#[trigger] p[j]).0@ == k;
                    assert(s[j] == p[j]);
                }
                if has_key(s, k) {
                    let j = choose|j: int| 0 <= j < s.len() && (#[trigger] s[j]).0@ == k;
                    if j < p.len() {
                        assert(s[j] == p[j]);
                    }
                }
                if k == h {
                    assert(s[s.len() - 1].0@ == h);
                }
            }
        }
    }
}

} // verus!
