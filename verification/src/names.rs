//! Small collections keyed by strings: a set of names and a map from names
//! to sizes.  Each keeps its items in insertion order with no key twice.
use vstd::prelude::*;
use crate::text::str_eq;

verus! {

pub open spec fn string_views(v: Seq<String>) -> Seq<Seq<char>> {
    v.map_values(|s: String| s@)
}

/// A set of names, kept in insertion order.
pub struct NameSet {
    items: Vec<String>,
}

impl NameSet {
    /// The names, in insertion order.
    pub closed spec fn seq(&self) -> Seq<Seq<char>> {
        string_views(self.items@)
    }

    #[verifier::type_invariant]
    spec fn distinct(&self) -> bool {
        self.seq().no_duplicates()
    }

    pub fn new() -> (r: NameSet)
        ensures
            r.seq() == Seq::<Seq<char>>::empty(),
            r@ == Set::<Seq<char>>::empty(),
    {
        let r = NameSet { items: Vec::new() };
        assert(r.seq() =~= Seq::<Seq<char>>::empty());
        r
    }

    fn index_of(&self, name: &str) -> (r: Option<usize>)
        ensures
            r matches Some(i) ==> i < self.seq().len() && self.seq()[i as int] == name@,
            r is None ==> !self.seq().contains(name@),
    {
        let mut i: usize = 0;
        while i < self.items.len()
            invariant
                i <= self.items.len(),
                forall|k: int| 0 <= k < i ==> #[trigger] self.seq()[k] != name@,
            decreases self.items.len() - i,
        {
            if str_eq(self.items[i].as_str(), name) {
                return Some(i);
            }
            i = i + 1;
        }
        None
    }

    /// Whether `name` is in the set.
    pub fn contains(&self, name: &str) -> (r: bool)
        ensures
            r == self@.contains(name@),
    {
        self.index_of(name).is_some()
    }

    /// Adds `name`; returns whether it was absent.
    pub fn insert(&mut self, name: String) -> (r: bool)
        ensures
            r == !old(self)@.contains(name@),
            final(self)@ == old(self)@.insert(name@),
            final(self).seq() == (if r {
                old(self).seq().push(name@)
            } else {
                old(self).seq()
            }),
    {
        proof {
            use_type_invariant(&*self);
        }
        if self.index_of(name.as_str()).is_some() {
            proof {
                assert(self.seq().to_set().insert(name@) =~= self.seq().to_set());
            }
            false
        } else {
            let ghost before = self.seq();
            let mut items: Vec<String> = Vec::new();
            std::mem::swap(&mut items, &mut self.items);
            let ghost name_v = name@;
            items.push(name);
            proof {
                assert(string_views(items@) =~= before.push(name_v));
                lemma_push_distinct(before, name_v);
            }
            self.items = items;
            proof {
                assert(self.seq() =~= before.push(name@));
                lemma_push_to_set(before, name@);
            }
            true
        }
    }

    /// Removes `name`; returns whether it was present.
    pub fn remove(&mut self, name: &str) -> (r: bool)
        ensures
            r == old(self)@.contains(name@),
            final(self)@ == old(self)@.remove(name@),
    {
        proof {
            use_type_invariant(&*self);
        }
        match self.index_of(name) {
            None => {
                assert(self.seq().to_set().remove(name@) =~= self.seq().to_set());
                false
            },
            Some(i) => {
                let ghost before = self.seq();
                let mut items: Vec<String> = Vec::new();
                std::mem::swap(&mut items, &mut self.items);
                items.remove(i);
                proof {
                    assert(string_views(items@) =~= before.subrange(0, i as int) + before.subrange(
                        i + 1,
                        before.len() as int,
                    ));
                    lemma_remove_distinct(before, i as int);
                }
                self.items = items;
                proof {
                    assert(self.seq() =~= before.subrange(0, i as int) + before.subrange(
                        i + 1,
                        before.len() as int,
                    ));
                    assert forall|x: Seq<char>|
                        self.seq().to_set().contains(x) <==> before.to_set().remove(
                            name@,
                        ).contains(x) by {
                        if self.seq().contains(x) {
                            let k = choose|k: int| 0 <= k < self.seq().len() && self.seq()[k] == x;
                            if k < i {
                                assert(before[k] == x);
                            } else {
                                assert(before[k + 1] == x);
                            }
                            assert(before.contains(x));
                        }
                        if before.contains(x) && x != name@ {
                            let k = choose|k: int| 0 <= k < before.len() && before[k] == x;
                            assert(k != i);
                            if k < i {
                                assert(self.seq()[k] == x);
                            } else {
                                assert(self.seq()[k - 1] == x);
                            }
                        }
                    }
                    assert(self.seq().to_set() =~= before.to_set().remove(name@));
                }
                true
            },
        }
    }

    /// Number of names.
    pub fn len(&self) -> (r: usize)
        ensures
            r == self@.len(),
            r == self.seq().len(),
    {
        proof {
            use_type_invariant(self);
            self.seq().unique_seq_to_set();
        }
        self.items.len()
    }

    pub fn is_empty(&self) -> (r: bool)
        ensures
            r == (self@ == Set::<Seq<char>>::empty()),
            r == (self.seq().len() == 0),
    {
        proof {
            if self.seq().len() > 0 {
                assert(self@.contains(self.seq()[0]));
            } else {
                assert(self@ =~= Set::<Seq<char>>::empty());
            }
        }
        self.items.len() == 0
    }

    /// Removes every name.
    pub fn clear(&mut self)
        ensures
            final(self).seq() == Seq::<Seq<char>>::empty(),
            final(self)@ == Set::<Seq<char>>::empty(),
    {
        self.items = Vec::new();
        assert(self.seq() =~= Seq::<Seq<char>>::empty());
    }

    /// Keeps only the names that also occur in `allowed`, in their order.
    pub fn retain_among(&mut self, allowed: &Vec<String>)
        ensures
            final(self).seq() == old(self).seq().filter(
                |n: Seq<char>| string_views(allowed@).contains(n),
            ),
            final(self)@ == old(self)@.filter(|n: Seq<char>| string_views(allowed@).contains(n)),
    {
        proof {
            use_type_invariant(&*self);
        }
        let ghost pred = |n: Seq<char>| string_views(allowed@).contains(n);
        let ghost before = self.seq();
        let mut kept: Vec<String> = Vec::new();
        let mut i: usize = 0;
        while i < self.items.len()
            invariant
                i <= self.items.len(),
                before == self.seq(),
                before.no_duplicates(),
                pred == (|n: Seq<char>| string_views(allowed@).contains(n)),
                string_views(kept@) == before.take(i as int).filter(pred),
            decreases self.items.len() - i,
        {
            let name = &self.items[i];
            let mut found = false;
            let mut j: usize = 0;
            while j < allowed.len()
                invariant
                    j <= allowed.len(),
                    found == string_views(allowed@).take(j as int).contains(name@),
                decreases allowed.len() - j,
            {
                proof {
                    assert(string_views(allowed@).take(j + 1) =~= string_views(allowed@).take(
                        j as int,
                    ).push(allowed@[j as int]@));
                    lemma_push_contains(string_views(allowed@).take(j as int), allowed@[j as int]@);
                }
                if str_eq(allowed[j].as_str(), name.as_str()) {
                    found = true;
                }
                j = j + 1;
            }
            proof {
                assert(string_views(allowed@).take(allowed.len() as int) =~= string_views(
                    allowed@,
                ));
                assert(before.take(i + 1).drop_last() =~= before.take(i as int));
                assert(before.take(i + 1).last() == name@);
                assert(found == string_views(allowed@).contains(name@));
                assert(pred(name@) == found);
                reveal(Seq::filter);
            }
            if found {
                let ghost k0 = kept@;
                kept.push(name.clone());
                proof {
                    assert(string_views(kept@) =~= string_views(k0).push(name@));
                }
            }
            i = i + 1;
        }
        proof {
            assert(before.take(before.len() as int) =~= before);
            lemma_filter_facts(before, pred);
        }
        self.items = kept;
        proof {
            assert forall|x: Seq<char>|
                self.seq().to_set().contains(x) <==> before.to_set().filter(pred).contains(x) by {
                lemma_filter_facts(before, pred);
            }
            assert(self.seq().to_set() =~= before.to_set().filter(pred));
        }
    }

    /// The names, in insertion order.
    pub fn to_vec(&self) -> (r: Vec<String>)
        ensures
            string_views(r@) == self.seq(),
    {
        let r = self.items.clone();
        proof {
            assert(string_views(r@) =~= string_views(self.items@)) by {
                assert forall|k: int| 0 <= k < r@.len() implies r@[k]@ == self.items@[k]@ by {
                    assert(cloned::<String>(self.items@[k], r@[k]));
                }
            }
        }
        r
    }
}

impl View for NameSet {
    type V = Set<Seq<char>>;

    open spec fn view(&self) -> Set<Seq<char>> {
        self.seq().to_set()
    }
}

pub proof fn lemma_push_contains<A>(s: Seq<A>, x: A)
    ensures
        forall|y: A| s.push(x).contains(y) <==> (s.contains(y) || y == x),
{
    assert forall|y: A| s.push(x).contains(y) <==> (s.contains(y) || y == x) by {
        if s.push(x).contains(y) {
            let k = choose|k: int| 0 <= k < s.len() + 1 && s.push(x)[k] == y;
            if k < s.len() {
                assert(s[k] == y);
            }
        }
        if s.contains(y) {
            let k = choose|k: int| 0 <= k < s.len() && s[k] == y;
            assert(s.push(x)[k] == y);
        }
        if y == x {
            assert(s.push(x)[s.len() as int] == y);
        }
    }
}

pub proof fn lemma_push_to_set<A>(s: Seq<A>, x: A)
    ensures
        s.push(x).to_set() == s.to_set().insert(x),
{
    lemma_push_contains(s, x);
    assert forall|y: A| #[trigger] s.push(x).to_set().contains(y) == s.to_set().insert(x).contains(
        y,
    ) by {
        assert(s.push(x).to_set().contains(y) == s.push(x).contains(y));
        assert(s.to_set().contains(y) == s.contains(y));
    }
    assert(s.push(x).to_set() =~= s.to_set().insert(x));
}

pub proof fn lemma_push_distinct<A>(s: Seq<A>, x: A)
    requires
        s.no_duplicates(),
        !s.contains(x),
    ensures
        s.push(x).no_duplicates(),
{
    assert forall|i: int, j: int|
        0 <= i < s.len() + 1 && 0 <= j < s.len() + 1 && i != j implies s.push(x)[i] != s.push(
            x,
        )[j] by {
        if i < s.len() && j < s.len() {
        } else if i < s.len() {
            assert(s.contains(s[i]));
        } else {
            assert(s.contains(s[j]));
        }
    }
}

pub proof fn lemma_remove_distinct<A>(s: Seq<A>, i: int)
    requires
        s.no_duplicates(),
        0 <= i < s.len(),
    ensures
        (s.subrange(0, i) + s.subrange(i + 1, s.len() as int)).no_duplicates(),
{
    let t = s.subrange(0, i) + s.subrange(i + 1, s.len() as int);
    assert forall|a: int, b: int| 0 <= a < t.len() && 0 <= b < t.len() && a != b implies t[a]
        != t[b] by {
        let sa = if a < i { a } else { a + 1 };
        let sb = if b < i { b } else { b + 1 };
        assert(t[a] == s[sa] && t[b] == s[sb]);
    }
}

/// What a filter keeps: the elements that satisfy the predicate, with no
/// duplicate introduced.
pub proof fn lemma_filter_facts<A>(s: Seq<A>, pred: spec_fn(A) -> bool)
    ensures
        s.no_duplicates() ==> s.filter(pred).no_duplicates(),
        forall|x: A| s.filter(pred).contains(x) <==> (s.contains(x) && pred(x)),
    decreases s.len(),
{
    reveal(Seq::filter);
    if s.len() > 0 {
        let p = s.drop_last();
        lemma_filter_facts(p, pred);
        assert forall|x: A| s.contains(x) <==> (p.contains(x) || x == s.last()) by {
            if s.contains(x) {
                let k = choose|k: int| 0 <= k < s.len() && s[k] == x;
                if k < s.len() - 1 {
                    assert(p[k] == x);
                }
            }
            if p.contains(x) {
                let k = choose|k: int| 0 <= k < p.len() && p[k] == x;
                assert(s[k] == x);
            }
            if x == s.last() {
                assert(s[s.len() - 1] == x);
            }
        }
        let f = p.filter(pred);
        if pred(s.last()) {
            assert(s.filter(pred) == f.push(s.last()));
            assert forall|x: A| f.push(s.last()).contains(x) <==> (f.contains(x) || x == s.last()) by {
                if f.push(s.last()).contains(x) {
                    let k = choose|k: int| 0 <= k < f.len() + 1 && f.push(s.last())[k] == x;
                    if k < f.len() {
                        assert(f[k] == x);
                    }
                }
                if f.contains(x) {
                    let k = choose|k: int| 0 <= k < f.len() && f[k] == x;
                    assert(f.push(s.last())[k] == x);
                }
                if x == s.last() {
                    assert(f.push(s.last())[f.len() as int] == x);
                }
            }
            if s.no_duplicates() {
                assert(p.no_duplicates());
                assert(!p.contains(s.last())) by {
                    if p.contains(s.last()) {
                        let k = choose|k: int| 0 <= k < p.len() && p[k] == s.last();
                        assert(s[k] == s[s.len() - 1]);
                    }
                }
                assert(f.push(s.last()).no_duplicates()) by {
                    assert forall|i: int, j: int|
                        0 <= i < f.len() + 1 && 0 <= j < f.len() + 1 && i != j implies f.push(
                            s.last(),
                        )[i] != f.push(s.last())[j] by {
                        if i < f.len() && j < f.len() {
                        } else if i < f.len() {
                            assert(f.contains(f[i]));
                        } else {
                            assert(f.contains(f[j]));
                        }
                    }
                }
            }
        } else {
            assert(s.filter(pred) == f);
        }
    }
}

/// Keys of a list of (key, value) pairs.
pub open spec fn pair_keys(p: Seq<(Seq<char>, u64)>) -> Seq<Seq<char>> {
    p.map_values(|kv: (Seq<char>, u64)| kv.0)
}

/// The map a list of pairs with distinct keys describes.
pub open spec fn pairs_map(p: Seq<(Seq<char>, u64)>) -> Map<Seq<char>, u64> {
    Map::new(
        |k: Seq<char>| pair_keys(p).contains(k),
        |k: Seq<char>| p[pair_keys(p).index_of(k)].1,
    )
}

/// Sum of the values of a list of pairs.
pub open spec fn sum_values(p: Seq<(Seq<char>, u64)>) -> int
    decreases p.len(),
{
    if p.len() == 0 {
        0
    } else {
        sum_values(p.drop_last()) + p.last().1
    }
}

/// A map from names to sizes, kept in insertion order.
pub struct SizeMap {
    items: Vec<(String, u64)>,
}

impl SizeMap {
    /// The (key, value) pairs, in insertion order.
    pub closed spec fn pairs(&self) -> Seq<(Seq<char>, u64)> {
        self.items@.map_values(|kv: (String, u64)| (kv.0@, kv.1))
    }

    #[verifier::type_invariant]
    spec fn distinct_keys(&self) -> bool {
        pair_keys(self.pairs()).no_duplicates()
    }

    pub fn new() -> (r: SizeMap)
        ensures
            r.pairs() == Seq::<(Seq<char>, u64)>::empty(),
            r@ == Map::<Seq<char>, u64>::empty(),
    {
        let r = SizeMap { items: Vec::new() };
        assert(r.pairs() =~= Seq::<(Seq<char>, u64)>::empty());
        assert(r@ =~= Map::<Seq<char>, u64>::empty());
        r
    }

    fn position(&self, key: &str) -> (r: Option<usize>)
        ensures
            r matches Some(i) ==> i < self.pairs().len() && self.pairs()[i as int].0 == key@,
            r is None ==> !pair_keys(self.pairs()).contains(key@),
    {
        let mut i: usize = 0;
        while i < self.items.len()
            invariant
                i <= self.items.len(),
                forall|k: int| 0 <= k < i ==> #[trigger] self.pairs()[k].0 != key@,
            decreases self.items.len() - i,
        {
            if str_eq(self.items[i].0.as_str(), key) {
                return Some(i);
            }
            i = i + 1;
        }
        proof {
            if pair_keys(self.pairs()).contains(key@) {
                let k = choose|k: int|
                    0 <= k < pair_keys(self.pairs()).len() && pair_keys(self.pairs())[k] == key@;
                assert(self.pairs()[k].0 == key@);
            }
        }
        None
    }

    /// The value stored under `key`.
    pub fn get(&self, key: &str) -> (r: Option<u64>)
        ensures
            r == (if self@.contains_key(key@) {
                Some(self@[key@])
            } else {
                None::<u64>
            }),
    {
        proof {
            use_type_invariant(self);
        }
        match self.position(key) {
            None => None,
            Some(i) => {
                proof {
                    let ks = pair_keys(self.pairs());
                    assert(ks[i as int] == key@);
                    ks.index_of_first_ensures(key@);
                    assert(ks.contains(key@));
                    let j = ks.index_of(key@);
                    assert(ks[j] == key@);
                }
                Some(self.items[i].1)
            },
        }
    }

    /// Stores `value` under `key`, replacing any earlier value.
    pub fn insert(&mut self, key: String, value: u64)
        ensures
            final(self)@ == old(self)@.insert(key@, value),
            sum_values(final(self).pairs()) == sum_values(old(self).pairs()) - (if old(
                self,
            )@.contains_key(key@) {
                old(self)@[key@] as int
            } else {
                0
            }) + value,
    {
        proof {
            use_type_invariant(&*self);
        }
        let ghost before = self.pairs();
        let ghost ks = pair_keys(before);
        match self.position(key.as_str()) {
            Some(i) => {
                let mut items: Vec<(String, u64)> = Vec::new();
                std::mem::swap(&mut items, &mut self.items);
                let ghost kv = (key@, value);
                items.set(i, (key, value));
                proof {
                    assert(items@.map_values(|kv: (String, u64)| (kv.0@, kv.1)) =~= before.update(
                        i as int,
                        kv,
                    ));
                    assert(pair_keys(before.update(i as int, kv)) =~= ks);
                }
                self.items = items;
                proof {
                    let after = self.pairs();
                    assert(after =~= before.update(i as int, (key@, value)));
                    assert(pair_keys(after) =~= ks);
                    lemma_sum_update(before, i as int, (key@, value));
                    lemma_pairs_map_index(before, i as int);
                    assert(pairs_map(after) =~= pairs_map(before).insert(key@, value)) by {
                        assert forall|k: Seq<char>| pair_keys(after).contains(k) implies pairs_map(
                            after,
                        )[k] == pairs_map(before).insert(key@, value)[k] by {
                            let j = choose|j: int| 0 <= j < ks.len() && ks[j] == k;
                            lemma_pairs_map_index(after, j);
                            lemma_pairs_map_index(before, j);
                            assert(ks[i as int] == key@);
                            if j != i {
                                assert(ks[j] != ks[i as int]);
                                assert(after[j] == before[j]);
                            }
                        }
                    }
                }
            },
            None => {
                let mut items: Vec<(String, u64)> = Vec::new();
                std::mem::swap(&mut items, &mut self.items);
                let ghost kv = (key@, value);
                items.push((key, value));
                proof {
                    assert(items@.map_values(|kv: (String, u64)| (kv.0@, kv.1)) =~= before.push(
                        kv,
                    ));
                    assert(pair_keys(before.push(kv)) =~= ks.push(kv.0));
                    lemma_push_distinct(ks, kv.0);
                }
                self.items = items;
                proof {
                    let after = self.pairs();
                    assert(after =~= before.push((key@, value)));
                    assert(pair_keys(after) =~= ks.push(key@));
                    assert(after.drop_last() =~= before);
                    assert(pairs_map(after) =~= pairs_map(before).insert(key@, value)) by {
                        assert forall|k: Seq<char>| pair_keys(after).contains(k) implies pairs_map(
                            after,
                        )[k] == pairs_map(before).insert(key@, value)[k] by {
                            let j = choose|j: int|
                                0 <= j < pair_keys(after).len() && pair_keys(after)[j] == k;
                            lemma_pairs_map_index(after, j);
                            if j < before.len() {
                                assert(ks[j] == k);
                                assert(k != key@);
                                lemma_pairs_map_index(before, j);
                            }
                        }
                        assert forall|k: Seq<char>|
                            pairs_map(before).insert(key@, value).contains_key(
                                k,
                            ) implies pair_keys(after).contains(k) by {
                            if k != key@ {
                                let j = choose|j: int| 0 <= j < ks.len() && ks[j] == k;
                                assert(pair_keys(after)[j] == k);
                            } else {
                                assert(pair_keys(after)[before.len() as int] == k);
                            }
                        }
                    }
                }
            },
        }
    }

    /// Removes every entry.
    pub fn clear(&mut self)
        ensures
            final(self).pairs() == Seq::<(Seq<char>, u64)>::empty(),
            final(self)@ == Map::<Seq<char>, u64>::empty(),
    {
        self.items = Vec::new();
        assert(self.pairs() =~= Seq::<(Seq<char>, u64)>::empty());
        assert(self@ =~= Map::<Seq<char>, u64>::empty());
    }

    pub fn is_empty(&self) -> (r: bool)
        ensures
            r == (self@ == Map::<Seq<char>, u64>::empty()),
            r == (self.pairs().len() == 0),
    {
        proof {
            if self.pairs().len() > 0 {
                assert(pair_keys(self.pairs())[0] == self.pairs()[0].0);
                assert(self@.contains_key(self.pairs()[0].0));
            } else {
                assert(self@ =~= Map::<Seq<char>, u64>::empty());
            }
        }
        self.items.len() == 0
    }

    /// Sum of all values, `None` where it does not fit in a `u64`.
    pub fn total(&self) -> (r: Option<u64>)
        ensures
            r matches Some(t) ==> t == sum_values(self.pairs()),
            r is None ==> sum_values(self.pairs()) > u64::MAX,
    {
        let mut t: u64 = 0;
        let mut i: usize = 0;
        while i < self.items.len()
            invariant
                i <= self.items.len(),
                t == sum_values(self.pairs().take(i as int)),
            decreases self.items.len() - i,
        {
            proof {
                assert(self.pairs().take(i + 1).drop_last() =~= self.pairs().take(i as int));
            }
            let v = self.items[i].1;
            if t > u64::MAX - v {
                proof {
                    lemma_sum_prefix_le(self.pairs(), i + 1);
                }
                return None;
            }
            t = t + v;
            i = i + 1;
        }
        assert(self.pairs().take(self.items.len() as int) =~= self.pairs());
        Some(t)
    }

    /// The keys, in insertion order.
    pub fn keys(&self) -> (r: Vec<String>)
        ensures
            string_views(r@) == pair_keys(self.pairs()),
    {
        let mut r: Vec<String> = Vec::new();
        let mut i: usize = 0;
        while i < self.items.len()
            invariant
                i <= self.items.len(),
                string_views(r@) == pair_keys(self.pairs()).take(i as int),
            decreases self.items.len() - i,
        {
            let ghost r0 = r@;
            r.push(self.items[i].0.clone());
            proof {
                assert(string_views(r@) =~= string_views(r0).push(self.items@[i as int].0@));
                assert(pair_keys(self.pairs()).take(i + 1) =~= pair_keys(self.pairs()).take(
                    i as int,
                ).push(self.pairs()[i as int].0));
            }
            i = i + 1;
        }
        assert(pair_keys(self.pairs()).take(self.items.len() as int) =~= pair_keys(self.pairs()));
        r
    }
}

impl View for SizeMap {
    type V = Map<Seq<char>, u64>;

    open spec fn view(&self) -> Map<Seq<char>, u64> {
        pairs_map(self.pairs())
    }
}

/// In a list with distinct keys, the map holds each pair.
pub proof fn lemma_pairs_map_index(p: Seq<(Seq<char>, u64)>, i: int)
    requires
        pair_keys(p).no_duplicates(),
        0 <= i < p.len(),
    ensures
        pairs_map(p).contains_key(p[i].0),
        pairs_map(p)[p[i].0] == p[i].1,
{
    let ks = pair_keys(p);
    assert(ks[i] == p[i].0);
    ks.index_of_first_ensures(p[i].0);
    let j = ks.index_of(p[i].0);
    assert(ks[j] == p[i].0);
}

proof fn lemma_sum_update(p: Seq<(Seq<char>, u64)>, i: int, kv: (Seq<char>, u64))
    requires
        0 <= i < p.len(),
    ensures
        sum_values(p.update(i, kv)) == sum_values(p) - p[i].1 + kv.1,
    decreases p.len(),
{
    if i < p.len() - 1 {
        lemma_sum_update(p.drop_last(), i, kv);
        assert(p.update(i, kv).drop_last() =~= p.drop_last().update(i, kv));
    } else {
        assert(p.update(i, kv).drop_last() =~= p.drop_last());
    }
}

proof fn lemma_sum_prefix_le(p: Seq<(Seq<char>, u64)>, n: int)
    requires
        0 <= n <= p.len(),
    ensures
        sum_values(p.take(n)) <= sum_values(p),
    decreases p.len(),
{
    if n < p.len() {
        lemma_sum_prefix_le(p.drop_last(), n);
        assert(p.drop_last().take(n) =~= p.take(n));
    } else {
        assert(p.take(n) =~= p);
    }
}

} // verus!
