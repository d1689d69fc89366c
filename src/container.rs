use vstd::prelude::*;
use vstd::set_lib::lemma_subset_equality;

verus! {

/// Right-biased union: every key of either side, with the overlay's value where both hold it.
pub open spec fn combined<K, W>(base: Map<K, W>, overlay: Map<K, W>) -> Map<K, W> {
    base.union_prefer_right(overlay)
}

/// The map that a sequence of entries describes: the first entry of a key gives its value.
pub open spec fn entries_map<V: View>(s: Seq<(String, V)>) -> Map<Seq<char>, V::V>
    decreases s.len(),
{
    if s.len() == 0 {
        Map::empty()
    } else {
        entries_map(s.drop_first()).insert(s[0].0@, s[0].1@)
    }
}

/// No key occurs twice among the entries.
pub open spec fn keys_unique<V>(s: Seq<(String, V)>) -> bool {
    forall|i: int, j: int| 0 <= i < s.len() && 0 <= j < s.len() && i != j ==> s[i].0@ != s[j].0@
}

proof fn lemma_entries_map_dom<V: View>(s: Seq<(String, V)>, k: Seq<char>)
    ensures
        entries_map(s).contains_key(k) <==> exists|i: int| 0 <= i < s.len() && s[i].0@ == k,
    decreases s.len(),
{
    if s.len() > 0 {
        lemma_entries_map_dom(s.drop_first(), k);
        if entries_map(s.drop_first()).contains_key(k) {
            let i = choose|i: int| 0 <= i < s.len() - 1 && s.drop_first()[i].0@ == k;
            assert(s[i + 1].0@ == k);
        }
        if exists|i: int| 0 <= i < s.len() && s[i].0@ == k {
            let i = choose|i: int| 0 <= i < s.len() && s[i].0@ == k;
            if i > 0 {
                assert(s.drop_first()[i - 1].0@ == k);
            }
        }
    }
}

proof fn lemma_entries_map_value<V: View>(s: Seq<(String, V)>, i: int)
    requires
        keys_unique(s),
        0 <= i < s.len(),
    ensures
        entries_map(s).contains_key(s[i].0@),
        entries_map(s)[s[i].0@] == s[i].1@,
    decreases s.len(),
{
    if i > 0 {
        let t = s.drop_first();
        assert(t[i - 1] == s[i]);
        assert(keys_unique(t)) by {
            assert forall|a: int, b: int| 0 <= a < t.len() && 0 <= b < t.len() && a != b implies t[a].0@ != t[b].0@ by {
                assert(t[a] == s[a + 1] && t[b] == s[b + 1]);
            }
        }
        lemma_entries_map_value(t, i - 1);
        assert(s[0].0@ != s[i].0@);
    }
}

proof fn lemma_entries_map_update<V: View>(s: Seq<(String, V)>, i: int, e: (String, V))
    requires
        keys_unique(s),
        0 <= i < s.len(),
        s[i].0@ == e.0@,
    ensures
        entries_map(s.update(i, e)) == entries_map(s).insert(e.0@, e.1@),
        keys_unique(s.update(i, e)),
    decreases s.len(),
{
    let u = s.update(i, e);
    assert(keys_unique(u)) by {
        assert forall|a: int, b: int| 0 <= a < u.len() && 0 <= b < u.len() && a != b implies u[a].0@ != u[b].0@ by {
            assert(u[a].0@ == s[a].0@ && u[b].0@ == s[b].0@);
        }
    }
    let t = s.drop_first();
    assert(keys_unique(t)) by {
        assert forall|a: int, b: int| 0 <= a < t.len() && 0 <= b < t.len() && a != b implies t[a].0@ != t[b].0@ by {
            assert(t[a] == s[a + 1] && t[b] == s[b + 1]);
        }
    }
    if i == 0 {
        assert(u.drop_first() =~= t);
        assert(entries_map(u) =~= entries_map(s).insert(e.0@, e.1@)) by {
            lemma_entries_map_dom(t, e.0@);
            if entries_map(t).contains_key(e.0@) {
                let j = choose|j: int| 0 <= j < t.len() && t[j].0@ == e.0@;
                assert(s[j + 1].0@ == s[0].0@);
            }
        }
    } else {
        assert(u.drop_first() =~= t.update(i - 1, e));
        lemma_entries_map_update(t, i - 1, e);
        assert(s[0].0@ != s[i].0@);
        assert(entries_map(u) =~= entries_map(s).insert(e.0@, e.1@));
    }
}

proof fn lemma_entries_map_push<V: View>(s: Seq<(String, V)>, e: (String, V))
    requires
        !entries_map(s).contains_key(e.0@),
    ensures
        entries_map(s.push(e)) == entries_map(s).insert(e.0@, e.1@),
    decreases s.len(),
{
    if s.len() > 0 {
        let t = s.drop_first();
        assert(s.push(e).drop_first() =~= t.push(e));
        lemma_entries_map_dom(s, e.0@);
        lemma_entries_map_dom(t, e.0@);
        if entries_map(t).contains_key(e.0@) {
            let j = choose|j: int| 0 <= j < t.len() && t[j].0@ == e.0@;
            assert(s[j + 1].0@ == e.0@);
        }
        lemma_entries_map_push(t, e);
        assert(s[0].0@ != e.0@);
        assert(entries_map(s.push(e)) =~= entries_map(s).insert(e.0@, e.1@));
    } else {
        assert(s.push(e).drop_first() =~= s);
        assert(entries_map(s.push(e)) =~= entries_map(s).insert(e.0@, e.1@));
    }
}

/// A mapping from string keys to values, with each key present at most once.
#[derive(Debug)]
pub struct KeyMap<V> {
    entries: Vec<(String, V)>,
}

/// Custom properties: string keys with string values.
pub type Properties = KeyMap<String>;

/// Context tags: string keys with string values that describe the device, session, user and so on.
pub type ContextTags = KeyMap<String>;

/// Custom measurements: string keys with the IEEE 754 bit pattern of a 64-bit float as value.
pub type Measurements = KeyMap<u64>;

impl<V: View> View for KeyMap<V> {
    type V = Map<Seq<char>, V::V>;

    closed spec fn view(&self) -> Map<Seq<char>, V::V> {
        entries_map(self.entries@)
    }
}

impl<V> KeyMap<V> {
    #[verifier::type_invariant]
    spec fn inv(&self) -> bool {
        keys_unique(self.entries@)
    }
}

impl<V: View> KeyMap<V> {
    /// Creates an empty container.
    pub fn new() -> (r: Self)
        ensures
            r@ == Map::<Seq<char>, V::V>::empty(),
    {
        KeyMap { entries: Vec::new() }
    }

    /// Number of keys held.
    pub fn len(&self) -> (r: usize)
        ensures
            r == self@.len(),
    {
        proof {
            use_type_invariant(self);
            self.lemma_len();
        }
        self.entries.len()
    }

    /// Whether no key is held.
    pub fn is_empty(&self) -> (r: bool)
        ensures
            r == (self@.len() == 0),
    {
        self.len() == 0
    }

    proof fn lemma_len(&self)
        requires
            keys_unique(self.entries@),
        ensures
            self@.dom().finite(),
            self@.len() == self.entries@.len(),
    {
        lemma_entries_map_len(self.entries@);
    }

    /// Position of the entry with the given key, if any.
    fn position(&self, k: &String) -> (r: Option<usize>)
        ensures
            match r {
                Some(i) => i < self.entries@.len() && self.entries@[i as int].0@ == k@,
                None => !self@.contains_key(k@),
            },
    {
        let mut i: usize = 0;
        while i < self.entries.len()
            invariant
                i <= self.entries@.len(),
                forall|j: int| 0 <= j < i ==> self.entries@[j].0@ != k@,
            decreases self.entries@.len() - i,
        {
            if self.entries[i].0 == *k {
                return Some(i);
            }
            i = i + 1;
        }
        proof {
            lemma_entries_map_dom(self.entries@, k@);
        }
        None
    }

    /// Two containers with as many entries each are equal once every entry of one is found
    /// in the other with the same value.
    proof fn lemma_equal_after_scan(&self, other: &Self)
        requires
            keys_unique(self.entries@),
            keys_unique(other.entries@),
            self.entries@.len() == other.entries@.len(),
            forall|j: int| 0 <= j < self.entries@.len() ==> other@.contains_key(#[trigger] self.entries@[j].0@)
                && other@[self.entries@[j].0@] == self.entries@[j].1@,
        ensures
            self@ == other@,
    {
        self.lemma_len();
        other.lemma_len();
        assert forall|k: Seq<char>| #[trigger] self@.dom().contains(k) implies other@.dom().contains(k) && other@[k] == self@[k] by {
            lemma_entries_map_dom(self.entries@, k);
            let j = choose|j: int| 0 <= j < self.entries@.len() && self.entries@[j].0@ == k;
            lemma_entries_map_value(self.entries@, j);
        }
        assert(self@.dom().subset_of(other@.dom()));
        lemma_subset_equality(self@.dom(), other@.dom());
        assert(self@ =~= other@);
    }

    /// An entry of `self` that `other` lacks, or holds with another value, makes them differ.
    proof fn lemma_differs_at(&self, other: &Self, j: int)
        requires
            keys_unique(self.entries@),
            0 <= j < self.entries@.len(),
            !(other@.contains_key(self.entries@[j].0@) && other@[self.entries@[j].0@] == self.entries@[j].1@),
        ensures
            self@ != other@,
    {
        lemma_entries_map_value(self.entries@, j);
    }

    /// Looks up the value of a key.
    pub fn get(&self, k: &String) -> (r: Option<&V>)
        ensures
            match r {
                Some(v) => self@.contains_key(k@) && self@[k@] == v@,
                None => !self@.contains_key(k@),
            },
    {
        proof {
            use_type_invariant(self);
        }
        match self.position(k) {
            Some(i) => {
                proof {
                    lemma_entries_map_value(self.entries@, i as int);
                }
                Some(&self.entries[i].1)
            },
            None => None,
        }
    }

    /// Sets the value of a key, returning the value it replaced.
    pub fn insert(&mut self, k: String, v: V) -> (r: Option<V>)
        ensures
            final(self)@ == old(self)@.insert(k@, v@),
            match r {
                Some(u) => old(self)@.contains_key(k@) && old(self)@[k@] == u@,
                None => !old(self)@.contains_key(k@),
            },
    {
        proof {
            use_type_invariant(&*self);
        }
        let found = self.position(&k);
        let mut entries: Vec<(String, V)> = Vec::new();
        std::mem::swap(&mut entries, &mut self.entries);
        let ghost before = entries@;
        match found {
            Some(i) => {
                proof {
                    lemma_entries_map_value(before, i as int);
                    lemma_entries_map_update(before, i as int, (k, v));
                }
                entries.push((k, v));
                let old_entry = entries.swap_remove(i);
                assert(entries@ =~= before.update(i as int, (k, v)));
                self.entries = entries;
                Some(old_entry.1)
            },
            None => {
                proof {
                    lemma_entries_map_push(before, (k, v));
                    lemma_entries_map_dom(before, k@);
                }
                entries.push((k, v));
                assert(keys_unique(entries@));
                self.entries = entries;
                None
            },
        }
    }
}

impl<V: View> KeyMap<V> {
    /// Merges two containers: starts from `base`, then sets every entry of `overlay`,
    /// which wins wherever both hold a key.
    pub fn combine(base: Self, overlay: Self) -> (r: Self)
        ensures
            r@ == combined(base@, overlay@),
    {
        proof {
            use_type_invariant(&overlay);
        }
        let ghost b = base@;
        let ghost o = overlay@;
        let mut result = base;
        let KeyMap { entries: mut rest } = overlay;
        let ghost all = rest@;
        while rest.len() > 0
            invariant
                keys_unique(all),
                entries_map(all) == o,
                rest@.len() <= all.len(),
                rest@ =~= all.subrange(0, rest@.len() as int),
                result@ == combined(b, entries_map(all.subrange(rest@.len() as int, all.len() as int))),
            decreases rest@.len(),
        {
            let ghost n = rest@.len() as int;
            let e = rest.pop().unwrap();
            proof {
                let tail = all.subrange(n, all.len() as int);
                let longer = all.subrange(n - 1, all.len() as int);
                assert(longer.drop_first() =~= tail);
                assert(longer[0] == e);
                assert(entries_map(longer) == entries_map(tail).insert(e.0@, e.1@));
                assert(combined(b, entries_map(longer)) =~= combined(b, entries_map(tail)).insert(e.0@, e.1@));
            }
            result.insert(e.0, e.1);
        }
        assert(all.subrange(0, all.len() as int) =~= all);
        result
    }
}

/// Combining takes the overlay's value for each of its keys, and the base's value for
/// every other key of the base; no other key appears.
pub proof fn lemma_combine_right_bias<V: View>(base: KeyMap<V>, overlay: KeyMap<V>, k: Seq<char>)
    ensures
        overlay@.contains_key(k) ==> combined(base@, overlay@).contains_key(k) && combined(base@, overlay@)[k] == overlay@[k],
        base@.contains_key(k) && !overlay@.contains_key(k) ==> combined(base@, overlay@).contains_key(k) && combined(base@, overlay@)[k] == base@[k],
        combined(base@, overlay@).contains_key(k) <==> (base@.contains_key(k) || overlay@.contains_key(k)),
{
}

/// Combining with an empty container on either side gives the other side unchanged.
pub proof fn lemma_combine_identity<V: View>(m: KeyMap<V>)
    ensures
        combined(m@, Map::<Seq<char>, V::V>::empty()) == m@,
        combined(Map::<Seq<char>, V::V>::empty(), m@) == m@,
{
    assert(combined(m@, Map::<Seq<char>, V::V>::empty()) =~= m@);
    assert(combined(Map::<Seq<char>, V::V>::empty(), m@) =~= m@);
}

/// Values that containers compare for equality, by their views.
trait ValueEq: View + Sized {
    fn value_eq(&self, other: &Self) -> (r: bool)
        ensures
            r == (self@ == other@),
    ;
}

impl ValueEq for String {
    fn value_eq(&self, other: &Self) -> (r: bool) {
        *self == *other
    }
}

impl ValueEq for u64 {
    fn value_eq(&self, other: &Self) -> (r: bool) {
        *self == *other
    }
}

impl<V: ValueEq> KeyMap<V> {
    /// Whether both containers hold the same keys with the same values.
    fn same_contents(&self, other: &Self) -> (r: bool)
        ensures
            r == (self@ == other@),
    {
        proof {
            use_type_invariant(self);
            use_type_invariant(other);
            self.lemma_len();
            other.lemma_len();
        }
        if self.entries.len() != other.entries.len() {
            return false;
        }
        let mut i: usize = 0;
        while i < self.entries.len()
            invariant
                keys_unique(self.entries@),
                keys_unique(other.entries@),
                i <= self.entries@.len(),
                forall|j: int| 0 <= j < i ==> other@.contains_key(#[trigger] self.entries@[j].0@)
                    && other@[self.entries@[j].0@] == self.entries@[j].1@,
            decreases self.entries@.len() - i,
        {
            match other.get(&self.entries[i].0) {
                Some(v) => {
                    if !v.value_eq(&self.entries[i].1) {
                        proof {
                            self.lemma_differs_at(other, i as int);
                        }
                        return false;
                    }
                },
                None => {
                    proof {
                        self.lemma_differs_at(other, i as int);
                    }
                    return false;
                },
            }
            assert(other@.contains_key(self.entries@[i as int].0@) && other@[self.entries@[i as int].0@] == self.entries@[i as int].1@);
            i = i + 1;
        }
        proof {
            self.lemma_equal_after_scan(other);
        }
        true
    }
}

impl PartialEq for KeyMap<String> {
    fn eq(&self, other: &Self) -> (r: bool) {
        self.same_contents(other)
    }
}

impl vstd::std_specs::cmp::PartialEqSpecImpl for KeyMap<String> {
    open spec fn obeys_eq_spec() -> bool {
        true
    }

    open spec fn eq_spec(&self, other: &Self) -> bool {
        self@ == other@
    }
}

impl PartialEq for KeyMap<u64> {
    fn eq(&self, other: &Self) -> (r: bool) {
        self.same_contents(other)
    }
}

impl vstd::std_specs::cmp::PartialEqSpecImpl for KeyMap<u64> {
    open spec fn obeys_eq_spec() -> bool {
        true
    }

    open spec fn eq_spec(&self, other: &Self) -> bool {
        self@ == other@
    }
}

proof fn lemma_entries_map_len<V: View>(s: Seq<(String, V)>)
    requires
        keys_unique(s),
    ensures
        entries_map(s).dom().finite(),
        entries_map(s).len() == s.len(),
    decreases s.len(),
{
    if s.len() > 0 {
        let t = s.drop_first();
        assert(keys_unique(t)) by {
            assert forall|a: int, b: int| 0 <= a < t.len() && 0 <= b < t.len() && a != b implies t[a].0@ != t[b].0@ by {
                assert(t[a] == s[a + 1] && t[b] == s[b + 1]);
            }
        }
        lemma_entries_map_len(t);
        lemma_entries_map_dom(t, s[0].0@);
        if entries_map(t).contains_key(s[0].0@) {
            let j = choose|j: int| 0 <= j < t.len() && t[j].0@ == s[0].0@;
            assert(s[j + 1].0@ == s[0].0@);
        }
    }
}

} // verus!
