//! A map keyed by text, kept in the order of its keys.

use crate::text::chars_of;
use vstd::prelude::*;

verus! {

/// Whether text `a` comes before text `b`: the order of the first characters that
/// differ, and a proper prefix before what it begins.
pub open spec fn text_before(a: Seq<char>, b: Seq<char>) -> bool
    decreases a.len(),
{
    if b.len() == 0 {
        false
    } else if a.len() == 0 {
        true
    } else {
        a[0] < b[0] || (a[0] == b[0] && text_before(a.drop_first(), b.drop_first()))
    }
}

/// The order of texts is transitive.
pub proof fn text_before_transitive(a: Seq<char>, b: Seq<char>, c: Seq<char>)
    requires
        text_before(a, b),
        text_before(b, c),
    ensures
        text_before(a, c),
    decreases a.len(),
{
    if a.len() > 0 && a[0] == b[0] && b[0] == c[0] {
        text_before_transitive(a.drop_first(), b.drop_first(), c.drop_first());
    }
}

/// No text comes before itself.
pub proof fn text_before_irreflexive(a: Seq<char>)
    ensures
        !text_before(a, a),
    decreases a.len(),
{
    if a.len() > 0 {
        text_before_irreflexive(a.drop_first());
    }
}

/// Where one text stands to another in the order of texts.
#[derive(Clone, Copy, PartialEq, Eq, Structural)]
enum Place {
    Before,
    Same,
    After,
}

fn place(a: &str, b: &str) -> (r: Place)
    ensures
        r is Same <==> a@ == b@,
        r is Before <==> text_before(a@, b@),
        r is After <==> text_before(b@, a@),
{
    let x: Vec<char> = chars_of(a);
    let y: Vec<char> = chars_of(b);
    let mut i: usize = 0;
    assert(x@.skip(0) == x@ && y@.skip(0) == y@);
    while i < x.len() && i < y.len()
        invariant
            i <= x@.len(),
            i <= y@.len(),
            x@ == a@,
            y@ == b@,
            x@.take(i as int) == y@.take(i as int),
            text_before(a@, b@) == text_before(x@.skip(i as int), y@.skip(i as int)),
            text_before(b@, a@) == text_before(y@.skip(i as int), x@.skip(i as int)),
        decreases x@.len() - i,
    {
        if x[i] < y[i] {
            assert(x@[i as int] != y@[i as int]);
            return Place::Before;
        }
        if y[i] < x[i] {
            assert(x@[i as int] != y@[i as int]);
            return Place::After;
        }
        assert(x@.skip(i as int).drop_first() == x@.skip(i + 1));
        assert(y@.skip(i as int).drop_first() == y@.skip(i + 1));
        assert(x@.take(i + 1) == x@.take(i as int).push(x@[i as int]));
        assert(y@.take(i + 1) == y@.take(i as int).push(y@[i as int]));
        i += 1;
    }
    if i < y.len() {
        Place::Before
    } else if i < x.len() {
        Place::After
    } else {
        assert(x@.take(i as int) == x@);
        assert(y@.take(i as int) == y@);
        Place::Same
    }
}

/// A map from texts to values. No key occurs twice, and the entries stand in the
/// order of their keys.
pub struct TextMap<V> {
    entries: Vec<(String, V)>,
}

/// Whether the keys of the entries come one before the other.
pub open spec fn keys_ascend<V>(entries: Seq<(String, V)>) -> bool {
    forall|i: int, j: int|
        0 <= i < j < entries.len() ==> text_before(
            #[trigger] entries[i].0@,
            #[trigger] entries[j].0@,
        )
}

/// The map that entries make up: where no key occurs twice, each key has the value
/// of its entry.
pub open spec fn entries_map<V: DeepView>(entries: Seq<(String, V)>) -> Map<Seq<char>, V::V>
    decreases entries.len(),
{
    if entries.len() == 0 {
        Map::empty()
    } else {
        entries_map(entries.drop_last()).insert(
            entries.last().0@,
            entries.last().1.deep_view(),
        )
    }
}

impl<V: DeepView> View for TextMap<V> {
    type V = Map<Seq<char>, V::V>;

    closed spec fn view(&self) -> Map<Seq<char>, V::V> {
        entries_map(self.entries@)
    }
}

/// What the map of ascending entries holds, entry by entry.
proof fn lemma_entries_map<V: DeepView>(entries: Seq<(String, V)>)
    requires
        keys_ascend(entries),
    ensures
        forall|k: Seq<char>| #[trigger]
            entries_map(entries).contains_key(k) <==> exists|i: int|
                0 <= i < entries.len() && #[trigger] entries[i].0@ == k,
        forall|i: int|
            #![trigger entries[i]]
            0 <= i < entries.len() ==> entries_map(entries).contains_key(entries[i].0@)
                && entries_map(entries)[entries[i].0@] == entries[i].1.deep_view(),
    decreases entries.len(),
{
    if entries.len() > 0 {
        let front = entries.drop_last();
        let n = entries.len() - 1;
        assert(keys_ascend(front)) by {
            assert forall|i: int, j: int| 0 <= i < j < front.len() implies text_before(
                #[trigger] front[i].0@,
                #[trigger] front[j].0@,
            ) by {
                assert(text_before(entries[i].0@, entries[j].0@));
            }
        }
        lemma_entries_map(front);
        assert forall|k: Seq<char>| #[trigger] entries_map(entries).contains_key(k) implies exists|
            i: int,
        | 0 <= i < entries.len() && #[trigger] entries[i].0@ == k by {
            if k == entries[n].0@ {
            } else {
                assert(entries_map(front).contains_key(k));
                let i = choose|i: int| 0 <= i < front.len() && #[trigger] front[i].0@ == k;
                assert(entries[i].0@ == k);
            }
        }
        assert forall|i: int| #![trigger entries[i]] 0 <= i < entries.len() implies entries_map(
            entries,
        ).contains_key(entries[i].0@) && entries_map(entries)[entries[i].0@]
            == entries[i].1.deep_view() by {
            if i < n {
                assert(front[i] == entries[i]);
                assert(text_before(entries[i].0@, entries[n].0@));
                text_before_irreflexive(entries[n].0@);
            }
        }
    }
}

/// The map of entries in the order of their keys has each of them, and nothing else, and each
/// key comes before those behind it.
pub proof fn map_is_its_entries<V: DeepView>(entries: Seq<(String, V)>, key: Seq<char>)
    requires
        keys_ascend(entries),
    ensures
        entries_map(entries).contains_key(key) <==> exists|i: int|
            0 <= i < entries.len() && #[trigger] entries[i].0@ == key,
        forall|i: int|
            #![trigger entries[i]]
            0 <= i < entries.len() ==> entries_map(entries).contains_key(entries[i].0@)
                && entries_map(entries)[entries[i].0@] == entries[i].1.deep_view(),
        forall|i: int, j: int|
            #![trigger entries[i], entries[j]]
            0 <= i < j < entries.len() ==> text_before(entries[i].0@, entries[j].0@),
{
    lemma_entries_map(entries);
}

impl<V> TextMap<V> {
    #[verifier::type_invariant]
    spec fn well_formed(self) -> bool {
        keys_ascend(self.entries@)
    }
}

impl<V: DeepView> TextMap<V> {
    /// The map that holds nothing.
    pub fn new() -> (r: Self)
        ensures
            r@ == Map::<Seq<char>, V::V>::empty(),
    {
        TextMap { entries: Vec::new() }
    }

    /// The position of the first entry whose key does not come before `key`.
    fn position(entries: &Vec<(String, V)>, key: &str) -> (r: (usize, bool))
        requires
            keys_ascend(entries@),
        ensures
            r.0 <= entries@.len(),
            forall|i: int| 0 <= i < r.0 ==> text_before(#[trigger] entries@[i].0@, key@),
            r.1 ==> r.0 < entries@.len() && entries@[r.0 as int].0@ == key@,
            !r.1 ==> forall|i: int|
                r.0 <= i < entries@.len() ==> text_before(key@, #[trigger] entries@[i].0@),
    {
        let mut i: usize = 0;
        while i < entries.len()
            invariant
                i <= entries@.len(),
                keys_ascend(entries@),
                forall|k: int| 0 <= k < i ==> text_before(#[trigger] entries@[k].0@, key@),
            decreases entries@.len() - i,
        {
            match place(entries[i].0.as_str(), key) {
                Place::Before => {
                    i += 1;
                },
                Place::Same => {
                    return (i, true);
                },
                Place::After => {
                    proof {
                        assert forall|k: int| i <= k < entries@.len() implies text_before(
                            key@,
                            #[trigger] entries@[k].0@,
                        ) by {
                            if k > i {
                                assert(text_before(entries@[i as int].0@, entries@[k].0@));
                                text_before_transitive(
                                    key@,
                                    entries@[i as int].0@,
                                    entries@[k].0@,
                                );
                            }
                        }
                    }
                    return (i, false);
                },
            }
        }
        (i, false)
    }

    /// Gives `key` the value `value`, in place of the one that it had.
    pub fn insert(&mut self, key: String, value: V)
        ensures
            final(self)@ == old(self)@.insert(key@, value.deep_view()),
    {
        proof {
            use_type_invariant(&*self);
        }
        let ghost before = self.entries@;
        let mut entries: Vec<(String, V)> = Vec::new();
        std::mem::swap(&mut entries, &mut self.entries);
        let (i, found): (usize, bool) = Self::position(&entries, key.as_str());
        let ghost k = key@;
        let ghost v = value.deep_view();
        if found {
            let _ = entries.remove(i);
        }
        entries.insert(i, (key, value));
        proof {
            let after = entries@;
            let n = i as int;
            assert(after[n].0@ == k && after[n].1.deep_view() == v);
            if found {
                assert forall|j: int| n < j < before.len() implies text_before(
                    k,
                    #[trigger] before[j].0@,
                ) by {
                    assert(text_before(before[n].0@, before[j].0@));
                }
                assert(after.len() == before.len());
                assert forall|j: int| 0 <= j < before.len() && j != n implies #[trigger] after[j]
                    == before[j] by {}
            } else {
                assert forall|j: int| n <= j < before.len() implies #[trigger] after[j + 1]
                    == before[j] by {}
                assert forall|j: int| n < j < after.len() implies #[trigger] after[j] == before[j
                    - 1] by {}
                assert forall|j: int| 0 <= j < n implies #[trigger] after[j] == before[j] by {}
            }
            assert(keys_ascend(after)) by {
                assert forall|a: int, b: int| 0 <= a < b < after.len() implies text_before(
                    #[trigger] after[a].0@,
                    #[trigger] after[b].0@,
                ) by {
                    let a0 = if found || a < n {
                        a
                    } else {
                        a - 1
                    };
                    let b0 = if found || b < n {
                        b
                    } else {
                        b - 1
                    };
                    if a != n && b != n {
                        assert(after[a] == before[a0] && after[b] == before[b0]);
                        assert(text_before(before[a0].0@, before[b0].0@));
                    } else if a == n {
                        assert(after[b] == before[b0]);
                        assert(text_before(k, before[b0].0@));
                    } else {
                        assert(after[a] == before[a0]);
                        assert(text_before(before[a0].0@, k));
                    }
                }
            }
            lemma_entries_map(before);
            lemma_entries_map(after);
            let old_map = entries_map(before);
            let new_map = entries_map(after);
            assert forall|q: Seq<char>| #[trigger]
                new_map.contains_key(q) == old_map.insert(k, v).contains_key(q) by {
                if new_map.contains_key(q) && q != k {
                    let j = choose|j: int| 0 <= j < after.len() && #[trigger] after[j].0@ == q;
                    let j0 = if found || j < n {
                        j
                    } else {
                        j - 1
                    };
                    assert(before[j0] == after[j]);
                    assert(before[j0].0@ == q);
                }
                if old_map.contains_key(q) {
                    let j = choose|j: int| 0 <= j < before.len() && #[trigger] before[j].0@ == q;
                    let j1 = if found || j < n {
                        j
                    } else {
                        j + 1
                    };
                    assert(after[j1].0@ == q);
                }
            }
            assert forall|q: Seq<char>| #[trigger] new_map.contains_key(q) implies new_map[q]
                == old_map.insert(k, v)[q] by {
                let j = choose|j: int| 0 <= j < after.len() && #[trigger] after[j].0@ == q;
                if j != n {
                    text_before_irreflexive(k);
                    if j < n {
                        assert(text_before(after[j].0@, after[n].0@));
                    } else {
                        assert(text_before(after[n].0@, after[j].0@));
                    }
                    let j0 = if found || j < n {
                        j
                    } else {
                        j - 1
                    };
                    assert(before[j0] == after[j]);
                }
            }
            assert(new_map =~= old_map.insert(k, v));
        }
        self.entries = entries;
    }

    /// The value of `key`, where it has one.
    pub fn get(&self, key: &str) -> (r: Option<&V>)
        ensures
            r is Some <==> self@.contains_key(key@),
            r matches Some(v) ==> v.deep_view() == self@[key@],
    {
        proof {
            use_type_invariant(self);
            lemma_entries_map(self.entries@);
        }
        let (i, found): (usize, bool) = Self::position(&self.entries, key);
        if found {
            Some(&self.entries[i].1)
        } else {
            proof {
                text_before_irreflexive(key@);
            }
            None
        }
    }

    /// Whether `key` has a value.
    pub fn contains_key(&self, key: &str) -> (r: bool)
        ensures
            r == self@.contains_key(key@),
    {
        self.get(key).is_some()
    }

    /// The entries of the map, in the order of their keys.
    pub fn into_entries(self) -> (r: Vec<(String, V)>)
        ensures
            keys_ascend(r@),
            entries_map(r@) == self@,
    {
        proof {
            use_type_invariant(&self);
        }
        self.entries
    }
}

} // verus!
