//! The broker's table of connected devices' routes: for each device id, the
//! handle through which messages reach that device's connection.

use vstd::prelude::*;

verus! {

/// A map from device ids to routes, kept as a list of entries with distinct
/// ids in the order they were first inserted.
#[verifier::reject_recursive_types(R)]
pub struct RouteTable<R> {
    entries: Vec<(String, R)>,
}

/// Whether no two entries of `s` have the same id.
pub open spec fn ids_distinct<R>(s: Seq<(String, R)>) -> bool {
    forall|i: int, j: int| 0 <= i < s.len() && 0 <= j < s.len() && i != j ==> s[i].0@ != s[j].0@
}

/// Whether some entry of `s` has id `k`.
pub open spec fn has_id<R>(s: Seq<(String, R)>, k: Seq<char>) -> bool {
    exists|i: int| 0 <= i < s.len() && #[trigger] s[i].0@ == k
}

/// The route of the entry of `s` with id `k`.
pub open spec fn route_of<R>(s: Seq<(String, R)>, k: Seq<char>) -> R {
    s[choose|i: int| 0 <= i < s.len() && #[trigger] s[i].0@ == k].1
}

/// The map that the entries `s` stand for.
pub open spec fn entries_map<R>(s: Seq<(String, R)>) -> Map<Seq<char>, R> {
    Map::new(|k: Seq<char>| has_id(s, k), |k: Seq<char>| route_of(s, k))
}

/// Where ids are distinct, the entry at `i` is the one that `route_of`
/// picks for its id.
proof fn lemma_route_of_index<R>(s: Seq<(String, R)>, i: int)
    requires
        ids_distinct(s),
        0 <= i < s.len(),
    ensures
        has_id(s, s[i].0@),
        route_of(s, s[i].0@) == s[i].1,
{
    assert(s[i].0@ == s[i].0@);
    let j = choose|j: int| 0 <= j < s.len() && #[trigger] s[j].0@ == s[i].0@;
    assert(s[j].0@ == s[i].0@);
}

impl<R> RouteTable<R> {
    #[verifier::type_invariant]
    spec fn well_formed(self) -> bool {
        ids_distinct(self.entries@)
    }
}

impl<R> View for RouteTable<R> {
    type V = Map<Seq<char>, R>;

    closed spec fn view(&self) -> Map<Seq<char>, R> {
        entries_map(self.entries@)
    }
}

impl<R> RouteTable<R> {
    /// An empty table.
    pub fn new() -> (r: Self)
        ensures
            r@ == Map::<Seq<char>, R>::empty(),
    {
        let r = RouteTable { entries: Vec::new() };
        assert(r@ =~= Map::<Seq<char>, R>::empty());
        r
    }

    /// The route of device `key`, if it has one.
    pub fn get(&self, key: &String) -> (r: Option<&R>)
        ensures
            match r {
                Some(v) => self@.contains_key(key@) && *v == self@[key@],
                None => !self@.contains_key(key@),
            },
    {
        proof { use_type_invariant(self); }
        match find_index(&self.entries, key) {
            Some(i) => {
                proof { lemma_route_of_index(self.entries@, i as int); }
                Some(&self.entries[i].1)
            },
            None => None,
        }
    }

    /// Whether device `key` has a route.
    pub fn contains_key(&self, key: &String) -> (r: bool)
        ensures
            r == self@.contains_key(key@),
    {
        proof { use_type_invariant(self); }
        find_index(&self.entries, key).is_some()
    }

    /// Sets the route of device `key` to `route`, in place of any it had.
    pub fn insert(&mut self, key: String, route: R)
        ensures
            final(self)@ == old(self)@.insert(key@, route),
    {
        proof { use_type_invariant(&*self); }
        let ghost k = key@;
        let ghost pre = self.entries@;
        let mut entries: Vec<(String, R)> = Vec::new();
        std::mem::swap(&mut entries, &mut self.entries);
        match find_index(&entries, &key) {
            Some(i) => {
                entries.set(i, (key, route));
                proof { lemma_replace(pre, i as int, entries@[i as int]); }
            },
            None => {
                entries.push((key, route));
                proof { lemma_append(pre, (key, route)); }
            },
        }
        self.entries = entries;
    }

    /// Drops the route of device `key`, if it has one.
    pub fn remove(&mut self, key: &String)
        ensures
            final(self)@ == old(self)@.remove(key@),
    {
        proof { use_type_invariant(&*self); }
        let ghost pre = self.entries@;
        let mut entries: Vec<(String, R)> = Vec::new();
        std::mem::swap(&mut entries, &mut self.entries);
        match find_index(&entries, key) {
            Some(i) => {
                let _ = entries.remove(i);
                proof { lemma_delete(pre, i as int); }
            },
            None => {
                assert(entries_map(pre) =~= entries_map(pre).remove(key@));
            },
        }
        self.entries = entries;
    }

    /// All entries, each id once, with its route.
    pub fn entries(&self) -> (r: &Vec<(String, R)>)
        ensures
            ids_distinct(r@),
            entries_map(r@) == self@,
    {
        proof { use_type_invariant(self); }
        &self.entries
    }
}

/// The position of the entry with id `key` in `entries`, if any.
fn find_index<R>(entries: &Vec<(String, R)>, key: &String) -> (r: Option<usize>)
    ensures
        match r {
            Some(i) => i < entries@.len() && entries@[i as int].0@ == key@,
            None => !has_id(entries@, key@),
        },
{
    let mut i: usize = 0;
    while i < entries.len()
        invariant
            i <= entries@.len(),
            forall|j: int| 0 <= j < i ==> entries@[j].0@ != key@,
        decreases entries@.len() - i,
    {
        if entries[i].0 == *key {
            return Some(i);
        }
        i = i + 1;
    }
    None
}

/// Replacing the entry at `i` by one with the same id updates that id.
proof fn lemma_replace<R>(s: Seq<(String, R)>, i: int, e: (String, R))
    requires
        ids_distinct(s),
        0 <= i < s.len(),
        s[i].0@ == e.0@,
    ensures
        ids_distinct(s.update(i, e)),
        entries_map(s.update(i, e)) == entries_map(s).insert(e.0@, e.1),
{
    let t = s.update(i, e);
    assert forall|x: Seq<char>| #[trigger] has_id(t, x) == has_id(s, x) by {
        if has_id(t, x) {
            let j = choose|j: int| 0 <= j < t.len() && #[trigger] t[j].0@ == x;
            assert(s[j].0@ == x);
        }
        if has_id(s, x) {
            let j = choose|j: int| 0 <= j < s.len() && #[trigger] s[j].0@ == x;
            assert(t[j].0@ == x);
        }
    }
    assert(has_id(s, e.0@)) by { assert(s[i].0@ == e.0@); }
    assert forall|x: Seq<char>| has_id(t, x) implies #[trigger] route_of(t, x)
        == entries_map(s).insert(e.0@, e.1)[x] by {
        let j = choose|j: int| 0 <= j < t.len() && #[trigger] t[j].0@ == x;
        lemma_route_of_index(t, j);
        if j != i {
            lemma_route_of_index(s, j);
        }
    }
    assert(entries_map(t) =~= entries_map(s).insert(e.0@, e.1));
}

/// Appending an entry whose id is new adds that id.
proof fn lemma_append<R>(s: Seq<(String, R)>, e: (String, R))
    requires
        ids_distinct(s),
        !has_id(s, e.0@),
    ensures
        ids_distinct(s.push(e)),
        entries_map(s.push(e)) == entries_map(s).insert(e.0@, e.1),
{
    let t = s.push(e);
    assert forall|i: int| 0 <= i < s.len() implies #[trigger] s[i].0@ != e.0@ by {
        if s[i].0@ == e.0@ {
            assert(has_id(s, e.0@));
        }
    }
    assert forall|x: Seq<char>| #[trigger] has_id(t, x) == (has_id(s, x) || x == e.0@) by {
        if has_id(t, x) {
            let j = choose|j: int| 0 <= j < t.len() && #[trigger] t[j].0@ == x;
            if j < s.len() {
                assert(s[j].0@ == x);
            }
        }
        if has_id(s, x) {
            let j = choose|j: int| 0 <= j < s.len() && #[trigger] s[j].0@ == x;
            assert(t[j].0@ == x);
        }
        if x == e.0@ {
            assert(t[s.len() as int].0@ == x);
        }
    }
    assert forall|x: Seq<char>| has_id(t, x) implies #[trigger] route_of(t, x)
        == entries_map(s).insert(e.0@, e.1)[x] by {
        let j = choose|j: int| 0 <= j < t.len() && #[trigger] t[j].0@ == x;
        lemma_route_of_index(t, j);
        if j < s.len() {
            lemma_route_of_index(s, j);
        }
    }
    assert(entries_map(t) =~= entries_map(s).insert(e.0@, e.1));
}

/// Deleting the entry at `i` drops its id.
proof fn lemma_delete<R>(s: Seq<(String, R)>, i: int)
    requires
        ids_distinct(s),
        0 <= i < s.len(),
    ensures
        ids_distinct(s.remove(i)),
        entries_map(s.remove(i)) == entries_map(s).remove(s[i].0@),
{
    let t = s.remove(i);
    let k = s[i].0@;
    assert forall|a: int, b: int| 0 <= a < t.len() && 0 <= b < t.len() && a != b
        implies t[a].0@ != t[b].0@ by {
        let a2 = if a < i { a } else { a + 1 };
        let b2 = if b < i { b } else { b + 1 };
        assert(t[a] == s[a2] && t[b] == s[b2]);
    }
    assert forall|x: Seq<char>| #[trigger] has_id(t, x) == (has_id(s, x) && x != k) by {
        if has_id(t, x) {
            let j = choose|j: int| 0 <= j < t.len() && #[trigger] t[j].0@ == x;
            let j2 = if j < i { j } else { j + 1 };
            assert(s[j2].0@ == x);
        }
        if has_id(s, x) && x != k {
            let j = choose|j: int| 0 <= j < s.len() && #[trigger] s[j].0@ == x;
            let j2 = if j < i { j } else { j - 1 };
            assert(t[j2].0@ == x);
        }
    }
    assert forall|x: Seq<char>| has_id(t, x) implies #[trigger] route_of(t, x)
        == entries_map(s).remove(k)[x] by {
        let j = choose|j: int| 0 <= j < t.len() && #[trigger] t[j].0@ == x;
        let j2 = if j < i { j } else { j + 1 };
        assert(t[j] == s[j2]);
        lemma_route_of_index(t, j);
        lemma_route_of_index(s, j2);
    }
    assert(entries_map(t) =~= entries_map(s).remove(k));
}

} // verus!
