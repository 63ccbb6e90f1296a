//! Ordered maps keyed by name or by level.
//!
//! Entries are kept sorted by key with no key twice, so walking a map
//! visits keys in increasing order.
use vstd::prelude::*;
use crate::text::{chars_of, str_eq};

verus! {

/// Lexicographic order on character sequences by code point.
pub open spec fn seq_less(a: Seq<char>, b: Seq<char>) -> bool
    decreases a.len(),
{
    if a.len() == 0 {
        b.len() > 0
    } else if b.len() == 0 {
        false
    } else if a[0] != b[0] {
        a[0] < b[0]
    } else {
        seq_less(a.drop_first(), b.drop_first())
    }
}

pub proof fn lemma_less_irrefl(a: Seq<char>)
    ensures
        !seq_less(a, a),
    decreases a.len(),
{
    if a.len() > 0 {
        lemma_less_irrefl(a.drop_first());
    }
}

pub proof fn lemma_less_trans(a: Seq<char>, b: Seq<char>, c: Seq<char>)
    requires
        seq_less(a, b),
        seq_less(b, c),
    ensures
        seq_less(a, c),
    decreases a.len(),
{
    if a.len() > 0 && b.len() > 0 && c.len() > 0 {
        if a[0] == b[0] && b[0] == c[0] {
            lemma_less_trans(a.drop_first(), b.drop_first(), c.drop_first());
        }
    }
}

pub proof fn lemma_less_total(a: Seq<char>, b: Seq<char>)
    ensures
        a == b || seq_less(a, b) || seq_less(b, a),
    decreases a.len(),
{
    if a.len() > 0 && b.len() > 0 && a[0] == b[0] {
        lemma_less_total(a.drop_first(), b.drop_first());
        if a.drop_first() == b.drop_first() {
            assert(a =~= seq![a[0]] + a.drop_first());
            assert(b =~= seq![b[0]] + b.drop_first());
        }
    } else if a.len() == 0 && b.len() == 0 {
        assert(a =~= b);
    }
}

/// Compare two strings: -1 if `a` sorts first, 0 if equal, 1 otherwise.
pub fn compare_names(a: &str, b: &str) -> (r: i8)
    ensures
        r == 0 <==> a@ == b@,
        r < 0 <==> seq_less(a@, b@),
        r > 0 <==> seq_less(b@, a@),
{
    let va = chars_of(a);
    let vb = chars_of(b);
    let mut i: usize = 0;
    proof {
        lemma_less_irrefl(a@);
        assert(a@.skip(0) =~= a@);
        assert(b@.skip(0) =~= b@);
    }
    while i < va.len() && i < vb.len()
        invariant
            va@ == a@,
            vb@ == b@,
            i <= va.len(),
            i <= vb.len(),
            forall|j: int| 0 <= j < i ==> a@[j] == b@[j],
            seq_less(a@, b@) == seq_less(a@.skip(i as int), b@.skip(i as int)),
            seq_less(b@, a@) == seq_less(b@.skip(i as int), a@.skip(i as int)),
        decreases va.len() - i,
    {
        let ghost sa = a@.skip(i as int);
        let ghost sb = b@.skip(i as int);
        assert(sa.drop_first() =~= a@.skip(i + 1));
        assert(sb.drop_first() =~= b@.skip(i + 1));
        assert(sa.len() > 0 && sb.len() > 0);
        assert(sa[0] == va@[i as int] && sb[0] == vb@[i as int]);
        if va[i] != vb[i] {
            if va[i] < vb[i] {
                return -1;
            } else {
                return 1;
            }
        }
        i = i + 1;
    }
    if va.len() == vb.len() {
        assert(a@ =~= b@);
        0
    } else if va.len() < vb.len() {
        -1
    } else {
        1
    }
}

/// Keys strictly increase along the sequence.
pub open spec fn names_sorted<V>(s: Seq<(Seq<char>, V)>) -> bool {
    forall|i: int, j: int| 0 <= i < j < s.len() ==> seq_less(#[trigger] s[i].0, #[trigger] s[j].0)
}

/// Entry `i` has key `k`.
pub open spec fn key_at<V>(s: Seq<(Seq<char>, V)>, k: Seq<char>, i: int) -> bool {
    0 <= i < s.len() && s[i].0 == k
}

/// Index of key `k` in the sequence, if present.
pub open spec fn name_index<V>(s: Seq<(Seq<char>, V)>, k: Seq<char>) -> Option<int> {
    if exists|i: int| key_at(s, k, i) {
        Some(choose|i: int| key_at(s, k, i))
    } else {
        None
    }
}

/// The value stored under `k`, if any.
pub open spec fn name_lookup<V>(s: Seq<(Seq<char>, V)>, k: Seq<char>) -> Option<V> {
    match name_index(s, k) {
        Some(i) => Some(s[i].1),
        None => None,
    }
}

/// In a sorted sequence the index of a key is unique.
pub proof fn lemma_name_index_unique<V>(s: Seq<(Seq<char>, V)>, k: Seq<char>, i: int)
    requires
        names_sorted(s),
        0 <= i < s.len(),
        s[i].0 == k,
    ensures
        name_index(s, k) == Some(i),
{
    assert(key_at(s, k, i));
    let j = choose|j: int| key_at(s, k, j);
    assert(name_index(s, k) == Some(j));
    lemma_less_irrefl(k);
    if j < i {
        assert(seq_less(s[j].0, s[i].0));
    } else if j > i {
        assert(seq_less(s[i].0, s[j].0));
    }
    assert(j == i);
}

/// Where `key` goes among the sorted names of `s`, searching from `i`: the first
/// entry whose name is not below it, or the end.
pub open spec fn name_insert_point<V>(s: Seq<(Seq<char>, V)>, key: Seq<char>, i: int) -> int
    decreases s.len() - i,
{
    if i < 0 || i >= s.len() {
        s.len() as int
    } else if !seq_less(s[i].0, key) {
        i
    } else {
        name_insert_point(s, key, i + 1)
    }
}

/// `s` with `val` stored under `key`: replacing the value there, or inserted in order.
pub open spec fn name_stored<V>(s: Seq<(Seq<char>, V)>, key: Seq<char>, val: V) -> Seq<(Seq<char>, V)> {
    match name_index(s, key) {
        Some(i) => s.update(i, (key, val)),
        None => s.insert(name_insert_point(s, key, 0), (key, val)),
    }
}

/// Reading a name map after storing `val` under `key` gives `val` back for `key`, and
/// what was there before for every other key.
pub proof fn law_name_stored_lookup<V>(s: Seq<(Seq<char>, V)>, key: Seq<char>, val: V, other: Seq<char>)
    requires
        names_sorted(s),
    ensures
        name_lookup(name_stored(s, key, val), key) == Some(val),
        other != key ==> name_lookup(name_stored(s, key, val), other) == name_lookup(s, other),
{
    let t = name_stored(s, key, val);
    // Position in `s` of position `c` of `t` (or -1 for the stored entry when it was new).
    let back = |c: int| match name_index(s, key) {
        Some(_) => c,
        None => {
            let p = name_insert_point(s, key, 0);
            if c < p { c } else if c == p { -1 } else { c - 1 }
        },
    };
    match name_index(s, key) {
        Some(i) => {
            assert(key_at(s, key, i));
            assert(t[i] == (key, val));
            assert(key_at(t, key, i));
            let c = choose|c: int| key_at(t, key, c);
            if c != i {
                assert(key_at(s, key, c));
                lemma_name_index_unique(s, key, c);
                lemma_name_index_unique(s, key, i);
            }
        },
        None => {
            let p = name_insert_point(s, key, 0);
            lemma_name_insert_point_range(s, key, 0);
            assert(t[p] == (key, val));
            assert(key_at(t, key, p));
            let c = choose|c: int| key_at(t, key, c);
            if c < p {
                assert(key_at(s, key, c));
            } else if c > p {
                assert(key_at(s, key, c - 1));
            }
        },
    }
    if other != key {
        assert forall|c: int| key_at(t, other, c) implies back(c) >= 0 && key_at(s, other, back(c))
            && t[c].1 == s[back(c)].1 by {
            match name_index(s, key) {
                Some(i) => {
                    assert(key_at(s, key, i));
                },
                None => {
                    lemma_name_insert_point_range(s, key, 0);
                },
            }
        }
        if exists|j: int| key_at(s, other, j) {
            let j = choose|j: int| key_at(s, other, j);
            lemma_name_index_unique(s, other, j);
            let jt = match name_index(s, key) {
                Some(_) => j,
                None => if j < name_insert_point(s, key, 0) { j } else { j + 1 },
            };
            match name_index(s, key) {
                Some(i) => {
                    assert(key_at(s, key, i));
                },
                None => {
                    lemma_name_insert_point_range(s, key, 0);
                },
            }
            assert(key_at(t, other, jt));
            let c = choose|c: int| key_at(t, other, c);
            lemma_name_index_unique(s, other, back(c));
        } else {
            if exists|c: int| key_at(t, other, c) {
                let c = choose|c: int| key_at(t, other, c);
                assert(key_at(s, other, back(c)));
            }
        }
    }
}

proof fn lemma_name_insert_point_range<V>(s: Seq<(Seq<char>, V)>, key: Seq<char>, i: int)
    requires
        0 <= i,
    ensures
        i <= name_insert_point(s, key, i) <= s.len() || (i > s.len() && name_insert_point(s, key, i) == s.len()),
    decreases s.len() - i,
{
    if i < s.len() && seq_less(s[i].0, key) {
        lemma_name_insert_point_range(s, key, i + 1);
    }
}

/// A map from names to values, ordered by name.
pub struct NameMap<V: DeepView> {
    entries: Vec<(String, V)>,
}

impl<V: DeepView> NameMap<V> {
    /// The entries, in key order.
    pub closed spec fn view(&self) -> Seq<(Seq<char>, V::V)> {
        self.entries.deep_view()
    }

    #[verifier::type_invariant]
    closed spec fn sorted_inv(self) -> bool {
        names_sorted(self.entries.deep_view())
    }

    pub fn new() -> (r: Self)
        ensures
            r.view() == Seq::<(Seq<char>, V::V)>::empty(),
    {
        let r = NameMap { entries: Vec::new() };
        assert(r.entries.deep_view() =~= Seq::<(Seq<char>, V::V)>::empty());
        r
    }

    pub fn len(&self) -> (r: usize)
        ensures
            r == self.view().len(),
            names_sorted(self.view()),
    {
        proof {
            use_type_invariant(self);
        }
        self.entries.len()
    }

    /// The `i`-th entry in key order.
    pub fn entry(&self, i: usize) -> (r: (&str, &V))
        requires
            i < self.view().len(),
        ensures
            r.0@ == self.view()[i as int].0,
            r.1.deep_view() == self.view()[i as int].1,
    {
        let e = &self.entries[i];
        (e.0.as_str(), &e.1)
    }

    /// Position of `key`, if present.
    pub fn index_of(&self, key: &str) -> (r: Option<usize>)
        ensures
            match r {
                Some(i) => name_index(self.view(), key@) == Some(i as int),
                None => name_index(self.view(), key@) is None,
            },
    {
        proof {
            use_type_invariant(self);
        }
        let ghost s = self.view();
        let mut i: usize = 0;
        while i < self.entries.len()
            invariant
                i <= self.entries.len(),
                s == self.view(),
                s.len() == self.entries.len(),
                names_sorted(s),
                forall|j: int| 0 <= j < i ==> s[j].0 != key@,
            decreases self.entries.len() - i,
        {
            if str_eq(self.entries[i].0.as_str(), key) {
                proof {
                    lemma_name_index_unique(s, key@, i as int);
                }
                return Some(i);
            }
            i = i + 1;
        }
        None
    }

    pub fn contains_key(&self, key: &str) -> (r: bool)
        ensures
            r == name_index(self.view(), key@) is Some,
    {
        self.index_of(key).is_some()
    }

    pub fn get(&self, key: &str) -> (r: Option<&V>)
        ensures
            match r {
                Some(v) => name_lookup(self.view(), key@) == Some(v.deep_view()),
                None => name_lookup(self.view(), key@) is None,
            },
    {
        match self.index_of(key) {
            Some(i) => Some(&self.entries[i].1),
            None => None,
        }
    }

    /// Remove `key` and its value, if present.
    pub fn remove(&mut self, key: &str)
        ensures
            match name_index(old(self).view(), key@) {
                Some(i) => final(self).view() == old(self).view().remove(i),
                None => final(self).view() == old(self).view(),
            },
            name_lookup(final(self).view(), key@) is None,
    {
        match self.index_of(key) {
            Some(i) => {
                proof {
                    use_type_invariant(&*self);
                }
                let ghost s = self.view();
                proof {
                    assert forall|j: int| !key_at(#[trigger] s.remove(i as int), key@, j) by {
                        if key_at(s.remove(i as int), key@, j) {
                            let j2 = if j < i { j } else { j + 1 };
                            lemma_name_index_unique(s, key@, j2);
                        }
                    }
                }
                let mut entries = Vec::new();
                std::mem::swap(&mut entries, &mut self.entries);
                entries.remove(i);
                assert(entries.deep_view() =~= s.remove(i as int));
                proof {
                    assert forall|a: int, b: int|
                        0 <= a < b < entries.deep_view().len() implies seq_less(
                        #[trigger] entries.deep_view()[a].0,
                        #[trigger] entries.deep_view()[b].0,
                    ) by {
                        let a2 = if a < i { a } else { a + 1 };
                        let b2 = if b < i { b } else { b + 1 };
                        assert(s[a2].0 == entries.deep_view()[a].0);
                        assert(s[b2].0 == entries.deep_view()[b].0);
                    }
                }
                self.entries = entries;
            },
            None => {},
        }
    }

    /// Store `value` under `key`, replacing any value already there.
    pub fn insert(&mut self, key: String, value: V)
        ensures
            final(self).view() == name_stored(old(self).view(), key@, value.deep_view()),
            name_lookup(final(self).view(), key@) == Some(value.deep_view()),
            forall|k: Seq<char>| k != key@ ==> #[trigger] name_lookup(final(self).view(), k) == name_lookup(old(self).view(), k),
    {
        proof {
            use_type_invariant(&*self);
        }
        let ghost s = self.view();
        let ghost kk = key@;
        let ghost vv = value.deep_view();
        proof {
            law_name_stored_lookup(s, kk, vv, kk);
            assert forall|k: Seq<char>| k != kk implies #[trigger] name_lookup(name_stored(s, kk, vv), k) == name_lookup(s, k) by {
                law_name_stored_lookup(s, kk, vv, k);
            }
        }
        let mut p: usize = 0;
        while p < self.entries.len() && compare_names(self.entries[p].0.as_str(), key.as_str()) < 0
            invariant
                p <= self.entries.len(),
                s == self.view(),
                s.len() == self.entries.len(),
                names_sorted(s),
                forall|j: int| 0 <= j < p ==> seq_less(#[trigger] s[j].0, key@),
                name_insert_point(s, key@, p as int) == name_insert_point(s, key@, 0),
            decreases self.entries.len() - p,
        {
            p = p + 1;
        }
        assert(p < s.len() ==> !seq_less(s[p as int].0, key@));
        let mut entries = Vec::new();
        std::mem::swap(&mut entries, &mut self.entries);
        if p < entries.len() && str_eq(entries[p].0.as_str(), key.as_str()) {
            proof {
                lemma_name_index_unique(s, key@, p as int);
            }
            entries.set(p, (key, value));
            proof {
                assert(entries.deep_view() =~= s.update(p as int, (key@, value.deep_view())));
                assert forall|a: int, b: int|
                    0 <= a < b < entries.deep_view().len() implies seq_less(
                    #[trigger] entries.deep_view()[a].0,
                    #[trigger] entries.deep_view()[b].0,
                ) by {
                    assert(entries.deep_view()[a].0 == s[a].0);
                    assert(entries.deep_view()[b].0 == s[b].0);
                }
            }
        } else {
            proof {
                if p < s.len() {
                    lemma_less_total(s[p as int].0, key@);
                    lemma_less_irrefl(key@);
                }
                assert forall|j: int| 0 <= j < s.len() implies s[j].0 != key@ by {
                    lemma_less_irrefl(key@);
                    if j >= p {
                        if j > p {
                            assert(seq_less(s[p as int].0, s[j].0));
                            lemma_less_trans(key@, s[p as int].0, s[j].0);
                        }
                    }
                }
                assert(name_index(s, key@) is None);
            }
            let ghost kv = (key@, value.deep_view());
            entries.insert(p, (key, value));
            proof {
                let t = entries.deep_view();
                assert(t =~= s.insert(p as int, kv));
                assert forall|a: int, b: int|
                    0 <= a < b < t.len() implies seq_less(#[trigger] t[a].0, #[trigger] t[b].0) by {
                    if b < p {
                        assert(t[a].0 == s[a].0 && t[b].0 == s[b].0);
                    } else if b == p {
                        assert(t[a].0 == s[a].0);
                    } else if a < p {
                        assert(t[a].0 == s[a].0 && t[b].0 == s[b - 1].0);
                        assert(seq_less(s[a].0, key@));
                        if b - 1 > p {
                            assert(seq_less(s[p as int].0, s[b - 1].0));
                            lemma_less_trans(key@, s[p as int].0, s[b - 1].0);
                        }
                        lemma_less_trans(s[a].0, key@, s[b - 1].0);
                    } else if a == p {
                        assert(t[b].0 == s[b - 1].0);
                        if b - 1 > p {
                            assert(seq_less(s[p as int].0, s[b - 1].0));
                            lemma_less_trans(key@, s[p as int].0, s[b - 1].0);
                        }
                    } else {
                        assert(t[a].0 == s[a - 1].0 && t[b].0 == s[b - 1].0);
                    }
                }
            }
        }
        self.entries = entries;
    }

    /// Keep exactly the entries whose position is marked `true` in `keep`.
    pub fn retain_marked(&mut self, keep: &Vec<bool>)
        requires
            keep@.len() == old(self).view().len(),
        ensures
            final(self).view() == kept(old(self).view(), keep@),
    {
        proof {
            use_type_invariant(&*self);
        }
        let ghost s = self.view();
        let mut entries = Vec::new();
        std::mem::swap(&mut entries, &mut self.entries);
        let mut out: Vec<(String, V)> = Vec::new();
        let ghost mut src: Seq<int> = Seq::empty();
        let mut rest = entries;
        assert(rest.deep_view() =~= s.subrange(0, s.len() as int));
        let n = keep.len();
        let mut i: usize = 0;
        while i < n
            invariant
                n == keep@.len(),
                n == s.len(),
                i <= n,
                names_sorted(s),
                rest.deep_view() == s.subrange(i as int, n as int),
                rest@.len() == n - i,
                out.deep_view() == kept(s.take(i as int), keep@.take(i as int)),
                names_sorted(out.deep_view()),
                forall|a: int| 0 <= a < out.deep_view().len() ==> exists|j: int|
                    0 <= j < i && (#[trigger] out.deep_view()[a]).0 == s[j].0,
            decreases n - i,
        {
            let ghost old_rest = rest@;
            proof {
                assert(old_rest[0].deep_view() == rest.deep_view()[0]);
            }
            let e = rest.remove(0);
            proof {
                assert(rest@ =~= old_rest.subrange(1, old_rest.len() as int));
                assert forall|k: int| 0 <= k < rest@.len() implies rest.deep_view()[k] == s[i + 1 + k] by {
                    assert(rest@[k] == old_rest[k + 1]);
                    assert(old_rest[k + 1].deep_view() == s.subrange(i as int, n as int)[k + 1]);
                }
                assert(rest.deep_view() =~= s.subrange(i + 1, n as int));
                assert(e.deep_view() == s[i as int]);
                assert(s.take(i + 1).drop_last() =~= s.take(i as int));
                assert(keep@.take(i + 1).drop_last() =~= keep@.take(i as int));
            }
            if keep[i] {
                let ghost before = out.deep_view();
                out.push(e);
                proof {
                    let t = out.deep_view();
                    assert(t =~= before.push(s[i as int]));
                    assert forall|a: int, b: int|
                        0 <= a < b < t.len() implies seq_less(#[trigger] t[a].0, #[trigger] t[b].0) by {
                        if b == t.len() - 1 {
                            let j = choose|j: int| 0 <= j < i && before[a].0 == s[j].0;
                            assert(seq_less(s[j].0, s[i as int].0));
                        } else {
                            assert(t[a] == before[a] && t[b] == before[b]);
                        }
                    }
                    assert forall|a: int| 0 <= a < t.len() implies exists|j: int|
                        0 <= j < i + 1 && (#[trigger] t[a]).0 == s[j].0 by {
                        if a == t.len() - 1 {
                            assert(t[a].0 == s[i as int].0);
                        } else {
                            assert(t[a] == before[a]);
                        }
                    }
                }
            }
            i = i + 1;
        }
        proof {
            assert(s.take(n as int) =~= s);
            assert(keep@.take(n as int) =~= keep@);
        }
        self.entries = out;
    }
}

/// The entries of `s` at positions marked `true` in `keep`.
pub open spec fn kept<A>(s: Seq<A>, keep: Seq<bool>) -> Seq<A>
    decreases s.len(),
{
    if s.len() == 0 || keep.len() == 0 {
        Seq::empty()
    } else {
        let front = kept(s.drop_last(), keep.drop_last());
        if keep.last() {
            front.push(s.last())
        } else {
            front
        }
    }
}


/// Levels strictly increase along the sequence.
pub open spec fn levels_sorted<V>(s: Seq<(u8, V)>) -> bool {
    forall|i: int, j: int| 0 <= i < j < s.len() ==> #[trigger] s[i].0 < #[trigger] s[j].0
}

/// Entry `i` has level `k`.
pub open spec fn level_at<V>(s: Seq<(u8, V)>, k: u8, i: int) -> bool {
    0 <= i < s.len() && s[i].0 == k
}

/// Index of level `k` in the sequence, if present.
pub open spec fn level_index<V>(s: Seq<(u8, V)>, k: u8) -> Option<int> {
    if exists|i: int| level_at(s, k, i) {
        Some(choose|i: int| level_at(s, k, i))
    } else {
        None
    }
}

/// The value stored under level `k`, if any.
pub open spec fn level_lookup<V>(s: Seq<(u8, V)>, k: u8) -> Option<V> {
    match level_index(s, k) {
        Some(i) => Some(s[i].1),
        None => None,
    }
}

pub proof fn lemma_level_index_unique<V>(s: Seq<(u8, V)>, k: u8, i: int)
    requires
        levels_sorted(s),
        0 <= i < s.len(),
        s[i].0 == k,
    ensures
        level_index(s, k) == Some(i),
{
    assert(level_at(s, k, i));
    let j = choose|j: int| level_at(s, k, j);
    assert(level_index(s, k) == Some(j));
    if j < i {
        assert(s[j].0 < s[i].0);
    } else if j > i {
        assert(s[i].0 < s[j].0);
    }
}

/// Where `key` goes among the sorted levels of `s`, searching from `i`.
pub open spec fn level_insert_point<V>(s: Seq<(u8, V)>, key: u8, i: int) -> int
    decreases s.len() - i,
{
    if i < 0 || i >= s.len() {
        s.len() as int
    } else if !(s[i].0 < key) {
        i
    } else {
        level_insert_point(s, key, i + 1)
    }
}

/// `s` with `val` stored under level `key`: replacing, or inserted in order.
pub open spec fn level_stored<V>(s: Seq<(u8, V)>, key: u8, val: V) -> Seq<(u8, V)> {
    match level_index(s, key) {
        Some(i) => s.update(i, (key, val)),
        None => s.insert(level_insert_point(s, key, 0), (key, val)),
    }
}

/// Reading a level map after storing `val` under `key` gives `val` back for `key`, and
/// what was there before for every other key.
pub proof fn law_level_stored_lookup<V>(s: Seq<(u8, V)>, key: u8, val: V, other: u8)
    requires
        levels_sorted(s),
    ensures
        level_lookup(level_stored(s, key, val), key) == Some(val),
        other != key ==> level_lookup(level_stored(s, key, val), other) == level_lookup(s, other),
{
    let t = level_stored(s, key, val);
    let back = |c: int| match level_index(s, key) {
        Some(_) => c,
        None => {
            let p = level_insert_point(s, key, 0);
            if c < p { c } else if c == p { -1 } else { c - 1 }
        },
    };
    match level_index(s, key) {
        Some(i) => {
            assert(level_at(s, key, i));
            assert(t[i] == (key, val));
            assert(level_at(t, key, i));
            let c = choose|c: int| level_at(t, key, c);
            if c != i {
                assert(level_at(s, key, c));
                lemma_level_index_unique(s, key, c);
                lemma_level_index_unique(s, key, i);
            }
        },
        None => {
            let p = level_insert_point(s, key, 0);
            lemma_level_insert_point_range(s, key, 0);
            assert(t[p] == (key, val));
            assert(level_at(t, key, p));
            let c = choose|c: int| level_at(t, key, c);
            if c < p {
                assert(level_at(s, key, c));
            } else if c > p {
                assert(level_at(s, key, c - 1));
            }
        },
    }
    if other != key {
        assert forall|c: int| level_at(t, other, c) implies back(c) >= 0 && level_at(s, other, back(c))
            && t[c].1 == s[back(c)].1 by {
            match level_index(s, key) {
                Some(i) => {
                    assert(level_at(s, key, i));
                },
                None => {
                    lemma_level_insert_point_range(s, key, 0);
                },
            }
        }
        if exists|j: int| level_at(s, other, j) {
            let j = choose|j: int| level_at(s, other, j);
            lemma_level_index_unique(s, other, j);
            let jt = match level_index(s, key) {
                Some(_) => j,
                None => if j < level_insert_point(s, key, 0) { j } else { j + 1 },
            };
            match level_index(s, key) {
                Some(i) => {
                    assert(level_at(s, key, i));
                },
                None => {
                    lemma_level_insert_point_range(s, key, 0);
                },
            }
            assert(level_at(t, other, jt));
            let c = choose|c: int| level_at(t, other, c);
            lemma_level_index_unique(s, other, back(c));
        } else {
            if exists|c: int| level_at(t, other, c) {
                let c = choose|c: int| level_at(t, other, c);
                assert(level_at(s, other, back(c)));
            }
        }
    }
}

proof fn lemma_level_insert_point_range<V>(s: Seq<(u8, V)>, key: u8, i: int)
    requires
        0 <= i,
    ensures
        i <= level_insert_point(s, key, i) <= s.len() || (i > s.len() && level_insert_point(s, key, i) == s.len()),
    decreases s.len() - i,
{
    if i < s.len() && s[i].0 < key {
        lemma_level_insert_point_range(s, key, i + 1);
    }
}

/// A map from levels (or ranks) to values, ordered by key.
pub struct LevelMap<V: DeepView> {
    entries: Vec<(u8, V)>,
}

impl<V: DeepView> LevelMap<V> {
    /// The entries, in key order.
    pub closed spec fn view(&self) -> Seq<(u8, V::V)> {
        self.entries.deep_view()
    }

    #[verifier::type_invariant]
    closed spec fn sorted_inv(self) -> bool {
        levels_sorted(self.entries.deep_view())
    }

    pub fn new() -> (r: Self)
        ensures
            r.view() == Seq::<(u8, V::V)>::empty(),
    {
        let r = LevelMap { entries: Vec::new() };
        assert(r.entries.deep_view() =~= Seq::<(u8, V::V)>::empty());
        r
    }

    pub fn len(&self) -> (r: usize)
        ensures
            r == self.view().len(),
            levels_sorted(self.view()),
    {
        proof {
            use_type_invariant(self);
        }
        self.entries.len()
    }

    /// The `i`-th entry in key order.
    pub fn entry(&self, i: usize) -> (r: (u8, &V))
        requires
            i < self.view().len(),
        ensures
            r.0 == self.view()[i as int].0,
            r.1.deep_view() == self.view()[i as int].1,
    {
        let e = &self.entries[i];
        (e.0, &e.1)
    }

    /// Position of `key`, if present.
    pub fn index_of(&self, key: u8) -> (r: Option<usize>)
        ensures
            match r {
                Some(i) => level_index(self.view(), key) == Some(i as int),
                None => level_index(self.view(), key) is None,
            },
    {
        proof {
            use_type_invariant(self);
        }
        let ghost s = self.view();
        let mut i: usize = 0;
        while i < self.entries.len()
            invariant
                i <= self.entries.len(),
                s == self.view(),
                s.len() == self.entries.len(),
                levels_sorted(s),
                forall|j: int| 0 <= j < i ==> s[j].0 != key,
            decreases self.entries.len() - i,
        {
            if self.entries[i].0 == key {
                proof {
                    lemma_level_index_unique(s, key, i as int);
                }
                return Some(i);
            }
            i = i + 1;
        }
        None
    }

    pub fn contains_key(&self, key: u8) -> (r: bool)
        ensures
            r == level_index(self.view(), key) is Some,
    {
        self.index_of(key).is_some()
    }

    pub fn get(&self, key: u8) -> (r: Option<&V>)
        ensures
            match r {
                Some(v) => level_lookup(self.view(), key) == Some(v.deep_view()),
                None => level_lookup(self.view(), key) is None,
            },
    {
        match self.index_of(key) {
            Some(i) => Some(&self.entries[i].1),
            None => None,
        }
    }

    /// Remove `key` and its value, if present.
    pub fn remove(&mut self, key: u8)
        ensures
            match level_index(old(self).view(), key) {
                Some(i) => final(self).view() == old(self).view().remove(i),
                None => final(self).view() == old(self).view(),
            },
            level_lookup(final(self).view(), key) is None,
    {
        match self.index_of(key) {
            Some(i) => {
                proof {
                    use_type_invariant(&*self);
                }
                let ghost s = self.view();
                proof {
                    assert forall|j: int| !level_at(#[trigger] s.remove(i as int), key, j) by {
                        if level_at(s.remove(i as int), key, j) {
                            let j2 = if j < i { j } else { j + 1 };
                            lemma_level_index_unique(s, key, j2);
                        }
                    }
                }
                let mut entries = Vec::new();
                std::mem::swap(&mut entries, &mut self.entries);
                entries.remove(i);
                assert(entries.deep_view() =~= s.remove(i as int));
                proof {
                    assert forall|a: int, b: int|
                        0 <= a < b < entries.deep_view().len() implies #[trigger] entries.deep_view()[a].0
                        < #[trigger] entries.deep_view()[b].0 by {
                        let a2 = if a < i { a } else { a + 1 };
                        let b2 = if b < i { b } else { b + 1 };
                        assert(s[a2].0 == entries.deep_view()[a].0);
                        assert(s[b2].0 == entries.deep_view()[b].0);
                    }
                }
                self.entries = entries;
            },
            None => {},
        }
    }

    /// Store `value` under `key`, replacing any value already there.
    pub fn insert(&mut self, key: u8, value: V)
        ensures
            final(self).view() == level_stored(old(self).view(), key, value.deep_view()),
            level_lookup(final(self).view(), key) == Some(value.deep_view()),
            forall|k: u8| k != key ==> #[trigger] level_lookup(final(self).view(), k) == level_lookup(old(self).view(), k),
    {
        proof {
            use_type_invariant(&*self);
        }
        let ghost s0 = self.view();
        let ghost vv = value.deep_view();
        proof {
            law_level_stored_lookup(s0, key, vv, key);
            assert forall|k: u8| k != key implies #[trigger] level_lookup(level_stored(s0, key, vv), k) == level_lookup(s0, k) by {
                law_level_stored_lookup(s0, key, vv, k);
            }
        }
        let ghost s = self.view();
        let mut p: usize = 0;
        while p < self.entries.len() && self.entries[p].0 < key
            invariant
                p <= self.entries.len(),
                s == self.view(),
                s.len() == self.entries.len(),
                levels_sorted(s),
                forall|j: int| 0 <= j < p ==> #[trigger] s[j].0 < key,
                level_insert_point(s, key, p as int) == level_insert_point(s, key, 0),
            decreases self.entries.len() - p,
        {
            p = p + 1;
        }
        let mut entries = Vec::new();
        std::mem::swap(&mut entries, &mut self.entries);
        if p < entries.len() && entries[p].0 == key {
            proof {
                lemma_level_index_unique(s, key, p as int);
            }
            entries.set(p, (key, value));
            proof {
                assert(entries.deep_view() =~= s.update(p as int, (key, value.deep_view())));
                assert forall|a: int, b: int|
                    0 <= a < b < entries.deep_view().len() implies #[trigger] entries.deep_view()[a].0
                    < #[trigger] entries.deep_view()[b].0 by {
                    assert(entries.deep_view()[a].0 == s[a].0);
                    assert(entries.deep_view()[b].0 == s[b].0);
                }
            }
        } else {
            proof {
                assert forall|j: int| 0 <= j < s.len() implies s[j].0 != key by {
                    if j > p {
                        assert(s[p as int].0 < s[j].0);
                    }
                }
                assert(level_index(s, key) is None);
            }
            let ghost kv = (key, value.deep_view());
            entries.insert(p, (key, value));
            proof {
                let t = entries.deep_view();
                assert(t =~= s.insert(p as int, kv));
                assert forall|a: int, b: int|
                    0 <= a < b < t.len() implies #[trigger] t[a].0 < #[trigger] t[b].0 by {
                    if b < p {
                        assert(t[a].0 == s[a].0 && t[b].0 == s[b].0);
                    } else if b == p {
                        assert(t[a].0 == s[a].0);
                    } else if a < p {
                        assert(t[a].0 == s[a].0 && t[b].0 == s[b - 1].0);
                        if b - 1 > p {
                            assert(s[p as int].0 < s[b - 1].0);
                        }
                    } else if a == p {
                        assert(t[b].0 == s[b - 1].0);
                        if b - 1 > p {
                            assert(s[p as int].0 < s[b - 1].0);
                        }
                    } else {
                        assert(t[a].0 == s[a - 1].0 && t[b].0 == s[b - 1].0);
                    }
                }
            }
        }
        self.entries = entries;
    }

    /// Add an entry whose key is above every key present.
    pub fn push_last(&mut self, key: u8, value: V)
        requires
            forall|j: int| 0 <= j < old(self).view().len() ==> #[trigger] old(self).view()[j].0 < key,
        ensures
            final(self).view() == old(self).view().push((key, value.deep_view())),
    {
        proof {
            use_type_invariant(&*self);
        }
        let ghost s = self.view();
        let mut entries = Vec::new();
        std::mem::swap(&mut entries, &mut self.entries);
        entries.push((key, value));
        proof {
            let t = entries.deep_view();
            assert(t =~= s.push((key, value.deep_view())));
            assert forall|a: int, b: int|
                0 <= a < b < t.len() implies #[trigger] t[a].0 < #[trigger] t[b].0 by {
                assert(t[a].0 == s[a].0);
                if b < s.len() {
                    assert(t[b].0 == s[b].0);
                }
            }
        }
        self.entries = entries;
    }

    /// Keep exactly the entries whose position is marked `true` in `keep`.
    pub fn retain_marked(&mut self, keep: &Vec<bool>)
        requires
            keep@.len() == old(self).view().len(),
        ensures
            final(self).view() == kept(old(self).view(), keep@),
    {
        proof {
            use_type_invariant(&*self);
        }
        let ghost s = self.view();
        let mut entries = Vec::new();
        std::mem::swap(&mut entries, &mut self.entries);
        let mut out: Vec<(u8, V)> = Vec::new();
        let mut rest = entries;
        assert(rest.deep_view() =~= s.subrange(0, s.len() as int));
        let n = keep.len();
        let mut i: usize = 0;
        while i < n
            invariant
                n == keep@.len(),
                n == s.len(),
                i <= n,
                levels_sorted(s),
                rest.deep_view() == s.subrange(i as int, n as int),
                rest@.len() == n - i,
                out.deep_view() == kept(s.take(i as int), keep@.take(i as int)),
                levels_sorted(out.deep_view()),
                forall|a: int| 0 <= a < out.deep_view().len() ==> exists|j: int|
                    0 <= j < i && (#[trigger] out.deep_view()[a]).0 == s[j].0,
            decreases n - i,
        {
            let ghost old_rest = rest@;
            proof {
                assert(old_rest[0].deep_view() == rest.deep_view()[0]);
            }
            let e = rest.remove(0);
            proof {
                assert(rest@ =~= old_rest.subrange(1, old_rest.len() as int));
                assert forall|k: int| 0 <= k < rest@.len() implies rest.deep_view()[k] == s[i + 1 + k] by {
                    assert(rest@[k] == old_rest[k + 1]);
                    assert(old_rest[k + 1].deep_view() == s.subrange(i as int, n as int)[k + 1]);
                }
                assert(rest.deep_view() =~= s.subrange(i + 1, n as int));
                assert(e.deep_view() == s[i as int]);
                assert(s.take(i + 1).drop_last() =~= s.take(i as int));
                assert(keep@.take(i + 1).drop_last() =~= keep@.take(i as int));
            }
            if keep[i] {
                let ghost before = out.deep_view();
                out.push(e);
                proof {
                    let t = out.deep_view();
                    assert(t =~= before.push(s[i as int]));
                    assert forall|a: int, b: int|
                        0 <= a < b < t.len() implies #[trigger] t[a].0 < #[trigger] t[b].0 by {
                        if b == t.len() - 1 {
                            let j = choose|j: int| 0 <= j < i && before[a].0 == s[j].0;
                            assert(s[j].0 < s[i as int].0);
                        } else {
                            assert(t[a] == before[a] && t[b] == before[b]);
                        }
                    }
                    assert forall|a: int| 0 <= a < t.len() implies exists|j: int|
                        0 <= j < i + 1 && (#[trigger] t[a]).0 == s[j].0 by {
                        if a == t.len() - 1 {
                            assert(t[a].0 == s[i as int].0);
                        } else {
                            assert(t[a] == before[a]);
                        }
                    }
                }
            }
            i = i + 1;
        }
        proof {
            assert(s.take(n as int) =~= s);
            assert(keep@.take(n as int) =~= keep@);
        }
        self.entries = out;
    }
}

} // verus!
