//! The searchable list of documents to fill a slot from.
use vstd::prelude::*;
use crate::build::maps::{compare_names, lemma_less_irrefl, lemma_less_total, lemma_less_trans, seq_less};
use crate::document::Document;
use crate::text::{chars_of, contains, has_infix, lowercase, opt_str, owned, push_char, str_eq, string_of, to_lowercase};

verus! {

/// A list of documents, narrowed by a typed filter, a maximum level and (for
/// heritages) an ancestry.
pub struct SelectionModal {
    pub title: String,
    pub items: Vec<Document>,
    pub cursor: usize,
    pub filter: String,
    pub detail_scroll: u16,
    /// Only documents of at most this level are listed (feats).
    pub max_level: Option<i32>,
    /// Heritages listed: those of this ancestry, and versatile ones.
    pub ancestry_filter: Option<String>,
}

/// The lower-cased name of a document, empty when it has none.
pub open spec fn sort_key(d: Document) -> Seq<char> {
    match opt_str(d.name) {
        Some(n) => lowercase(n),
        None => lowercase(""@),
    }
}

/// Some trait of `d`, lower-cased, equals `t`.
pub open spec fn has_lower_trait(d: Document, t: Seq<char>) -> bool {
    exists|i: int| 0 <= i < d.traits@.len() && lowercase(#[trigger] d.traits@[i]@) == t
}

/// Whether the dialog lists document `d`: its name contains the filter (both
/// lower-cased) when there is one, its level is not above the maximum, and for an
/// ancestry filter it names the ancestry, has it as a trait, or is versatile.
pub open spec fn listed(m: SelectionModal, d: Document) -> bool {
    let name_ok = m.filter@.len() == 0 || match opt_str(d.name) {
        Some(n) => has_infix(lowercase(n), lowercase(m.filter@)),
        None => false,
    };
    let level_ok = match m.max_level {
        Some(max) => match d.level {
            Some(l) => l <= max,
            None => true,
        },
        None => true,
    };
    let ancestry_ok = match opt_str(m.ancestry_filter) {
        Some(a) => {
            let anc = lowercase(a);
            has_infix(sort_key(d), anc) || has_lower_trait(d, anc) || has_lower_trait(
                d,
                "versatile heritage"@,
            )
        },
        None => true,
    };
    name_ok && level_ok && ancestry_ok
}

/// Entry `a` comes before entry `b`: by lower-cased name, then by position.
pub open spec fn before(items: Seq<Document>, a: int, b: int) -> bool {
    seq_less(sort_key(items[a]), sort_key(items[b])) || (sort_key(items[a]) == sort_key(items[b]) && a < b)
}

/// `order` lists exactly the positions of the listed documents, each once, sorted by
/// lower-cased name, documents with equal names in their original order.
pub open spec fn listing(m: SelectionModal, order: Seq<usize>) -> bool {
    &&& forall|k: int| 0 <= k < order.len() ==> (order[k] as int) < m.items@.len()
    &&& forall|k: int| 0 <= k < order.len() ==> listed(m, #[trigger] m.items@[order[k] as int])
    &&& forall|i: int|
        0 <= i < m.items@.len() && listed(m, m.items@[i]) ==> exists|k: int|
            0 <= k < order.len() && order[k] == i
    &&& forall|a: int, b: int|
        0 <= a < b < order.len() ==> before(m.items@, #[trigger] order[a] as int, #[trigger] order[b] as int)
}

fn listed_exec(m: &SelectionModal, d: &Document, lfilter: &String) -> (r: bool)
    requires
        lfilter@ == lowercase(m.filter@),
    ensures
        r == listed(*m, *d),
{
    // Name filter
    if m.filter.unicode_len() > 0 {
        let name_match = match &d.name {
            Some(n) => {
                let ln = to_lowercase(n.as_str());
                contains(ln.as_str(), lfilter.as_str())
            },
            None => false,
        };
        if !name_match {
            return false;
        }
    }
    // Max level filter
    match m.max_level {
        Some(max) => match d.level {
            Some(l) => {
                if l > max {
                    return false;
                }
            },
            None => {},
        },
        None => {},
    }
    // Ancestry filter for heritages: ancestry-specific and versatile heritages
    match &m.ancestry_filter {
        Some(ancestry) => {
            let name_lower = key_of(d);
            let anc_lower = to_lowercase(ancestry.as_str());
            let mut ancestry_match = contains(name_lower.as_str(), anc_lower.as_str());
            let mut is_versatile = false;
            let mut i: usize = 0;
            while i < d.traits.len()
                invariant
                    i <= d.traits@.len(),
                    anc_lower@ == lowercase(ancestry@),
                    ancestry_match == (has_infix(name_lower@, anc_lower@) || exists|j: int|
                        0 <= j < i && lowercase(#[trigger] d.traits@[j]@) == anc_lower@),
                    is_versatile == exists|j: int|
                        0 <= j < i && lowercase(#[trigger] d.traits@[j]@) == "versatile heritage"@,
                decreases d.traits@.len() - i,
            {
                let t = to_lowercase(d.traits[i].as_str());
                if str_eq(t.as_str(), anc_lower.as_str()) {
                    ancestry_match = true;
                }
                if str_eq(t.as_str(), "versatile heritage") {
                    is_versatile = true;
                }
                i = i + 1;
            }
            assert(name_lower@ == sort_key(*d));
            if !ancestry_match && !is_versatile {
                return false;
            }
        },
        None => {},
    }
    true
}

fn key_of(d: &Document) -> (r: String)
    ensures
        r@ == sort_key(*d),
{
    match &d.name {
        Some(n) => to_lowercase(n.as_str()),
        None => to_lowercase(""),
    }
}

/// `(ka, a)` comes before `(kb, b)`.
fn comes_before(ka: &String, a: usize, kb: &String, b: usize) -> (r: bool)
    ensures
        r == (seq_less(ka@, kb@) || (ka@ == kb@ && a < b)),
{
    let c = compare_names(ka.as_str(), kb.as_str());
    c < 0 || (c == 0 && a < b)
}

proof fn lemma_before_trans(items: Seq<Document>, a: int, b: int, c: int)
    requires
        before(items, a, b),
        before(items, b, c),
    ensures
        before(items, a, c),
{
    let ka = sort_key(items[a]);
    let kb = sort_key(items[b]);
    let kc = sort_key(items[c]);
    if seq_less(ka, kb) && seq_less(kb, kc) {
        lemma_less_trans(ka, kb, kc);
    }
}

proof fn lemma_before_asym(items: Seq<Document>, a: int, b: int)
    requires
        before(items, a, b),
    ensures
        !before(items, b, a),
{
    let ka = sort_key(items[a]);
    let kb = sort_key(items[b]);
    if seq_less(ka, kb) && seq_less(kb, ka) {
        lemma_less_trans(ka, kb, ka);
        lemma_less_irrefl(ka);
    }
    if seq_less(ka, kb) && ka == kb {
        lemma_less_irrefl(ka);
    }
    if seq_less(kb, ka) && ka == kb {
        lemma_less_irrefl(ka);
    }
}

proof fn lemma_before_total(items: Seq<Document>, a: int, b: int)
    requires
        a != b,
    ensures
        before(items, a, b) || before(items, b, a),
{
    lemma_less_total(sort_key(items[a]), sort_key(items[b]));
}

/// `n` is the selection dialog `o` after Up.
pub open spec fn selection_up(o: SelectionModal, n: SelectionModal) -> bool {
    &&& o.cursor > 0 ==> n.cursor == o.cursor - 1 && n.detail_scroll == 0
    &&& o.cursor == 0 ==> n.cursor == 0 && n.detail_scroll == o.detail_scroll
    &&& n.items@ == o.items@
    &&& n.filter@ == o.filter@
    &&& n.max_level == o.max_level
    &&& n.ancestry_filter == o.ancestry_filter
    &&& n.title@ == o.title@
}

/// `n` is the selection dialog `o` after Down.
pub open spec fn selection_down(o: SelectionModal, n: SelectionModal) -> bool {
    &&& ({
            let len = (choose|ord: Seq<usize>| listing(o, ord)).len();
            let max = if len > 0 { len - 1 } else { 0 };
            &&& o.cursor < max ==> n.cursor == o.cursor + 1 && n.detail_scroll == 0
            &&& o.cursor >= max ==> n.cursor == o.cursor && n.detail_scroll == o.detail_scroll
        })
    &&& n.items@ == o.items@
    &&& n.filter@ == o.filter@
    &&& n.max_level == o.max_level
    &&& n.ancestry_filter == o.ancestry_filter
    &&& n.title@ == o.title@
}

/// `n` is the selection dialog `o` after typing `c` into its filter.
pub open spec fn selection_typed(o: SelectionModal, n: SelectionModal, c: char) -> bool {
    &&& n.filter@ == o.filter@.push(c)
    &&& n.cursor == 0
    &&& n.detail_scroll == 0
    &&& n.items@ == o.items@
    &&& n.max_level == o.max_level
    &&& n.ancestry_filter == o.ancestry_filter
    &&& n.title@ == o.title@
}

/// `n` is the selection dialog `o` after Backspace.
pub open spec fn selection_backspaced(o: SelectionModal, n: SelectionModal) -> bool {
    &&& n.filter@ == (if o.filter@.len() > 0 {
            o.filter@.drop_last()
        } else {
            o.filter@
        })
    &&& n.cursor == 0
    &&& n.detail_scroll == 0
    &&& n.items@ == o.items@
    &&& n.max_level == o.max_level
    &&& n.ancestry_filter == o.ancestry_filter
    &&& n.title@ == o.title@
}

/// `n` is the selection dialog `o` with its detail scrolled down.
pub open spec fn detail_scrolled_down(o: SelectionModal, n: SelectionModal) -> bool {
    &&& n.detail_scroll == (if o.detail_scroll < u16::MAX {
            o.detail_scroll + 1
        } else {
            u16::MAX as int
        })
    &&& n.cursor == o.cursor
    &&& n.items@ == o.items@
    &&& n.filter@ == o.filter@
}

/// `n` is the selection dialog `o` with its detail scrolled up.
pub open spec fn detail_scrolled_up(o: SelectionModal, n: SelectionModal) -> bool {
    &&& n.detail_scroll == (if o.detail_scroll > 0 {
            o.detail_scroll - 1
        } else {
            0
        })
    &&& n.cursor == o.cursor
    &&& n.items@ == o.items@
    &&& n.filter@ == o.filter@
}

/// Backspace undoes typing a character into the filter, and both bring the cursor to
/// the top.
pub proof fn law_filter_type_then_backspace(a: SelectionModal, b: SelectionModal, c: SelectionModal, ch: char)
    requires
        selection_typed(a, b, ch),
        selection_backspaced(b, c),
    ensures
        c.filter@ == a.filter@,
        c.items@ == a.items@,
        c.cursor == 0,
{
    assert(b.filter@.drop_last() =~= a.filter@);
}

impl SelectionModal {
    pub fn new(title: &str) -> (r: Self)
        ensures
            r.title@ == title@,
            r.items@.len() == 0,
            r.cursor == 0,
            r.filter@.len() == 0,
            r.detail_scroll == 0,
            r.max_level is None,
            r.ancestry_filter is None,
    {
        SelectionModal {
            title: owned(title),
            items: Vec::new(),
            cursor: 0,
            filter: String::new(),
            detail_scroll: 0,
            max_level: None,
            ancestry_filter: None,
        }
    }

    /// The positions of the listed documents, in display order.
    pub fn filtered_items(&self) -> (r: Vec<usize>)
        ensures
            listing(*self, r@),
    {
        let lfilter = to_lowercase(self.filter.as_str());
        let ghost items = self.items@;
        let mut order: Vec<usize> = Vec::new();
        let mut keys: Vec<String> = Vec::new();
        let mut i: usize = 0;
        while i < self.items.len()
            invariant
                items == self.items@,
                lfilter@ == lowercase(self.filter@),
                i <= items.len(),
                order@.len() == keys@.len(),
                forall|k: int| 0 <= k < order@.len() ==> (#[trigger] order@[k] as int) < i,
                forall|k: int| 0 <= k < order@.len() ==> listed(*self, #[trigger] items[order@[k] as int]),
                forall|k: int| 0 <= k < order@.len() ==> (#[trigger] keys@[k])@ == sort_key(items[order@[k] as int]),
                forall|j: int|
                    0 <= j < i && listed(*self, items[j]) ==> exists|k: int|
                        0 <= k < order@.len() && order@[k] == j,
                forall|a: int, b: int|
                    0 <= a < b < order@.len() ==> before(items, #[trigger] order@[a] as int, #[trigger] order@[b] as int),
            decreases items.len() - i,
        {
            if listed_exec(self, &self.items[i], &lfilter) {
                let key = key_of(&self.items[i]);
                // Insert after every entry that comes before it
                let mut p: usize = 0;
                while p < order.len() && comes_before(&keys[p], order[p], &key, i)
                    invariant
                        p <= order@.len(),
                        order@.len() == keys@.len(),
                        key@ == sort_key(items[i as int]),
                        forall|k: int| 0 <= k < order@.len() ==> (#[trigger] keys@[k])@ == sort_key(items[order@[k] as int]),
                        forall|k: int| 0 <= k < p ==> before(items, #[trigger] order@[k] as int, i as int),
                    decreases order@.len() - p,
                {
                    p = p + 1;
                }
                proof {
                    if p < order@.len() {
                        assert(!before(items, order@[p as int] as int, i as int));
                        assert(order@[p as int] < i);
                        lemma_before_total(items, order@[p as int] as int, i as int);
                        assert forall|k: int| p <= k < order@.len() implies before(items, i as int, #[trigger] order@[k] as int) by {
                            if k > p {
                                lemma_before_trans(items, i as int, order@[p as int] as int, order@[k] as int);
                            }
                        }
                    }
                }
                let ghost old_order = order@;
                let ghost old_keys = keys@;
                order.insert(p, i);
                keys.insert(p, key);
                proof {
                    let o = order@;
                    assert(o =~= old_order.insert(p as int, i));
                    assert forall|k: int| 0 <= k < o.len() implies (#[trigger] keys@[k])@ == sort_key(items[o[k] as int]) by {
                        if k < p {
                            assert(keys@[k] == old_keys[k]);
                        } else if k > p {
                            assert(keys@[k] == old_keys[k - 1]);
                        }
                    }
                    assert forall|a: int, b: int| 0 <= a < b < o.len() implies before(items, #[trigger] o[a] as int, #[trigger] o[b] as int) by {
                        if b < p {
                        } else if b == p {
                        } else if a < p {
                            assert(o[b] == old_order[b - 1]);
                            if b - 1 < p as int {
                            } else if (b - 1) as int == p as int {
                            } else {
                                assert(before(items, old_order[a] as int, old_order[b - 1] as int));
                            }
                        } else if a == p {
                            assert(o[b] == old_order[b - 1]);
                        } else {
                            assert(o[a] == old_order[a - 1] && o[b] == old_order[b - 1]);
                        }
                    }
                    assert forall|j: int| 0 <= j < i + 1 && listed(*self, items[j]) implies exists|k: int|
                        0 <= k < o.len() && o[k] == j by {
                        if j == i {
                            assert(o[p as int] == i);
                        } else {
                            let k0 = choose|k: int| 0 <= k < old_order.len() && old_order[k] == j;
                            if k0 < p {
                                assert(o[k0] == j);
                            } else {
                                assert(o[k0 + 1] == j);
                            }
                        }
                    }
                }
            }
            i = i + 1;
        }
        order
    }

    /// The document under the cursor.
    pub fn selected(&self) -> (r: Option<&Document>)
        ensures
            ({
                let order = choose|o: Seq<usize>| listing(*self, o);
                match r {
                    Some(d) => self.cursor < order.len() && *d == self.items@[order[self.cursor as int] as int],
                    None => self.cursor >= order.len(),
                }
            }),
    {
        let order = self.filtered_items();
        proof {
            lemma_listing_unique(*self, order@, choose|o: Seq<usize>| listing(*self, o));
        }
        if self.cursor < order.len() {
            Some(&self.items[order[self.cursor]])
        } else {
            None
        }
    }

    pub fn move_up(&mut self)
        ensures
            selection_up(*old(self), *final(self)),
    {
        if self.cursor > 0 {
            self.cursor = self.cursor - 1;
            self.detail_scroll = 0;
        }
    }

    pub fn move_down(&mut self)
        ensures
            selection_down(*old(self), *final(self)),
    {
        let order = self.filtered_items();
        proof {
            lemma_listing_unique(*self, order@, choose|o: Seq<usize>| listing(*self, o));
        }
        let max = if order.len() > 0 { order.len() - 1 } else { 0 };
        if self.cursor < max {
            self.cursor = self.cursor + 1;
            self.detail_scroll = 0;
        }
    }

    /// Type a character into the filter; the cursor returns to the top.
    pub fn type_char(&mut self, c: char)
        ensures
            selection_typed(*old(self), *final(self), c),
    {
        push_char(&mut self.filter, c);
        self.cursor = 0;
        self.detail_scroll = 0;
    }

    /// Delete the filter's last character; the cursor returns to the top.
    pub fn backspace(&mut self)
        ensures
            selection_backspaced(*old(self), *final(self)),
    {
        let mut chars = chars_of(self.filter.as_str());
        if chars.len() > 0 {
            chars.pop();
            assert(chars@ =~= old(self).filter@.drop_last());
            self.filter = string_of(&chars);
        }
        self.cursor = 0;
        self.detail_scroll = 0;
    }

    pub fn scroll_detail_down(&mut self)
        ensures
            detail_scrolled_down(*old(self), *final(self)),
    {
        if self.detail_scroll < u16::MAX {
            self.detail_scroll = self.detail_scroll + 1;
        }
    }

    pub fn scroll_detail_up(&mut self)
        ensures
            detail_scrolled_up(*old(self), *final(self)),
    {
        if self.detail_scroll > 0 {
            self.detail_scroll = self.detail_scroll - 1;
        }
    }
}

/// The listing is unique: only one order satisfies `listing`.
pub proof fn lemma_listing_unique(m: SelectionModal, a: Seq<usize>, b: Seq<usize>)
    requires
        listing(m, a),
    ensures
        listing(m, b) ==> a == b,
{
    if listing(m, b) {
        lemma_listing_unique_len(m, a, b);
        assert forall|k: int| 0 <= k < a.len() implies a[k] == b[k] by {
            lemma_listing_rank(m, a, b, k);
        }
        assert(a =~= b);
    }
}

/// Two listings have the same length.
proof fn lemma_listing_unique_len(m: SelectionModal, a: Seq<usize>, b: Seq<usize>)
    requires
        listing(m, a),
        listing(m, b),
    ensures
        a.len() == b.len(),
{
    lemma_listing_count(m, a, b);
    lemma_listing_count(m, b, a);
}

/// Every entry of `a` appears in `b`, and entries are distinct, so `a` is no longer.
proof fn lemma_listing_count(m: SelectionModal, a: Seq<usize>, b: Seq<usize>)
    requires
        listing(m, a),
        listing(m, b),
    ensures
        a.len() <= b.len(),
{
    // Map each position of a to the position of the same document in b; the map is
    // increasing, hence injective.
    let f = |k: int| choose|j: int| 0 <= j < b.len() && b[j] == a[k];
    assert forall|k: int| 0 <= k < a.len() implies 0 <= #[trigger] f(k) < b.len() && b[f(k)] == a[k] by {
        assert(listed(m, m.items@[a[k] as int]));
    }
    assert forall|k1: int, k2: int| 0 <= k1 < k2 < a.len() implies #[trigger] f(k1) < #[trigger] f(k2) by {
        let j1 = f(k1);
        let j2 = f(k2);
        assert(before(m.items@, a[k1] as int, a[k2] as int));
        if j1 == j2 {
            lemma_before_asym(m.items@, a[k1] as int, a[k2] as int);
            lemma_before_irrefl(m.items@, a[k1] as int);
        } else if j2 < j1 {
            assert(before(m.items@, b[j2] as int, b[j1] as int));
            lemma_before_asym(m.items@, a[k1] as int, a[k2] as int);
        }
    }
    lemma_increasing_bound(f, a.len() as int, b.len() as int);
}

proof fn lemma_before_irrefl(items: Seq<Document>, a: int)
    ensures
        !before(items, a, a),
{
    lemma_less_irrefl(sort_key(items[a]));
}

/// A strictly increasing map from `0..n` into `0..m` needs `n <= m`.
proof fn lemma_increasing_bound(f: spec_fn(int) -> int, n: int, m: int)
    requires
        0 <= n,
        0 <= m,
        forall|k: int| 0 <= k < n ==> 0 <= #[trigger] f(k) < m,
        forall|k1: int, k2: int| 0 <= k1 < k2 < n ==> #[trigger] f(k1) < #[trigger] f(k2),
    ensures
        n <= m,
    decreases n,
{
    if n > 0 {
        assert(0 <= f(n - 1) < m);
        assert forall|k: int| 0 <= k < n - 1 implies #[trigger] f(k) < f(n - 1) by {}
        assert forall|k: int| 0 <= k < n - 1 implies 0 <= #[trigger] f(k) < m - 1 by {
            assert(f(k) < f(n - 1));
        }
        lemma_increasing_bound(f, n - 1, m - 1);
    }
}

/// In two listings of the same length, position `k` holds the same document.
proof fn lemma_listing_rank(m: SelectionModal, a: Seq<usize>, b: Seq<usize>, k: int)
    requires
        listing(m, a),
        listing(m, b),
        a.len() == b.len(),
        0 <= k < a.len(),
    ensures
        a[k] == b[k],
    decreases k,
{
    // Position of a[k] in b
    let j = choose|j: int| 0 <= j < b.len() && b[j] == a[k];
    assert(listed(m, m.items@[a[k] as int]));
    // Position of b[k] in a
    let i = choose|i: int| 0 <= i < a.len() && a[i] == b[k];
    assert(listed(m, m.items@[b[k] as int]));
    if j < k {
        // b[j] = a[k] with j < k; b[j] == a[j] by induction, contradiction with distinctness of a
        lemma_listing_rank(m, a, b, j);
        assert(a[j] == b[j]);
        assert(before(m.items@, a[j] as int, a[k] as int));
        lemma_before_irrefl(m.items@, a[k] as int);
    } else if j > k {
        if i < k {
            lemma_listing_rank(m, a, b, i);
            assert(a[i] == b[i]);
            assert(before(m.items@, b[i] as int, b[k] as int));
            lemma_before_irrefl(m.items@, b[k] as int);
        } else if i > k {
            // a[k] before a[i] = b[k]; b[k] before b[j] = a[k]
            assert(before(m.items@, a[k] as int, a[i] as int));
            assert(before(m.items@, b[k] as int, b[j] as int));
            lemma_before_asym(m.items@, a[k] as int, b[k] as int);
        }
    }
}

} // verus!
