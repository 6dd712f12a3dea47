//! The registry of child webviews and the bounds each was last placed at, so that they can be
//! moved along with the main window.
use vstd::prelude::*;

verus! {

/// Whether some entry of `s` carries the label `k`.
pub open spec fn has_label<V>(s: Seq<(String, V)>, k: Seq<char>) -> bool {
    exists|i: int| 0 <= i < s.len() && (#[trigger] s[i]).0@ == k
}

/// No two entries of `s` carry the same label.
pub open spec fn unique_labels<V>(s: Seq<(String, V)>) -> bool {
    forall|i: int, j: int| 0 <= i < j < s.len() ==> (#[trigger] s[i]).0@ != (#[trigger] s[j]).0@
}

/// The position of the entry labelled `k` in `s`.
pub open spec fn index_of<V>(s: Seq<(String, V)>, k: Seq<char>) -> int {
    choose|i: int| 0 <= i < s.len() && (#[trigger] s[i]).0@ == k
}

/// The labels of `s`, in order.
pub open spec fn labels_of<V>(s: Seq<(String, V)>) -> Seq<Seq<char>> {
    s.map_values(|e: (String, V)| e.0@)
}

/// The map from label to value that the entries `s` stand for.
pub open spec fn map_of<V>(s: Seq<(String, V)>) -> Map<Seq<char>, V> {
    Map::new(|k: Seq<char>| has_label(s, k), |k: Seq<char>| s[index_of(s, k)].1)
}

proof fn lemma_index_of<V>(s: Seq<(String, V)>, i: int)
    requires
        unique_labels(s),
        0 <= i < s.len(),
    ensures
        index_of(s, s[i].0@) == i,
        has_label(s, s[i].0@),
        map_of(s).contains_key(s[i].0@),
        map_of(s)[s[i].0@] == s[i].1,
{
    let k = s[i].0@;
    assert(has_label(s, k));
    let j = index_of(s, k);
    if j < i {
        assert(s[j].0@ != s[i].0@);
    } else if j > i {
        assert(s[i].0@ != s[j].0@);
    }
}

proof fn lemma_labels_of<V>(s: Seq<(String, V)>)
    requires
        unique_labels(s),
    ensures
        labels_of(s).no_duplicates(),
        labels_of(s).to_set() =~= map_of(s).dom(),
        map_of(s).dom().finite(),
        map_of(s).dom().len() == s.len(),
{
    let l = labels_of(s);
    assert forall|i: int, j: int| 0 <= i < l.len() && 0 <= j < l.len() && i != j implies l[i]
        != l[j] by {
        if i < j {
            assert(s[i].0@ != s[j].0@);
        } else {
            assert(s[j].0@ != s[i].0@);
        }
    }
    assert forall|k: Seq<char>| l.to_set().contains(k) <==> map_of(s).dom().contains(k) by {
        if l.to_set().contains(k) {
            let i = choose|i: int| 0 <= i < l.len() && l[i] == k;
            assert(s[i].0@ == k);
        }
        if map_of(s).dom().contains(k) {
            let i = choose|i: int| 0 <= i < s.len() && (#[trigger] s[i]).0@ == k;
            assert(l[i] == k);
        }
    }
    l.unique_seq_to_set();
}

/// Child webviews by label, each with the value last recorded for it (the bounds it was placed
/// at). At most one entry per label.
pub struct WebviewRegistry<V> {
    entries: Vec<(String, V)>,
}

impl<V> View for WebviewRegistry<V> {
    type V = Map<Seq<char>, V>;

    closed spec fn view(&self) -> Map<Seq<char>, V> {
        map_of(self.entries@)
    }
}

impl<V> WebviewRegistry<V> {
    #[verifier::type_invariant]
    spec fn labels_unique(&self) -> bool {
        unique_labels(self.entries@)
    }

    /// The labels in the order `entry_at` visits them.
    pub closed spec fn label_order(&self) -> Seq<Seq<char>> {
        labels_of(self.entries@)
    }

    /// An empty registry.
    pub fn new() -> (r: Self)
        ensures
            r@ == Map::<Seq<char>, V>::empty(),
    {
        let r = WebviewRegistry { entries: Vec::new() };
        assert(r@ =~= Map::<Seq<char>, V>::empty());
        r
    }

    /// Position of the entry labelled `key`.
    fn position(&self, key: &String) -> (p: Option<usize>)
        ensures
            p matches Some(i) ==> i < self.entries@.len() && self.entries@[i as int].0@ == key@,
            p is None ==> !has_label(self.entries@, key@),
    {
        let n = self.entries.len();
        let mut i: usize = 0;
        while i < n
            invariant
                n == self.entries@.len(),
                i <= n,
                forall|j: int| 0 <= j < i ==> (#[trigger] self.entries@[j]).0@ != key@,
            decreases n - i,
        {
            if self.entries[i].0 == *key {
                return Some(i);
            }
            i = i + 1;
        }
        None
    }

    /// Number of registered webviews.
    pub fn len(&self) -> (n: usize)
        ensures
            self@.dom().finite(),
            n == self@.dom().len(),
            n == self.label_order().len(),
            self.label_order().no_duplicates(),
            self.label_order().to_set() == self@.dom(),
    {
        proof {
            use_type_invariant(self);
            lemma_labels_of(self.entries@);
        }
        self.entries.len()
    }

    /// The `i`-th registered label and its value.
    pub fn entry_at(&self, i: usize) -> (e: (&String, &V))
        requires
            i < self.label_order().len(),
        ensures
            e.0@ == self.label_order()[i as int],
            self@.contains_key(e.0@),
            *e.1 == self@[e.0@],
    {
        proof {
            use_type_invariant(self);
            lemma_index_of(self.entries@, i as int);
        }
        let e = &self.entries[i];
        (&e.0, &e.1)
    }

    /// The value recorded for `label`.
    pub fn get(&self, label: &str) -> (v: Option<&V>)
        ensures
            v matches Some(x) ==> self@.contains_key(label@) && *x == self@[label@],
            v is None ==> !self@.contains_key(label@),
    {
        proof {
            use_type_invariant(self);
        }
        let key = label.to_owned();
        match self.position(&key) {
            Some(i) => {
                proof {
                    lemma_index_of(self.entries@, i as int);
                }
                Some(&self.entries[i].1)
            },
            None => None,
        }
    }

    /// Records `value` for `label`, replacing what was recorded for it before.
    pub fn insert(&mut self, label: String, value: V)
        ensures
            final(self)@ == old(self)@.insert(label@, value),
    {
        proof {
            use_type_invariant(&*self);
        }
        let ghost old_entries = self.entries@;
        let ghost k = label@;
        match self.position(&label) {
            Some(i) => {
                let mut entries: Vec<(String, V)> = Vec::new();
                std::mem::swap(&mut entries, &mut self.entries);
                entries.set(i, (label, value));
                proof {
                    let s = entries@;
                    assert(unique_labels(s)) by {
                        assert forall|a: int, b: int| 0 <= a < b < s.len() implies (#[trigger] s[a]).0@
                            != (#[trigger] s[b]).0@ by {
                            assert(s[a].0@ == old_entries[a].0@);
                            assert(s[b].0@ == old_entries[b].0@);
                        }
                    }
                    assert forall|x: Seq<char>| #[trigger]
                        map_of(s).contains_key(x) == old(self)@.insert(k, value).contains_key(x)
                        by {
                        if has_label(s, x) {
                            let j = choose|j: int| 0 <= j < s.len() && (#[trigger] s[j]).0@ == x;
                            assert(old_entries[j].0@ == x);
                        }
                        if has_label(old_entries, x) {
                            let j = choose|j: int|
                                0 <= j < old_entries.len() && (#[trigger] old_entries[j]).0@ == x;
                            assert(s[j].0@ == x);
                        }
                    }
                    assert forall|x: Seq<char>| #[trigger]
                        map_of(s).contains_key(x) implies map_of(s)[x] == old(self)@.insert(
                        k,
                        value,
                    )[x] by {
                        let j = choose|j: int| 0 <= j < s.len() && (#[trigger] s[j]).0@ == x;
                        lemma_index_of(s, j);
                        if x != k {
                            assert(old_entries[j].0@ == x);
                            lemma_index_of(old_entries, j);
                        }
                    }
                    assert(map_of(s) =~= old(self)@.insert(k, value));
                }
                self.entries = entries;
            },
            None => {
                let mut entries: Vec<(String, V)> = Vec::new();
                std::mem::swap(&mut entries, &mut self.entries);
                entries.push((label, value));
                proof {
                    let s = entries@;
                    let n = old_entries.len() as int;
                    assert(unique_labels(s)) by {
                        assert forall|a: int, b: int| 0 <= a < b < s.len() implies (#[trigger] s[a]).0@
                            != (#[trigger] s[b]).0@ by {
                            assert(s[a] == old_entries[a]);
                            if b < n {
                                assert(s[b] == old_entries[b]);
                            } else {
                                assert(old_entries[a].0@ != k);
                            }
                        }
                    }
                    assert forall|x: Seq<char>| #[trigger]
                        map_of(s).contains_key(x) == old(self)@.insert(k, value).contains_key(x)
                        by {
                        if has_label(s, x) {
                            let j = choose|j: int| 0 <= j < s.len() && (#[trigger] s[j]).0@ == x;
                            if j < n {
                                assert(old_entries[j].0@ == x);
                            }
                        }
                        if has_label(old_entries, x) {
                            let j = choose|j: int|
                                0 <= j < old_entries.len() && (#[trigger] old_entries[j]).0@ == x;
                            assert(s[j].0@ == x);
                        }
                        if x == k {
                            assert(s[n].0@ == x);
                        }
                    }
                    assert forall|x: Seq<char>| #[trigger]
                        map_of(s).contains_key(x) implies map_of(s)[x] == old(self)@.insert(
                        k,
                        value,
                    )[x] by {
                        let j = choose|j: int| 0 <= j < s.len() && (#[trigger] s[j]).0@ == x;
                        lemma_index_of(s, j);
                        if j < n {
                            assert(s[j] == old_entries[j]);
                            lemma_index_of(old_entries, j);
                        }
                    }
                    assert(map_of(s) =~= old(self)@.insert(k, value));
                }
                self.entries = entries;
            },
        }
    }

    /// Forgets `label`, handing back the value that was recorded for it.
    pub fn remove(&mut self, label: &str) -> (v: Option<V>)
        ensures
            final(self)@ == old(self)@.remove(label@),
            v matches Some(x) ==> old(self)@.contains_key(label@) && x == old(self)@[label@],
            v is None ==> !old(self)@.contains_key(label@),
    {
        proof {
            use_type_invariant(&*self);
        }
        let ghost old_entries = self.entries@;
        let key = label.to_owned();
        let ghost k = key@;
        match self.position(&key) {
            Some(i) => {
                proof {
                    lemma_index_of(old_entries, i as int);
                }
                let mut entries: Vec<(String, V)> = Vec::new();
                std::mem::swap(&mut entries, &mut self.entries);
                let e = entries.remove(i);
                proof {
                    let s = entries@;
                    let ii = i as int;
                    assert(forall|j: int| 0 <= j < ii ==> s[j] == old_entries[j]);
                    assert(forall|j: int| ii <= j < s.len() ==> s[j] == old_entries[j + 1]);
                    assert(unique_labels(s)) by {
                        assert forall|a: int, b: int| 0 <= a < b < s.len() implies (#[trigger] s[a]).0@
                            != (#[trigger] s[b]).0@ by {
                            let a2 = if a < ii { a } else { a + 1 };
                            let b2 = if b < ii { b } else { b + 1 };
                            assert(s[a] == old_entries[a2]);
                            assert(s[b] == old_entries[b2]);
                        }
                    }
                    assert forall|x: Seq<char>| #[trigger]
                        map_of(s).contains_key(x) == old(self)@.remove(k).contains_key(x) by {
                        if has_label(s, x) {
                            let j = choose|j: int| 0 <= j < s.len() && (#[trigger] s[j]).0@ == x;
                            let j2 = if j < ii { j } else { j + 1 };
                            assert(old_entries[j2].0@ == x);
                            assert(j2 != ii);
                        }
                        if has_label(old_entries, x) && x != k {
                            let j = choose|j: int|
                                0 <= j < old_entries.len() && (#[trigger] old_entries[j]).0@ == x;
                            assert(j != ii);
                            let j2 = if j < ii { j } else { j - 1 };
                            assert(s[j2].0@ == x);
                        }
                    }
                    assert forall|x: Seq<char>| #[trigger]
                        map_of(s).contains_key(x) implies map_of(s)[x] == old(self)@.remove(k)[x] by {
                        let j = choose|j: int| 0 <= j < s.len() && (#[trigger] s[j]).0@ == x;
                        lemma_index_of(s, j);
                        let j2 = if j < ii { j } else { j + 1 };
                        assert(s[j] == old_entries[j2]);
                        lemma_index_of(old_entries, j2);
                    }
                    assert(map_of(s) =~= old(self)@.remove(k));
                }
                self.entries = entries;
                Some(e.1)
            },
            None => {
                proof {
                    assert(map_of(old_entries) =~= map_of(old_entries).remove(k));
                }
                None
            },
        }
    }
}

/// Recording bounds for a label that is registered already replaces them: the registry holds
/// one entry per label, so the count stays; a new label adds one entry.
pub proof fn law_record_replaces<V>(m: Map<Seq<char>, V>, label: Seq<char>, first: V, second: V)
    requires
        m.dom().finite(),
    ensures
        m.insert(label, first).insert(label, second) == m.insert(label, second),
        m.contains_key(label) ==> m.insert(label, first).dom().len() == m.dom().len(),
        !m.contains_key(label) ==> m.insert(label, first).dom().len() == m.dom().len() + 1,
{
    assert(m.insert(label, first).insert(label, second) =~= m.insert(label, second));
    if m.contains_key(label) {
        assert(m.insert(label, first).dom() =~= m.dom());
    } else {
        assert(m.insert(label, first).dom() =~= m.dom().insert(label));
    }
}

/// A destroyed child webview is forgotten (so it no longer follows the main window), and the
/// others keep their bounds.
pub proof fn law_destroy_forgets<V>(m: Map<Seq<char>, V>, label: Seq<char>, other: Seq<char>)
    requires
        other != label,
    ensures
        !m.remove(label).contains_key(label),
        m.remove(label).contains_key(other) == m.contains_key(other),
        m.contains_key(other) ==> m.remove(label)[other] == m[other],
{
}

} // verus!
