//! [`SettingsSnapshot`]: an ordered map from setting keys to values.
//!
//! Entries are kept sorted by key, with keys compared byte by byte as `String`
//! orders them, so iteration order is stable (nice for tests and the UI) and
//! no key occurs twice.

use vstd::prelude::*;
use vstd::string::StringSliceAdditionalSpecFns;
use vstd::utf8::*;

verus! {

broadcast use {
    vstd::utf8::encode_utf8_valid_utf8,
    vstd::utf8::encode_utf8_decode_utf8,
    vstd::string::group_string_axioms,
};

/// `a` sorts strictly before `b`, byte by byte (the order of `String`).
pub open spec fn lex_lt(a: Seq<u8>, b: Seq<u8>) -> bool
    decreases a.len(),
{
    if a.len() == 0 {
        b.len() > 0
    } else if b.len() == 0 {
        false
    } else if a[0] != b[0] {
        a[0] < b[0]
    } else {
        lex_lt(a.drop_first(), b.drop_first())
    }
}

/// The byte order is strict and total.
pub proof fn lemma_lex_total(a: Seq<u8>, b: Seq<u8>)
    ensures
        !lex_lt(a, a),
        lex_lt(a, b) ==> !lex_lt(b, a),
        a != b ==> lex_lt(a, b) || lex_lt(b, a),
    decreases a.len(),
{
    if a.len() > 0 && b.len() > 0 {
        lemma_lex_total(a.drop_first(), b.drop_first());
        lemma_lex_total(a.drop_first(), a.drop_first());
        if a[0] == b[0] && a != b {
            assert(a.drop_first() != b.drop_first()) by {
                if a.drop_first() == b.drop_first() {
                    assert(a =~= seq![a[0]] + a.drop_first());
                    assert(b =~= seq![b[0]] + b.drop_first());
                }
            }
        }
    } else if a.len() > 0 {
        lemma_lex_total(a.drop_first(), a.drop_first());
    } else if b.len() == 0 {
        assert(a =~= b);
    }
}

/// The byte order is transitive.
pub proof fn lemma_lex_transitive(a: Seq<u8>, b: Seq<u8>, c: Seq<u8>)
    requires
        lex_lt(a, b),
        lex_lt(b, c),
    ensures
        lex_lt(a, c),
    decreases a.len(),
{
    if a.len() > 0 && b.len() > 0 && c.len() > 0 && a[0] == b[0] && b[0] == c[0] {
        lemma_lex_transitive(a.drop_first(), b.drop_first(), c.drop_first());
    }
}

/// The result of comparing two keys.
pub enum KeyOrder {
    Less,
    Equal,
    Greater,
}

/// Compare two byte strings in the order of `String`.
pub fn compare_bytes(a: &[u8], b: &[u8]) -> (r: KeyOrder)
    ensures
        r is Less <==> lex_lt(a@, b@),
        r is Equal <==> a@ == b@,
        r is Greater <==> lex_lt(b@, a@),
{
    proof {
        lemma_lex_total(a@, b@);
    }
    let n = if a.len() < b.len() {
        a.len()
    } else {
        b.len()
    };
    let mut i: usize = 0;
    assert(a@.skip(0) =~= a@);
    assert(b@.skip(0) =~= b@);
    while i < n
        invariant
            n <= a@.len(),
            n <= b@.len(),
            n == a@.len() || n == b@.len(),
            0 <= i <= n,
            a@.subrange(0, i as int) == b@.subrange(0, i as int),
            lex_lt(a@, b@) == lex_lt(a@.skip(i as int), b@.skip(i as int)),
            lex_lt(b@, a@) == lex_lt(b@.skip(i as int), a@.skip(i as int)),
        decreases n - i,
    {
        if a[i] != b[i] {
            assert(a@.skip(i as int)[0] == a[i as int]);
            assert(b@.skip(i as int)[0] == b[i as int]);
            if a[i] < b[i] {
                return KeyOrder::Less;
            } else {
                return KeyOrder::Greater;
            }
        }
        assert(a@.skip(i as int).drop_first() =~= a@.skip(i + 1));
        assert(b@.skip(i as int).drop_first() =~= b@.skip(i + 1));
        assert(a@.subrange(0, i + 1) =~= a@.subrange(0, i as int).push(a[i as int]));
        assert(b@.subrange(0, i + 1) =~= b@.subrange(0, i as int).push(b[i as int]));
        i = i + 1;
    }
    if a.len() < b.len() {
        assert(a@.skip(i as int).len() == 0);
        KeyOrder::Less
    } else if a.len() > b.len() {
        assert(b@.skip(i as int).len() == 0);
        KeyOrder::Greater
    } else {
        assert(a@ =~= a@.subrange(0, i as int));
        assert(b@ =~= b@.subrange(0, i as int));
        KeyOrder::Equal
    }
}

/// The bytes that order an entry: those of its key.
pub open spec fn key_bytes(e: (String, String)) -> Seq<u8> {
    encode_utf8(e.0@)
}

/// The entries are sorted strictly by key.
pub open spec fn sorted(es: Seq<(String, String)>) -> bool {
    forall|i: int, j: int| 0 <= i < j < es.len() ==> lex_lt(key_bytes(es[i]), key_bytes(es[j]))
}

/// Some entry has key `k`.
pub open spec fn has_key(es: Seq<(String, String)>, k: Seq<char>) -> bool {
    exists|i: int| 0 <= i < es.len() && (#[trigger] es[i]).0@ == k
}

/// The position of the entry with key `k`.
pub open spec fn index_of(es: Seq<(String, String)>, k: Seq<char>) -> int {
    choose|i: int| 0 <= i < es.len() && (#[trigger] es[i]).0@ == k
}

/// The map the entries describe.
pub open spec fn entries_map(es: Seq<(String, String)>) -> Map<Seq<char>, Seq<char>> {
    Map::new(|k: Seq<char>| has_key(es, k), |k: Seq<char>| es[index_of(es, k)].1@)
}

/// In sorted entries, an entry is the only one with its key.
pub proof fn lemma_sorted_unique(es: Seq<(String, String)>, i: int)
    requires
        sorted(es),
        0 <= i < es.len(),
    ensures
        has_key(es, es[i].0@),
        index_of(es, es[i].0@) == i,
        entries_map(es).contains_key(es[i].0@),
        entries_map(es)[es[i].0@] == es[i].1@,
{
    let k = es[i].0@;
    assert(has_key(es, k));
    let j = index_of(es, k);
    if j != i {
        assert(key_bytes(es[j]) == key_bytes(es[i]));
        lemma_lex_total(key_bytes(es[i]), key_bytes(es[i]));
    }
}

/// A snapshot of all settings as key → value pairs, in key order.
#[derive(Debug)]
pub struct SettingsSnapshot {
    entries: Vec<(String, String)>,
}

impl View for SettingsSnapshot {
    type V = Map<Seq<char>, Seq<char>>;

    closed spec fn view(&self) -> Map<Seq<char>, Seq<char>> {
        entries_map(self.entries@)
    }
}

impl SettingsSnapshot {
    #[verifier::type_invariant]
    spec fn inv(self) -> bool {
        sorted(self.entries@)
    }

    /// An empty snapshot.
    pub fn new() -> (r: Self)
        ensures
            r@ == Map::<Seq<char>, Seq<char>>::empty(),
    {
        let r = SettingsSnapshot { entries: Vec::new() };
        assert(r@ =~= Map::<Seq<char>, Seq<char>>::empty());
        r
    }

    /// The number of settings.
    pub fn len(&self) -> (r: usize)
        ensures
            r == self@.len(),
    {
        proof {
            use_type_invariant(self);
            self.lemma_dom_len();
        }
        self.entries.len()
    }

    proof fn lemma_dom_len(&self)
        requires
            sorted(self.entries@),
        ensures
            self@.dom().len() == self.entries@.len(),
            self@.dom().finite(),
    {
        let es = self.entries@;
        let keys = Seq::new(es.len(), |i: int| es[i].0@);
        assert forall|i: int, j: int| 0 <= i < j < keys.len() implies keys[i] != keys[j] by {
            lemma_sorted_unique(es, i);
            lemma_sorted_unique(es, j);
        }
        assert(keys.no_duplicates());
        assert(self@.dom() =~= keys.to_set()) by {
            assert forall|k: Seq<char>| self@.dom().contains(k) implies keys.to_set().contains(k) by {
                let i = index_of(es, k);
                assert(keys[i] == k);
            }
            assert forall|k: Seq<char>| keys.to_set().contains(k) implies self@.dom().contains(k) by {
                let i = choose|i: int| 0 <= i < keys.len() && keys[i] == k;
                assert(es[i].0@ == k);
            }
        }
        keys.unique_seq_to_set();
    }

    /// All settings as `(key, value)` pairs, in increasing key order (the
    /// byte order of the keys, as `String`'s `Ord` has it): each key once,
    /// with its value.
    pub fn entries(&self) -> (r: &[(String, String)])
        ensures
            sorted(r@),
            entries_map(r@) == self@,
    {
        proof {
            use_type_invariant(self);
        }
        self.entries.as_slice()
    }

    /// The value stored under `key`, if any.
    pub fn get(&self, key: &str) -> (r: Option<&String>)
        ensures
            match r {
                Some(v) => self@.contains_key(key@) && self@[key@] == v@,
                None => !self@.contains_key(key@),
            },
    {
        proof {
            use_type_invariant(self);
        }
        let n = self.entries.len();
        let mut i: usize = 0;
        while i < n
            invariant
                n == self.entries@.len(),
                sorted(self.entries@),
                0 <= i <= n,
                forall|j: int| 0 <= j < i ==> (#[trigger] self.entries@[j]).0@ != key@,
            decreases n - i,
        {
            if crate::text::str_eq(self.entries[i].0.as_str(), key) {
                proof {
                    lemma_sorted_unique(self.entries@, i as int);
                }
                return Some(&self.entries[i].1);
            }
            i = i + 1;
        }
        None
    }

    /// Set `key` to `value`, returning the value it replaced, if any.
    pub fn insert(&mut self, key: String, value: String) -> (r: Option<String>)
        ensures
            final(self)@ == old(self)@.insert(key@, value@),
            match r {
                Some(v) => old(self)@.contains_key(key@) && old(self)@[key@] == v@,
                None => !old(self)@.contains_key(key@),
            },
    {
        proof {
            use_type_invariant(&*self);
        }
        let ghost es = self.entries@;
        let n = self.entries.len();
        let mut p: usize = 0;
        let mut found = false;
        while p < n
            invariant_except_break
                forall|j: int| 0 <= j < p ==> lex_lt(key_bytes(#[trigger] es[j]), encode_utf8(key@)),
                !found,
            invariant
                n == es.len(),
                es == self.entries@,
                sorted(es),
                0 <= p <= n,
            ensures
                forall|j: int| 0 <= j < p ==> lex_lt(key_bytes(#[trigger] es[j]), encode_utf8(key@)),
                found ==> p < n && key_bytes(es[p as int]) == encode_utf8(key@),
                !found ==> p == n || lex_lt(encode_utf8(key@), key_bytes(es[p as int])),
            decreases n - p,
        {
            match compare_bytes(self.entries[p].0.as_str().as_bytes(), key.as_str().as_bytes()) {
                KeyOrder::Less => {
                    p = p + 1;
                },
                KeyOrder::Equal => {
                    found = true;
                    break ;
                },
                KeyOrder::Greater => {
                    break ;
                },
            }
        }
        let ghost k = key@;
        if found {
            proof {
                lemma_sorted_unique(es, p as int);
                assert(es[p as int].0@ == k) by {
                    assert(decode_utf8(encode_utf8(es[p as int].0@)) == es[p as int].0@);
                    assert(decode_utf8(encode_utf8(k)) == k);
                }
            }
            let old_key = self.entries[p].0.clone();
            let mut entry = (old_key, value);
            let ghost new_entry = entry;
            self.swap_entry(p, &mut entry);
            proof {
                let es2 = self.entries@;
                assert(es2 == es.update(p as int, new_entry));
                assert forall|i: int, j: int| 0 <= i < j < es2.len() implies lex_lt(
                    key_bytes(es2[i]),
                    key_bytes(es2[j]),
                ) by {
                    assert(key_bytes(es2[i]) == key_bytes(es[i]));
                    assert(key_bytes(es2[j]) == key_bytes(es[j]));
                }
                self.lemma_map_after_replace(es, p as int, new_entry);
            }
            Some(entry.1)
        } else {
            proof {
                assert forall|i: int| 0 <= i < es.len() implies (#[trigger] es[i]).0@ != k by {
                    if es[i].0@ == k {
                        if i < p {
                            lemma_lex_total(encode_utf8(k), encode_utf8(k));
                        } else {
                            if i > p {
                                lemma_lex_transitive(
                                    encode_utf8(k),
                                    key_bytes(es[p as int]),
                                    key_bytes(es[i]),
                                );
                            }
                            lemma_lex_total(encode_utf8(k), encode_utf8(k));
                        }
                    }
                }
                assert(!has_key(es, k));
            }
            let ghost new_entry = (key, value);
            proof {
                let es2 = es.insert(p as int, new_entry);
                assert forall|i: int, j: int| 0 <= i < j < es2.len() implies lex_lt(
                    key_bytes(es2[i]),
                    key_bytes(es2[j]),
                ) by {
                    if j > p {
                        // k sorts before every entry from position p on
                        assert(lex_lt(encode_utf8(k), key_bytes(es2[j]))) by {
                            if j - 1 > p {
                                lemma_lex_transitive(
                                    encode_utf8(k),
                                    key_bytes(es[p as int]),
                                    key_bytes(es[j - 1]),
                                );
                            }
                        }
                        if i < p {
                            lemma_lex_transitive(
                                key_bytes(es2[i]),
                                encode_utf8(k),
                                key_bytes(es2[j]),
                            );
                        } else if i > p {
                            assert(es2[i] == es[i - 1]);
                            assert(es2[j] == es[j - 1]);
                        }
                    }
                }
            }
            self.insert_entry(p, key, value);
            proof {
                self.lemma_map_after_insert(es, p as int, new_entry);
            }
            None
        }
    }

    /// Swap the entry at `p` with `entry`, keeping the sorting, which the
    /// caller guarantees by giving an entry with the same key.
    fn swap_entry(&mut self, p: usize, entry: &mut (String, String))
        requires
            p < old(self).entries@.len(),
            old(entry).0@ == old(self).entries@[p as int].0@,
        ensures
            final(self).entries@ == old(self).entries@.update(p as int, *old(entry)),
            *final(entry) == old(self).entries@[p as int],
    {
        proof {
            use_type_invariant(&*self);
        }
        let ghost es = self.entries@;
        let ghost e = *entry;
        let mut entries = Vec::new();
        std::mem::swap(&mut entries, &mut self.entries);
        std::mem::swap(&mut entries[p], entry);
        assert(entries@ =~= es.update(p as int, e));
        assert(sorted(entries@)) by {
            assert forall|i: int, j: int| 0 <= i < j < entries@.len() implies lex_lt(
                key_bytes(entries@[i]),
                key_bytes(entries@[j]),
            ) by {
                assert(key_bytes(entries@[i]) == key_bytes(es[i]));
                assert(key_bytes(entries@[j]) == key_bytes(es[j]));
            }
        }
        self.entries = entries;
    }

    /// Insert a new entry at `p`, which the caller guarantees keeps the
    /// entries sorted.
    fn insert_entry(&mut self, p: usize, key: String, value: String)
        requires
            p <= old(self).entries@.len(),
            sorted(old(self).entries@.insert(p as int, (key, value))),
        ensures
            final(self).entries@ == old(self).entries@.insert(p as int, (key, value)),
    {
        let mut entries = Vec::new();
        std::mem::swap(&mut entries, &mut self.entries);
        entries.insert(p, (key, value));
        self.entries = entries;
    }

    proof fn lemma_map_after_replace(
        &self,
        es: Seq<(String, String)>,
        p: int,
        e: (String, String),
    )
        requires
            sorted(es),
            0 <= p < es.len(),
            e.0@ == es[p].0@,
            self.entries@ == es.update(p, e),
            sorted(self.entries@),
        ensures
            entries_map(self.entries@) == entries_map(es).insert(e.0@, e.1@),
    {
        let es2 = self.entries@;
        let m1 = entries_map(es).insert(e.0@, e.1@);
        let m2 = entries_map(es2);
        assert forall|k: Seq<char>| m2.contains_key(k) <==> m1.contains_key(k) by {
            if has_key(es2, k) {
                let i = index_of(es2, k);
                assert(es[i].0@ == k);
            }
            if has_key(es, k) {
                let i = index_of(es, k);
                assert(es2[i].0@ == k);
            }
        }
        assert forall|k: Seq<char>| m2.contains_key(k) implies m2[k] == m1[k] by {
            let i = index_of(es2, k);
            lemma_sorted_unique(es2, i);
            lemma_sorted_unique(es2, p);
            if i == p {
            } else {
                lemma_sorted_unique(es, i);
                assert(es[i].0@ == k);
                assert(k != e.0@);
            }
        }
        assert(m2 =~= m1);
    }

    proof fn lemma_map_after_insert(
        &self,
        es: Seq<(String, String)>,
        p: int,
        e: (String, String),
    )
        requires
            sorted(es),
            0 <= p <= es.len(),
            !has_key(es, e.0@),
            self.entries@ == es.insert(p, e),
            sorted(self.entries@),
        ensures
            entries_map(self.entries@) == entries_map(es).insert(e.0@, e.1@),
    {
        let es2 = self.entries@;
        let m1 = entries_map(es).insert(e.0@, e.1@);
        let m2 = entries_map(es2);
        assert forall|k: Seq<char>| m2.contains_key(k) <==> m1.contains_key(k) by {
            if has_key(es2, k) {
                let i = index_of(es2, k);
                if i < p {
                    assert(es[i].0@ == k);
                } else if i > p {
                    assert(es[i - 1].0@ == k);
                }
            }
            if has_key(es, k) {
                let i = index_of(es, k);
                if i < p {
                    assert(es2[i].0@ == k);
                } else {
                    assert(es2[i + 1].0@ == k);
                }
            }
            if k == e.0@ {
                assert(es2[p].0@ == k);
            }
        }
        assert forall|k: Seq<char>| m2.contains_key(k) implies m2[k] == m1[k] by {
            let i = index_of(es2, k);
            lemma_sorted_unique(es2, i);
            if i < p {
                lemma_sorted_unique(es, i);
                assert(es[i].0@ == k);
                assert(k != e.0@);
            } else if i > p {
                lemma_sorted_unique(es, i - 1);
                assert(es[i - 1].0@ == k);
                assert(k != e.0@);
            }
        }
        assert(m2 =~= m1);
    }
}

impl Clone for SettingsSnapshot {
    fn clone(&self) -> (r: Self)
        ensures
            r@ == self@,
    {
        proof {
            use_type_invariant(self);
        }
        let n = self.entries.len();
        let mut entries: Vec<(String, String)> = Vec::new();
        let mut i: usize = 0;
        while i < n
            invariant
                n == self.entries@.len(),
                0 <= i <= n,
                entries@ == self.entries@.subrange(0, i as int),
            decreases n - i,
        {
            let e = (self.entries[i].0.clone(), self.entries[i].1.clone());
            entries.push(e);
            assert(entries@ =~= self.entries@.subrange(0, i + 1));
            i = i + 1;
        }
        assert(entries@ =~= self.entries@);
        SettingsSnapshot { entries }
    }
}

} // verus!
