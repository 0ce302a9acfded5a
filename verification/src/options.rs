//! The option registry: an insertion-ordered mapping from option-name strings
//! to option-value strings, built incrementally by a provider builder and
//! consumed at registration time as parallel key/value arrays of equal length.
//!
//! Invariant: every key occurs at most once; `set` overwrites in place, so
//! duplicate keys are never emitted.

use vstd::prelude::*;

verus! {

/// The mathematical content of the registry: key/value pairs in insertion
/// order, each as character data.
pub type OptionPairs = Seq<(Seq<char>, Seq<char>)>;

/// Every key occurs at most once.
pub open spec fn distinct_keys(m: OptionPairs) -> bool {
    forall|i: int, j: int| 0 <= i < j < m.len() ==> m[i].0 != m[j].0
}

/// Text free of nul characters, and so convertible to a null-terminated form
/// for the boundary crossing.
pub open spec fn nul_free(s: Seq<char>) -> bool {
    forall|i: int| 0 <= i < s.len() ==> s[i] != '\0'
}

/// Every key and every value is convertible to a null-terminated form.
pub open spec fn convertible(m: OptionPairs) -> bool {
    forall|i: int|
        0 <= i < m.len() ==> nul_free((#[trigger] m[i]).0) && nul_free(m[i].1)
}

/// Insert-or-overwrite: replaces the value at the first occurrence of `k`,
/// keeping its position, or appends `(k, v)` when `k` is absent.
pub open spec fn spec_set(m: OptionPairs, k: Seq<char>, v: Seq<char>) -> OptionPairs
    decreases m.len(),
{
    if m.len() == 0 {
        seq![(k, v)]
    } else if m[0].0 == k {
        seq![(k, v)] + m.drop_first()
    } else {
        seq![m[0]] + spec_set(m.drop_first(), k, v)
    }
}

/// The value at the first occurrence of `k`, if any.
pub open spec fn spec_lookup(m: OptionPairs, k: Seq<char>) -> Option<Seq<char>>
    decreases m.len(),
{
    if m.len() == 0 {
        None
    } else if m[0].0 == k {
        Some(m[0].1)
    } else {
        spec_lookup(m.drop_first(), k)
    }
}

/// When `k` first occurs at position `i`, `spec_set` is an in-place update.
pub proof fn lemma_set_found(m: OptionPairs, k: Seq<char>, v: Seq<char>, i: int)
    requires
        0 <= i < m.len(),
        m[i].0 == k,
        forall|j: int| 0 <= j < i ==> m[j].0 != k,
    ensures
        spec_set(m, k, v) =~= m.update(i, (k, v)),
    decreases m.len(),
{
    if i == 0 {
        assert(spec_set(m, k, v) =~= m.update(0, (k, v)));
    } else {
        lemma_set_found(m.drop_first(), k, v, i - 1);
        assert(spec_set(m, k, v) =~= m.update(i, (k, v)));
    }
}

/// When `k` is absent, `spec_set` appends.
pub proof fn lemma_set_absent(m: OptionPairs, k: Seq<char>, v: Seq<char>)
    requires
        forall|j: int| 0 <= j < m.len() ==> m[j].0 != k,
    ensures
        spec_set(m, k, v) =~= m.push((k, v)),
    decreases m.len(),
{
    if m.len() > 0 {
        lemma_set_absent(m.drop_first(), k, v);
        assert(spec_set(m, k, v) =~= m.push((k, v)));
    }
}

/// Every key of `spec_set(m, k, v)` is `k` or already a key of `m`.
pub proof fn lemma_set_keys(m: OptionPairs, k: Seq<char>, v: Seq<char>)
    ensures
        forall|j: int|
            0 <= j < spec_set(m, k, v).len() ==> (#[trigger] spec_set(m, k, v)[j]).0 == k
                || exists|i: int| 0 <= i < m.len() && (#[trigger] m[i]).0 == spec_set(m, k, v)[j].0,
    decreases m.len(),
{
    let r = spec_set(m, k, v);
    if m.len() == 0 {
        assert(r[0].0 == k);
    } else if m[0].0 == k {
        assert forall|j: int| 0 <= j < r.len() implies (#[trigger] r[j]).0 == k || exists|i: int|
            0 <= i < m.len() && (#[trigger] m[i]).0 == r[j].0 by {
            if j > 0 {
                assert(r[j] == m[j]);
                assert(m[j].0 == r[j].0);
            }
        }
    } else {
        lemma_set_keys(m.drop_first(), k, v);
        let rd = spec_set(m.drop_first(), k, v);
        assert forall|j: int| 0 <= j < r.len() implies (#[trigger] r[j]).0 == k || exists|i: int|
            0 <= i < m.len() && (#[trigger] m[i]).0 == r[j].0 by {
            if j == 0 {
                assert(r[0] == m[0]);
                assert(m[0].0 == r[0].0);
            } else {
                assert(r[j] == rd[j - 1]);
                if rd[j - 1].0 != k {
                    let i = choose|i: int|
                        0 <= i < m.drop_first().len() && (#[trigger] m.drop_first()[i]).0 == rd[j
                            - 1].0;
                    assert(m[i + 1] == m.drop_first()[i]);
                    assert(m[i + 1].0 == r[j].0);
                }
            }
        }
    }
}

/// Overwriting keeps keys distinct: after `spec_set`, each key still occurs
/// at most once.
pub proof fn lemma_set_distinct(m: OptionPairs, k: Seq<char>, v: Seq<char>)
    requires
        distinct_keys(m),
    ensures
        distinct_keys(spec_set(m, k, v)),
    decreases m.len(),
{
    let r = spec_set(m, k, v);
    if m.len() == 0 {
    } else if m[0].0 == k {
        assert forall|p: int, q: int| 0 <= p < q < r.len() implies r[p].0 != r[q].0 by {
            assert(r[q] == m[q]);
            if p == 0 {
                assert(r[0].0 == m[0].0);
            } else {
                assert(r[p] == m[p]);
            }
        }
    } else {
        assert(distinct_keys(m.drop_first())) by {
            assert forall|p: int, q: int|
                0 <= p < q < m.drop_first().len() implies (#[trigger] m.drop_first()[p]).0 != (
            #[trigger] m.drop_first()[q]).0 by {
                assert(m.drop_first()[p] == m[p + 1]);
                assert(m.drop_first()[q] == m[q + 1]);
            }
        }
        lemma_set_distinct(m.drop_first(), k, v);
        lemma_set_keys(m.drop_first(), k, v);
        let rd = spec_set(m.drop_first(), k, v);
        assert forall|p: int, q: int| 0 <= p < q < r.len() implies r[p].0 != r[q].0 by {
            assert(r[q] == rd[q - 1]);
            if p == 0 {
                assert(r[0] == m[0]);
                if rd[q - 1].0 == k {
                } else {
                    let i = choose|i: int|
                        0 <= i < m.drop_first().len() && (#[trigger] m.drop_first()[i]).0 == rd[q
                            - 1].0;
                    assert(m.drop_first()[i] == m[i + 1]);
                    assert(m[0].0 != m[i + 1].0);
                }
            } else {
                assert(r[p] == rd[p - 1]);
            }
        }
    }
}

/// Last write wins: after `set(k, v)`, the value stored under `k` is `v`.
pub proof fn lemma_set_lookup_same(m: OptionPairs, k: Seq<char>, v: Seq<char>)
    ensures
        spec_lookup(spec_set(m, k, v), k) == Some(v),
    decreases m.len(),
{
    let r = spec_set(m, k, v);
    if m.len() == 0 {
        assert(r[0] == (k, v));
    } else if m[0].0 == k {
        assert(r[0] == (k, v));
    } else {
        lemma_set_lookup_same(m.drop_first(), k, v);
        assert(r[0] == m[0]);
        assert(r.drop_first() =~= spec_set(m.drop_first(), k, v));
    }
}

/// Setting one key leaves every other key's value unchanged.
pub proof fn lemma_set_lookup_other(m: OptionPairs, k: Seq<char>, v: Seq<char>, k2: Seq<char>)
    requires
        k2 != k,
    ensures
        spec_lookup(spec_set(m, k, v), k2) == spec_lookup(m, k2),
    decreases m.len(),
{
    let r = spec_set(m, k, v);
    if m.len() == 0 {
        assert(r[0] == (k, v));
        assert(r.drop_first() =~= Seq::<(Seq<char>, Seq<char>)>::empty());
        assert(spec_lookup(r.drop_first(), k2) == Option::<Seq<char>>::None);
        assert(spec_lookup(r, k2) == spec_lookup(r.drop_first(), k2));
    } else if m[0].0 == k {
        assert(r[0] == (k, v));
        assert(r.drop_first() =~= m.drop_first());
        assert(spec_lookup(r, k2) == spec_lookup(m.drop_first(), k2));
        assert(spec_lookup(m, k2) == spec_lookup(m.drop_first(), k2));
    } else {
        lemma_set_lookup_other(m.drop_first(), k, v, k2);
        assert(r[0] == m[0]);
        assert(r.drop_first() =~= spec_set(m.drop_first(), k, v));
        if m[0].0 == k2 {
            assert(spec_lookup(r, k2) == Some(r[0].1));
            assert(spec_lookup(m, k2) == Some(m[0].1));
        } else {
            assert(spec_lookup(r, k2) == spec_lookup(r.drop_first(), k2));
            assert(spec_lookup(m, k2) == spec_lookup(m.drop_first(), k2));
        }
    }
}

/// Writing a convertible pair keeps every entry convertible.
pub proof fn lemma_set_convertible(m: OptionPairs, k: Seq<char>, v: Seq<char>)
    requires
        convertible(m),
        nul_free(k),
        nul_free(v),
    ensures
        convertible(spec_set(m, k, v)),
    decreases m.len(),
{
    let r = spec_set(m, k, v);
    if m.len() == 0 {
        assert(r[0] == (k, v));
    } else if m[0].0 == k {
        assert forall|i: int| 0 <= i < r.len() implies nul_free((#[trigger] r[i]).0) && nul_free(
            r[i].1,
        ) by {
            if i == 0 {
                assert(r[0] == (k, v));
            } else {
                assert(r[i] == m[i]);
            }
        }
    } else {
        assert(convertible(m.drop_first())) by {
            assert forall|i: int|
                0 <= i < m.drop_first().len() implies nul_free(
                (#[trigger] m.drop_first()[i]).0,
            ) && nul_free(m.drop_first()[i].1) by {
                assert(m.drop_first()[i] == m[i + 1]);
            }
        }
        lemma_set_convertible(m.drop_first(), k, v);
        let rd = spec_set(m.drop_first(), k, v);
        assert forall|i: int| 0 <= i < r.len() implies nul_free((#[trigger] r[i]).0) && nul_free(
            r[i].1,
        ) by {
            if i == 0 {
                assert(r[0] == m[0]);
            } else {
                assert(r[i] == rd[i - 1]);
            }
        }
    }
}

/// The registry's central law: however a key is written, the pairs keep
/// exactly one entry per distinct key, the value stored under the written key
/// is the most recent one, and every other key keeps its value.
pub proof fn lemma_last_write_wins(m: OptionPairs, k: Seq<char>, v: Seq<char>)
    requires
        distinct_keys(m),
    ensures
        distinct_keys(spec_set(m, k, v)),
        spec_lookup(spec_set(m, k, v), k) == Some(v),
        forall|k2: Seq<char>|
            k2 != k ==> #[trigger] spec_lookup(spec_set(m, k, v), k2) == spec_lookup(m, k2),
{
    lemma_set_distinct(m, k, v);
    lemma_set_lookup_same(m, k, v);
    assert forall|k2: Seq<char>| k2 != k implies #[trigger] spec_lookup(spec_set(m, k, v), k2)
        == spec_lookup(m, k2) by {
        lemma_set_lookup_other(m, k, v, k2);
    }
}

/// The generic option set a provider builder accumulates, kept as the two
/// parallel arrays the native update call ultimately consumes.
#[derive(Debug, Clone)]
pub struct ExecutionProviderOptions {
    keys: Vec<String>,
    values: Vec<String>,
}

impl View for ExecutionProviderOptions {
    type V = OptionPairs;

    closed spec fn view(&self) -> OptionPairs {
        Seq::new(self.keys@.len() as nat, |i: int| (self.keys@[i]@, self.values@[i]@))
    }
}

impl ExecutionProviderOptions {
    /// Well-formed: the two arrays have equal length, no key repeats, and
    /// every key and value is convertible to a null-terminated form.
    pub closed spec fn wf(&self) -> bool {
        &&& self.keys@.len() == self.values@.len()
        &&& distinct_keys(self@)
        &&& convertible(self@)
    }

    /// Well-formedness guarantees the serialized arrays hold exactly one
    /// entry per distinct key.
    pub proof fn lemma_wf_distinct(&self)
        requires
            self.wf(),
        ensures
            distinct_keys(self@),
    {
    }

    /// Well-formedness guarantees every entry crosses the boundary: no key or
    /// value holds a nul character.
    pub proof fn lemma_wf_convertible(&self)
        requires
            self.wf(),
        ensures
            convertible(self@),
    {
    }

    /// An empty option set.
    pub fn new() -> (r: Self)
        ensures
            r.wf(),
            r@ == Seq::<(Seq<char>, Seq<char>)>::empty(),
    {
        let r = ExecutionProviderOptions { keys: Vec::new(), values: Vec::new() };
        proof {
            assert(r@ =~= Seq::<(Seq<char>, Seq<char>)>::empty());
        }
        r
    }

    /// The number of entries.
    pub fn len(&self) -> (n: usize)
        ensures
            n == self@.len(),
    {
        self.keys.len()
    }

    /// Inserts `value` under `key`, or overwrites in place when `key` was
    /// already set; the last write wins and insertion order is preserved.
    /// Both texts must be nul-free, so that the entry can cross the boundary
    /// in null-terminated form. Semantic correctness of the value is not
    /// checked here: the native runtime validates it at registration time.
    pub fn set(&mut self, key: &str, value: String)
        requires
            old(self).wf(),
            nul_free(key@),
            nul_free(value@),
        ensures
            final(self).wf(),
            final(self)@ == spec_set(old(self)@, key@, value@),
    {
        let key_string = key.to_owned();
        let n = self.keys.len();
        let ghost m = self@;
        let mut i: usize = 0;
        while i < n
            invariant
                self == old(self),
                old(self).wf(),
                m == old(self)@,
                n == self.keys@.len(),
                i <= n,
                forall|j: int| 0 <= j < i ==> self.keys@[j]@ != key@,
                key_string@ == key@,
                nul_free(key@),
                nul_free(value@),
            decreases n - i,
        {
            if self.keys[i] == key_string {
                self.values[i] = value;
                proof {
                    lemma_set_found(m, key@, value@, i as int);
                    assert(self@ =~= m.update(i as int, (key@, value@)));
                    lemma_set_distinct(m, key@, value@);
                    lemma_set_convertible(m, key@, value@);
                }
                return ;
            }
            i += 1;
        }
        self.keys.push(key_string);
        self.values.push(value);
        proof {
            lemma_set_absent(m, key@, value@);
            assert(self@ =~= m.push((key@, value@)));
            lemma_set_distinct(m, key@, value@);
            lemma_set_convertible(m, key@, value@);
        }
    }

    /// The transient, borrowed view the native update call consumes: parallel
    /// key and value arrays of equal length, pointing into this set's own
    /// storage. It must not be used after the set is mutated or dropped,
    /// which the borrow makes impossible.
    pub fn to_ffi(&self) -> (r: FfiOptions<'_>)
        requires
            self.wf(),
        ensures
            r@ == self@,
            r.keys@.len() == self@.len(),
            r.values@.len() == self@.len(),
            distinct_keys(r@),
            convertible(r@),
    {
        FfiOptions { keys: &self.keys, values: &self.values }
    }
}

/// The borrowed serialization of an option set: equal-length parallel arrays
/// of keys and values, in insertion order.
pub struct FfiOptions<'a> {
    /// The option names, one per entry.
    pub keys: &'a Vec<String>,
    /// The option values, parallel to `keys`.
    pub values: &'a Vec<String>,
}

impl<'a> View for FfiOptions<'a> {
    type V = OptionPairs;

    open spec fn view(&self) -> OptionPairs {
        Seq::new(self.keys@.len() as nat, |i: int| (self.keys@[i]@, self.values@[i]@))
    }
}

impl<'a> FfiOptions<'a> {
    /// The common length of the two arrays.
    pub fn len(&self) -> (n: usize)
        requires
            self.keys@.len() == self.values@.len(),
        ensures
            n == self@.len(),
    {
        self.keys.len()
    }
}

} // verus!
