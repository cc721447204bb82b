use vstd::prelude::*;

verus! {

/// Lexicographic order of keys, character by character by code point; a
/// proper prefix comes first. This is the order of `String` keys in a
/// `BTreeMap`.
pub open spec fn key_less(a: Seq<char>, b: Seq<char>) -> bool
    decreases a.len(),
{
    if a.len() == 0 {
        b.len() > 0
    } else if b.len() == 0 {
        false
    } else if a[0] != b[0] {
        (a[0] as int) < (b[0] as int)
    } else {
        key_less(a.drop_first(), b.drop_first())
    }
}

/// Two different keys are ordered one way or the other, never both.
pub proof fn lemma_key_less_total(a: Seq<char>, b: Seq<char>)
    ensures
        a != b ==> (key_less(a, b) || key_less(b, a)),
        !(key_less(a, b) && key_less(b, a)),
        !key_less(a, a),
    decreases a.len(),
{
    if a.len() > 0 {
        lemma_key_less_total(a.drop_first(), a.drop_first());
    }
    if a.len() == 0 && b.len() == 0 {
        assert(a =~= b);
    } else if a.len() > 0 && b.len() > 0 {
        lemma_key_less_total(a.drop_first(), b.drop_first());
        if a[0] == b[0] {
            if a != b {
                assert(a =~= seq![a[0]] + a.drop_first());
                assert(b =~= seq![b[0]] + b.drop_first());
                assert(a.drop_first() != b.drop_first());
            }
        } else {
            assert((a[0] as int) != (b[0] as int));
        }
    }
}

/// Entries with keys in strictly increasing order.
pub open spec fn strictly_sorted(es: Seq<(Seq<char>, Seq<char>)>) -> bool {
    forall|i: int| 0 <= i < es.len() - 1 ==> #[trigger] key_less(es[i].0, es[i + 1].0)
}

/// The entries after setting `k` to `v`: an entry with key `k` has its value
/// replaced, else a new entry goes before the first larger key.
pub open spec fn insert_entry(
    es: Seq<(Seq<char>, Seq<char>)>,
    k: Seq<char>,
    v: Seq<char>,
) -> Seq<(Seq<char>, Seq<char>)>
    decreases es.len(),
{
    if es.len() == 0 {
        seq![(k, v)]
    } else if es[0].0 == k {
        seq![(k, v)] + es.drop_first()
    } else if key_less(k, es[0].0) {
        seq![(k, v)] + es
    } else {
        seq![es[0]] + insert_entry(es.drop_first(), k, v)
    }
}

/// The entries after setting each pair in turn, from the first to the last.
pub open spec fn entries_of(pairs: Seq<(Seq<char>, Seq<char>)>) -> Seq<(Seq<char>, Seq<char>)>
    decreases pairs.len(),
{
    if pairs.len() == 0 {
        seq![]
    } else {
        insert_entry(entries_of(pairs.drop_last()), pairs.last().0, pairs.last().1)
    }
}

/// The key-value view of a vector of string pairs.
pub open spec fn pairs_view(v: Seq<(String, String)>) -> Seq<(Seq<char>, Seq<char>)> {
    v.map_values(|p: (String, String)| (p.0@, p.1@))
}

/// Setting a key keeps the entries strictly sorted.
pub proof fn lemma_insert_sorted(es: Seq<(Seq<char>, Seq<char>)>, k: Seq<char>, v: Seq<char>)
    requires
        strictly_sorted(es),
    ensures
        strictly_sorted(insert_entry(es, k, v)),
        insert_entry(es, k, v).len() > 0,
        insert_entry(es, k, v)[0].0 == k || (es.len() > 0 && insert_entry(es, k, v)[0].0
            == es[0].0),
    decreases es.len(),
{
    let r = insert_entry(es, k, v);
    if es.len() == 0 {
    } else if es[0].0 == k {
        assert forall|i: int| 0 <= i < r.len() - 1 implies #[trigger] key_less(r[i].0, r[i + 1].0) by {
            assert(r[i].0 == es[i].0 && r[i + 1].0 == es[i + 1].0);
            assert(key_less(es[i].0, es[i + 1].0));
        }
    } else if key_less(k, es[0].0) {
        assert forall|i: int| 0 <= i < r.len() - 1 implies #[trigger] key_less(r[i].0, r[i + 1].0) by {
            if i > 0 {
                let j = i - 1;
                assert(r[i].0 == es[j].0 && r[i + 1].0 == es[j + 1].0);
                assert(key_less(es[j].0, es[j + 1].0));
            }
        }
    } else {
        let tail = es.drop_first();
        assert(strictly_sorted(tail)) by {
            assert forall|i: int| 0 <= i < tail.len() - 1 implies #[trigger] key_less(tail[i].0, tail[i + 1].0) by {
                let j = i + 1;
                assert(tail[i].0 == es[j].0 && tail[i + 1].0 == es[j + 1].0);
                assert(key_less(es[j].0, es[j + 1].0));
            }
        }
        lemma_insert_sorted(tail, k, v);
        lemma_key_less_total(k, es[0].0);
        let rt = insert_entry(tail, k, v);
        assert(r == seq![es[0]] + rt);
        assert forall|i: int| 0 <= i < r.len() - 1 implies #[trigger] key_less(r[i].0, r[i + 1].0) by {
            if i == 0 {
                assert(r[1].0 == rt[0].0);
            } else {
                assert(r[i].0 == rt[i - 1].0 && r[i + 1].0 == rt[i].0);
                assert(key_less(rt[i - 1].0, rt[i].0));
            }
        }
    }
}

/// Build information: diagnostic key/value strings, at most one entry per key,
/// in increasing order of key.
#[derive(Debug, Clone, PartialEq, Eq)]
pub struct BuildInfo {
    entries: Vec<(String, String)>,
}

impl View for BuildInfo {
    type V = Seq<(Seq<char>, Seq<char>)>;

    closed spec fn view(&self) -> Seq<(Seq<char>, Seq<char>)> {
        pairs_view(self.entries@)
    }
}

impl BuildInfo {
    /// Keys strictly increase.
    pub open spec fn wf(&self) -> bool {
        strictly_sorted(self@)
    }

    /// No entries.
    pub fn new() -> (r: BuildInfo)
        ensures
            r@ == Seq::<(Seq<char>, Seq<char>)>::empty(),
            r.wf(),
    {
        BuildInfo { entries: Vec::new() }
    }

    /// Sets `key` to `value`, keeping the keys sorted and unique.
    pub fn insert(&mut self, key: String, value: String)
        requires
            old(self).wf(),
        ensures
            final(self)@ == insert_entry(old(self)@, key@, value@),
            final(self).wf(),
    {
        let ghost es = self@;
        let ghost kv = key@;
        let ghost vv = value@;
        let n = self.entries.len();
        let mut i: usize = 0;
        assert(es.subrange(0, n as int) =~= es);
        assert(es.subrange(0, 0) + insert_entry(es, kv, vv) =~= insert_entry(es, kv, vv));
        while i < n
            invariant
                n == self.entries.len(),
                n == es.len(),
                es == self@,
                kv == key@,
                vv == value@,
                es == old(self)@,
                strictly_sorted(es),
                i <= n,
                insert_entry(es, kv, vv) == es.subrange(0, i as int) + insert_entry(
                    es.subrange(i as int, n as int),
                    kv,
                    vv,
                ),
            decreases n - i,
        {
            let ghost rest = es.subrange(i as int, n as int);
            assert(rest[0] == es[i as int]);
            assert(es[i as int] == (self.entries@[i as int].0@, self.entries@[i as int].1@));
            if self.entries[i].0 == key {
                let ghost before = self.entries@;
                self.entries.set(i, (key, value));
                proof {
                    assert(es == pairs_view(before));
                    assert forall|j: int| 0 <= j < n implies #[trigger] pairs_view(self.entries@)[j] == es.update(i as int, (kv, vv))[j] by {
                        assert(pairs_view(self.entries@)[j] == (self.entries@[j].0@, self.entries@[j].1@));
                        assert(pairs_view(before)[j] == (before[j].0@, before[j].1@));
                    }
                    assert(pairs_view(self.entries@) =~= es.update(i as int, (kv, vv)));
                    assert(rest.drop_first() =~= es.subrange(i + 1, n as int));
                    assert(self@ =~= es.subrange(0, i as int) + insert_entry(rest, kv, vv));
                    lemma_insert_sorted(es, kv, vv);
                }
                return;
            }
            if key_lt(&key, &self.entries[i].0) {
                self.entries.insert(i, (key, value));
                proof {
                    assert(pairs_view(self.entries@) =~= es.insert(i as int, (kv, vv)));
                    assert(self@ =~= es.subrange(0, i as int) + insert_entry(rest, kv, vv));
                    lemma_insert_sorted(es, kv, vv);
                }
                return;
            }
            proof {
                assert(rest.drop_first() =~= es.subrange(i + 1, n as int));
                assert(es.subrange(0, i as int) + seq![es[i as int]] =~= es.subrange(0, i + 1));
                assert(insert_entry(rest, kv, vv) == seq![es[i as int]] + insert_entry(rest.drop_first(), kv, vv));
                assert(es.subrange(0, i as int) + insert_entry(rest, kv, vv) =~= es.subrange(0, i + 1) + insert_entry(rest.drop_first(), kv, vv));
            }
            i = i + 1;
        }
        self.entries.push((key, value));
        proof {
            assert(pairs_view(self.entries@) =~= es.push((kv, vv)));
            assert(es.subrange(n as int, n as int) =~= Seq::<(Seq<char>, Seq<char>)>::empty());
            assert(es.subrange(0, n as int) =~= es);
            assert(self@ =~= es + seq![(kv, vv)]);
            lemma_insert_sorted(es, kv, vv);
        }
    }

    /// The map built by setting each pair in turn, a later pair overriding an
    /// earlier one with the same key.
    pub fn from_pairs(pairs: Vec<(String, String)>) -> (r: BuildInfo)
        ensures
            r@ == entries_of(pairs_view(pairs@)),
            r.wf(),
    {
        let mut info = BuildInfo::new();
        let ghost pv = pairs_view(pairs@);
        let n = pairs.len();
        let mut i: usize = 0;
        while i < n
            invariant
                n == pairs@.len(),
                pv == pairs_view(pairs@),
                i <= n,
                info.wf(),
                info@ == entries_of(pv.subrange(0, i as int)),
            decreases n - i,
        {
            let k = pairs[i].0.clone();
            let v = pairs[i].1.clone();
            proof {
                let sub = pv.subrange(0, i + 1);
                assert(sub.drop_last() =~= pv.subrange(0, i as int));
                assert(sub.last() == pv[i as int]);
            }
            info.insert(k, v);
            i = i + 1;
        }
        assert(pv.subrange(0, n as int) =~= pv);
        info
    }

    /// The number of entries.
    pub fn len(&self) -> (r: usize)
        ensures
            r == self@.len(),
    {
        self.entries.len()
    }

    /// The entries, in increasing order of key.
    pub fn entries(&self) -> (r: &Vec<(String, String)>)
        ensures
            pairs_view(r@) == self@,
    {
        &self.entries
    }
}

/// Decides `key_less(a@, b@)`.
pub fn key_lt(a: &String, b: &String) -> (r: bool)
    ensures
        r == key_less(a@, b@),
{
    let sa = a.as_str();
    let sb = b.as_str();
    let la = sa.unicode_len();
    let lb = sb.unicode_len();
    let mut i: usize = 0;
    assert(a@.subrange(0, la as int) =~= a@);
    assert(b@.subrange(0, lb as int) =~= b@);
    assert(a@.subrange(0, 0) =~= b@.subrange(0, 0));
    while i < la && i < lb
        invariant
            la == a@.len(),
            lb == b@.len(),
            sa@ == a@,
            sb@ == b@,
            i <= la,
            i <= lb,
            a@.subrange(0, i as int) == b@.subrange(0, i as int),
            key_less(a@, b@) == key_less(a@.subrange(i as int, la as int), b@.subrange(i as int, lb as int)),
        decreases la - i,
    {
        let ca = sa.get_char(i);
        let cb = sb.get_char(i);
        let ghost ra = a@.subrange(i as int, la as int);
        let ghost rb = b@.subrange(i as int, lb as int);
        assert(ra[0] == ca && rb[0] == cb);
        if ca != cb {
            return (ca as u32) < (cb as u32);
        }
        assert(ra.drop_first() =~= a@.subrange(i + 1, la as int));
        assert(rb.drop_first() =~= b@.subrange(i + 1, lb as int));
        assert(a@.subrange(0, i + 1) =~= a@.subrange(0, i as int).push(ca));
        assert(b@.subrange(0, i + 1) =~= b@.subrange(0, i as int).push(cb));
        i = i + 1;
    }
    i < lb
}

} // verus!
