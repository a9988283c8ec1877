//! Reading a span/delta encoding back: which bucket indices it covers and
//! which count each of them holds.

use crate::spans::{
    ascending, bucket_encoding, encode_prefix, key_counts, lemma_encode_shape, lemma_sorted_keys_unique,
    sorted_keys,
};
use vstd::prelude::*;

verus! {

/// Index just past the last bucket covered by `spans`.
pub open spec fn spans_end(spans: Seq<(int, int)>) -> int
    decreases spans.len(),
{
    if spans.len() == 0 {
        0
    } else {
        spans_end(spans.drop_last()) + spans.last().0 + spans.last().1
    }
}

/// The bucket indices covered by `spans`, in the order they are encoded: each
/// span starts `offset` buckets after the end of the previous one (the first
/// one at index `offset`) and covers `length` consecutive buckets.
pub open spec fn span_positions(spans: Seq<(int, int)>) -> Seq<int>
    decreases spans.len(),
{
    if spans.len() == 0 {
        Seq::empty()
    } else {
        let start = spans_end(spans.drop_last()) + spans.last().0;
        span_positions(spans.drop_last()) + Seq::new(spans.last().1 as nat, |i: int| start + i)
    }
}

/// Sum of a sequence of integers.
pub open spec fn seq_sum(s: Seq<int>) -> int
    decreases s.len(),
{
    if s.len() == 0 {
        0
    } else {
        seq_sum(s.drop_last()) + s.last()
    }
}

/// The sum of a concatenation is the sum of the sums.
pub proof fn lemma_seq_sum_concat(a: Seq<int>, b: Seq<int>)
    ensures
        seq_sum(a + b) == seq_sum(a) + seq_sum(b),
    decreases b.len(),
{
    if b.len() == 0 {
        assert(a + b =~= a);
    } else {
        assert((a + b).drop_last() =~= a + b.drop_last());
        lemma_seq_sum_concat(a, b.drop_last());
    }
}

/// Changing one element changes the sum by the difference.
pub proof fn lemma_seq_sum_update(s: Seq<int>, i: int, v: int)
    requires
        0 <= i < s.len(),
    ensures
        seq_sum(s.update(i, v)) == seq_sum(s) - s[i] + v,
{
    let u = s.update(i, v);
    assert(s =~= s.subrange(0, i) + seq![s[i]] + s.subrange(i + 1, s.len() as int));
    assert(u =~= s.subrange(0, i) + seq![v] + s.subrange(i + 1, s.len() as int));
    lemma_seq_sum_concat(s.subrange(0, i) + seq![s[i]], s.subrange(i + 1, s.len() as int));
    lemma_seq_sum_concat(s.subrange(0, i), seq![s[i]]);
    lemma_seq_sum_concat(s.subrange(0, i) + seq![v], s.subrange(i + 1, s.len() as int));
    lemma_seq_sum_concat(s.subrange(0, i), seq![v]);
    assert(seq![s[i]].drop_last() =~= Seq::<int>::empty());
    assert(seq![v].drop_last() =~= Seq::<int>::empty());
}

/// Inserting an element adds it to the sum.
pub proof fn lemma_seq_sum_insert(s: Seq<int>, i: int, v: int)
    requires
        0 <= i <= s.len(),
    ensures
        seq_sum(s.insert(i, v)) == seq_sum(s) + v,
{
    assert(s =~= s.subrange(0, i) + s.subrange(i, s.len() as int));
    assert(s.insert(i, v) =~= s.subrange(0, i) + seq![v] + s.subrange(i, s.len() as int));
    lemma_seq_sum_concat(s.subrange(0, i), s.subrange(i, s.len() as int));
    lemma_seq_sum_concat(s.subrange(0, i) + seq![v], s.subrange(i, s.len() as int));
    lemma_seq_sum_concat(s.subrange(0, i), seq![v]);
    assert(seq![v].drop_last() =~= Seq::<int>::empty());
    assert(seq_sum(Seq::<int>::empty()) == 0);
    assert(seq![v].last() == v);
    assert(seq_sum(seq![v]) == seq_sum(seq![v].drop_last()) + v);
    assert(seq_sum(seq![v]) == v);
    assert(seq_sum(s.insert(i, v)) == seq_sum(s.subrange(0, i) + seq![v] + s.subrange(i, s.len() as int)));
}

/// The count of each encoded bucket: the running sum of the deltas.
pub open spec fn running_counts(deltas: Seq<int>) -> Seq<int> {
    Seq::new(deltas.len(), |j: int| seq_sum(deltas.take(j + 1)))
}

proof fn lemma_running_push(d: Seq<int>, v: int)
    ensures
        running_counts(d.push(v)) == running_counts(d).push(seq_sum(d) + v),
        seq_sum(d.push(v)) == seq_sum(d) + v,
        d.len() > 0 ==> running_counts(d).last() == seq_sum(d),
{
    assert(d.push(v).drop_last() =~= d);
    assert forall|j: int| 0 <= j < d.len() implies #[trigger] d.push(v).take(j + 1) =~= d.take(j + 1) by {}
    assert(d.push(v).take(d.len() + 1int) =~= d.push(v));
    assert(d.take(d.len() as int) =~= d);
    assert(running_counts(d.push(v)) =~= running_counts(d).push(seq_sum(d) + v));
}

proof fn lemma_positions_push(spans: Seq<(int, int)>, o: int, l: int)
    requires
        l >= 0,
    ensures
        span_positions(spans.push((o, l))) == span_positions(spans) + Seq::new(
            l as nat,
            |i: int| spans_end(spans) + o + i,
        ),
        spans_end(spans.push((o, l))) == spans_end(spans) + o + l,
{
    assert(spans.push((o, l)).drop_last() =~= spans);
}

proof fn lemma_positions_extend(spans: Seq<(int, int)>, k: nat)
    requires
        spans.len() > 0,
        spans.last().1 >= 0,
    ensures
        ({
            let u = spans.update(spans.len() - 1, (spans.last().0, spans.last().1 + k));
            &&& span_positions(u) == span_positions(spans) + Seq::new(k, |i: int| spans_end(spans) + i)
            &&& spans_end(u) == spans_end(spans) + k
        }),
{
    let u = spans.update(spans.len() - 1, (spans.last().0, spans.last().1 + k));
    assert(u.drop_last() =~= spans.drop_last());
    let start = spans_end(spans.drop_last()) + spans.last().0;
    let l = spans.last().1;
    assert(Seq::new((l + k) as nat, |i: int| start + i) =~= Seq::new(l as nat, |i: int| start + i)
        + Seq::new(k, |i: int| spans_end(spans) + i));
}

/// Some encoded bucket sits at index `k` and holds `v`.
pub open spec fn holds_bucket(p: Seq<int>, c: Seq<int>, k: int, v: int) -> bool {
    exists|j: int| 0 <= j < p.len() && #[trigger] p[j] == k && c[j] == v
}

/// An encoded bucket at index `pos` with count `v` is either one of the first
/// `n` keys, or an empty bucket inside a gap of at most two buckets between
/// two consecutive keys.
pub open spec fn justified(ks: Seq<i32>, n: int, pos: int, v: int) -> bool {
    ||| exists|i: int| 0 <= i < n && #[trigger] ks[i] == pos
    ||| v == 0 && exists|i: int| 0 <= i && i + 1 < n && #[trigger] ks[i] < pos < ks[i + 1] && ks[i + 1] - ks[i] <= 3
}

/// What the encoder state after the first `n` keys decodes to.
spec fn decodes_prefix(ks: Seq<i32>, vals: Seq<int>, n: nat) -> bool {
    let e = encode_prefix(ks, vals, n);
    let p = span_positions(e.spans);
    let c = running_counts(e.deltas);
    &&& p.len() == e.deltas.len()
    &&& spans_end(e.spans) == e.next
    &&& forall|a: int, b: int| 0 <= a < b < p.len() ==> p[a] < p[b]
    &&& n > 0 ==> p.len() > 0 && p.last() == ks[n - 1] && c.last() == e.prev
    &&& forall|i: int| 0 <= i < n ==> #[trigger] holds_bucket(p, c, ks[i] as int, vals[i])
    &&& forall|j: int| 0 <= j < p.len() ==> #[trigger] justified(ks, n as int, p[j], c[j])
}

proof fn lemma_decodes_prefix(ks: Seq<i32>, vals: Seq<int>, n: nat)
    requires
        ascending(ks),
        vals.len() == ks.len(),
        n <= ks.len(),
    ensures
        decodes_prefix(ks, vals, n),
    decreases n,
{
    let t = encode_prefix(ks, vals, n);
    if n == 0 {
        assert(span_positions(t.spans) =~= Seq::<int>::empty());
    } else {
        lemma_decodes_prefix(ks, vals, (n - 1) as nat);
        lemma_encode_shape(ks, vals, (n - 1) as nat);
        lemma_encode_shape(ks, vals, n);
        let e = encode_prefix(ks, vals, (n - 1) as nat);
        let p = span_positions(e.spans);
        let c = running_counts(e.deltas);
        let pt = span_positions(t.spans);
        let ct = running_counts(t.deltas);
        let index = ks[n - 1] as int;
        let count = vals[n - 1];
        let d = index - e.next;
        if n > 1 {
            assert(ks[n - 2] < ks[n - 1]);
        }
        if n == 1 || d > 2 {
            lemma_positions_push(e.spans, d, 1);
            lemma_running_push(e.deltas, count - e.prev);
            assert(pt =~= p.push(index));
            if n > 1 {
                lemma_running_push(e.deltas, 0);
                assert(seq_sum(e.deltas) == e.prev);
            } else {
                assert(e.deltas =~= Seq::<int>::empty());
            }
            assert(ct =~= c.push(count));
            assert forall|i: int| 0 <= i < n implies #[trigger] holds_bucket(pt, ct, ks[i] as int, vals[i]) by {
                if i < n - 1 {
                    assert(holds_bucket(p, c, ks[i] as int, vals[i]));
                    let j = choose|j: int| 0 <= j < p.len() && #[trigger] p[j] == ks[i] && c[j] == vals[i];
                    assert(pt[j] == ks[i] && ct[j] == vals[i]);
                } else {
                    assert(pt[p.len() as int] == ks[i]);
                }
            }
            assert forall|j: int| 0 <= j < pt.len() implies #[trigger] justified(ks, n as int, pt[j], ct[j]) by {
                if j == p.len() {
                    assert(ks[n - 1] == pt[j]);
                } else {
                    assert(pt[j] == p[j] && ct[j] == c[j]);
                    assert(justified(ks, n - 1, p[j], c[j]));
                }
            }
        } else {
            let dn = d as nat;
            lemma_positions_extend(e.spans, (d + 1) as nat);
            let fill = Seq::new((d + 1) as nat, |i: int| e.next + i);
            assert(pt =~= p + fill);
            let before = if d == 0 { e.prev } else { 0 };
            lemma_running_push(e.deltas, 0);
            assert(seq_sum(e.deltas) == e.prev);
            let zeros = Seq::new(dn, |i: int| 0int);
            if d == 0 {
                assert(t.deltas =~= e.deltas.push(count - e.prev));
                lemma_running_push(e.deltas, count - e.prev);
                assert(ct =~= c + zeros.push(count));
            } else if d == 1 {
                assert(t.deltas =~= e.deltas.push(-e.prev).push(count));
                lemma_running_push(e.deltas, -e.prev);
                lemma_running_push(e.deltas.push(-e.prev), count);
                assert(ct =~= c + zeros.push(count));
            } else {
                assert(t.deltas =~= e.deltas.push(-e.prev).push(0).push(count));
                lemma_running_push(e.deltas, -e.prev);
                lemma_running_push(e.deltas.push(-e.prev), 0);
                lemma_running_push(e.deltas.push(-e.prev).push(0), count);
                assert(ct =~= c + zeros.push(count));
            }
            assert(fill.last() == index);
            assert forall|i: int| 0 <= i < n implies #[trigger] holds_bucket(pt, ct, ks[i] as int, vals[i]) by {
                if i < n - 1 {
                    assert(holds_bucket(p, c, ks[i] as int, vals[i]));
                    let j = choose|j: int| 0 <= j < p.len() && #[trigger] p[j] == ks[i] && c[j] == vals[i];
                    assert(pt[j] == ks[i] && ct[j] == vals[i]);
                } else {
                    assert(pt[pt.len() - 1] == ks[i]);
                }
            }
            assert forall|j: int| 0 <= j < pt.len() implies #[trigger] justified(ks, n as int, pt[j], ct[j]) by {
                if j == pt.len() - 1 {
                    assert(ks[n - 1] == pt[j]);
                } else if j >= p.len() {
                    assert(ct[j] == 0);
                    assert(ks[n - 2] < pt[j] < ks[n - 1]);
                } else {
                    assert(pt[j] == p[j] && ct[j] == c[j]);
                    assert(justified(ks, n - 1, p[j], c[j]));
                }
            }
        }
    }
}

proof fn lemma_has_max(s: Set<i32>)
    requires
        s.finite(),
        s.len() > 0,
    ensures
        exists|x: i32| s.contains(x) && forall|y: i32| s.contains(y) ==> y <= x,
    decreases s.len(),
{
    let x = s.choose();
    assert(s.contains(x));
    let r = s.remove(x);
    if r.len() == 0 {
        assert forall|y: i32| s.contains(y) implies y <= x by {
            if y != x {
                assert(r.contains(y));
            }
        }
    } else {
        lemma_has_max(r);
        let m = choose|m: i32| r.contains(m) && forall|y: i32| r.contains(y) ==> y <= m;
        if x <= m {
            assert forall|y: i32| s.contains(y) implies y <= m by {
                if y != x {
                    assert(r.contains(y));
                }
            }
        } else {
            assert forall|y: i32| s.contains(y) implies y <= x by {
                if y != x {
                    assert(r.contains(y));
                }
            }
        }
    }
}

proof fn lemma_listing_exists(s: Set<i32>)
    requires
        s.finite(),
    ensures
        exists|ks: Seq<i32>| ascending(ks) && ks.to_set() == s,
    decreases s.len(),
{
    if s.len() == 0 {
        assert(s =~= Set::<i32>::empty());
        assert(Seq::<i32>::empty().to_set() =~= s);
        assert(ascending(Seq::<i32>::empty()));
    } else {
        lemma_has_max(s);
        let x = choose|x: i32| s.contains(x) && forall|y: i32| s.contains(y) ==> y <= x;
        let r = s.remove(x);
        lemma_listing_exists(r);
        let l = choose|l: Seq<i32>| ascending(l) && l.to_set() == r;
        let ks = l.push(x);
        assert forall|i: int| 0 <= i < l.len() implies #[trigger] l[i] < x by {
            assert(l.to_set().contains(l[i]));
            assert(r.contains(l[i]));
        }
        assert(ascending(ks)) by {
            assert forall|i: int, j: int| 0 <= i < j < ks.len() implies ks[i] < ks[j] by {
                if j == l.len() {
                    assert(l[i] < x);
                } else {
                    assert(ks[i] == l[i] && ks[j] == l[j]);
                }
            }
        }
        assert(ks.to_set() =~= s) by {
            assert forall|y: i32| ks.to_set().contains(y) implies s.contains(y) by {
                let j = choose|j: int| 0 <= j < ks.len() && ks[j] == y;
                if j < l.len() {
                    assert(l[j] == y);
                    assert(l.to_set().contains(y));
                }
            }
            assert forall|y: i32| s.contains(y) implies ks.to_set().contains(y) by {
                if y == x {
                    assert(ks[l.len() as int] == x);
                } else {
                    assert(r.contains(y));
                    assert(l.to_set().contains(y));
                    let j = choose|j: int| 0 <= j < l.len() && l[j] == y;
                    assert(ks[j] == y);
                }
            }
        }
    }
}

/// The keys of a finite bucket map are listed by `sorted_keys` in ascending order.
pub proof fn lemma_sorted_keys_exist(m: Map<i32, u64>)
    requires
        m.dom().finite(),
    ensures
        ascending(sorted_keys(m)),
        sorted_keys(m).to_set() == m.dom(),
{
    lemma_listing_exists(m.dom());
    let ks = choose|ks: Seq<i32>| ascending(ks) && ks.to_set() == m.dom();
    lemma_sorted_keys_unique(ks, m);
}

/// Every span of the encoding of a bucket map holds at least one bucket, and
/// every span after the first follows a gap of more than two empty buckets
/// (smaller gaps are filled with zero counts). The empty map encodes to no
/// spans and no deltas.
pub proof fn lemma_encoding_structure(m: Map<i32, u64>)
    requires
        m.dom().finite(),
    ensures
        ({
            let e = bucket_encoding(m);
            &&& forall|i: int| 0 <= i < e.spans.len() ==> #[trigger] e.spans[i].1 >= 1
            &&& forall|i: int| 0 < i < e.spans.len() ==> #[trigger] e.spans[i].0 > 2
            &&& m.dom().len() == 0 <==> e.spans.len() == 0
            &&& m.dom().len() == 0 <==> e.deltas.len() == 0
        }),
{
    lemma_sorted_keys_exist(m);
    let ks = sorted_keys(m);
    let vals = key_counts(ks, m);
    lemma_encode_shape(ks, vals, ks.len());
    lemma_decodes_prefix(ks, vals, ks.len());
    if ks.len() == 0 {
        assert(m.dom() =~= Set::<i32>::empty()) by {
            assert forall|k: i32| !m.dom().contains(k) by {
                if m.dom().contains(k) {
                    assert(ks.to_set().contains(k));
                }
            }
        }
    } else {
        assert(ks.to_set().contains(ks[0]));
        assert(m.dom().contains(ks[0]));
    }
}

/// The index `pos` lies strictly between two keys of `m` that are at most
/// three apart: a gap of one or two empty buckets.
pub open spec fn in_small_gap(m: Map<i32, u64>, pos: int) -> bool {
    exists|a: i32, b: i32|
        #![trigger m.dom().contains(a), m.dom().contains(b)]
        m.dom().contains(a) && m.dom().contains(b) && a < pos < b && b - a <= 3
}

/// A decoded bucket at index `pos` holding `v` is either a bucket of `m`
/// with its count, or an empty bucket filling a small gap.
pub open spec fn decodes_from(m: Map<i32, u64>, pos: int, v: int) -> bool {
    ||| exists|k: i32| #[trigger] m.dom().contains(k) && k as int == pos && v == (m[k] as i64) as int
    ||| v == 0 && !(exists|k: i32| #[trigger] m.dom().contains(k) && k as int == pos) && in_small_gap(m, pos)
}

/// Decoding the span/delta encoding of a bucket map gives every bucket back
/// at its index with its count, and nothing else but empty buckets that fill
/// gaps of one or two buckets; the decoded indices ascend, and there is one
/// delta per decoded bucket.
pub proof fn lemma_encoding_round_trip(m: Map<i32, u64>)
    requires
        m.dom().finite(),
    ensures
        ({
            let e = bucket_encoding(m);
            let p = span_positions(e.spans);
            let c = running_counts(e.deltas);
            &&& p.len() == e.deltas.len()
            &&& forall|a: int, b: int| 0 <= a < b < p.len() ==> p[a] < p[b]
            &&& forall|k: i32| #[trigger] m.dom().contains(k) ==> holds_bucket(p, c, k as int, (m[k] as i64) as int)
            &&& forall|j: int| 0 <= j < p.len() ==> #[trigger] decodes_from(m, p[j], c[j])
        }),
{
    lemma_sorted_keys_exist(m);
    let ks = sorted_keys(m);
    let vals = key_counts(ks, m);
    lemma_decodes_prefix(ks, vals, ks.len());
    let e = bucket_encoding(m);
    let p = span_positions(e.spans);
    let c = running_counts(e.deltas);
    assert forall|k: i32| #[trigger] m.dom().contains(k) implies holds_bucket(p, c, k as int, (m[k] as i64) as int) by {
        assert(ks.to_set().contains(k));
        let i = choose|i: int| 0 <= i < ks.len() && ks[i] == k;
        assert(holds_bucket(p, c, ks[i] as int, vals[i]));
    }
    assert forall|j: int| 0 <= j < p.len() implies #[trigger] decodes_from(m, p[j], c[j]) by {
        assert(justified(ks, ks.len() as int, p[j], c[j]));
        if exists|i: int| 0 <= i < ks.len() && #[trigger] ks[i] == p[j] {
            let i = choose|i: int| 0 <= i < ks.len() && #[trigger] ks[i] == p[j];
            assert(holds_bucket(p, c, ks[i] as int, vals[i]));
            let j2 = choose|j2: int| 0 <= j2 < p.len() && #[trigger] p[j2] == ks[i] && c[j2] == vals[i];
            if j2 < j {
                assert(p[j2] < p[j]);
            } else if j2 > j {
                assert(p[j] < p[j2]);
            }
            assert(ks.to_set().contains(ks[i]));
            assert(m.dom().contains(ks[i]));
        } else {
            let i = choose|i: int| 0 <= i && i + 1 < ks.len() && #[trigger] ks[i] < p[j] < ks[i + 1] && ks[i + 1] - ks[i] <= 3;
            assert(ks.to_set().contains(ks[i]));
            assert(ks.to_set().contains(ks[i + 1]));
            assert(m.dom().contains(ks[i]) && m.dom().contains(ks[i + 1]));
            assert(in_small_gap(m, p[j]));
            if exists|k: i32| #[trigger] m.dom().contains(k) && k as int == p[j] {
                let k = choose|k: i32| #[trigger] m.dom().contains(k) && k as int == p[j];
                assert(ks.to_set().contains(k));
                let l = choose|l: int| 0 <= l < ks.len() && ks[l] == k;
                assert(ks[l] == p[j]);
            }
        }
    }
}

} // verus!
