//! Span/delta encoding of sparse native-histogram buckets.

use std::collections::HashMap;
use vstd::prelude::*;
use vstd::std_specs::iter::IteratorSpec;

verus! {

broadcast use vstd::std_specs::hash::group_hash_axioms;

/// A consecutive range of buckets: `offset` is the gap to the previous
/// span (for the first span, the index of its first bucket) and `length`
/// the number of consecutive buckets it holds.
#[derive(Debug, Clone, Copy, PartialEq, Eq, Structural)]
pub struct BucketSpan {
    /// Gap to previous span, or starting point for 1st span (can be negative).
    pub offset: i32,
    /// Length of consecutive buckets.
    pub length: u32,
}

/// A span as a pair of mathematical integers `(offset, length)`.
pub open spec fn span_view(s: BucketSpan) -> (int, int) {
    (s.offset as int, s.length as int)
}

/// The state of the encoder after it has consumed a prefix of the keys:
/// the spans and deltas written so far, the count of the last bucket
/// written, and the index just past it.
pub ghost struct EncodingState {
    pub spans: Seq<(int, int)>,
    pub deltas: Seq<int>,
    pub prev: int,
    pub next: int,
}

/// Deltas written for `d` empty buckets after a bucket holding `prev`:
/// the first one drops the count to zero, the others keep it there.
pub open spec fn gap_deltas(prev: int, d: nat) -> Seq<int> {
    Seq::new(d, |i: int| if i == 0 { -prev } else { 0int })
}

/// The encoder state after the first `n` of the ascending keys `ks`, whose
/// bucket counts are `vals`, have been consumed. A bucket that follows the
/// previous one after a gap of at most two empty buckets extends the current
/// span, the empty buckets written with zero counts; otherwise it opens a new
/// span. Each delta is a bucket's count minus the count written before it.
pub open spec fn encode_prefix(ks: Seq<i32>, vals: Seq<int>, n: nat) -> EncodingState
    decreases n,
{
    if n == 0 {
        EncodingState { spans: Seq::empty(), deltas: Seq::empty(), prev: 0, next: 0 }
    } else {
        let e = encode_prefix(ks, vals, (n - 1) as nat);
        let index = ks[n - 1] as int;
        let count = vals[n - 1];
        let d = index - e.next;
        if n == 1 || d > 2 {
            EncodingState {
                spans: e.spans.push((d, 1)),
                deltas: e.deltas.push(count - e.prev),
                prev: count,
                next: index + 1,
            }
        } else {
            let last = e.spans.last();
            let before = if d == 0 { e.prev } else { 0 };
            EncodingState {
                spans: e.spans.update(e.spans.len() - 1, (last.0, last.1 + d + 1)),
                deltas: e.deltas + gap_deltas(e.prev, d as nat) + seq![count - before],
                prev: count,
                next: index + 1,
            }
        }
    }
}

/// The count of each key of `ks` in `m`, read as a signed 64-bit integer.
pub open spec fn key_counts(ks: Seq<i32>, m: Map<i32, u64>) -> Seq<int> {
    ks.map_values(|k: i32| (m[k] as i64) as int)
}

/// The span/delta encoding of the bucket map `m`.
pub open spec fn bucket_encoding(m: Map<i32, u64>) -> EncodingState {
    let ks = sorted_keys(m);
    encode_prefix(ks, key_counts(ks, m), ks.len())
}

/// Every offset of `e` fits in `i32`, every length in `u32` and every delta in `i64`.
pub open spec fn fits(e: EncodingState) -> bool {
    &&& forall|i: int| 0 <= i < e.spans.len() ==> i32::MIN <= #[trigger] e.spans[i].0 <= i32::MAX
    &&& forall|i: int| 0 <= i < e.spans.len() ==> 0 <= #[trigger] e.spans[i].1 <= u32::MAX
    &&& forall|i: int| 0 <= i < e.deltas.len() ==> i64::MIN <= #[trigger] e.deltas[i] <= i64::MAX
}

/// `spans` and `deltas` hold exactly the spans and deltas of `e`.
pub open spec fn encodes(spans: Seq<BucketSpan>, deltas: Seq<i64>, e: EncodingState) -> bool {
    &&& spans.map_values(|s: BucketSpan| span_view(s)) == e.spans
    &&& deltas.map_values(|d: i64| d as int) == e.deltas
}

/// Shape of the encoder state: it remembers the last key and count, every
/// span holds at least one bucket, and every span after the first follows a
/// gap of more than two empty buckets.
pub proof fn lemma_encode_shape(ks: Seq<i32>, vals: Seq<int>, n: nat)
    requires
        ascending(ks),
        vals.len() == ks.len(),
        n <= ks.len(),
    ensures
        ({
            let e = encode_prefix(ks, vals, n);
            &&& n == 0 ==> e.spans.len() == 0 && e.deltas.len() == 0 && e.prev == 0 && e.next == 0
            &&& n > 0 ==> e.spans.len() > 0 && e.prev == vals[n - 1] && e.next == ks[n - 1] + 1
            &&& forall|i: int| 0 <= i < e.spans.len() ==> #[trigger] e.spans[i].1 >= 1
            &&& forall|i: int| 0 < i < e.spans.len() ==> #[trigger] e.spans[i].0 > 2
        }),
    decreases n,
{
    if n > 0 {
        lemma_encode_shape(ks, vals, (n - 1) as nat);
        if n > 1 {
            assert(ks[n - 2] < ks[n - 1]);
        }
    }
}

/// Consuming more keys only appends deltas and spans and lengthens spans:
/// offsets and deltas already written stay as they are.
pub proof fn lemma_encode_grows(ks: Seq<i32>, vals: Seq<int>, n: nat, m: nat)
    requires
        ascending(ks),
        vals.len() == ks.len(),
        n <= m <= ks.len(),
    ensures
        ({
            let a = encode_prefix(ks, vals, n);
            let b = encode_prefix(ks, vals, m);
            &&& a.spans.len() <= b.spans.len()
            &&& a.deltas.len() <= b.deltas.len()
            &&& forall|i: int| 0 <= i < a.spans.len() ==> b.spans[i].0 == #[trigger] a.spans[i].0
            &&& forall|i: int| 0 <= i < a.spans.len() ==> #[trigger] a.spans[i].1 <= b.spans[i].1
            &&& forall|i: int| 0 <= i < a.deltas.len() ==> b.deltas[i] == #[trigger] a.deltas[i]
        }),
    decreases m,
{
    if n < m {
        lemma_encode_grows(ks, vals, n, (m - 1) as nat);
        lemma_encode_shape(ks, vals, (m - 1) as nat);
        if m > 1 {
            assert(ks[m - 2] < ks[m - 1]);
        }
    }
}

/// If the whole encoding fits the machine types, so does every prefix of it.
pub proof fn lemma_fits_prefix(ks: Seq<i32>, vals: Seq<int>, n: nat)
    requires
        ascending(ks),
        vals.len() == ks.len(),
        n <= ks.len(),
        fits(encode_prefix(ks, vals, ks.len())),
    ensures
        fits(encode_prefix(ks, vals, n)),
{
    lemma_encode_grows(ks, vals, n, ks.len());
    lemma_encode_shape(ks, vals, n);
    let a = encode_prefix(ks, vals, n);
    let b = encode_prefix(ks, vals, ks.len());
    assert forall|i: int| 0 <= i < a.spans.len() implies 0 <= #[trigger] a.spans[i].1 <= u32::MAX by {
        assert(a.spans[i].1 <= b.spans[i].1);
    }
    assert forall|i: int| 0 <= i < a.spans.len() implies i32::MIN <= #[trigger] a.spans[i].0 <= i32::MAX by {
        assert(b.spans[i].0 == a.spans[i].0);
    }
    assert forall|i: int| 0 <= i < a.deltas.len() implies i64::MIN <= #[trigger] a.deltas[i] <= i64::MAX by {
        assert(b.deltas[i] == a.deltas[i]);
    }
}

/// A sequence of integers in strictly increasing order.
pub open spec fn ascending(ks: Seq<i32>) -> bool {
    forall|i: int, j: int| 0 <= i < j < ks.len() ==> ks[i] < ks[j]
}

/// Two ascending sequences holding the same elements are equal.
pub proof fn lemma_ascending_unique(a: Seq<i32>, b: Seq<i32>)
    requires
        ascending(a),
        ascending(b),
        a.to_set() == b.to_set(),
    ensures
        a == b,
    decreases a.len(),
{
    if a.len() == 0 {
        if b.len() > 0 {
            assert(b.to_set().contains(b[0]));
        }
        assert(a =~= b);
    } else {
        assert(a.to_set().contains(a[0]));
        assert(b.len() > 0);
        assert(b.to_set().contains(b[0]));
        let i = choose|i: int| 0 <= i < a.len() && a[i] == b[0];
        let j = choose|j: int| 0 <= j < b.len() && b[j] == a[0];
        assert(a[0] <= a[i]);
        assert(b[0] <= b[j]);
        let a1 = a.drop_first();
        let b1 = b.drop_first();
        assert(a1.to_set() =~= b1.to_set()) by {
            assert forall|y: i32| a1.to_set().contains(y) implies b1.to_set().contains(y) by {
                let k = choose|k: int| 0 <= k < a1.len() && a1[k] == y;
                assert(a[k + 1] == y);
                assert(a.to_set().contains(y));
                let l = choose|l: int| 0 <= l < b.len() && b[l] == y;
                assert(a[0] < a[k + 1]);
                assert(l != 0);
                assert(b1[l - 1] == y);
            }
            assert forall|y: i32| b1.to_set().contains(y) implies a1.to_set().contains(y) by {
                let k = choose|k: int| 0 <= k < b1.len() && b1[k] == y;
                assert(b[k + 1] == y);
                assert(b.to_set().contains(y));
                let l = choose|l: int| 0 <= l < a.len() && a[l] == y;
                assert(b[0] < b[k + 1]);
                assert(l != 0);
                assert(a1[l - 1] == y);
            }
        }
        lemma_ascending_unique(a1, b1);
        assert(a1.len() == b1.len());
        assert(a.len() == b.len());
        assert(a =~= b) by {
            assert forall|k: int| 0 <= k < a.len() implies a[k] == b[k] by {
                if k > 0 {
                    assert(a[k] == a1[k - 1]);
                    assert(b[k] == b1[k - 1]);
                }
            }
        }
    }
}

/// The keys of `m` listed in ascending order.
pub open spec fn sorted_keys(m: Map<i32, u64>) -> Seq<i32> {
    choose|ks: Seq<i32>| ascending(ks) && ks.to_set() == m.dom()
}

/// Any ascending listing of the keys of `m` is `sorted_keys(m)`.
pub proof fn lemma_sorted_keys_unique(ks: Seq<i32>, m: Map<i32, u64>)
    requires
        ascending(ks),
        ks.to_set() == m.dom(),
    ensures
        sorted_keys(m) == ks,
        ascending(sorted_keys(m)),
        sorted_keys(m).to_set() == m.dom(),
{
    let c = sorted_keys(m);
    assert(ascending(c) && c.to_set() == m.dom());
    lemma_ascending_unique(ks, c);
}

/// Growing a prefix by one element adds that element to its set.
proof fn lemma_take_set_push(s: Seq<i32>, i: int)
    requires
        0 <= i < s.len(),
    ensures
        s.take(i + 1).to_set() == s.take(i).to_set().insert(s[i]),
{
    let pre = s.take(i);
    let post = s.take(i + 1);
    assert(post =~= pre.push(s[i]));
    assert forall|y: i32| post.to_set().contains(y) implies pre.to_set().insert(s[i]).contains(y) by {
        let j = choose|j: int| 0 <= j < post.len() && post[j] == y;
        if j < i {
            assert(pre[j] == y);
        }
    }
    assert forall|y: i32| pre.to_set().insert(s[i]).contains(y) implies post.to_set().contains(y) by {
        if y == s[i] {
            assert(post[i] == y);
        } else {
            let j = choose|j: int| 0 <= j < pre.len() && pre[j] == y;
            assert(post[j] == y);
        }
    }
    assert(post.to_set() =~= pre.to_set().insert(s[i]));
}

/// Merges two ascending sequences into one, keeping one copy of a key that
/// both hold.
fn merge_ascending(a: &Vec<i32>, b: &Vec<i32>) -> (r: Vec<i32>)
    requires
        ascending(a@),
        ascending(b@),
    ensures
        ascending(r@),
        r@.to_set() == a@.to_set().union(b@.to_set()),
{
    let mut r: Vec<i32> = Vec::new();
    let mut i: usize = 0;
    let mut j: usize = 0;
    proof {
        assert(a@.take(0).to_set() =~= Set::<i32>::empty());
        assert(b@.take(0).to_set() =~= Set::<i32>::empty());
        assert(r@.to_set() =~= Set::<i32>::empty());
    }
    while i < a.len() || j < b.len()
        invariant
            ascending(a@),
            ascending(b@),
            i <= a.len(),
            j <= b.len(),
            ascending(r@),
            r@.to_set() == a@.take(i as int).to_set().union(b@.take(j as int).to_set()),
            forall|p: int, k: int| 0 <= p < r.len() && i <= k < a.len() ==> r@[p] < a@[k],
            forall|p: int, k: int| 0 <= p < r.len() && j <= k < b.len() ==> r@[p] < b@[k],
        decreases a.len() - i + b.len() - j,
    {
        let ghost old_r = r@;
        let ghost (oi, oj) = (i as int, j as int);
        let x: i32;
        if j >= b.len() || (i < a.len() && a[i] < b[j]) {
            x = a[i];
            i = i + 1;
            proof {
                lemma_take_set_push(a@, oi);
            }
        } else if i >= a.len() || b[j] < a[i] {
            x = b[j];
            j = j + 1;
            proof {
                lemma_take_set_push(b@, oj);
            }
        } else {
            x = a[i];
            i = i + 1;
            j = j + 1;
            proof {
                lemma_take_set_push(a@, oi);
                lemma_take_set_push(b@, oj);
            }
        }
        r.push(x);
        proof {
            assert(r@ =~= old_r.push(x));
            assert(r@.to_set() =~= old_r.to_set().insert(x)) by {
                assert forall|y: i32| r@.to_set().contains(y) implies old_r.to_set().insert(x).contains(y) by {
                    let q = choose|q: int| 0 <= q < r@.len() && r@[q] == y;
                    if q < old_r.len() {
                        assert(old_r[q] == y);
                    }
                }
                assert forall|y: i32| old_r.to_set().insert(x).contains(y) implies r@.to_set().contains(y) by {
                    if y == x {
                        assert(r@[old_r.len() as int] == y);
                    } else {
                        let q = choose|q: int| 0 <= q < old_r.len() && old_r[q] == y;
                        assert(r@[q] == y);
                    }
                }
            }
            assert(r@.to_set() =~= a@.take(i as int).to_set().union(b@.take(j as int).to_set()));
            assert forall|p: int, k: int| 0 <= p < r.len() && i <= k < a.len() implies r@[p] < a@[k] by {
                if p < old_r.len() {
                    assert(old_r[p] < a@[k]);
                } else {
                    if oi < a.len() && oi < k {
                        assert(a@[oi] < a@[k]);
                    }
                    if oj < b.len() && x == b@[oj] && oi < a.len() {
                        assert(b@[oj] <= a@[oi]);
                        if oi < k {
                            assert(a@[oi] < a@[k]);
                        }
                    }
                }
            }
            assert forall|p: int, k: int| 0 <= p < r.len() && j <= k < b.len() implies r@[p] < b@[k] by {
                if p < old_r.len() {
                    assert(old_r[p] < b@[k]);
                } else {
                    if oj < b.len() && oj < k {
                        assert(b@[oj] < b@[k]);
                    }
                    if oi < a.len() && x == a@[oi] && oj < b.len() {
                        assert(a@[oi] <= b@[oj]);
                        if oj < k {
                            assert(b@[oj] < b@[k]);
                        }
                    }
                }
            }
            assert forall|p: int, q: int| 0 <= p < q < r@.len() implies r@[p] < r@[q] by {
                if q == old_r.len() {
                    if x == a@[oi] && oi < a.len() && i == oi + 1 {
                        assert(old_r[p] < a@[oi]);
                    } else {
                        assert(old_r[p] < b@[oj]);
                    }
                } else {
                    assert(old_r[p] < old_r[q]);
                }
            }
        }
    }
    proof {
        assert(a@.take(a.len() as int) =~= a@);
        assert(b@.take(b.len() as int) =~= b@);
    }
    r
}

/// The elements of `v[lo..hi]`, ascending and each once, by merge sort.
fn sorted_range(v: &Vec<i32>, lo: usize, hi: usize) -> (r: Vec<i32>)
    requires
        lo <= hi <= v.len(),
    ensures
        ascending(r@),
        r@.to_set() == v@.subrange(lo as int, hi as int).to_set(),
    decreases hi - lo,
{
    if hi - lo <= 1 {
        let mut r: Vec<i32> = Vec::new();
        if hi > lo {
            r.push(v[lo]);
        }
        proof {
            assert(r@ =~= v@.subrange(lo as int, hi as int));
        }
        r
    } else {
        let mid = lo + (hi - lo) / 2;
        let left = sorted_range(v, lo, mid);
        let right = sorted_range(v, mid, hi);
        let r = merge_ascending(&left, &right);
        proof {
            let whole = v@.subrange(lo as int, hi as int);
            let l = v@.subrange(lo as int, mid as int);
            let h = v@.subrange(mid as int, hi as int);
            assert(whole =~= l + h);
            assert(whole.to_set() =~= l.to_set().union(h.to_set())) by {
                assert forall|y: i32| whole.to_set().contains(y) implies l.to_set().union(h.to_set()).contains(y) by {
                    let q = choose|q: int| 0 <= q < whole.len() && whole[q] == y;
                    if q < l.len() {
                        assert(l[q] == y);
                    } else {
                        assert(h[q - l.len()] == y);
                    }
                }
                assert forall|y: i32| l.to_set().union(h.to_set()).contains(y) implies whole.to_set().contains(y) by {
                    if l.to_set().contains(y) {
                        let q = choose|q: int| 0 <= q < l.len() && l[q] == y;
                        assert(whole[q] == y);
                    } else {
                        let q = choose|q: int| 0 <= q < h.len() && h[q] == y;
                        assert(whole[q + l.len()] == y);
                    }
                }
            }
        }
        r
    }
}

/// The keys of `buckets` in ascending order.
fn sorted_key_list(buckets: &HashMap<i32, u64>) -> (ks: Vec<i32>)
    ensures
        ascending(ks@),
        ks@.to_set() == buckets@.dom(),
{
    let mut keys: Vec<i32> = Vec::new();
    let ghost all: Seq<i32> = buckets.keys().remaining().unref();
    for k in iter: buckets.keys()
        invariant
            all == iter.seq().unref(),
            all.to_set() == buckets@.dom(),
            keys@ == all.take(iter.index()),
    {
        let ghost idx = iter.index();
        assert(all[idx] == *k);
        keys.push(*k);
        proof {
            assert(all.take(idx + 1) =~= all.take(idx).push(*k));
        }
    }
    proof {
        assert(all.take(all.len() as int) =~= all);
        assert(keys@.subrange(0, keys@.len() as int) =~= keys@);
    }
    sorted_range(&keys, 0, keys.len())
}

proof fn lemma_view_update(s: Seq<BucketSpan>, i: int, x: BucketSpan)
    requires
        0 <= i < s.len(),
    ensures
        s.update(i, x).map_values(|b: BucketSpan| span_view(b)) == s.map_values(
            |b: BucketSpan| span_view(b),
        ).update(i, span_view(x)),
{
    assert(s.update(i, x).map_values(|b: BucketSpan| span_view(b)) =~= s.map_values(
        |b: BucketSpan| span_view(b),
    ).update(i, span_view(x)));
}

/// The encoding depends only on the map's contents: spans and deltas that
/// encode bucket maps holding the same `(key, count)` pairs, however those
/// maps were built or iterated, are equal.
pub proof fn lemma_encoding_unique(
    spans1: Seq<BucketSpan>,
    deltas1: Seq<i64>,
    m1: Map<i32, u64>,
    spans2: Seq<BucketSpan>,
    deltas2: Seq<i64>,
    m2: Map<i32, u64>,
)
    requires
        m1 == m2,
        encodes(spans1, deltas1, bucket_encoding(m1)),
        encodes(spans2, deltas2, bucket_encoding(m2)),
    ensures
        spans1 == spans2,
        deltas1 == deltas2,
{
    let v1 = spans1.map_values(|sp: BucketSpan| span_view(sp));
    let v2 = spans2.map_values(|sp: BucketSpan| span_view(sp));
    assert(v1 == v2);
    assert(spans1.len() == spans2.len());
    assert forall|i: int| 0 <= i < spans1.len() implies spans1[i] == spans2[i] by {
        assert(v1[i] == v2[i]);
    }
    assert(spans1 =~= spans2);
    let d1 = deltas1.map_values(|d: i64| d as int);
    let d2 = deltas2.map_values(|d: i64| d as int);
    assert(d1 == bucket_encoding(m1).deltas);
    assert(d2 == bucket_encoding(m1).deltas);
    assert(d1.len() == d2.len());
    assert(deltas1.len() == deltas2.len());
    assert forall|i: int| 0 <= i < deltas1.len() implies deltas1[i] == deltas2[i] by {
        assert(d1[i] == d2[i]);
    }
    assert(deltas1 =~= deltas2);
}

/// Converts sparse buckets to spans and deltas, or gives `None` exactly when
/// some offset, span length or delta of the encoding leaves its machine type
/// (where unchecked arithmetic would overflow).
pub fn try_make_buckets(buckets: &HashMap<i32, u64>) -> (res: Option<(Vec<BucketSpan>, Vec<i64>)>)
    ensures
        res is Some <==> fits(bucket_encoding(buckets@)),
        res matches Some(r) ==> encodes(r.0@, r.1@, bucket_encoding(buckets@)),
{
    if buckets.is_empty() {
        proof {
            assert(Seq::<i32>::empty().to_set() =~= buckets@.dom());
            lemma_sorted_keys_unique(Seq::<i32>::empty(), buckets@);
            assert(Seq::<BucketSpan>::empty().map_values(|s: BucketSpan| span_view(s)) =~= Seq::<(int, int)>::empty());
            assert(Seq::<i64>::empty().map_values(|d: i64| d as int) =~= Seq::<int>::empty());
        }
        return Some((Vec::new(), Vec::new()));
    }
    let ks = sorted_key_list(buckets);
    proof {
        lemma_sorted_keys_unique(ks@, buckets@);
    }
    let ghost vals = key_counts(ks@, buckets@);
    let ghost total = ks@.len();
    let mut spans: Vec<BucketSpan> = Vec::new();
    let mut deltas: Vec<i64> = Vec::new();
    let mut prev_count: i64 = 0;
    let mut next_index: i64 = 0;
    let mut n: usize = 0;
    proof {
        assert(spans@.map_values(|s: BucketSpan| span_view(s)) =~= Seq::<(int, int)>::empty());
        assert(deltas@.map_values(|d: i64| d as int) =~= Seq::<int>::empty());
    }
    while n < ks.len()
        invariant
            n <= ks.len(),
            total == ks@.len(),
            ascending(ks@),
            ks@ == sorted_keys(buckets@),
            ks@.to_set() == buckets@.dom(),
            vals == key_counts(ks@, buckets@),
            encodes(spans@, deltas@, encode_prefix(ks@, vals, n as nat)),
            prev_count == encode_prefix(ks@, vals, n as nat).prev,
            next_index == encode_prefix(ks@, vals, n as nat).next,
        decreases ks.len() - n,
    {
        proof {
            lemma_encode_shape(ks@, vals, n as nat);
            lemma_encode_shape(ks@, vals, (n + 1) as nat);
        }
        let ghost e = encode_prefix(ks@, vals, n as nat);
        let ghost t = encode_prefix(ks@, vals, (n + 1) as nat);
        let index = ks[n];
        assert(buckets@.dom().contains(index)) by {
            assert(ks@.to_set().contains(ks@[n as int]));
        }
        let count: i64 = match buckets.get(&index) {
            Some(c) => #[verifier::truncate] (*c as i64),
            None => {
                proof {
                    assert(false);
                }
                0
            },
        };
        assert(count == vals[n as int]);
        if n > 0 {
            assert(ks@[n - 1] < ks@[n as int]);
        }
        let index_delta: i64 = index as i64 - next_index;
        if n == 0 || index_delta > 2 {
            if index_delta > i32::MAX as i64 {
                proof {
                    assert(t.spans[t.spans.len() - 1].0 == index_delta);
                    if fits(bucket_encoding(buckets@)) {
                        lemma_fits_prefix(ks@, vals, (n + 1) as nat);
                    }
                }
                return None;
            }
            let delta: i128 = count as i128 - prev_count as i128;
            if delta < i64::MIN as i128 || delta > i64::MAX as i128 {
                proof {
                    assert(t.deltas[t.deltas.len() - 1] == delta);
                    if fits(bucket_encoding(buckets@)) {
                        lemma_fits_prefix(ks@, vals, (n + 1) as nat);
                    }
                }
                return None;
            }
            let ghost old_spans = spans@;
            let ghost old_deltas = deltas@;
            spans.push(BucketSpan { offset: index_delta as i32, length: 1 });
            deltas.push(delta as i64);
            proof {
                assert(spans@.map_values(|s: BucketSpan| span_view(s)) =~= old_spans.map_values(
                    |s: BucketSpan| span_view(s),
                ).push((index_delta as int, 1)));
                assert(deltas@.map_values(|d: i64| d as int) =~= old_deltas.map_values(
                    |d: i64| d as int,
                ).push(delta as int));
                assert(encodes(spans@, deltas@, t));
            }
        } else {
            let last = spans.len() - 1;
            let ghost base_len = e.spans[last as int].1;
            let ghost base_spans = spans@;
            let ghost base_deltas = deltas@;
            proof {
                if fits(bucket_encoding(buckets@)) {
                    lemma_fits_prefix(ks@, vals, (n + 1) as nat);
                }
            }
            let mut j: i64 = 0;
            while j < index_delta
                invariant
                    0 <= j <= index_delta <= 2,
                    last == spans.len() - 1,
                    spans.len() == base_spans.len(),
                    e.spans.len() == spans.len(),
                    base_spans.map_values(|s: BucketSpan| span_view(s)) == e.spans,
                    base_deltas.map_values(|d: i64| d as int) == e.deltas,
                    base_len == e.spans[last as int].1,
                    t.spans.len() == e.spans.len(),
                    t.spans[last as int].1 == base_len + index_delta + 1,
                    t.deltas == e.deltas + gap_deltas(e.prev, index_delta as nat) + seq![
                        vals[n as int] - (if index_delta == 0 { e.prev } else { 0 })],
                    spans@.map_values(|s: BucketSpan| span_view(s)) == e.spans.update(
                        last as int,
                        (e.spans[last as int].0, base_len + j),
                    ),
                    deltas@.map_values(|d: i64| d as int) == e.deltas + gap_deltas(e.prev, j as nat),
                    prev_count == (if j == 0 { e.prev } else { 0 }),
                    fits(bucket_encoding(buckets@)) ==> fits(t),
                decreases index_delta - j,
            {
                let off = spans[last].offset;
                let len = spans[last].length;
                assert(span_view(spans@[last as int]) == spans@.map_values(
                    |s: BucketSpan| span_view(s),
                )[last as int]);
                if len == u32::MAX {
                    proof {
                        assert(t.spans[last as int].1 > u32::MAX);
                        assert(!fits(t));
                    }
                    return None;
                }
                if prev_count == i64::MIN {
                    proof {
                        assert(j == 0);
                        assert(t.deltas[e.deltas.len() as int] == -e.prev);
                        assert(!fits(t));
                    }
                    return None;
                }
                let ghost old_spans = spans@;
                let ghost old_deltas = deltas@;
                spans.set(last, BucketSpan { offset: off, length: (len + 1) as u32 });
                deltas.push(0 - prev_count);
                proof {
                    lemma_view_update(old_spans, last as int, BucketSpan { offset: off, length: (len + 1) as u32 });
                    assert(spans@.map_values(|s: BucketSpan| span_view(s)) =~= e.spans.update(
                        last as int,
                        (e.spans[last as int].0, base_len + j + 1),
                    ));
                    assert(gap_deltas(e.prev, (j + 1) as nat) =~= gap_deltas(e.prev, j as nat).push(
                        0 - prev_count,
                    ));
                    assert(deltas@.map_values(|d: i64| d as int) =~= old_deltas.map_values(
                        |d: i64| d as int,
                    ).push(0 - prev_count));
                }
                prev_count = 0;
                j = j + 1;
            }
            let off = spans[last].offset;
            let len = spans[last].length;
            assert(span_view(spans@[last as int]) == spans@.map_values(
                |s: BucketSpan| span_view(s),
            )[last as int]);
            if len == u32::MAX {
                proof {
                    assert(t.spans[last as int].1 > u32::MAX);
                    assert(!fits(t));
                }
                return None;
            }
            let delta: i128 = count as i128 - prev_count as i128;
            if delta < i64::MIN as i128 || delta > i64::MAX as i128 {
                proof {
                    assert(t.deltas[t.deltas.len() - 1] == delta);
                }
                return None;
            }
            let ghost old_deltas = deltas@;
            let ghost old_spans = spans@;
            spans.set(last, BucketSpan { offset: off, length: (len + 1) as u32 });
            deltas.push(delta as i64);
            proof {
                lemma_view_update(old_spans, last as int, BucketSpan { offset: off, length: (len + 1) as u32 });
                assert(spans@.map_values(|s: BucketSpan| span_view(s)) =~= t.spans);
                assert(deltas@.map_values(|d: i64| d as int) =~= old_deltas.map_values(
                    |d: i64| d as int,
                ).push(delta as int));
                assert(j == index_delta);
                assert(old_deltas.map_values(|d: i64| d as int) == e.deltas + gap_deltas(e.prev, index_delta as nat));
                assert(t.deltas =~= e.deltas + gap_deltas(e.prev, index_delta as nat) + seq![
                    delta as int]);
                assert(deltas@.map_values(|d: i64| d as int) =~= t.deltas);
                assert(encodes(spans@, deltas@, t));
            }
        }
        prev_count = count;
        next_index = index as i64 + 1;
        n = n + 1;
    }
    proof {
        let f = encode_prefix(ks@, vals, n as nat);
        assert forall|i: int| 0 <= i < f.spans.len() implies i32::MIN <= #[trigger] f.spans[i].0
            <= i32::MAX && 0 <= f.spans[i].1 <= u32::MAX by {
            assert(f.spans[i] == spans@.map_values(|s: BucketSpan| span_view(s))[i]);
        }
        assert forall|i: int| 0 <= i < f.deltas.len() implies i64::MIN <= #[trigger] f.deltas[i]
            <= i64::MAX by {
            assert(f.deltas[i] == deltas@.map_values(|d: i64| d as int)[i]);
        }
    }
    Some((spans, deltas))
}

/// Converts sparse buckets to spans and deltas in the Prometheus native
/// histogram format. Gaps of one or two empty buckets are written as zero
/// counts inside a span rather than opening a new span.
pub fn make_buckets(buckets: &HashMap<i32, u64>) -> (res: (Vec<BucketSpan>, Vec<i64>))
    requires
        fits(bucket_encoding(buckets@)),
    ensures
        encodes(res.0@, res.1@, bucket_encoding(buckets@)),
{
    match try_make_buckets(buckets) {
        Some(r) => r,
        None => {
            proof {
                assert(false);
            }
            (Vec::new(), Vec::new())
        },
    }
}

} // verus!
