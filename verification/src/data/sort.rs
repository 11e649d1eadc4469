//! In-place sorting of points by one coordinate: insertion sort for short
//! sequences, top-down merge sort otherwise.
use crate::data::point::DataPoint;
use vstd::prelude::*;
use vstd::multiset::Multiset;
use vstd::seq_lib::*;

verus! {

broadcast use vstd::seq_lib::group_to_multiset_ensures;

/// The coordinate a sort orders by: Y when `by_y`, X otherwise.
pub open spec fn coord<T: DataPoint<X = i32, Y = i32>>(p: T, by_y: bool) -> int {
    if by_y {
        p.y_of() as int
    } else {
        p.x_of() as int
    }
}

/// `s` is in non-decreasing order of the chosen coordinate.
pub open spec fn sorted_by_coord<T: DataPoint<X = i32, Y = i32>>(s: Seq<T>, by_y: bool) -> bool {
    forall|i: int, j: int|
        0 <= i <= j < s.len() ==> #[trigger] coord(s[i], by_y) <= #[trigger] coord(s[j], by_y)
}

/// `r` holds the points of `s`, each as often, ordered by the chosen coordinate.
pub open spec fn is_sorted_permutation<T: DataPoint<X = i32, Y = i32>>(
    r: Seq<T>,
    s: Seq<T>,
    by_y: bool,
) -> bool {
    &&& sorted_by_coord(r, by_y)
    &&& r.to_multiset() == s.to_multiset()
}

/// Whether a point's chosen coordinate is `c`.
pub open spec fn has_coord<T: DataPoint<X = i32, Y = i32>>(c: int, by_y: bool) -> spec_fn(T) -> bool {
    |p: T| coord(p, by_y) == c
}

/// The points of `s` whose chosen coordinate is `c`, in their order in `s`.
pub open spec fn coord_run<T: DataPoint<X = i32, Y = i32>>(s: Seq<T>, c: int, by_y: bool) -> Seq<T> {
    s.filter(has_coord(c, by_y))
}

/// Points with equal coordinates come in `r` in the same order as in `s`.
pub open spec fn keeps_tie_order<T: DataPoint<X = i32, Y = i32>>(r: Seq<T>, s: Seq<T>, by_y: bool) -> bool {
    forall|c: int| #[trigger] coord_run(r, c, by_y) == coord_run(s, c, by_y)
}

/// Swapping two neighbours with different coordinates keeps the order of the
/// points of every coordinate.
proof fn lemma_swap_keeps_tie_order<T: DataPoint<X = i32, Y = i32>>(s: Seq<T>, j: int, by_y: bool)
    requires
        1 <= j < s.len(),
        coord(s[j - 1], by_y) != coord(s[j], by_y),
    ensures
        keeps_tie_order(s.update(j - 1, s[j]).update(j, s[j - 1]), s, by_y),
{
    let a = s[j - 1];
    let b = s[j];
    let pre = s.subrange(0, j - 1);
    let post = s.subrange(j + 1, s.len() as int);
    let t = s.update(j - 1, b).update(j, a);
    assert(s =~= pre.push(a).push(b) + post);
    assert(t =~= pre.push(b).push(a) + post);
    assert forall|c: int| #[trigger] coord_run(t, c, by_y) == coord_run(s, c, by_y) by {
        let pred = has_coord::<T>(c, by_y);
        Seq::filter_distributes_over_add(pre.push(a).push(b), post, pred);
        Seq::filter_distributes_over_add(pre.push(b).push(a), post, pred);
        pre.lemma_filter_push(a, pred);
        pre.push(a).lemma_filter_push(b, pred);
        pre.lemma_filter_push(b, pred);
        pre.push(b).lemma_filter_push(a, pred);
    }
}

fn coord_of<T: DataPoint<X = i32, Y = i32>>(p: &T, by_y: bool) -> (r: i32)
    ensures
        r == coord(*p, by_y),
{
    if by_y {
        p.y()
    } else {
        p.x()
    }
}

proof fn lemma_swap_multiset<A>(s: Seq<A>, i: int, j: int)
    requires
        0 <= i < s.len(),
        0 <= j < s.len(),
    ensures
        s.update(i, s[j]).update(j, s[i]).to_multiset() == s.to_multiset(),
{
    let s1 = s.update(i, s[j]);
    to_multiset_update(s, i, s[j]);
    to_multiset_update(s1, j, s[i]);
    if i == j {
        assert(s.update(i, s[j]).update(j, s[i]) =~= s);
    } else {
        assert(s1[j] == s[j]);
        assert(s1.update(j, s[i]).to_multiset() =~= s.to_multiset());
    }
}

proof fn lemma_split_multiset<A>(s: Seq<A>, a: int, m: int, b: int)
    requires
        0 <= a <= m <= b <= s.len(),
    ensures
        s.subrange(a, b).to_multiset() == s.subrange(a, m).to_multiset().add(
            s.subrange(m, b).to_multiset(),
        ),
{
    assert(s.subrange(a, b) =~= s.subrange(a, m) + s.subrange(m, b));
    lemma_multiset_commutative(s.subrange(a, m), s.subrange(m, b));
}

/// Sorts `v` by the chosen coordinate with insertion sort.
fn insertion_sort<T: DataPoint<X = i32, Y = i32>>(v: &mut Vec<T>, by_y: bool)
    ensures
        is_sorted_permutation(final(v)@, old(v)@, by_y),
        keeps_tie_order(final(v)@, old(v)@, by_y),
{
    let n = v.len();
    if n == 0 {
        return;
    }
    let mut i: usize = 1;
    while i < n
        invariant
            1 <= i <= n,
            n == v.len(),
            v@.to_multiset() == old(v)@.to_multiset(),
            keeps_tie_order(v@, old(v)@, by_y),
            sorted_by_coord(v@.subrange(0, i as int), by_y),
        decreases n - i,
    {
        let mut j: usize = i;
        while j > 0 && coord_of(&v[j - 1], by_y) > coord_of(&v[j], by_y)
            invariant
                1 <= i < n,
                j <= i,
                n == v.len(),
                v@.to_multiset() == old(v)@.to_multiset(),
                keeps_tie_order(v@, old(v)@, by_y),
                sorted_by_coord(v@.subrange(0, j as int), by_y),
                sorted_by_coord(v@.subrange(j as int + 1, i as int + 1), by_y),
                forall|a: int, b: int|
                    0 <= a < j < b <= i ==> #[trigger] coord(v@[a], by_y) <= #[trigger] coord(
                        v@[b],
                        by_y,
                    ),
                forall|b: int| j < b <= i ==> coord(v@[j as int], by_y) < #[trigger] coord(v@[b], by_y),
            decreases j,
        {
            let ghost before = v@;
            let left = v[j - 1];
            let right = v[j];
            v.set(j - 1, right);
            v.set(j, left);
            proof {
                lemma_swap_multiset(before, j - 1, j as int);
                lemma_swap_keeps_tie_order(before, j as int, by_y);
                assert(v@ == before.update(j - 1, before[j as int]).update(
                    j as int,
                    before[j - 1],
                ));
                assert forall|p: int, q: int|
                    0 <= p <= q < v@.subrange(j as int, i as int + 1).len() implies #[trigger] coord(
                    v@.subrange(j as int, i as int + 1)[p],
                    by_y,
                ) <= #[trigger] coord(v@.subrange(j as int, i as int + 1)[q], by_y) by {
                    let sub = v@.subrange(j as int, i as int + 1);
                    if p == 0 && q > 0 {
                        assert(sub[q] == before[j + q]);
                        assert(coord(before[j - 1], by_y) <= coord(before[j + q], by_y));
                    } else if p > 0 {
                        assert(sub[p] == before[j + p]);
                        assert(sub[q] == before[j + q]);
                        assert(before.subrange(j as int + 1, i as int + 1)[p - 1] == before[j + p]);
                        assert(before.subrange(j as int + 1, i as int + 1)[q - 1] == before[j + q]);
                    }
                }
                assert forall|p: int, q: int|
                    0 <= p <= q < v@.subrange(0, j - 1).len() implies #[trigger] coord(
                    v@.subrange(0, j - 1)[p],
                    by_y,
                ) <= #[trigger] coord(v@.subrange(0, j - 1)[q], by_y) by {
                    assert(before.subrange(0, j as int)[p] == before[p]);
                    assert(before.subrange(0, j as int)[q] == before[q]);
                }
                assert forall|a: int, b: int| 0 <= a < j - 1 < b <= i implies #[trigger] coord(
                    v@[a],
                    by_y,
                ) <= #[trigger] coord(v@[b], by_y) by {
                    if b == j {
                        assert(before.subrange(0, j as int)[a] == before[a]);
                        assert(before.subrange(0, j as int)[j - 1] == before[j - 1]);
                    }
                }
            }
            j = j - 1;
        }
        proof {
            let s = v@;
            assert forall|p: int, q: int|
                0 <= p <= q < s.subrange(0, i as int + 1).len() implies #[trigger] coord(
                s.subrange(0, i as int + 1)[p],
                by_y,
            ) <= #[trigger] coord(s.subrange(0, i as int + 1)[q], by_y) by {
                let sub = s.subrange(0, i as int + 1);
                assert(sub[p] == s[p]);
                assert(sub[q] == s[q]);
                if q < j {
                    assert(s.subrange(0, j as int)[p] == s[p]);
                    assert(s.subrange(0, j as int)[q] == s[q]);
                } else if q == j {
                    if p < j {
                        assert(s.subrange(0, j as int)[p] == s[p]);
                        assert(s.subrange(0, j as int)[j - 1] == s[j - 1]);
                        assert(coord(s[p], by_y) <= coord(s[j - 1], by_y));
                    }
                } else if p < j {
                } else if p == j {
                } else {
                    assert(s.subrange(j as int + 1, i as int + 1)[p - j - 1] == s[p]);
                    assert(s.subrange(j as int + 1, i as int + 1)[q - j - 1] == s[q]);
                }
            }
        }
        i = i + 1;
    }
    assert(v@.subrange(0, n as int) =~= v@);
}

/// Merges the sorted runs `temp[start..mid]` and `temp[mid..end]` into
/// `v[start..end]`, taking from the left run on ties.
fn merge_runs<T: DataPoint<X = i32, Y = i32>>(
    v: &mut Vec<T>,
    temp: &Vec<T>,
    start: usize,
    mid: usize,
    end: usize,
    by_y: bool,
)
    requires
        start <= mid <= end <= old(v).len(),
        old(v).len() == temp.len(),
        sorted_by_coord(temp@.subrange(start as int, mid as int), by_y),
        sorted_by_coord(temp@.subrange(mid as int, end as int), by_y),
    ensures
        final(v).len() == old(v).len(),
        is_sorted_permutation(
            final(v)@.subrange(start as int, end as int),
            temp@.subrange(start as int, end as int),
            by_y,
        ),
        forall|k: int|
            0 <= k < old(v).len() && !(start <= k < end) ==> #[trigger] final(v)@[k] == old(v)@[k],
        forall|c: int|
            #[trigger] coord_run(final(v)@.subrange(start as int, end as int), c, by_y) == coord_run(
                temp@.subrange(start as int, mid as int),
                c,
                by_y,
            ) + coord_run(temp@.subrange(mid as int, end as int), c, by_y),
{
    let mut i = start;
    let mut j = mid;
    let mut k = start;
    proof {
        lemma_split_multiset(temp@, start as int, mid as int, end as int);
    }
    while i < mid || j < end
        invariant
            start <= i <= mid <= j <= end <= v.len(),
            v.len() == temp.len(),
            v.len() == old(v).len(),
            k == start + (i - start) + (j - mid),
            sorted_by_coord(temp@.subrange(start as int, mid as int), by_y),
            sorted_by_coord(temp@.subrange(mid as int, end as int), by_y),
            sorted_by_coord(v@.subrange(start as int, k as int), by_y),
            v@.subrange(start as int, k as int).to_multiset() == temp@.subrange(
                start as int,
                i as int,
            ).to_multiset().add(temp@.subrange(mid as int, j as int).to_multiset()),
            k > start && i < mid ==> coord(v@[k - 1], by_y) <= coord(temp@[i as int], by_y),
            k > start && j < end ==> coord(v@[k - 1], by_y) <= coord(temp@[j as int], by_y),
            forall|q: int|
                0 <= q < v.len() && !(start <= q < end) ==> #[trigger] v@[q] == old(v)@[q],
            forall|c: int|
                #[trigger] coord_run(v@.subrange(start as int, k as int), c, by_y) == coord_run(
                    temp@.subrange(start as int, i as int),
                    c,
                    by_y,
                ) + coord_run(temp@.subrange(mid as int, j as int), c, by_y),
            i < mid ==> forall|q: int|
                mid <= q < j ==> #[trigger] coord(temp@[q], by_y) < coord(temp@[i as int], by_y),
        decreases (mid - i) + (end - j),
    {
        let ghost before = v@;
        let take_left = i < mid && (j >= end || coord_of(&temp[i], by_y) <= coord_of(
            &temp[j],
            by_y,
        ));
        let ghost old_i = i;
        let ghost old_j = j;
        let item = if take_left {
            temp[i]
        } else {
            temp[j]
        };
        v.set(k, item);
        proof {
            assert(v@.subrange(start as int, k + 1) =~= before.subrange(start as int, k as int).push(
                item,
            ));
            // the sorted runs put every later element at or above the one taken
            if take_left {
                assert(temp@.subrange(start as int, i + 1) =~= temp@.subrange(
                    start as int,
                    i as int,
                ).push(temp@[i as int]));
                if i + 1 < mid {
                    assert(temp@.subrange(start as int, mid as int)[i - start] == temp@[i as int]);
                    assert(temp@.subrange(start as int, mid as int)[i + 1 - start] == temp@[i + 1]);
                }
            } else {
                assert(temp@.subrange(mid as int, j + 1) =~= temp@.subrange(
                    mid as int,
                    j as int,
                ).push(temp@[j as int]));
                if j + 1 < end {
                    assert(temp@.subrange(mid as int, end as int)[j - mid] == temp@[j as int]);
                    assert(temp@.subrange(mid as int, end as int)[j + 1 - mid] == temp@[j + 1]);
                }
            }
            // ties go to the left run, so the order within each coordinate is kept
            let vb = before.subrange(start as int, k as int);
            let left = temp@.subrange(start as int, i as int);
            let right = temp@.subrange(mid as int, j as int);
            assert forall|c: int|
                #[trigger] coord_run(v@.subrange(start as int, k + 1), c, by_y) == coord_run(
                    temp@.subrange(start as int, (if take_left { i + 1 } else { i as int })),
                    c,
                    by_y,
                ) + coord_run(temp@.subrange(mid as int, (if take_left { j as int } else { j + 1 })), c, by_y) by {
                let pred = has_coord::<T>(c, by_y);
                vb.lemma_filter_push(item, pred);
                assert(coord_run(vb, c, by_y) == coord_run(left, c, by_y) + coord_run(right, c, by_y));
                if take_left {
                    left.lemma_filter_push(item, pred);
                    if coord(item, by_y) == c {
                        assert(right.all(|x: T| !pred(x))) by {
                            assert forall|q: int| 0 <= q < right.len() implies !pred(right[q]) by {
                                assert(right[q] == temp@[mid + q]);
                            }
                        }
                        right.lemma_all_neg_filter_empty(pred);
                        assert(coord_run(right, c, by_y) =~= Seq::<T>::empty());
                        assert(coord_run(left, c, by_y).push(item) + coord_run(right, c, by_y)
                            =~= (coord_run(left, c, by_y) + coord_run(right, c, by_y)).push(item));
                    }
                } else {
                    right.lemma_filter_push(item, pred);
                    if coord(item, by_y) == c {
                        assert(coord_run(left, c, by_y) + coord_run(right, c, by_y).push(item)
                            =~= (coord_run(left, c, by_y) + coord_run(right, c, by_y)).push(item));
                    }
                }
            }
            let sub = v@.subrange(start as int, k + 1);
            assert forall|p: int, q: int| 0 <= p <= q < sub.len() implies #[trigger] coord(
                sub[p],
                by_y,
            ) <= #[trigger] coord(sub[q], by_y) by {
                if q == k - start && p < q {
                    assert(before.subrange(start as int, k as int)[p] == sub[p]);
                    assert(before.subrange(start as int, k as int)[k - 1 - start] == before[k - 1]);
                } else if q < k - start {
                    assert(before.subrange(start as int, k as int)[p] == sub[p]);
                    assert(before.subrange(start as int, k as int)[q] == sub[q]);
                }
            }
        }
        if take_left {
            i = i + 1;
        } else {
            j = j + 1;
        }
        k = k + 1;
    }
}

fn merge_sort_range<T: DataPoint<X = i32, Y = i32>>(
    v: &mut Vec<T>,
    start: usize,
    end: usize,
    temp: &mut Vec<T>,
    by_y: bool,
)
    requires
        start <= end <= old(v).len(),
        old(temp).len() == old(v).len(),
    ensures
        final(v).len() == old(v).len(),
        final(temp).len() == old(temp).len(),
        is_sorted_permutation(
            final(v)@.subrange(start as int, end as int),
            old(v)@.subrange(start as int, end as int),
            by_y,
        ),
        keeps_tie_order(
            final(v)@.subrange(start as int, end as int),
            old(v)@.subrange(start as int, end as int),
            by_y,
        ),
        forall|k: int|
            0 <= k < old(v).len() && !(start <= k < end) ==> #[trigger] final(v)@[k] == old(v)@[k],
    decreases end - start,
{
    if end - start <= 1 {
        return;
    }
    let mid = start + (end - start) / 2;
    let ghost v0 = v@;
    merge_sort_range(v, start, mid, temp, by_y);
    let ghost v1 = v@;
    merge_sort_range(v, mid, end, temp, by_y);
    let ghost v2 = v@;
    proof {
        assert(v2.subrange(start as int, mid as int) =~= v1.subrange(start as int, mid as int));
    }
    let mut idx = start;
    while idx < end
        invariant
            start <= idx <= end <= v.len(),
            temp.len() == v.len(),
            v@ == v2,
            forall|q: int| start <= q < idx ==> #[trigger] temp@[q] == v2[q],
        decreases end - idx,
    {
        temp.set(idx, v[idx]);
        idx = idx + 1;
    }
    proof {
        assert(temp@.subrange(start as int, end as int) =~= v2.subrange(start as int, end as int));
        assert(temp@.subrange(start as int, mid as int) =~= v2.subrange(start as int, mid as int));
        assert(temp@.subrange(mid as int, end as int) =~= v2.subrange(mid as int, end as int));
        lemma_split_multiset(v0, start as int, mid as int, end as int);
        lemma_split_multiset(v1, start as int, mid as int, end as int);
        lemma_split_multiset(v2, start as int, mid as int, end as int);
        assert(v1.subrange(mid as int, end as int) =~= v0.subrange(mid as int, end as int));
    }
    merge_runs(v, temp, start, mid, end, by_y);
    proof {
        let lo = v0.subrange(start as int, mid as int);
        let hi = v0.subrange(mid as int, end as int);
        assert(v0.subrange(start as int, end as int) =~= lo + hi);
        assert forall|c: int|
            #[trigger] coord_run(v@.subrange(start as int, end as int), c, by_y) == coord_run(
                v0.subrange(start as int, end as int),
                c,
                by_y,
            ) by {
            Seq::filter_distributes_over_add(lo, hi, has_coord::<T>(c, by_y));
            assert(coord_run(v1.subrange(start as int, mid as int), c, by_y) == coord_run(lo, c, by_y));
            assert(coord_run(v2.subrange(mid as int, end as int), c, by_y) == coord_run(
                v1.subrange(mid as int, end as int),
                c,
                by_y,
            ));
        }
    }
}

/// Sorts `v` by the chosen coordinate: insertion sort up to sixteen points,
/// merge sort beyond.
pub fn sort_points<T: DataPoint<X = i32, Y = i32>>(v: &mut Vec<T>, by_y: bool)
    ensures
        is_sorted_permutation(final(v)@, old(v)@, by_y),
        keeps_tie_order(final(v)@, old(v)@, by_y),
        final(v)@.len() == old(v)@.len(),
{
    let len = v.len();
    if len <= 16 {
        insertion_sort(v, by_y);
    } else {
        let mut temp: Vec<T> = Vec::new();
        let first = v[0];
        let mut c: usize = 0;
        while c < len
            invariant
                c <= len,
                temp.len() == c,
            decreases len - c,
        {
            temp.push(first);
            c = c + 1;
        }
        merge_sort_range(v, 0, len, &mut temp, by_y);
        assert(v@.subrange(0, len as int) =~= v@);
        assert(old(v)@.subrange(0, len as int) =~= old(v)@);
    }
    assert(v@.to_multiset().len() == old(v)@.to_multiset().len());
}

} // verus!
