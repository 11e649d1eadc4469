//! The rectangle that encloses a set of data points.
use crate::data::point::DataPoint;
use crate::error::{DataError, DataErrorKind, DataResult};
use vstd::prelude::*;

verus! {

/// The smallest and largest coordinates of a set of points.
#[derive(Debug, Clone, Copy, PartialEq)]
pub struct DataBounds<X, Y> {
    /// Minimum X value.
    pub min_x: X,
    /// Maximum X value.
    pub max_x: X,
    /// Minimum Y value.
    pub min_y: Y,
    /// Maximum Y value.
    pub max_y: Y,
}

/// Bounds of integer data.
pub type IntBounds = DataBounds<i32, i32>;

/// `x` lies between `lo` and `hi`, both included.
pub open spec fn within(lo: i32, x: i32, hi: i32) -> bool {
    lo <= x <= hi
}

/// `b` is exactly the bounding box of the non-empty sequence `s`: each extreme
/// is reached by some point and no point lies beyond it.
pub open spec fn bounds_of_points<P: DataPoint<X = i32, Y = i32>>(b: IntBounds, s: Seq<P>) -> bool {
    &&& forall|i: int|
        0 <= i < s.len() ==> b.min_x <= (#[trigger] s[i]).x_of() <= b.max_x && b.min_y
            <= s[i].y_of() <= b.max_y
    &&& exists|i: int| 0 <= i < s.len() && (#[trigger] s[i]).x_of() == b.min_x
    &&& exists|i: int| 0 <= i < s.len() && (#[trigger] s[i]).x_of() == b.max_x
    &&& exists|i: int| 0 <= i < s.len() && (#[trigger] s[i]).y_of() == b.min_y
    &&& exists|i: int| 0 <= i < s.len() && (#[trigger] s[i]).y_of() == b.max_y
}

pub open spec fn min_i32(a: i32, b: i32) -> i32 {
    if a < b {
        a
    } else {
        b
    }
}

pub open spec fn max_i32(a: i32, b: i32) -> i32 {
    if a > b {
        a
    } else {
        b
    }
}

impl DataBounds<i32, i32> {
    /// The extremes are ordered on both axes.
    pub open spec fn is_valid(self) -> bool {
        self.min_x <= self.max_x && self.min_y <= self.max_y
    }

    /// The point lies inside these bounds, edges included.
    pub open spec fn holds<P: DataPoint<X = i32, Y = i32>>(self, p: P) -> bool {
        self.min_x <= p.x_of() <= self.max_x && self.min_y <= p.y_of() <= self.max_y
    }

    /// The bounds that also include `p`.
    pub open spec fn extended<P: DataPoint<X = i32, Y = i32>>(self, p: P) -> IntBounds {
        DataBounds {
            min_x: min_i32(self.min_x, p.x_of()),
            max_x: max_i32(self.max_x, p.x_of()),
            min_y: min_i32(self.min_y, p.y_of()),
            max_y: max_i32(self.max_y, p.y_of()),
        }
    }

    /// The bounds that cover both `self` and `other`.
    pub open spec fn merged(self, other: IntBounds) -> IntBounds {
        DataBounds {
            min_x: min_i32(self.min_x, other.min_x),
            max_x: max_i32(self.max_x, other.max_x),
            min_y: min_i32(self.min_y, other.min_y),
            max_y: max_i32(self.max_y, other.max_y),
        }
    }

    /// Creates bounds, refusing a minimum above its maximum.
    pub fn new(min_x: i32, max_x: i32, min_y: i32, max_y: i32) -> (r: DataResult<Self>)
        ensures
            min_x <= max_x && min_y <= max_y ==> r == Ok::<IntBounds, DataError>(
                DataBounds { min_x, max_x, min_y, max_y },
            ),
            !(min_x <= max_x && min_y <= max_y) ==> (r matches Err(e) && e.is_simple(
                DataErrorKind::InvalidDataPoint,
            )),
    {
        if min_x > max_x || min_y > max_y {
            return Err(DataError::simple(DataErrorKind::InvalidDataPoint));
        }
        Ok(DataBounds { min_x, max_x, min_y, max_y })
    }

    /// The extent of the X range.
    pub fn width(&self) -> (r: i32)
        requires
            i32::MIN <= self.max_x - self.min_x <= i32::MAX,
        ensures
            r == self.max_x - self.min_x,
    {
        self.max_x - self.min_x
    }

    /// The extent of the Y range.
    pub fn height(&self) -> (r: i32)
        requires
            i32::MIN <= self.max_y - self.min_y <= i32::MAX,
        ensures
            r == self.max_y - self.min_y,
    {
        self.max_y - self.min_y
    }

    /// Whether the point lies inside these bounds, edges included.
    pub fn contains<P: DataPoint<X = i32, Y = i32>>(&self, point: &P) -> (r: bool)
        ensures
            r == self.holds(*point),
    {
        point.x() >= self.min_x && point.x() <= self.max_x && point.y() >= self.min_y && point.y()
            <= self.max_y
    }

    /// Grows these bounds just enough to include the point.
    pub fn expand_to_include<P: DataPoint<X = i32, Y = i32>>(&mut self, point: &P)
        ensures
            *final(self) == old(self).extended(*point),
    {
        let x = point.x();
        let y = point.y();
        if x < self.min_x {
            self.min_x = x;
        }
        if x > self.max_x {
            self.max_x = x;
        }
        if y < self.min_y {
            self.min_y = y;
        }
        if y > self.max_y {
            self.max_y = y;
        }
    }

    /// The bounds that cover both `self` and `other`.
    pub fn merge(&self, other: &Self) -> (r: Self)
        ensures
            r == self.merged(*other),
    {
        DataBounds {
            min_x: if self.min_x < other.min_x {
                self.min_x
            } else {
                other.min_x
            },
            max_x: if self.max_x > other.max_x {
                self.max_x
            } else {
                other.max_x
            },
            min_y: if self.min_y < other.min_y {
                self.min_y
            } else {
                other.min_y
            },
            max_y: if self.max_y > other.max_y {
                self.max_y
            } else {
                other.max_y
            },
        }
    }
}

/// Law: growing bounds by a point makes them hold that point and every point
/// they held before.
pub proof fn law_extended_holds<P: DataPoint<X = i32, Y = i32>>(b: IntBounds, p: P)
    ensures
        b.extended(p).holds(p),
        forall|q: P| b.holds(q) ==> #[trigger] b.extended(p).holds(q),
        b.is_valid() ==> b.extended(p).is_valid(),
{
}

/// Law: merged bounds hold every point held by either side, and merging is
/// symmetric.
pub proof fn law_merge_covers<P: DataPoint<X = i32, Y = i32>>(a: IntBounds, b: IntBounds)
    ensures
        a.merged(b) == b.merged(a),
        forall|q: P| a.holds(q) || b.holds(q) ==> #[trigger] a.merged(b).holds(q),
        a.is_valid() && b.is_valid() ==> a.merged(b).is_valid(),
{
}

/// Each extreme of `b` is reached by some point of some sequence of `ss`.
pub open spec fn extremes_reached<P: DataPoint<X = i32, Y = i32>>(b: IntBounds, ss: Seq<Seq<P>>) -> bool {
    &&& exists|k: int, i: int|
        0 <= k < ss.len() && 0 <= i < ss[k].len() && (#[trigger] ss[k][i]).x_of() == b.min_x
    &&& exists|k: int, i: int|
        0 <= k < ss.len() && 0 <= i < ss[k].len() && (#[trigger] ss[k][i]).x_of() == b.max_x
    &&& exists|k: int, i: int|
        0 <= k < ss.len() && 0 <= i < ss[k].len() && (#[trigger] ss[k][i]).y_of() == b.min_y
    &&& exists|k: int, i: int|
        0 <= k < ss.len() && 0 <= i < ss[k].len() && (#[trigger] ss[k][i]).y_of() == b.max_y
}

/// Merging the exact bounds of sequence `k` into bounds whose extremes are
/// reached in the sequences before it gives bounds whose extremes are reached
/// in the sequences up to `k`.
pub proof fn lemma_merge_reaches<P: DataPoint<X = i32, Y = i32>>(
    a: IntBounds,
    b: IntBounds,
    ss: Seq<Seq<P>>,
    k: int,
)
    requires
        0 <= k < ss.len(),
        k == 0 || extremes_reached(a, ss.take(k)),
        bounds_of_points(b, ss[k]),
    ensures
        extremes_reached(if k == 0 {
            b
        } else {
            a.merged(b)
        }, ss.take(k + 1)),
{
    let pre = ss.take(k);
    let post = ss.take(k + 1);
    let m = if k == 0 {
        b
    } else {
        a.merged(b)
    };
    assert(post[k] == ss[k]);
    if k > 0 && a.min_x < b.min_x {
        let (j, i) = choose|j: int, i: int|
            0 <= j < pre.len() && 0 <= i < pre[j].len() && (#[trigger] pre[j][i]).x_of() == a.min_x;
        assert(post[j] == pre[j]);
        assert(post[j][i].x_of() == m.min_x);
    } else {
        let i = choose|i: int| 0 <= i < ss[k].len() && (#[trigger] ss[k][i]).x_of() == b.min_x;
        assert(post[k][i].x_of() == m.min_x);
    }
    if k > 0 && a.max_x > b.max_x {
        let (j, i) = choose|j: int, i: int|
            0 <= j < pre.len() && 0 <= i < pre[j].len() && (#[trigger] pre[j][i]).x_of() == a.max_x;
        assert(post[j] == pre[j]);
        assert(post[j][i].x_of() == m.max_x);
    } else {
        let i = choose|i: int| 0 <= i < ss[k].len() && (#[trigger] ss[k][i]).x_of() == b.max_x;
        assert(post[k][i].x_of() == m.max_x);
    }
    if k > 0 && a.min_y < b.min_y {
        let (j, i) = choose|j: int, i: int|
            0 <= j < pre.len() && 0 <= i < pre[j].len() && (#[trigger] pre[j][i]).y_of() == a.min_y;
        assert(post[j] == pre[j]);
        assert(post[j][i].y_of() == m.min_y);
    } else {
        let i = choose|i: int| 0 <= i < ss[k].len() && (#[trigger] ss[k][i]).y_of() == b.min_y;
        assert(post[k][i].y_of() == m.min_y);
    }
    if k > 0 && a.max_y > b.max_y {
        let (j, i) = choose|j: int, i: int|
            0 <= j < pre.len() && 0 <= i < pre[j].len() && (#[trigger] pre[j][i]).y_of() == a.max_y;
        assert(post[j] == pre[j]);
        assert(post[j][i].y_of() == m.max_y);
    } else {
        let i = choose|i: int| 0 <= i < ss[k].len() && (#[trigger] ss[k][i]).y_of() == b.max_y;
        assert(post[k][i].y_of() == m.max_y);
    }
}

/// The bounding box of a sequence of points; an error when there is none.
pub fn calculate_bounds<P: DataPoint<X = i32, Y = i32>>(points: &[P]) -> (r: DataResult<IntBounds>)
    ensures
        points@.len() == 0 <==> r is Err,
        r matches Err(e) ==> e.is_simple(DataErrorKind::InsufficientData),
        r matches Ok(b) ==> bounds_of_points(b, points@) && b.is_valid(),
{
    if points.len() == 0 {
        return Err(DataError::simple(DataErrorKind::InsufficientData));
    }
    let first = points[0];
    let mut bounds = DataBounds {
        min_x: first.x(),
        max_x: first.x(),
        min_y: first.y(),
        max_y: first.y(),
    };
    let mut i: usize = 1;
    assert(points@.subrange(0, 1)[0] == first);
    while i < points.len()
        invariant
            1 <= i <= points@.len(),
            bounds_of_points(bounds, points@.subrange(0, i as int)),
        decreases points@.len() - i,
    {
        let ghost prev = bounds;
        let p = points[i];
        bounds.expand_to_include(&p);
        proof {
            let s = points@.subrange(0, i as int);
            let t = points@.subrange(0, i + 1);
            assert forall|k: int| 0 <= k < t.len() implies bounds.min_x <= (#[trigger] t[k]).x_of()
                <= bounds.max_x && bounds.min_y <= t[k].y_of() <= bounds.max_y by {
                if k < i {
                    assert(t[k] == s[k]);
                }
            }
            if p.x_of() < prev.min_x {
                assert(t[i as int].x_of() == bounds.min_x);
            } else {
                let w = choose|k: int| 0 <= k < s.len() && (#[trigger] s[k]).x_of() == prev.min_x;
                assert(t[w].x_of() == bounds.min_x);
            }
            if p.x_of() > prev.max_x {
                assert(t[i as int].x_of() == bounds.max_x);
            } else {
                let w = choose|k: int| 0 <= k < s.len() && (#[trigger] s[k]).x_of() == prev.max_x;
                assert(t[w].x_of() == bounds.max_x);
            }
            if p.y_of() < prev.min_y {
                assert(t[i as int].y_of() == bounds.min_y);
            } else {
                let w = choose|k: int| 0 <= k < s.len() && (#[trigger] s[k]).y_of() == prev.min_y;
                assert(t[w].y_of() == bounds.min_y);
            }
            if p.y_of() > prev.max_y {
                assert(t[i as int].y_of() == bounds.max_y);
            } else {
                let w = choose|k: int| 0 <= k < s.len() && (#[trigger] s[k]).y_of() == prev.max_y;
                assert(t[w].y_of() == bounds.max_y);
            }
        }
        i = i + 1;
    }
    assert(points@.subrange(0, points@.len() as int) =~= points@);
    assert(points@[0] == points@.subrange(0, points@.len() as int)[0]);
    Ok(bounds)
}

/// The bounding box of every point of every series; an error when there is no
/// series or when one of them is empty.
pub fn calculate_multi_series_bounds<P: DataPoint<X = i32, Y = i32>>(
    series: &[Vec<P>],
) -> (r: DataResult<IntBounds>)
    ensures
        (series@.len() == 0 || exists|k: int| 0 <= k < series@.len() && series@[k]@.len() == 0)
            <==> r is Err,
        r matches Err(e) ==> e.is_simple(DataErrorKind::InsufficientData),
        r matches Ok(b) ==> b.is_valid() && (forall|k: int, i: int|
            0 <= k < series@.len() && 0 <= i < series@[k]@.len() ==> b.holds(
                #[trigger] series@[k]@[i],
            )) && extremes_reached(b, series@.map_values(|v: Vec<P>| v@)),
{
    if series.len() == 0 {
        return Err(DataError::simple(DataErrorKind::InsufficientData));
    }
    let ghost ss = series@.map_values(|v: Vec<P>| v@);
    let mut combined = match calculate_bounds(series[0].as_slice()) {
        Ok(b) => b,
        Err(e) => {
            return Err(e);
        },
    };
    proof {
        assert(ss[0] == series@[0]@);
        lemma_merge_reaches(combined, combined, ss, 0);
    }
    let mut k: usize = 1;
    while k < series.len()
        invariant
            1 <= k <= series@.len(),
            ss == series@.map_values(|v: Vec<P>| v@),
            extremes_reached(combined, ss.take(k as int)),
            combined.is_valid(),
            forall|j: int| 0 <= j < k ==> series@[j]@.len() > 0,
            forall|j: int, i: int|
                0 <= j < k && 0 <= i < series@[j]@.len() ==> combined.holds(
                    #[trigger] series@[j]@[i],
                ),
        decreases series@.len() - k,
    {
        let b = match calculate_bounds(series[k].as_slice()) {
            Ok(b) => b,
            Err(e) => {
                return Err(e);
            },
        };
        proof {
            assert(ss[k as int] == series@[k as int]@);
            lemma_merge_reaches(combined, b, ss, k as int);
        }
        combined = combined.merge(&b);
        proof {
            assert forall|j: int, i: int|
                0 <= j < k + 1 && 0 <= i < series@[j]@.len() implies combined.holds(
                #[trigger] series@[j]@[i],
            ) by {
                if j == k {
                    assert(series@[j]@ == series@[k as int]@);
                }
            }
        }
        k = k + 1;
    }
    assert(ss.take(series@.len() as int) =~= ss);
    Ok(combined)
}

} // verus!
