//! Data series: fixed-capacity point lists, groups of them, and sliding windows.
use crate::data::bounds::{
    bounds_of_points, calculate_bounds, extremes_reached, lemma_merge_reaches, DataBounds, IntBounds,
};
use crate::data::point::DataPoint;
use crate::data::ring_buffer::slide;
use crate::data::sort::{is_sorted_permutation, keeps_tie_order, sort_points};
use crate::error::{DataError, DataErrorKind, DataResult};
use vstd::prelude::*;

verus! {

/// The longest label, in bytes, that a series keeps.
pub const MAX_LABEL_BYTES: usize = 32;

/// The label that results from asking for `label` when `current` is set: a
/// label longer than the limit is refused and the old one stays.
pub open spec fn label_after(current: Option<Seq<char>>, label: &str) -> Option<Seq<char>> {
    if label.len() <= MAX_LABEL_BYTES {
        Some(label@)
    } else {
        current
    }
}

/// The view of an optional owned string.
pub open spec fn label_view(label: Option<String>) -> Option<Seq<char>> {
    match label {
        Some(s) => Some(s@),
        None => None,
    }
}

/// A collection of points that charts can read.
pub trait DataSeries {
    /// The type of the points.
    type Item: DataPoint;

    /// The points, oldest or first first.
    spec fn points_view(&self) -> Seq<Self::Item>;

    /// The internal invariant of the series.
    spec fn series_wf(&self) -> bool;

    /// The number of points.
    fn len(&self) -> (r: usize)
        requires
            self.series_wf(),
        ensures
            r == self.points_view().len(),
    ;

    /// Whether there is no point.
    fn is_empty(&self) -> (r: bool)
        requires
            self.series_wf(),
        ensures
            r == (self.points_view().len() == 0),
    {
        self.len() == 0
    }

    /// The point at `index`, if there is one.
    fn get(&self, index: usize) -> (r: Option<Self::Item>)
        requires
            self.series_wf(),
        ensures
            index < self.points_view().len() ==> r == Some(self.points_view()[index as int]),
            index >= self.points_view().len() ==> r is None,
    ;

    /// All points, in order.
    fn iter(&self) -> (r: Vec<Self::Item>)
        requires
            self.series_wf(),
        ensures
            r@ == self.points_view(),
    ;

    /// Bounds are computed by the concrete series; this check always succeeds.
    fn calculate_bounds(&self) -> (r: DataResult<()>)
        ensures
            r is Ok,
    {
        Ok(())
    }
}

/// A series of at most `N` points.
#[derive(Debug, Clone)]
pub struct StaticDataSeries<T: DataPoint, const N: usize> {
    data: Vec<T>,
    label: Option<String>,
}

impl<T: DataPoint, const N: usize> View for StaticDataSeries<T, N> {
    type V = Seq<T>;

    open spec fn view(&self) -> Seq<T> {
        self.data_view()
    }
}

impl<T: DataPoint, const N: usize> StaticDataSeries<T, N> {
    /// The points of the series.
    pub closed spec fn data_view(&self) -> Seq<T> {
        self.data@
    }

    /// The label of the series.
    pub closed spec fn label_spec(&self) -> Option<Seq<char>> {
        label_view(self.label)
    }

    /// The series holds no more than its capacity.
    pub open spec fn wf(&self) -> bool {
        self@.len() <= N
    }

    /// Creates an empty series without label.
    pub fn new() -> (r: Self)
        ensures
            r.wf(),
            r@ == Seq::<T>::empty(),
            r.label_spec() == None::<Seq<char>>,
    {
        StaticDataSeries { data: Vec::new(), label: None }
    }

    /// Creates an empty series with a label (kept only if it fits).
    pub fn with_label(label: &str) -> (r: Self)
        ensures
            r.wf(),
            r@ == Seq::<T>::empty(),
            r.label_spec() == label_after(None, label),
    {
        let mut series = Self::new();
        series.set_label(label);
        series
    }

    /// Sets the label; a label longer than 32 bytes leaves the old one.
    pub fn set_label(&mut self, label: &str)
        ensures
            final(self)@ == old(self)@,
            final(self).label_spec() == label_after(old(self).label_spec(), label),
    {
        if label.len() <= MAX_LABEL_BYTES {
            self.label = Some(label.to_owned());
        }
    }

    /// The label, if any.
    pub fn label(&self) -> (r: Option<&str>)
        ensures
            r is Some <==> self.label_spec() is Some,
            r matches Some(s) ==> self.label_spec() == Some(s@),
    {
        match &self.label {
            Some(s) => Some(s.as_str()),
            None => None,
        }
    }

    /// Appends a point; fails with `BufferFull` when the series is full.
    pub fn push(&mut self, point: T) -> (r: DataResult<()>)
        requires
            old(self).wf(),
        ensures
            final(self).wf(),
            final(self).label_spec() == old(self).label_spec(),
            old(self)@.len() < N ==> r is Ok && final(self)@ == old(self)@.push(point),
            old(self)@.len() >= N ==> final(self)@ == old(self)@ && (r matches Err(e)
                && e.has_context(
                DataErrorKind::BufferFull,
                "push data point"@,
                "Increase buffer capacity or remove old data"@,
                Some(N),
            )),
    {
        if self.data.len() < N {
            self.data.push(point);
            Ok(())
        } else {
            Err(DataError::buffer_full("push data point", N))
        }
    }

    /// Appends points in order, stopping at the first that does not fit.
    pub fn extend(&mut self, points: &[T]) -> (r: DataResult<()>)
        requires
            old(self).wf(),
        ensures
            final(self).wf(),
            final(self).label_spec() == old(self).label_spec(),
            old(self)@.len() + points@.len() <= N ==> r is Ok && final(self)@ == old(self)@
                + points@,
            old(self)@.len() + points@.len() > N ==> final(self)@ == old(self)@ + points@.subrange(
                0,
                N - old(self)@.len(),
            ) && (r matches Err(e) && e.kind() == DataErrorKind::BufferFull),
    {
        let mut i: usize = 0;
        while i < points.len()
            invariant
                0 <= i <= points@.len(),
                self.wf(),
                self.label_spec() == old(self).label_spec(),
                self@ == old(self)@ + points@.subrange(0, i as int),
                old(self)@.len() + i <= N,
            decreases points@.len() - i,
        {
            if self.push(points[i]).is_err() {
                assert(old(self)@.len() + i == N);
                return Err(DataError::buffer_full("push data point", N));
            }
            assert(points@.subrange(0, i + 1) =~= points@.subrange(0, i as int).push(points@[i as int]));
            i = i + 1;
        }
        assert(points@.subrange(0, points@.len() as int) =~= points@);
        Ok(())
    }

    /// Builds a series from coordinate pairs; fails when they do not all fit.
    pub fn from_tuples(tuples: &[(T::X, T::Y)]) -> (r: DataResult<Self>)
        ensures
            tuples@.len() <= N <==> r is Ok,
            r matches Ok(s) ==> s.wf() && s.label_spec() == None::<Seq<char>> && s@.len()
                == tuples@.len() && forall|i: int|
                0 <= i < tuples@.len() ==> (#[trigger] s@[i]).x_of() == tuples@[i].0 && s@[i].y_of()
                    == tuples@[i].1,
            r matches Err(e) ==> e.kind() == DataErrorKind::BufferFull,
    {
        let mut series = Self::new();
        let mut i: usize = 0;
        while i < tuples.len()
            invariant
                0 <= i <= tuples@.len(),
                series.wf(),
                series.label_spec() == None::<Seq<char>>,
                series@.len() == i,
                forall|k: int|
                    0 <= k < i ==> (#[trigger] series@[k]).x_of() == tuples@[k].0
                        && series@[k].y_of() == tuples@[k].1,
            decreases tuples@.len() - i,
        {
            let (x, y) = tuples[i];
            let p = T::new(x, y);
            match series.push(p) {
                Ok(()) => {},
                Err(e) => {
                    return Err(e);
                },
            }
            i = i + 1;
        }
        Ok(series)
    }

    /// Removes every point; the label stays.
    pub fn clear(&mut self)
        ensures
            final(self).wf(),
            final(self)@ == Seq::<T>::empty(),
            final(self).label_spec() == old(self).label_spec(),
    {
        self.data.clear();
    }

    /// The capacity `N`.
    pub fn capacity(&self) -> (r: usize)
        ensures
            r == N,
    {
        N
    }

    /// How many more points fit.
    pub fn remaining_capacity(&self) -> (r: usize)
        requires
            self.wf(),
        ensures
            r == N - self@.len(),
    {
        N - self.data.len()
    }

    /// Whether the series holds `N` points.
    pub fn is_full(&self) -> (r: bool)
        ensures
            r == (self@.len() == N),
    {
        self.data.len() == N
    }

    /// The points as a slice.
    pub fn as_slice(&self) -> (r: &[T])
        ensures
            r@ == self@,
    {
        self.data.as_slice()
    }

    /// The points as a slice.
    pub fn data(&self) -> (r: &[T])
        ensures
            r@ == self@,
    {
        self.data.as_slice()
    }

    /// A borrowing cursor over the points.
    pub fn iter_ref(&self) -> (r: StaticDataSeriesRefIter<'_, T>)
        ensures
            r.remaining() == self@,
    {
        StaticDataSeriesRefIter { data: self.data.as_slice(), index: 0 }
    }
}

impl<T: DataPoint<X = i32, Y = i32>, const N: usize> StaticDataSeries<T, N> {
    /// Sorts the points by X coordinate.
    pub fn sort_by_x(&mut self)
        requires
            old(self).wf(),
        ensures
            final(self).wf(),
            is_sorted_permutation(final(self)@, old(self)@, false),
            keeps_tie_order(final(self)@, old(self)@, false),
            final(self).label_spec() == old(self).label_spec(),
    {
        sort_points(&mut self.data, false);
    }

    /// Sorts the points by Y coordinate.
    pub fn sort_by_y(&mut self)
        requires
            old(self).wf(),
        ensures
            final(self).wf(),
            is_sorted_permutation(final(self)@, old(self)@, true),
            keeps_tie_order(final(self)@, old(self)@, true),
            final(self).label_spec() == old(self).label_spec(),
    {
        sort_points(&mut self.data, true);
    }

    /// The bounding box of the points; an error for an empty series.
    pub fn bounds(&self) -> (r: DataResult<IntBounds>)
        ensures
            self@.len() == 0 <==> r is Err,
            r matches Err(e) ==> e.is_simple(DataErrorKind::InsufficientData),
            r matches Ok(b) ==> bounds_of_points(b, self@) && b.is_valid(),
    {
        calculate_bounds(self.data.as_slice())
    }
}

impl<T: DataPoint, const N: usize> DataSeries for StaticDataSeries<T, N> {
    type Item = T;

    open spec fn points_view(&self) -> Seq<T> {
        self@
    }

    open spec fn series_wf(&self) -> bool {
        self.wf()
    }

    fn len(&self) -> (r: usize) {
        self.data.len()
    }

    fn get(&self, index: usize) -> (r: Option<T>) {
        if index < self.data.len() {
            Some(self.data[index])
        } else {
            None
        }
    }

    fn iter(&self) -> (r: Vec<T>) {
        let mut out: Vec<T> = Vec::new();
        let mut i: usize = 0;
        while i < self.data.len()
            invariant
                0 <= i <= self.data@.len(),
                out@ == self.data@.subrange(0, i as int),
            decreases self.data@.len() - i,
        {
            out.push(self.data[i]);
            assert(self.data@.subrange(0, i + 1) =~= self.data@.subrange(0, i as int).push(
                self.data@[i as int],
            ));
            i = i + 1;
        }
        assert(self.data@.subrange(0, self.data@.len() as int) =~= self.data@);
        out
    }
}

/// A cursor that hands out references to the points of a series, in order.
pub struct StaticDataSeriesRefIter<'a, T> {
    data: &'a [T],
    index: usize,
}

impl<'a, T> StaticDataSeriesRefIter<'a, T> {
    /// The points not handed out yet.
    pub closed spec fn remaining(&self) -> Seq<T> {
        if self.index <= self.data@.len() {
            self.data@.subrange(self.index as int, self.data@.len() as int)
        } else {
            Seq::empty()
        }
    }

    /// The next point, if any.
    pub fn next(&mut self) -> (r: Option<&'a T>)
        ensures
            old(self).remaining().len() == 0 ==> r is None && final(self).remaining() == old(
                self,
            ).remaining(),
            old(self).remaining().len() > 0 ==> r == Some(&old(self).remaining()[0])
                && final(self).remaining() == old(self).remaining().drop_first(),
    {
        if self.index < self.data.len() {
            let item = &self.data[self.index];
            self.index = self.index + 1;
            Some(item)
        } else {
            None
        }
    }

    /// The number of points not handed out yet.
    pub fn remaining_len(&self) -> (r: usize)
        ensures
            r == self.remaining().len(),
    {
        if self.index <= self.data.len() {
            self.data.len() - self.index
        } else {
            0
        }
    }
}

/// A group of at most `SERIES` series of at most `POINTS` points each.
#[derive(Debug, Clone)]
pub struct MultiSeries<T: DataPoint, const SERIES: usize, const POINTS: usize> {
    series: Vec<StaticDataSeries<T, POINTS>>,
}

impl<T: DataPoint, const SERIES: usize, const POINTS: usize> MultiSeries<T, SERIES, POINTS> {
    /// The series, in the order they were added.
    pub closed spec fn series_view(&self) -> Seq<StaticDataSeries<T, POINTS>> {
        self.series@
    }

    /// No more than `SERIES` series, each within its capacity.
    pub open spec fn wf(&self) -> bool {
        &&& self.series_view().len() <= SERIES
        &&& forall|i: int| 0 <= i < self.series_view().len() ==> (#[trigger] self.series_view()[i]).wf()
    }

    /// Creates an empty group.
    pub fn new() -> (r: Self)
        ensures
            r.wf(),
            r.series_view() == Seq::<StaticDataSeries<T, POINTS>>::empty(),
    {
        MultiSeries { series: Vec::new() }
    }

    /// Adds a series and returns its index; fails with `BufferFull` when the
    /// group is full.
    pub fn add_series(&mut self, series: StaticDataSeries<T, POINTS>) -> (r: DataResult<usize>)
        requires
            old(self).wf(),
            series.wf(),
        ensures
            final(self).wf(),
            old(self).series_view().len() < SERIES ==> r == Ok::<usize, DataError>(
                old(self).series_view().len() as usize,
            ) && final(self).series_view() == old(self).series_view().push(series),
            old(self).series_view().len() >= SERIES ==> final(self).series_view() == old(
                self,
            ).series_view() && (r matches Err(e) && e.has_context(
                DataErrorKind::BufferFull,
                "add data series"@,
                "Increase buffer capacity or remove old data"@,
                Some(SERIES),
            )),
    {
        let index = self.series.len();
        if index < SERIES {
            self.series.push(series);
            proof {
                assert forall|i: int| 0 <= i < self.series_view().len() implies (
                #[trigger] self.series_view()[i]).wf() by {
                    if i < index {
                        assert(self.series_view()[i] == old(self).series_view()[i]);
                    }
                }
            }
            Ok(index)
        } else {
            Err(DataError::buffer_full("add data series", SERIES))
        }
    }

    /// The series at `index`, if there is one.
    pub fn get_series(&self, index: usize) -> (r: Option<&StaticDataSeries<T, POINTS>>)
        ensures
            index < self.series_view().len() ==> r == Some(&self.series_view()[index as int]),
            index >= self.series_view().len() ==> r is None,
    {
        if index < self.series.len() {
            Some(&self.series[index])
        } else {
            None
        }
    }

    /// The series at `index`, to be changed in place, if there is one.
    pub fn get_series_mut(&mut self, index: usize) -> (r: Option<&mut StaticDataSeries<T, POINTS>>)
        ensures
            index >= old(self).series_view().len() ==> r is None && final(self).series_view() == old(
                self,
            ).series_view(),
            index < old(self).series_view().len() ==> (r matches Some(s) && *s == old(
                self,
            ).series_view()[index as int] && final(self).series_view() == old(self).series_view().update(
                index as int,
                *final(s),
            )),
    {
        if index < self.series.len() {
            Some(&mut self.series[index])
        } else {
            None
        }
    }

    /// The number of series.
    pub fn series_count(&self) -> (r: usize)
        ensures
            r == self.series_view().len(),
    {
        self.series.len()
    }

    /// Whether there is no series.
    pub fn is_empty(&self) -> (r: bool)
        ensures
            r == (self.series_view().len() == 0),
    {
        self.series.len() == 0
    }

    /// The series as a slice.
    pub fn iter_series(&self) -> (r: &[StaticDataSeries<T, POINTS>])
        ensures
            r@ == self.series_view(),
    {
        self.series.as_slice()
    }

    /// Removes every series.
    pub fn clear(&mut self)
        ensures
            final(self).wf(),
            final(self).series_view() == Seq::<StaticDataSeries<T, POINTS>>::empty(),
    {
        self.series.clear();
    }
}

impl<T: DataPoint<X = i32, Y = i32>, const SERIES: usize, const POINTS: usize> MultiSeries<
    T,
    SERIES,
    POINTS,
> {
    /// The bounds that cover every point of every series.
    ///
    /// Fails with `InsufficientData` when there is no series, and with the
    /// error of the first empty series otherwise.
    pub fn combined_bounds(&self) -> (r: DataResult<IntBounds>)
        ensures
            self.series_view().len() == 0 ==> (r matches Err(e) && e.has_context(
                DataErrorKind::InsufficientData,
                "calculate combined bounds"@,
                "Add more data points"@,
                Some(0usize),
            )),
            (exists|k: int|
                0 <= k < self.series_view().len() && (#[trigger] self.series_view()[k])@.len()
                    == 0) ==> (r matches Err(e) && e.is_simple(DataErrorKind::InsufficientData)),
            r is Ok <==> self.series_view().len() > 0 && forall|k: int|
                0 <= k < self.series_view().len() ==> (#[trigger] self.series_view()[k])@.len() > 0,
            r matches Ok(b) ==> b.is_valid() && (forall|k: int, i: int|
                0 <= k < self.series_view().len() && 0 <= i < self.series_view()[k]@.len()
                    ==> b.holds(#[trigger] self.series_view()[k]@[i])) && extremes_reached(
                b,
                self.series_view().map_values(|s: StaticDataSeries<T, POINTS>| s@),
            ),
    {
        if self.series.len() == 0 {
            return Err(DataError::insufficient_data("calculate combined bounds", 1, 0));
        }
        let ghost ss = self.series_view().map_values(|s: StaticDataSeries<T, POINTS>| s@);
        let mut combined = match self.series[0].bounds() {
            Ok(b) => b,
            Err(e) => {
                return Err(e);
            },
        };
        proof {
            assert(ss[0] == self.series_view()[0]@);
            lemma_merge_reaches(combined, combined, ss, 0);
        }
        let mut k: usize = 1;
        while k < self.series.len()
            invariant
                1 <= k <= self.series_view().len(),
                ss == self.series_view().map_values(|s: StaticDataSeries<T, POINTS>| s@),
                extremes_reached(combined, ss.take(k as int)),
                combined.is_valid(),
                forall|j: int| 0 <= j < k ==> (#[trigger] self.series_view()[j])@.len() > 0,
                forall|j: int, i: int|
                    0 <= j < k && 0 <= i < self.series_view()[j]@.len() ==> combined.holds(
                        #[trigger] self.series_view()[j]@[i],
                    ),
            decreases self.series_view().len() - k,
        {
            let b = match self.series[k].bounds() {
                Ok(b) => b,
                Err(e) => {
                    return Err(e);
                },
            };
            proof {
                assert(ss[k as int] == self.series_view()[k as int]@);
                lemma_merge_reaches(combined, b, ss, k as int);
            }
            combined = combined.merge(&b);
            k = k + 1;
        }
        assert(ss.take(self.series_view().len() as int) =~= ss);
        Ok(combined)
    }
}

/// Index `k` of a circular buffer of size `n`, for `k < 2 * n`.
pub open spec fn wrap_index(k: int, n: int) -> int {
    if k < n {
        k
    } else {
        k - n
    }
}

/// A series that keeps the `N` most recent points: once full, each new point
/// replaces the oldest one.
#[derive(Debug, Clone)]
pub struct SlidingWindowSeries<T: DataPoint, const N: usize> {
    buffer: Vec<Option<T>>,
    head: usize,
    count: usize,
    full: bool,
    label: Option<String>,
}

impl<T: DataPoint, const N: usize> SlidingWindowSeries<T, N> {
    /// Where the oldest point is stored.
    pub closed spec fn start(&self) -> int {
        if self.full {
            self.head as int
        } else {
            0
        }
    }

    /// The point stored at buffer index `k`.
    pub closed spec fn slot(&self, k: int) -> T {
        self.buffer@[k]->0
    }

    /// The points, oldest first.
    pub closed spec fn window(&self) -> Seq<T> {
        Seq::new(self.count as nat, |i: int| self.slot(wrap_index(self.start() + i, N as int)))
    }

    /// The label of the series.
    pub closed spec fn label_spec(&self) -> Option<Seq<char>> {
        label_view(self.label)
    }

    /// Internal invariant of the circular buffer.
    pub closed spec fn wf(&self) -> bool {
        &&& self.buffer@.len() == N
        &&& self.count <= N
        &&& self.full ==> self.count == N && self.head < N
        &&& !self.full ==> self.head == self.count && (self.count < N || N == 0)
        &&& forall|i: int|
            0 <= i < self.count ==> (#[trigger] self.buffer@[wrap_index(self.start() + i, N as int)]) is Some
    }

    fn empty_buffer() -> (r: Vec<Option<T>>)
        ensures
            r@.len() == N,
    {
        let mut buffer: Vec<Option<T>> = Vec::new();
        let mut i: usize = 0;
        while i < N
            invariant
                i <= N,
                buffer@.len() == i,
            decreases N - i,
        {
            buffer.push(None);
            i = i + 1;
        }
        buffer
    }

    /// Creates an empty window without label.
    pub fn new() -> (r: Self)
        ensures
            r.wf(),
            r.window() == Seq::<T>::empty(),
            r.label_spec() == None::<Seq<char>>,
    {
        let r = SlidingWindowSeries {
            buffer: Self::empty_buffer(),
            head: 0,
            count: 0,
            full: false,
            label: None,
        };
        assert(r.window() =~= Seq::<T>::empty());
        r
    }

    /// Creates an empty window with a label (kept only if it fits).
    pub fn with_label(label: &str) -> (r: Self)
        ensures
            r.wf(),
            r.window() == Seq::<T>::empty(),
            r.label_spec() == label_after(None, label),
    {
        let mut series = Self::new();
        series.set_label(label);
        series
    }

    /// Sets the label; a label longer than 32 bytes leaves the old one.
    pub fn set_label(&mut self, label: &str)
        ensures
            final(self).wf() == old(self).wf(),
            final(self).window() == old(self).window(),
            final(self).label_spec() == label_after(old(self).label_spec(), label),
    {
        if label.len() <= MAX_LABEL_BYTES {
            self.label = Some(label.to_owned());
        }
        assert(self.window() =~= old(self).window());
    }

    /// The label, if any.
    pub fn label(&self) -> (r: Option<&str>)
        ensures
            r is Some <==> self.label_spec() is Some,
            r matches Some(s) ==> self.label_spec() == Some(s@),
    {
        match &self.label {
            Some(s) => Some(s.as_str()),
            None => None,
        }
    }

    /// Adds a point, replacing the oldest one when the window is full.
    pub fn push(&mut self, point: T)
        requires
            old(self).wf(),
            N > 0,
        ensures
            final(self).wf(),
            final(self).label_spec() == old(self).label_spec(),
            final(self).window() == slide(old(self).window(), point, N as nat),
    {
        let ghost before = self.window();
        let ghost old_buf = self.buffer@;
        let ghost old_start = self.start();
        let h = self.head;
        self.buffer.set(h, Some(point));
        self.head = if h + 1 < N {
            h + 1
        } else {
            0
        };
        if !self.full {
            self.count = self.count + 1;
            if self.count == N {
                self.full = true;
            }
        }
        proof {
            let n = N as int;
            if old(self).full {
                assert forall|i: int| 0 <= i < self.count implies (#[trigger] self.buffer@[wrap_index(
                    self.start() + i,
                    n,
                )]) is Some by {
                    let k = wrap_index(self.start() + i, n);
                    if k != h {
                        let j = wrap_index(old_start + i + 1, n);
                        assert(k == j || i == n - 1);
                        if i < n - 1 {
                            assert(old_buf[wrap_index(old_start + (i + 1), n)] is Some);
                        }
                    }
                }
                assert forall|i: int| 0 <= i < n implies #[trigger] self.window()[i]
                    == before.drop_first().push(point)[i] by {
                    if i < n - 1 {
                        assert(before[i + 1] == old(self).slot(wrap_index(old_start + (i + 1), n)));
                    }
                }
                assert(self.window() =~= before.drop_first().push(point));
            } else {
                assert forall|i: int| 0 <= i < self.count implies (#[trigger] self.buffer@[wrap_index(
                    self.start() + i,
                    n,
                )]) is Some by {
                    if i < old(self).count {
                        assert(old_buf[wrap_index(old_start + i, n)] is Some);
                    }
                }
                assert forall|i: int| 0 <= i < self.count implies #[trigger] self.window()[i]
                    == before.push(point)[i] by {
                    if i < old(self).count {
                        assert(before[i] == old(self).slot(wrap_index(old_start + i, n)));
                    }
                }
                assert(self.window() =~= before.push(point));
            }
        }
    }

    /// The number of points.
    pub fn current_len(&self) -> (r: usize)
        ensures
            r == self.window().len(),
    {
        self.count
    }

    /// Whether the window holds `N` points.
    pub fn is_full(&self) -> (r: bool)
        requires
            self.wf(),
        ensures
            r == (self.window().len() == N && N > 0),
    {
        self.full
    }

    /// The capacity `N`.
    pub fn capacity(&self) -> (r: usize)
        ensures
            r == N,
    {
        N
    }

    /// Removes every point; the label stays.
    pub fn clear(&mut self)
        ensures
            final(self).wf(),
            final(self).window() == Seq::<T>::empty(),
            final(self).label_spec() == old(self).label_spec(),
    {
        self.buffer = Self::empty_buffer();
        self.head = 0;
        self.count = 0;
        self.full = false;
        assert(self.window() =~= Seq::<T>::empty());
    }

    /// The point `index` places after the oldest, if there is one.
    fn slot_at(&self, index: usize) -> (r: T)
        requires
            self.wf(),
            index < self.count,
        ensures
            r == self.window()[index as int],
    {
        let start: usize = if self.full {
            self.head
        } else {
            0
        };
        let k = if index < N - start {
            start + index
        } else {
            index - (N - start)
        };
        assert(k == wrap_index(self.start() + index, N as int));
        assert(self.buffer@[k as int] is Some);
        match self.buffer[k] {
            Some(p) => p,
            None => {
                proof {
                    assert(false);
                }
                self.buffer[k].unwrap()
            },
        }
    }

    /// The points, oldest first.
    pub fn iter_chronological(&self) -> (r: Vec<T>)
        requires
            self.wf(),
        ensures
            r@ == self.window(),
    {
        let mut out: Vec<T> = Vec::new();
        let mut i: usize = 0;
        while i < self.count
            invariant
                self.wf(),
                i <= self.count,
                out@ == self.window().subrange(0, i as int),
            decreases self.count - i,
        {
            let p = self.slot_at(i);
            out.push(p);
            assert(self.window().subrange(0, i + 1) =~= self.window().subrange(0, i as int).push(p));
            i = i + 1;
        }
        assert(self.window().subrange(0, self.count as int) =~= self.window());
        out
    }
}

impl<T: DataPoint, const N: usize> DataSeries for SlidingWindowSeries<T, N> {
    type Item = T;

    open spec fn points_view(&self) -> Seq<T> {
        self.window()
    }

    open spec fn series_wf(&self) -> bool {
        self.wf()
    }

    fn len(&self) -> (r: usize) {
        self.count
    }

    fn get(&self, index: usize) -> (r: Option<T>) {
        if index >= self.count {
            return None;
        }
        Some(self.slot_at(index))
    }

    fn iter(&self) -> (r: Vec<T>) {
        self.iter_chronological()
    }
}

} // verus!
