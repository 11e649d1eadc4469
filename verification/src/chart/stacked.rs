//! Layered data for stacked charts.
use crate::data::point::DataPoint;
use crate::data::series::{label_view, DataSeries, StaticDataSeries};
use crate::error::{ChartError, ChartResult, DataError, DataErrorKind};
use vstd::prelude::*;

verus! {

/// The most layers a stack holds.
pub const MAX_LAYERS: usize = 8;

/// The longest layer label, in bytes.
pub const MAX_LAYER_LABEL_BYTES: usize = 32;

/// An RGB565 colour in its 16-bit storage form.
pub type RawColor = u16;

/// Sum of the Y values of point `p` in layers `0..=l`.
pub open spec fn stack_sum<T: DataPoint<Y = i32>>(layers: Seq<Seq<T>>, l: int, p: int) -> int
    decreases l + 1,
{
    if l < 0 {
        0
    } else {
        stack_sum(layers, l - 1, p) + layers[l][p].y_of()
    }
}

/// Every partial stack sum fits in an `i32`.
pub open spec fn sums_fit<T: DataPoint<Y = i32>>(layers: Seq<Seq<T>>, len: int) -> bool {
    forall|l: int, p: int|
        0 <= l < layers.len() && 0 <= p < len ==> i32::MIN <= #[trigger] stack_sum(layers, l, p)
            <= i32::MAX
}

/// The data of a stacked chart: up to eight layers of at most `N` points,
/// each with a label and a colour.
#[derive(Debug, Clone)]
pub struct StackedData<T: DataPoint, const N: usize> {
    layers: Vec<StaticDataSeries<T, N>>,
    labels: Vec<String>,
    colors: Vec<RawColor>,
}

impl<T: DataPoint, const N: usize> StackedData<T, N> {
    /// The layers, bottom first.
    pub closed spec fn layers_view(&self) -> Seq<StaticDataSeries<T, N>> {
        self.layers@
    }

    /// The points of every layer, bottom first.
    pub open spec fn points_view(&self) -> Seq<Seq<T>> {
        self.layers_view().map_values(|s: StaticDataSeries<T, N>| s@)
    }

    /// The labels, bottom first.
    pub closed spec fn labels_view(&self) -> Seq<Seq<char>> {
        self.labels@.map_values(|s: String| s@)
    }

    /// The colours, bottom first.
    pub closed spec fn colors_view(&self) -> Seq<RawColor> {
        self.colors@
    }

    /// At most eight layers, each within its capacity; no more labels than
    /// layers and no more colours than labels.
    pub open spec fn wf(&self) -> bool {
        &&& self.layers_view().len() <= MAX_LAYERS
        &&& self.labels_view().len() <= self.layers_view().len()
        &&& self.colors_view().len() <= self.labels_view().len()
        &&& forall|i: int| 0 <= i < self.layers_view().len() ==> (#[trigger] self.layers_view()[i]).wf()
    }

    /// A stack without layers.
    pub fn new() -> (r: Self)
        ensures
            r.wf(),
            r.layers_view().len() == 0,
            r.labels_view().len() == 0,
            r.colors_view().len() == 0,
    {
        let r = StackedData { layers: Vec::new(), labels: Vec::new(), colors: Vec::new() };
        assert(r.labels_view() =~= Seq::<Seq<char>>::empty());
        r
    }

    /// Adds a layer on top with its label and colour; `MemoryFull` when eight
    /// layers are set (nothing is added) or when the label is longer than 32
    /// bytes (the layer is added, but not the label nor the colour).
    pub fn add_layer(&mut self, data: StaticDataSeries<T, N>, label: &str, color: RawColor) -> (r:
        ChartResult<()>)
        requires
            old(self).wf(),
            data.wf(),
        ensures
            final(self).wf(),
            old(self).layers_view().len() >= MAX_LAYERS ==> r == Err::<(), ChartError>(
                ChartError::MemoryFull,
            ) && final(self).layers_view() == old(self).layers_view() && final(self).labels_view()
                == old(self).labels_view() && final(self).colors_view() == old(self).colors_view(),
            old(self).layers_view().len() < MAX_LAYERS ==> final(self).layers_view() == old(
                self).layers_view().push(data),
            old(self).layers_view().len() < MAX_LAYERS && label.len() > MAX_LAYER_LABEL_BYTES ==> r
                == Err::<(), ChartError>(ChartError::MemoryFull) && final(self).labels_view() == old(
                self).labels_view() && final(self).colors_view() == old(self).colors_view(),
            old(self).layers_view().len() < MAX_LAYERS && label.len() <= MAX_LAYER_LABEL_BYTES ==> r is Ok && final(self).labels_view() == old(self).labels_view().push(
                label@,
            ) && final(self).colors_view() == old(self).colors_view().push(color),
    {
        if self.layers.len() >= MAX_LAYERS {
            return Err(ChartError::MemoryFull);
        }
        self.layers.push(data);
        proof {
            assert forall|i: int| 0 <= i < self.layers_view().len() implies (
            #[trigger] self.layers_view()[i]).wf() by {
                if i < old(self).layers_view().len() {
                    assert(self.layers_view()[i] == old(self).layers_view()[i]);
                }
            }
        }
        if label.len() > MAX_LAYER_LABEL_BYTES {
            return Err(ChartError::MemoryFull);
        }
        self.labels.push(label.to_owned());
        proof {
            assert(self.labels@.map_values(|s: String| s@) =~= old(self).labels@.map_values(
                |s: String| s@,
            ).push(label@));
        }
        self.colors.push(color);
        Ok(())
    }

    /// The number of layers.
    pub fn layer_count(&self) -> (r: usize)
        ensures
            r == self.layers_view().len(),
    {
        self.layers.len()
    }

    /// The layer at `index`, if there is one.
    pub fn layer(&self, index: usize) -> (r: Option<&StaticDataSeries<T, N>>)
        ensures
            index < self.layers_view().len() ==> r == Some(&self.layers_view()[index as int]),
            index >= self.layers_view().len() ==> r is None,
    {
        if index < self.layers.len() {
            Some(&self.layers[index])
        } else {
            None
        }
    }

    /// The label of the layer at `index`, if there is one.
    pub fn label(&self, index: usize) -> (r: Option<&str>)
        ensures
            index < self.labels_view().len() ==> (r matches Some(s) && s@ == self.labels_view()[index as int]),
            index >= self.labels_view().len() ==> r is None,
    {
        if index < self.labels.len() {
            Some(self.labels[index].as_str())
        } else {
            None
        }
    }

    /// The colour of the layer at `index`, if there is one.
    pub fn color(&self, index: usize) -> (r: Option<RawColor>)
        ensures
            index < self.colors_view().len() ==> r == Some(self.colors_view()[index as int]),
            index >= self.colors_view().len() ==> r is None,
    {
        if index < self.colors.len() {
            Some(self.colors[index])
        } else {
            None
        }
    }
}

impl<T: DataPoint, const N: usize> Default for StackedData<T, N> {
    fn default() -> (r: Self)
        ensures
            r.wf(),
            r.layers_view().len() == 0,
            r.labels_view().len() == 0,
            r.colors_view().len() == 0,
    {
        Self::new()
    }
}

impl<T: DataPoint<Y = i32>, const N: usize> StackedData<T, N> {
    /// Every layer has `len` points.
    pub open spec fn layers_have_len(&self, len: int) -> bool {
        forall|i: int| 0 <= i < self.points_view().len() ==> (#[trigger] self.points_view()[i]).len() == len
    }

    /// The stacked tops: entry `l` holds, for each point, the sum of its Y
    /// values in layers `0..=l`.  Fails with `BufferFull` when the layers do
    /// not all have the same number of points.
    pub fn calculate_cumulative(&self) -> (r: ChartResult<Vec<Vec<i32>>>)
        requires
            self.wf(),
            self.layers_view().len() > 0 && self.layers_have_len(self.points_view()[0].len() as int)
                ==> sums_fit(self.points_view(), self.points_view()[0].len() as int),
        ensures
            self.layers_view().len() == 0 ==> (r matches Ok(v) && v@.len() == 0),
            self.layers_view().len() > 0 && !self.layers_have_len(self.points_view()[0].len() as int)
                ==> (r matches Err(ChartError::DataError(e)) && e.is_simple(DataErrorKind::BufferFull)),
            self.layers_view().len() > 0 && self.layers_have_len(self.points_view()[0].len() as int)
                ==> (r matches Ok(v) && v@.len() == self.layers_view().len() && forall|l: int|
                0 <= l < v@.len() ==> (#[trigger] v@[l])@.len() == self.points_view()[0].len()
                    && forall|p: int|
                    0 <= p < v@[l]@.len() ==> v@[l]@[p] == stack_sum(self.points_view(), l, p)),
    {
        let mut cumulative: Vec<Vec<i32>> = Vec::new();
        let count = self.layers.len();
        if count == 0 {
            return Ok(cumulative);
        }
        let ghost pts = self.points_view();
        assert(self.layers_view()[0].wf());
        let data_length = self.layers[0].len();
        assert(pts[0] == self.layers_view()[0]@);
        let mut k: usize = 0;
        while k < count
            invariant
                self.wf(),
                count == self.layers_view().len(),
                pts == self.points_view(),
                pts.len() == count,
                data_length == pts[0].len(),
                k <= count,
                forall|i: int| 0 <= i < k ==> (#[trigger] pts[i]).len() == data_length,
            decreases count - k,
        {
            assert(pts[k as int] == self.layers_view()[k as int]@);
            assert(self.layers_view()[k as int].wf());
            if self.layers[k].len() != data_length {
                return Err(ChartError::DataError(DataError::simple(DataErrorKind::BufferFull)));
            }
            k = k + 1;
        }
        let mut layer_idx: usize = 0;
        while layer_idx < count
            invariant
                self.wf(),
                count == self.layers_view().len(),
                pts == self.points_view(),
                pts.len() == count,
                self.layers_have_len(data_length as int),
                data_length == pts[0].len(),
                sums_fit(pts, data_length as int),
                layer_idx <= count,
                cumulative@.len() == layer_idx,
                forall|l: int|
                    0 <= l < layer_idx ==> (#[trigger] cumulative@[l])@.len() == data_length && forall|
                        p: int,
                    |
                        0 <= p < data_length ==> cumulative@[l]@[p] == stack_sum(pts, l, p),
            decreases count - layer_idx,
        {
            let mut values: Vec<i32> = Vec::new();
            let mut point_idx: usize = 0;
            while point_idx < data_length
                invariant
                    self.wf(),
                    count == self.layers_view().len(),
                    pts == self.points_view(),
                    pts.len() == count,
                    self.layers_have_len(data_length as int),
                    sums_fit(pts, data_length as int),
                    layer_idx < count,
                    point_idx <= data_length,
                    values@.len() == point_idx,
                    forall|p: int| 0 <= p < point_idx ==> #[trigger] values@[p] == stack_sum(pts, layer_idx as int, p),
                decreases data_length - point_idx,
            {
                let mut sum: i32 = 0;
                let mut b: usize = 0;
                while b <= layer_idx
                    invariant
                        self.wf(),
                        count == self.layers_view().len(),
                        pts == self.points_view(),
                        pts.len() == count,
                        self.layers_have_len(data_length as int),
                        sums_fit(pts, data_length as int),
                        layer_idx < count,
                        point_idx < data_length,
                        b <= layer_idx + 1,
                        sum == stack_sum(pts, b - 1, point_idx as int),
                    decreases layer_idx + 1 - b,
                {
                    assert(pts[b as int] == self.layers_view()[b as int]@);
                    assert(pts[b as int].len() == data_length);
                    assert(self.layers_view()[b as int].wf());
                    match self.layers[b].get(point_idx) {
                        Some(point) => {
                            assert(i32::MIN <= stack_sum(pts, b as int, point_idx as int) <= i32::MAX);
                            sum = sum + point.y();
                        },
                        None => {
                            proof {
                                assert(false);
                            }
                        },
                    }
                    b = b + 1;
                }
                values.push(sum);
                point_idx = point_idx + 1;
            }
            cumulative.push(values);
            layer_idx = layer_idx + 1;
        }
        Ok(cumulative)
    }
}

/// Law: each stacked top is the one below it plus the layer's own value, so
/// the top of the last layer is the total of all layers.
pub proof fn law_stack_adds_layer<T: DataPoint<Y = i32>>(layers: Seq<Seq<T>>, l: int, p: int)
    requires
        0 < l < layers.len(),
        forall|i: int| 0 <= i <= l ==> 0 <= p < (#[trigger] layers[i]).len(),
    ensures
        stack_sum(layers, l, p) == stack_sum(layers, l - 1, p) + layers[l][p].y_of(),
        stack_sum(layers, 0, p) == layers[0][p].y_of(),
{
    assert(stack_sum(layers, -1, p) == 0);
}

} // verus!
