//! Settings for reducing the number of points of a series.
use crate::data::point::DataPoint;
use vstd::prelude::*;

verus! {

/// How a group of points is combined into one.
#[derive(Debug, Clone, Copy, PartialEq, Eq, Structural)]
pub enum AggregationStrategy {
    /// The mean of the coordinates.
    Mean,
    /// The median of the coordinates.
    Median,
    /// The point with the extreme Y value.
    MinMax,
    /// The first point of the group.
    First,
    /// The last point of the group.
    Last,
    /// The point with the largest Y value.
    Max,
    /// The point with the smallest Y value.
    Min,
}

/// Settings of an aggregation.
#[derive(Debug, Clone, Copy)]
pub struct AggregationConfig {
    /// How groups are combined.
    pub strategy: AggregationStrategy,
    /// The number of points wanted after aggregation.
    pub target_points: usize,
    /// Whether the first and last points are kept as they are.
    pub preserve_endpoints: bool,
    /// The smallest number of points in a group.
    pub min_group_size: usize,
}

impl AggregationConfig {
    /// The default settings: mean, 100 points, endpoints kept, groups of at
    /// least one point.
    pub open spec fn default_spec() -> AggregationConfig {
        AggregationConfig {
            strategy: AggregationStrategy::Mean,
            target_points: 100,
            preserve_endpoints: true,
            min_group_size: 1,
        }
    }
}

impl Default for AggregationConfig {
    fn default() -> (r: Self)
        ensures
            r == AggregationConfig::default_spec(),
    {
        AggregationConfig {
            strategy: AggregationStrategy::Mean,
            target_points: 100,
            preserve_endpoints: true,
            min_group_size: 1,
        }
    }
}

/// Statistics of a group of points.
#[derive(Debug, Clone, Copy)]
pub struct GroupStats<T: DataPoint> {
    /// Number of points.
    pub count: usize,
    /// Smallest X.
    pub min_x: T::X,
    /// Largest X.
    pub max_x: T::X,
    /// Smallest Y.
    pub min_y: T::Y,
    /// Largest Y.
    pub max_y: T::Y,
    /// Mean X.
    pub mean_x: T::X,
    /// Mean Y.
    pub mean_y: T::Y,
    /// First point.
    pub first: T,
    /// Last point.
    pub last: T,
}


/// The number of points per group: enough groups of equal size to reach
/// `target` points, but no fewer points per group than `min_group`.
pub open spec fn group_size_spec(len: int, target: int, min_group: int) -> int {
    let even = (len + target - 1) / target;
    if even < min_group {
        min_group
    } else {
        even
    }
}

/// Where the group starting at `i` ends (exclusive): `size` points on, but
/// not past the end; when the endpoints are kept, a group that would reach
/// the end stops before the last point, which then forms a group of its own.
pub open spec fn group_end(i: int, len: int, size: int, preserve: bool) -> int {
    let end = if i + size < len {
        i + size
    } else {
        len
    };
    if preserve && end == len && i + 1 < len {
        len - 1
    } else {
        end
    }
}

/// The groups, as `(start, end)` index ranges, that cover the points from
/// `i` to `len`, in order.
pub open spec fn groups_from(i: int, len: int, size: int, preserve: bool) -> Seq<(int, int)>
    decreases len - i,
{
    if i >= len || size < 1 {
        Seq::empty()
    } else {
        seq![(i, group_end(i, len, size, preserve))] + groups_from(
            group_end(i, len, size, preserve),
            len,
            size,
            preserve,
        )
    }
}

/// No group boundary computed from `i` on overflows a `usize`.
pub open spec fn groups_fit(i: int, len: int, size: int, preserve: bool) -> bool
    decreases len - i,
{
    if i >= len || size < 1 {
        true
    } else {
        i + size <= usize::MAX && groups_fit(group_end(i, len, size, preserve), len, size, preserve)
    }
}

/// The index the groups start at: the first point is kept on its own when
/// the endpoints are kept.
pub open spec fn first_grouped(config: AggregationConfig) -> int {
    if config.preserve_endpoints {
        1
    } else {
        0
    }
}

/// The groups that aggregating `len` points with `config` combines.
pub open spec fn aggregation_plan(len: int, config: AggregationConfig) -> Seq<(int, int)> {
    groups_from(
        first_grouped(config),
        len,
        group_size_spec(len, config.target_points as int, config.min_group_size as int),
        config.preserve_endpoints,
    )
}

/// Aggregation of `len` points with `config` computes its groups without
/// overflow.
pub open spec fn aggregation_fits(len: int, config: AggregationConfig) -> bool {
    &&& len + config.target_points <= usize::MAX
    &&& groups_fit(
        first_grouped(config),
        len,
        group_size_spec(len, config.target_points as int, config.min_group_size as int),
        config.preserve_endpoints,
    )
}

/// The index ranges of the groups that aggregating `len` points with
/// `config` combines, in order (used when there are more points than the
/// target; fewer are kept as they are); `None` when a group boundary would
/// overflow a `usize`.
pub fn aggregation_groups(len: usize, config: &AggregationConfig) -> (r: Option<Vec<(usize, usize)>>)
    requires
        0 < config.target_points < len,
    ensures
        r is Some <==> aggregation_fits(len as int, *config),
        r matches Some(v) ==> v@.len() == aggregation_plan(len as int, *config).len() && forall|k: int|
            0 <= k < v@.len() ==> (#[trigger] v@[k]).0 == aggregation_plan(len as int, *config)[k].0
                && v@[k].1 == aggregation_plan(len as int, *config)[k].1,
{
    let total = match len.checked_add(config.target_points) {
        Some(t) => t,
        None => {
            return None;
        },
    };
    let even = (total - 1) / config.target_points;
    let size = if even < config.min_group_size {
        config.min_group_size
    } else {
        even
    };
    let preserve = config.preserve_endpoints;
    let ghost plan = aggregation_plan(len as int, *config);
    let ghost first = first_grouped(*config);
    let mut out: Vec<(usize, usize)> = Vec::new();
    let mut i: usize = if preserve {
        1
    } else {
        0
    };
    assert(size >= 1) by (nonlinear_arith)
        requires
            len > config.target_points > 0,
            even == (len + config.target_points - 1) / (config.target_points as int),
            size >= even,
    ;
    while i < len
        invariant
            size >= 1,
            size == group_size_spec(len as int, config.target_points as int, config.min_group_size as int),
            preserve == config.preserve_endpoints,
            len + config.target_points <= usize::MAX,
            first == first_grouped(*config),
            plan == groups_from(first, len as int, size as int, preserve),
            groups_fit(first, len as int, size as int, preserve) <==> groups_fit(i as int, len as int, size as int, preserve),
            plan.len() == out@.len() + groups_from(i as int, len as int, size as int, preserve).len(),
            forall|k: int|
                0 <= k < out@.len() ==> (#[trigger] out@[k]).0 == plan[k].0 && out@[k].1 == plan[k].1,
            forall|k: int|
                0 <= k < groups_from(i as int, len as int, size as int, preserve).len() ==> plan[out@.len()
                    + k] == #[trigger] groups_from(i as int, len as int, size as int, preserve)[k],
        decreases len - i,
    {
        let ghost rest = groups_from(i as int, len as int, size as int, preserve);
        let ghost e = group_end(i as int, len as int, size as int, preserve);
        let ghost tail = groups_from(e, len as int, size as int, preserve);
        assert(rest == seq![(i as int, e)] + tail);
        let reach = match i.checked_add(size) {
            Some(v) => v,
            None => {
                return None;
            },
        };
        let mut end = if reach < len {
            reach
        } else {
            len
        };
        if preserve && end == len && i + 1 < len {
            end = len - 1;
        }
        assert(end == e);
        assert(plan[out@.len() as int] == rest[0]);
        assert forall|k: int| 0 <= k < tail.len() implies plan[out@.len() + 1 + k] == #[trigger] tail[k] by {
            assert(rest[k + 1] == tail[k]);
        }
        out.push((i, end));
        i = end;
    }
    assert(groups_from(i as int, len as int, size as int, preserve).len() == 0);
    Some(out)
}

/// Law: the groups of an aggregation tile the grouped points: each holds at
/// least one point, each starts where the one before ended, the first
/// starts at `first_grouped`, the last ends at the last point, and none
/// holds more than the group size.
pub proof fn law_groups_tile(i: int, len: int, size: int, preserve: bool)
    requires
        0 <= i < len,
        size >= 1,
    ensures
        ({
            let g = groups_from(i, len, size, preserve);
            &&& g.len() > 0
            &&& g[0].0 == i
            &&& g[g.len() - 1].1 == len
            &&& forall|k: int| 0 <= k < g.len() ==> #[trigger] g[k].0 < g[k].1 <= g[k].0 + size
            &&& forall|k: int| 0 < k < g.len() ==> #[trigger] g[k].0 == g[k - 1].1
        }),
    decreases len - i,
{
    let e = group_end(i, len, size, preserve);
    let g = groups_from(i, len, size, preserve);
    let tail = groups_from(e, len, size, preserve);
    assert(g == seq![(i, e)] + tail);
    if e < len {
        law_groups_tile(e, len, size, preserve);
        assert forall|k: int| 0 < k < g.len() implies #[trigger] g[k].0 == g[k - 1].1 by {
            if k > 1 {
                assert(g[k] == tail[k - 1]);
                assert(g[k - 1] == tail[k - 2]);
            }
        }
        assert forall|k: int| 0 <= k < g.len() implies #[trigger] g[k].0 < g[k].1 <= g[k].0 + size by {
            if k > 0 {
                assert(g[k] == tail[k - 1]);
            }
        }
    } else {
        assert(tail.len() == 0);
    }
}

/// Law: when the endpoints are kept and there are at least two points, the
/// last point forms a group of its own.
pub proof fn law_last_point_alone(i: int, len: int, size: int)
    requires
        0 <= i < len,
        size >= 1,
    ensures
        ({
            let g = groups_from(i, len, size, true);
            g[g.len() - 1] == (len - 1, len)
        }),
    decreases len - i,
{
    law_groups_tile(i, len, size, true);
    let e = group_end(i, len, size, true);
    let g = groups_from(i, len, size, true);
    let tail = groups_from(e, len, size, true);
    assert(g == seq![(i, e)] + tail);
    if e < len {
        law_last_point_alone(e, len, size);
        assert(g[g.len() - 1] == tail[tail.len() - 1]);
    } else {
        assert(tail.len() == 0);
    }
}

} // verus!
