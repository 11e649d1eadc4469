//! Settings of the tick generators.
use crate::error::{decimal, push_decimal};
use vstd::prelude::*;

verus! {

/// `v` limited to the range `lo..=hi`.
pub open spec fn clamp_spec(v: int, lo: int, hi: int) -> int {
    if v < lo {
        lo
    } else if v > hi {
        hi
    } else {
        v
    }
}

fn clamp_usize(v: usize, lo: usize, hi: usize) -> (r: usize)
    requires
        lo <= hi,
    ensures
        r == clamp_spec(v as int, lo as int, hi as int),
{
    if v < lo {
        lo
    } else if v > hi {
        hi
    } else {
        v
    }
}

/// Settings of a generator of evenly spaced ticks.
#[derive(Debug, Clone)]
pub struct LinearTickGenerator {
    preferred_count: usize,
    include_minor_ticks: bool,
    minor_tick_ratio: usize,
}

impl LinearTickGenerator {
    /// The preferred number of major ticks.
    pub closed spec fn preferred_spec(&self) -> usize {
        self.preferred_count
    }

    /// Whether minor ticks are generated.
    pub closed spec fn minor_spec(&self) -> bool {
        self.include_minor_ticks
    }

    /// The number of minor ticks between two major ticks.
    pub closed spec fn ratio_spec(&self) -> usize {
        self.minor_tick_ratio
    }

    /// A generator for about `preferred_count` ticks (limited to 2..=20),
    /// without minor ticks.
    pub fn new(preferred_count: usize) -> (r: Self)
        ensures
            r.preferred_spec() == clamp_spec(preferred_count as int, 2, 20),
            !r.minor_spec(),
            r.ratio_spec() == 4,
    {
        LinearTickGenerator {
            preferred_count: clamp_usize(preferred_count, 2, 20),
            include_minor_ticks: false,
            minor_tick_ratio: 4,
        }
    }

    /// Turns minor ticks on, `ratio` (limited to 1..=10) between major ticks.
    pub fn with_minor_ticks(self, ratio: usize) -> (r: Self)
        ensures
            r.preferred_spec() == self.preferred_spec(),
            r.minor_spec(),
            r.ratio_spec() == clamp_spec(ratio as int, 1, 10),
    {
        LinearTickGenerator {
            preferred_count: self.preferred_count,
            include_minor_ticks: true,
            minor_tick_ratio: clamp_usize(ratio, 1, 10),
        }
    }

    /// Turns minor ticks off.
    pub fn without_minor_ticks(self) -> (r: Self)
        ensures
            r.preferred_spec() == self.preferred_spec(),
            !r.minor_spec(),
            r.ratio_spec() == self.ratio_spec(),
    {
        LinearTickGenerator {
            preferred_count: self.preferred_count,
            include_minor_ticks: false,
            minor_tick_ratio: self.minor_tick_ratio,
        }
    }

    /// The preferred number of major ticks.
    pub fn preferred_tick_count(&self) -> (r: usize)
        ensures
            r == self.preferred_spec(),
    {
        self.preferred_count
    }

    /// Sets the preferred number of major ticks (limited to 2..=20).
    pub fn set_preferred_tick_count(&mut self, count: usize)
        ensures
            final(self).preferred_spec() == clamp_spec(count as int, 2, 20),
            final(self).minor_spec() == old(self).minor_spec(),
            final(self).ratio_spec() == old(self).ratio_spec(),
    {
        self.preferred_count = clamp_usize(count, 2, 20);
    }

    /// Whether minor ticks are generated.
    pub fn includes_minor_ticks(&self) -> (r: bool)
        ensures
            r == self.minor_spec(),
    {
        self.include_minor_ticks
    }

    /// The number of minor ticks between two major ticks.
    pub fn minor_tick_ratio(&self) -> (r: usize)
        ensures
            r == self.ratio_spec(),
    {
        self.minor_tick_ratio
    }
}

/// The longest tick label, in bytes.
pub const MAX_TICK_LABEL_BYTES: usize = 16;

/// The most ticks a generator hands out.
pub const MAX_TICKS: usize = 32;

/// A tick mark on an axis.
#[derive(Debug, Clone, PartialEq)]
pub struct Tick<T> {
    /// The value the tick marks.
    pub value: T,
    /// Whether this is a major tick.
    pub is_major: bool,
    /// The label, if any.
    pub label: Option<String>,
}

/// The label kept for `label`: none when it is longer than 16 bytes.
pub open spec fn tick_label(label: &str) -> Option<Seq<char>> {
    if label.len() <= MAX_TICK_LABEL_BYTES {
        Some(label@)
    } else {
        None
    }
}

/// The view of an optional label.
pub open spec fn label_seq(label: Option<String>) -> Option<Seq<char>> {
    match label {
        Some(s) => Some(s@),
        None => None,
    }
}

fn copy_label(label: &Option<String>) -> (r: Option<String>)
    ensures
        label_seq(r) == label_seq(*label),
{
    match label {
        Some(s) => Some(s.clone()),
        None => None,
    }
}

impl<T: Copy> Tick<T> {
    /// A major tick with a label (dropped if longer than 16 bytes).
    pub fn major(value: T, label: &str) -> (r: Self)
        ensures
            r.value == value,
            r.is_major,
            label_seq(r.label) == tick_label(label),
    {
        let label = if label.len() <= MAX_TICK_LABEL_BYTES {
            Some(label.to_owned())
        } else {
            None
        };
        Tick { value, is_major: true, label }
    }

    /// A minor tick, without label.
    pub fn minor(value: T) -> (r: Self)
        ensures
            r.value == value,
            !r.is_major,
            r.label is None,
    {
        Tick { value, is_major: false, label: None }
    }

    /// A major tick without label.
    pub fn major_unlabeled(value: T) -> (r: Self)
        ensures
            r.value == value,
            r.is_major,
            r.label is None,
    {
        Tick { value, is_major: true, label: None }
    }

    /// A copy of this tick.
    pub fn duplicate(&self) -> (r: Self)
        ensures
            r.value == self.value,
            r.is_major == self.is_major,
            label_seq(r.label) == label_seq(self.label),
    {
        Tick { value: self.value, is_major: self.is_major, label: copy_label(&self.label) }
    }
}

/// The same tick, as far as value, kind and label go.
pub open spec fn same_tick<T>(a: Tick<T>, b: Tick<T>) -> bool {
    a.value == b.value && a.is_major == b.is_major && label_seq(a.label) == label_seq(b.label)
}

/// Ticks placed by hand.
#[derive(Debug, Clone)]
pub struct CustomTickGenerator<T> {
    ticks: Vec<Tick<T>>,
}

impl<T: Copy> CustomTickGenerator<T> {
    /// The ticks, in the order they were added.
    pub closed spec fn ticks_view(&self) -> Seq<Tick<T>> {
        self.ticks@
    }

    /// A generator without ticks.
    pub fn new() -> (r: Self)
        ensures
            r.ticks_view().len() == 0,
    {
        CustomTickGenerator { ticks: Vec::new() }
    }

    /// Adds a labelled major tick, unless 32 ticks are already set.
    pub fn add_major_tick(self, value: T, label: &str) -> (r: Self)
        ensures
            self.ticks_view().len() >= MAX_TICKS ==> r.ticks_view() == self.ticks_view(),
            self.ticks_view().len() < MAX_TICKS ==> r.ticks_view().len() == self.ticks_view().len() + 1
                && r.ticks_view().drop_last() == self.ticks_view() && ({
                let t = r.ticks_view().last();
                t.value == value && t.is_major && label_seq(t.label) == tick_label(label)
            }),
    {
        let mut g = self;
        if g.ticks.len() < MAX_TICKS {
            g.ticks.push(Tick::major(value, label));
            assert(g.ticks@.drop_last() =~= self.ticks@);
        }
        g
    }

    /// Adds a minor tick, unless 32 ticks are already set.
    pub fn add_minor_tick(self, value: T) -> (r: Self)
        ensures
            self.ticks_view().len() >= MAX_TICKS ==> r.ticks_view() == self.ticks_view(),
            self.ticks_view().len() < MAX_TICKS ==> r.ticks_view().len() == self.ticks_view().len() + 1
                && r.ticks_view().drop_last() == self.ticks_view() && ({
                let t = r.ticks_view().last();
                t.value == value && !t.is_major && t.label is None
            }),
    {
        let mut g = self;
        if g.ticks.len() < MAX_TICKS {
            g.ticks.push(Tick::minor(value));
            assert(g.ticks@.drop_last() =~= self.ticks@);
        }
        g
    }

    /// Removes every tick.
    pub fn clear(&mut self)
        ensures
            final(self).ticks_view().len() == 0,
    {
        self.ticks.clear();
    }

    /// The number of ticks set.
    pub fn preferred_tick_count(&self) -> (r: usize)
        ensures
            r == self.ticks_view().len(),
    {
        self.ticks.len()
    }
}

/// The ticks of `ticks` whose values lie in `min..=max`, in order, at most
/// `cap` of them.
pub open spec fn ticks_in_range(ticks: Seq<Tick<i32>>, min: i32, max: i32, cap: nat) -> Seq<Tick<i32>>
    decreases ticks.len(),
{
    if ticks.len() == 0 {
        Seq::empty()
    } else {
        let before = ticks_in_range(ticks.drop_last(), min, max, cap);
        let t = ticks.last();
        if min <= t.value <= max && before.len() < cap {
            before.push(t)
        } else {
            before
        }
    }
}

impl CustomTickGenerator<i32> {
    /// The ticks whose values lie in `min..=max`, in the order they were
    /// added, at most `min(max_ticks, 32)` of them.
    pub fn generate_ticks(&self, min: i32, max: i32, max_ticks: usize) -> (r: Vec<Tick<i32>>)
        ensures
            r@.len() == ticks_in_range(
                self.ticks_view(),
                min,
                max,
                clamp_spec(max_ticks as int, 0, MAX_TICKS as int) as nat,
            ).len(),
            forall|i: int|
                0 <= i < r@.len() ==> same_tick(
                    #[trigger] r@[i],
                    ticks_in_range(
                        self.ticks_view(),
                        min,
                        max,
                        clamp_spec(max_ticks as int, 0, MAX_TICKS as int) as nat,
                    )[i],
                ),
    {
        let cap: usize = if max_ticks < MAX_TICKS {
            max_ticks
        } else {
            MAX_TICKS
        };
        let ghost capn = clamp_spec(max_ticks as int, 0, MAX_TICKS as int) as nat;
        let mut result: Vec<Tick<i32>> = Vec::new();
        let mut i: usize = 0;
        while i < self.ticks.len()
            invariant
                i <= self.ticks@.len(),
                cap == capn,
                result@.len() == ticks_in_range(self.ticks@.subrange(0, i as int), min, max, capn).len(),
                forall|k: int|
                    0 <= k < result@.len() ==> same_tick(
                        #[trigger] result@[k],
                        ticks_in_range(self.ticks@.subrange(0, i as int), min, max, capn)[k],
                    ),
            decreases self.ticks@.len() - i,
        {
            let ghost sub = self.ticks@.subrange(0, i + 1);
            assert(sub.drop_last() =~= self.ticks@.subrange(0, i as int));
            let t = &self.ticks[i];
            if t.value >= min && t.value <= max && result.len() < cap {
                result.push(t.duplicate());
            }
            i = i + 1;
        }
        assert(self.ticks@.subrange(0, self.ticks@.len() as int) =~= self.ticks@);
        result
    }
}


/// The decimal text of an integer axis value: a minus sign for negative
/// values, then the digits of its magnitude without leading zeros.
pub open spec fn signed_decimal(value: int) -> Seq<char> {
    if value < 0 {
        seq!['-'] + decimal((-value) as nat)
    } else {
        decimal(value as nat)
    }
}

/// Formats an integer axis value as decimal text (`i32::MIN`, whose
/// magnitude has no `i32`, is outside the domain).
pub fn format_i32(value: i32) -> (r: String)
    requires
        value > i32::MIN,
    ensures
        r@ == signed_decimal(value as int),
{
    let mut out = String::new();
    if value < 0 {
        proof {
            reveal_strlit("-");
        }
        out.append("-");
        let magnitude: i32 = -value;
        push_decimal(&mut out, magnitude as usize);
    } else {
        push_decimal(&mut out, value as usize);
    }
    out
}

} // verus!
