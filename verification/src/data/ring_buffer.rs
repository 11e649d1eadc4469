//! A fixed-capacity ring buffer for streaming data.
//!
//! The buffer keeps the most recent values in the order they arrived; when it
//! is full a new value either replaces the oldest one or is refused, depending
//! on the overflow mode.  Notifications are queued as events for the owner of
//! the buffer to deliver.
use crate::error::{ChartError, ChartResult, DataError, DataErrorKind};
use vstd::prelude::*;

verus! {

/// What happens to a value pushed into a full buffer.
#[derive(Debug, Clone, Copy, PartialEq, Eq, Structural)]
pub enum OverflowMode {
    /// Replace the oldest value (default).
    Overwrite,
    /// Refuse the new value.
    Reject,
    /// Announce the overwrite with an event, then replace the oldest value.
    Callback,
}

/// Notifications raised by the buffer.
#[derive(Debug, Clone, Copy, PartialEq, Eq, Structural)]
pub enum RingBufferEvent {
    /// Data was added to an empty buffer.
    DataAdded,
    /// A value was overwritten because the buffer was full.
    DataOverwritten,
    /// The buffer is full.
    BufferFull,
    /// The buffer became empty.
    BufferEmpty,
    /// The tracked bounds changed.
    BoundsChanged,
}

/// Behaviour of a ring buffer.
#[derive(Debug, Clone, Copy)]
pub struct RingBufferConfig {
    /// Behaviour when the buffer is full.
    pub overflow_mode: OverflowMode,
    /// Whether events are raised.
    pub enable_events: bool,
    /// Whether to reserve the full capacity up front.
    pub preallocate: bool,
    /// Whether the owner tracks the bounds of the values.
    pub track_bounds: bool,
}

impl RingBufferConfig {
    /// The default configuration: overwrite, no events, no preallocation,
    /// bounds tracked.
    pub open spec fn default_spec() -> RingBufferConfig {
        RingBufferConfig {
            overflow_mode: OverflowMode::Overwrite,
            enable_events: false,
            preallocate: false,
            track_bounds: true,
        }
    }
}

impl Default for RingBufferConfig {
    fn default() -> (r: Self)
        ensures
            r == RingBufferConfig::default_spec(),
    {
        RingBufferConfig {
            overflow_mode: OverflowMode::Overwrite,
            enable_events: false,
            preallocate: false,
            track_bounds: true,
        }
    }
}

/// Counters kept by a ring buffer.
#[derive(Debug, Clone, Copy)]
pub struct RingBufferStats {
    /// Number of push attempts.
    pub total_writes: u64,
    /// Number of values popped.
    pub total_reads: u64,
    /// Number of values overwritten in `Overwrite` mode.
    pub overflow_count: u64,
    /// Largest number of values held at once.
    pub peak_usage: usize,
}

impl RingBufferStats {
    /// All counters at zero.
    pub open spec fn zero() -> RingBufferStats {
        RingBufferStats { total_writes: 0, total_reads: 0, overflow_count: 0, peak_usage: 0 }
    }
}

impl Default for RingBufferStats {
    fn default() -> (r: Self)
        ensures
            r == RingBufferStats::zero(),
    {
        RingBufferStats { total_writes: 0, total_reads: 0, overflow_count: 0, peak_usage: 0 }
    }
}

/// The contents after pushing `v` into a buffer of capacity `n` holding `s`
/// when the new value is not refused.
pub open spec fn slide<T>(s: Seq<T>, v: T, n: nat) -> Seq<T> {
    if s.len() < n {
        s.push(v)
    } else {
        s.drop_first().push(v)
    }
}

/// The contents after pushing every value of `items`, in order, into a buffer
/// of capacity `n` that overwrites.
pub open spec fn slide_all<T>(s: Seq<T>, items: Seq<T>, n: nat) -> Seq<T>
    decreases items.len(),
{
    if items.len() == 0 {
        s
    } else {
        slide(slide_all(s, items.drop_last(), n), items.last(), n)
    }
}

/// The `n` most recent values of `s`, oldest first.
pub open spec fn latest<T>(s: Seq<T>, n: nat) -> Seq<T> {
    if s.len() <= n {
        s
    } else {
        s.skip(s.len() - n)
    }
}

/// Law: pushing values one by one into an overwriting buffer of capacity
/// `n` leaves the `n` most recent of all the values, oldest first.
pub proof fn law_overwrite_keeps_latest<T>(s: Seq<T>, items: Seq<T>, n: nat)
    requires
        n > 0,
        s.len() <= n,
    ensures
        slide_all(s, items, n) == latest(s + items, n),
    decreases items.len(),
{
    if items.len() == 0 {
        assert(s + items =~= s);
    } else {
        let rest = items.drop_last();
        law_overwrite_keeps_latest(s, rest, n);
        let all = s + items;
        let before = s + rest;
        assert(all =~= before.push(items.last()));
        let prev = latest(before, n);
        if before.len() < n {
            assert(slide(prev, items.last(), n) =~= latest(all, n));
        } else {
            let m = before.len();
            assert(prev.drop_first().push(items.last()) =~= all.skip(m + 1 - n));
        }
    }
}

/// Law: values leave the buffer in the order they arrived.  A push into a
/// buffer that is not full keeps the values already there first, in their
/// order, and puts the new value last; into an empty buffer, the next pop
/// gives back the value just pushed; a push into a full overwriting buffer
/// drops only the oldest value.
pub proof fn law_first_in_first_out<T>(s: Seq<T>, v: T, n: nat)
    requires
        s.len() <= n,
        n > 0,
    ensures
        s.len() < n ==> slide(s, v, n).subrange(0, s.len() as int) == s,
        s.len() < n ==> slide(s, v, n).last() == v && slide(s, v, n).len() == s.len() + 1,
        s.len() == 0 ==> slide(s, v, n)[0] == v,
        s.len() == n ==> slide(s, v, n) == s.drop_first().push(v),
{
    if s.len() < n {
        assert(s.push(v).subrange(0, s.len() as int) =~= s);
    }
}

/// The events raised by an accepted push.
pub open spec fn push_events(
    announce_overwrite: bool,
    was_empty: bool,
    now_full: bool,
) -> Seq<RingBufferEvent> {
    (if announce_overwrite {
        seq![RingBufferEvent::DataOverwritten]
    } else {
        Seq::empty()
    }) + (if was_empty {
        seq![RingBufferEvent::DataAdded]
    } else {
        Seq::empty()
    }) + (if now_full {
        seq![RingBufferEvent::BufferFull]
    } else {
        Seq::empty()
    })
}

/// The contents, pending events and counters of a buffer of capacity `n`
/// with settings `config` after one push of `v`, starting from contents `s`,
/// events `ev` and counters `st`.
pub open spec fn push_outcome<T>(
    s: Seq<T>,
    ev: Seq<RingBufferEvent>,
    st: RingBufferStats,
    v: T,
    config: RingBufferConfig,
    n: nat,
) -> (Seq<T>, Seq<RingBufferEvent>, RingBufferStats) {
    let full = s.len() >= n;
    if full && config.overflow_mode == OverflowMode::Reject {
        (s, ev, RingBufferStats { total_writes: (st.total_writes + 1) as u64, ..st })
    } else {
        let t = slide(s, v, n);
        let added = push_events(
            full && config.overflow_mode == OverflowMode::Callback,
            s.len() == 0,
            t.len() >= n,
        );
        (
            t,
            if config.enable_events {
                ev + added
            } else {
                ev
            },
            RingBufferStats {
                total_writes: (st.total_writes + 1) as u64,
                total_reads: st.total_reads,
                overflow_count: (st.overflow_count + if full && config.overflow_mode
                    == OverflowMode::Overwrite {
                    1int
                } else {
                    0int
                }) as u64,
                peak_usage: if t.len() > st.peak_usage {
                    t.len() as usize
                } else {
                    st.peak_usage
                },
            },
        )
    }
}

/// The outcome of pushing `items` one by one, as `push_outcome` gives it;
/// the last component tells whether a push was refused in `Reject` mode,
/// after which the rest of the items are not pushed.
pub open spec fn extend_outcome<T>(
    s: Seq<T>,
    ev: Seq<RingBufferEvent>,
    st: RingBufferStats,
    items: Seq<T>,
    config: RingBufferConfig,
    n: nat,
) -> (Seq<T>, Seq<RingBufferEvent>, RingBufferStats, bool)
    decreases items.len(),
{
    if items.len() == 0 {
        (s, ev, st, false)
    } else {
        let prev = extend_outcome(s, ev, st, items.drop_last(), config, n);
        if prev.3 {
            prev
        } else {
            let o = push_outcome(prev.0, prev.1, prev.2, items.last(), config, n);
            (o.0, o.1, o.2, prev.0.len() >= n && config.overflow_mode == OverflowMode::Reject)
        }
    }
}

/// Once a push has been refused, pushing more items changes nothing.
proof fn lemma_stopped_stays<T>(
    s: Seq<T>,
    ev: Seq<RingBufferEvent>,
    st: RingBufferStats,
    items: Seq<T>,
    k: int,
    config: RingBufferConfig,
    n: nat,
)
    requires
        0 <= k <= items.len(),
        extend_outcome(s, ev, st, items.take(k), config, n).3,
    ensures
        extend_outcome(s, ev, st, items, config, n) == extend_outcome(s, ev, st, items.take(k), config, n),
    decreases items.len() - k,
{
    if k < items.len() {
        let next = items.take(k + 1);
        assert(next.drop_last() =~= items.take(k));
        lemma_stopped_stays(s, ev, st, items, k + 1, config, n);
    } else {
        assert(items.take(k) =~= items);
    }
}

/// A ring buffer of at most `N` values.
pub struct RingBuffer<T: Copy, const N: usize> {
    data: Vec<T>,
    write_pos: usize,
    config: RingBufferConfig,
    events: Vec<RingBufferEvent>,
    stats: RingBufferStats,
}

impl<T: Copy, const N: usize> View for RingBuffer<T, N> {
    type V = Seq<T>;

    /// The values, oldest first.
    open spec fn view(&self) -> Seq<T> {
        self.contents()
    }
}

impl<T: Copy, const N: usize> RingBuffer<T, N> {
    /// The values, oldest first.
    pub closed spec fn contents(&self) -> Seq<T> {
        if self.data@.len() < N {
            self.data@
        } else {
            self.data@.subrange(self.write_pos as int, self.data@.len() as int) + self.data@.subrange(
                0,
                self.write_pos as int,
            )
        }
    }

    /// The values in storage order, which is the arrival order rotated by the
    /// number of overwrites.
    pub closed spec fn storage(&self) -> Seq<T> {
        self.data@
    }

    /// The position the next overwrite goes to.
    pub closed spec fn write_position(&self) -> int {
        self.write_pos as int
    }

    /// The configuration.
    pub closed spec fn config_spec(&self) -> RingBufferConfig {
        self.config
    }

    /// The events raised and not taken yet.
    pub closed spec fn pending_events(&self) -> Seq<RingBufferEvent> {
        self.events@
    }

    /// The counters.
    pub closed spec fn stats_spec(&self) -> RingBufferStats {
        self.stats
    }

    /// Internal invariant: at most `N` values, and the values are stored in
    /// arrival order unless the buffer is full.
    pub closed spec fn wf(&self) -> bool {
        &&& self.data@.len() <= N
        &&& (self.write_pos == 0 || (self.data@.len() == N && self.write_pos < N))
    }

    /// `events` with `added` appended when events are enabled.
    pub open spec fn events_after(&self, added: Seq<RingBufferEvent>) -> Seq<RingBufferEvent> {
        if self.config_spec().enable_events {
            self.pending_events() + added
        } else {
            self.pending_events()
        }
    }

    proof fn lemma_contents_len(&self)
        requires
            self.wf(),
        ensures
            self.contents().len() == self.data@.len(),
            self.contents().len() <= N,
    {
    }

    /// Creates an empty buffer with the default configuration.
    pub fn new() -> (r: Self)
        ensures
            r.wf(),
            r@ == Seq::<T>::empty(),
            r.config_spec() == RingBufferConfig::default_spec(),
            r.pending_events() == Seq::<RingBufferEvent>::empty(),
            r.stats_spec() == RingBufferStats::zero(),
    {
        Self::with_config(RingBufferConfig::default())
    }

    /// Creates an empty buffer with the given configuration.
    pub fn with_config(config: RingBufferConfig) -> (r: Self)
        ensures
            r.wf(),
            r@ == Seq::<T>::empty(),
            r.config_spec() == config,
            r.pending_events() == Seq::<RingBufferEvent>::empty(),
            r.stats_spec() == RingBufferStats::zero(),
    {
        let data: Vec<T> = if config.preallocate {
            Vec::with_capacity(N)
        } else {
            Vec::new()
        };
        RingBuffer {
            data,
            write_pos: 0,
            config,
            events: Vec::new(),
            stats: RingBufferStats::default(),
        }
    }

    fn raise(&mut self, event: RingBufferEvent)
        ensures
            final(self).data@ == old(self).data@,
            final(self).write_pos == old(self).write_pos,
            final(self).config == old(self).config,
            final(self).stats == old(self).stats,
            final(self).events@ == if old(self).config.enable_events {
                old(self).events@.push(event)
            } else {
                old(self).events@
            },
    {
        if self.config.enable_events {
            self.events.push(event);
        }
    }

    /// Pushes a value.
    ///
    /// When the buffer is full, `Reject` mode refuses the value with
    /// `BufferFull`; the other modes replace the oldest value, `Overwrite`
    /// counting it and `Callback` announcing it with `DataOverwritten`.  Every
    /// attempt is counted in `total_writes`.
    pub fn push(&mut self, value: T) -> (r: ChartResult<()>)
        requires
            old(self).wf(),
            N > 0 || old(self).config_spec().overflow_mode == OverflowMode::Reject,
            old(self).stats_spec().total_writes < u64::MAX,
            old(self).stats_spec().overflow_count < u64::MAX,
        ensures
            final(self).wf(),
            final(self).config_spec() == old(self).config_spec(),
            final(self).stats_spec().total_writes == old(self).stats_spec().total_writes + 1,
            final(self).stats_spec().total_reads == old(self).stats_spec().total_reads,
            final(self).stats_spec().overflow_count == old(self).stats_spec().overflow_count + (
            if old(self)@.len() >= N && old(self).config_spec().overflow_mode
                == OverflowMode::Overwrite {
                1int
            } else {
                0int
            }),
            old(self)@.len() >= N && old(self).config_spec().overflow_mode == OverflowMode::Reject
                ==> (r matches Err(ChartError::DataError(e)) && e.is_simple(
                DataErrorKind::BufferFull,
            )) && final(self)@ == old(self)@ && final(self).pending_events() == old(self).pending_events() && final(self).stats_spec().peak_usage == old(self).stats_spec().peak_usage,
            !(old(self)@.len() >= N && old(self).config_spec().overflow_mode
                == OverflowMode::Reject) ==> r is Ok && final(self)@ == slide(
                old(self)@,
                value,
                N as nat,
            ) && final(self).pending_events() == old(self).events_after(
                push_events(
                    old(self)@.len() >= N && old(self).config_spec().overflow_mode
                        == OverflowMode::Callback,
                    old(self)@.len() == 0,
                    final(self)@.len() >= N,
                ),
            ) && final(self).stats_spec().peak_usage == (if final(self)@.len() > old(self).stats_spec().peak_usage {
                final(self)@.len() as int
            } else {
                old(self).stats_spec().peak_usage as int
            }),
    {
        proof {
            self.lemma_contents_len();
        }
        let ghost before = self.contents();
        let ghost events_before = self.events@;
        self.stats.total_writes = self.stats.total_writes + 1;
        let full = self.data.len() >= N;
        if full {
            match self.config.overflow_mode {
                OverflowMode::Reject => {
                    return Err(ChartError::DataError(DataError::simple(DataErrorKind::BufferFull)));
                },
                OverflowMode::Callback => {
                    self.raise(RingBufferEvent::DataOverwritten);
                },
                OverflowMode::Overwrite => {
                    self.stats.overflow_count = self.stats.overflow_count + 1;
                },
            }
        }
        let ghost events_mid = self.events@;
        let was_empty = self.data.len() == 0;
        if self.data.len() < N {
            self.data.push(value);
            proof {
                assert(self.contents() =~= before.push(value));
            }
        } else {
            let ghost d = self.data@;
            let oldest = self.write_pos;
            self.data.set(oldest, value);
            self.write_pos = if self.write_pos + 1 < N {
                self.write_pos + 1
            } else {
                0
            };
            proof {
                let n = N as int;
                let w = oldest as int;
                assert(before =~= d.subrange(w, n) + d.subrange(0, w));
                if w + 1 < n {
                    assert(self.contents() =~= d.subrange(w + 1, n) + d.subrange(0, w).push(value));
                    assert(before.drop_first() =~= d.subrange(w + 1, n) + d.subrange(0, w));
                } else {
                    assert(self.contents() =~= d.subrange(0, w).push(value));
                    assert(before.drop_first() =~= d.subrange(0, w));
                }
                assert(self.contents() =~= before.drop_first().push(value));
            }
        }
        if self.data.len() > self.stats.peak_usage {
            self.stats.peak_usage = self.data.len();
        }
        if was_empty {
            self.raise(RingBufferEvent::DataAdded);
        }
        if self.data.len() >= N {
            self.raise(RingBufferEvent::BufferFull);
        }
        proof {
            self.lemma_contents_len();
            let announce = full && old(self).config.overflow_mode == OverflowMode::Callback;
            let added = push_events(announce, was_empty, self.data@.len() >= N);
            if old(self).config.enable_events {
                assert(self.events@ =~= events_before + added);
            } else {
                assert(self.events@ =~= events_before);
            }
        }
        Ok(())
    }

    /// Pushes every value in order and returns how many were accepted; in
    /// `Reject` mode it stops at the first refused value.
    pub fn extend(&mut self, items: &[T]) -> (r: ChartResult<usize>)
        requires
            old(self).wf(),
            N > 0 || old(self).config_spec().overflow_mode == OverflowMode::Reject,
            old(self).stats_spec().total_writes + items@.len() < u64::MAX,
            old(self).stats_spec().overflow_count + items@.len() < u64::MAX,
        ensures
            final(self).wf(),
            final(self).config_spec() == old(self).config_spec(),
            old(self).config_spec().overflow_mode == OverflowMode::Reject ==> ({
                let accepted = if old(self)@.len() + items@.len() <= N {
                    items@.len() as int
                } else {
                    N - old(self)@.len()
                };
                &&& r == Ok::<usize, ChartError>(accepted as usize)
                &&& final(self)@ == old(self)@ + items@.subrange(0, accepted)
            }),
            old(self).config_spec().overflow_mode != OverflowMode::Reject ==> r == Ok::<
                usize,
                ChartError,
            >(items@.len() as usize) && final(self)@ == slide_all(old(self)@, items@, N as nat),
            ({
                let o = extend_outcome(
                    old(self)@,
                    old(self).pending_events(),
                    old(self).stats_spec(),
                    items@,
                    old(self).config_spec(),
                    N as nat,
                );
                &&& final(self).pending_events() == o.1
                &&& final(self).stats_spec() == o.2
            }),
    {
        proof {
            self.lemma_contents_len();
        }
        let mut count: usize = 0;
        let mut i: usize = 0;
        while i < items.len()
            invariant
                0 <= i <= items@.len(),
                self.wf(),
                self.config == old(self).config,
                N > 0 || self.config.overflow_mode == OverflowMode::Reject,
                self.stats.total_writes + (items@.len() - i) < u64::MAX,
                self.stats.overflow_count + (items@.len() - i) < u64::MAX,
                self.config.overflow_mode == OverflowMode::Reject ==> count == i && old(self)@.len()
                    + i <= N && self@ == old(self)@ + items@.subrange(0, i as int),
                self.config.overflow_mode != OverflowMode::Reject ==> count == i && self@
                    == slide_all(old(self)@, items@.subrange(0, i as int), N as nat),
                extend_outcome(
                    old(self)@,
                    old(self).pending_events(),
                    old(self).stats_spec(),
                    items@.take(i as int),
                    old(self).config_spec(),
                    N as nat,
                ) == (self@, self.pending_events(), self.stats_spec(), false),
            decreases items@.len() - i,
        {
            let ghost prev = self@;
            proof {
                let t = items@.take(i + 1);
                assert(t.drop_last() =~= items@.take(i as int));
                assert(t.last() == items@[i as int]);
            }
            let pushed = self.push(items[i]);
            proof {
                self.lemma_contents_len();
            }
            match pushed {
                Ok(()) => {
                    count = count + 1;
                },
                Err(_) => {
                    if self.config.overflow_mode == OverflowMode::Reject {
                        assert(old(self)@.len() + i == N);
                        proof {
                            lemma_stopped_stays(
                                old(self)@,
                                old(self).pending_events(),
                                old(self).stats_spec(),
                                items@,
                                i + 1,
                                old(self).config_spec(),
                                N as nat,
                            );
                        }
                        return Ok(count);
                    }
                },
            }
            proof {
                let sub = items@.subrange(0, i + 1);
                assert(sub.drop_last() =~= items@.subrange(0, i as int));
                assert(sub.last() == items@[i as int]);
                assert(items@.subrange(0, i + 1) =~= items@.subrange(0, i as int).push(
                    items@[i as int],
                ));
            }
            i = i + 1;
        }
        assert(items@.subrange(0, items@.len() as int) =~= items@);
        assert(items@.take(items@.len() as int) =~= items@);
        Ok(count)
    }

    /// Removes and returns the oldest value, if any.
    pub fn pop(&mut self) -> (r: Option<T>)
        requires
            old(self).wf(),
            old(self).stats_spec().total_reads < u64::MAX,
        ensures
            final(self).wf(),
            final(self).config_spec() == old(self).config_spec(),
            old(self)@.len() == 0 ==> r is None && final(self)@ == old(self)@ && final(self).pending_events() == old(self).pending_events() && final(self).stats_spec() == old(self).stats_spec(),
            old(self)@.len() > 0 ==> r == Some(old(self)@[0]) && final(self)@ == old(self)@.drop_first() && final(self).stats_spec() == (RingBufferStats {
                total_reads: (old(self).stats_spec().total_reads + 1) as u64,
                ..old(self).stats_spec()
            }) && final(self).pending_events() == old(self).events_after(
                if old(self)@.len() == 1 {
                    seq![RingBufferEvent::BufferEmpty]
                } else {
                    Seq::empty()
                },
            ),
    {
        proof {
            self.lemma_contents_len();
        }
        if self.data.len() == 0 {
            return None;
        }
        let ghost before = self.contents();
        let ghost events_before = self.events@;
        self.stats.total_reads = self.stats.total_reads + 1;
        let value;
        if self.write_pos == 0 {
            value = self.data.remove(0);
            proof {
                assert(self.data@.len() < N);
                assert(before =~= old(self).data@);
                assert(self.contents() =~= before.drop_first());
            }
        } else {
            let d = &self.data;
            let w = self.write_pos;
            value = d[w];
            let mut rest: Vec<T> = Vec::new();
            let mut k: usize = w + 1;
            while k < d.len()
                invariant
                    w + 1 <= k <= d@.len(),
                    rest@ == d@.subrange(w + 1, k as int),
                decreases d@.len() - k,
            {
                rest.push(d[k]);
                assert(d@.subrange(w + 1, k + 1) =~= d@.subrange(w + 1, k as int).push(
                    d@[k as int],
                ));
                k = k + 1;
            }
            let mut m: usize = 0;
            while m < w
                invariant
                    0 <= m <= w < d@.len(),
                    rest@ == d@.subrange(w + 1, d@.len() as int) + d@.subrange(0, m as int),
                decreases w - m,
            {
                rest.push(d[m]);
                assert(d@.subrange(0, m + 1) =~= d@.subrange(0, m as int).push(d@[m as int]));
                m = m + 1;
            }
            proof {
                assert(before =~= d@.subrange(w as int, d@.len() as int) + d@.subrange(
                    0,
                    w as int,
                ));
                assert(before.drop_first() =~= rest@);
            }
            self.data = rest;
            self.write_pos = 0;
        }
        if self.data.len() == 0 {
            self.raise(RingBufferEvent::BufferEmpty);
        }
        proof {
            if old(self).config.enable_events {
                if old(self).data@.len() == 1 {
                    assert(self.events@ =~= events_before + seq![RingBufferEvent::BufferEmpty]);
                } else {
                    assert(self.events@ =~= events_before + Seq::<RingBufferEvent>::empty());
                }
            }
        }
        Some(value)
    }

    /// The oldest value, if any.
    pub fn peek(&self) -> (r: Option<&T>)
        requires
            self.wf(),
        ensures
            self@.len() == 0 ==> r is None,
            self@.len() > 0 ==> r == Some(&self@[0]),
    {
        if self.data.len() == 0 {
            None
        } else {
            Some(&self.data[self.write_pos])
        }
    }

    /// The newest value, if any.
    pub fn peek_newest(&self) -> (r: Option<&T>)
        requires
            self.wf(),
        ensures
            self@.len() == 0 ==> r is None,
            self@.len() > 0 ==> r == Some(&self@.last()),
    {
        let len = self.data.len();
        if len == 0 {
            None
        } else if self.write_pos == 0 {
            Some(&self.data[len - 1])
        } else {
            Some(&self.data[self.write_pos - 1])
        }
    }

    /// The values in storage order.
    pub fn iter(&self) -> (r: &[T])
        ensures
            r@ == self.storage(),
    {
        self.data.as_slice()
    }

    /// The values in arrival order, oldest first.
    pub fn iter_chronological(&self) -> (r: Vec<T>)
        requires
            self.wf(),
        ensures
            r@ == self@,
    {
        self.recent(self.data.len())
    }

    /// Every `factor`-th value in storage order, starting with the first; an
    /// empty buffer gives nothing whatever the factor.
    pub fn downsample(&self, factor: usize) -> (r: Vec<T>)
        requires
            factor > 0 || self.storage().len() == 0,
        ensures
            self.storage().len() == 0 ==> r@.len() == 0,
            factor > 0 ==> r@.len() == (self.storage().len() + factor - 1) / factor as int,
            forall|i: int| 0 <= i < r@.len() ==> #[trigger] r@[i] == self.storage()[i * factor],
    {
        let mut out: Vec<T> = Vec::new();
        let mut i: usize = 0;
        let len = self.data.len();
        if factor == 0 {
            return out;
        }
        proof {
            vstd::arithmetic::div_mod::lemma_fundamental_div_mod_converse(
                factor - 1,
                factor as int,
                0,
                factor - 1,
            );
        }
        while i < len
            invariant
                len == self.data@.len(),
                factor > 0,
                i <= len,
                out@.len() == (i + factor - 1) / factor as int,
                forall|k: int| 0 <= k < out@.len() ==> #[trigger] out@[k] == self.data@[k * factor],
            decreases len - i,
        {
            if i % factor == 0 {
                proof {
                    let q = i as int / factor as int;
                    vstd::arithmetic::div_mod::lemma_fundamental_div_mod(i as int, factor as int);
                    assert(i == factor * q);
                    assert(i == q * factor) by (nonlinear_arith)
                        requires
                            i == factor * q,
                    ;
                    assert((i + factor - 1) / (factor as int) == q) by (nonlinear_arith)
                        requires
                            i == factor * q,
                            factor > 0,
                            q >= 0,
                    {
                        vstd::arithmetic::div_mod::lemma_fundamental_div_mod_converse(
                            i + factor - 1,
                            factor as int,
                            q,
                            factor - 1,
                        );
                    }
                    assert((i + 1 + factor - 1) / factor as int == q + 1) by (nonlinear_arith)
                        requires
                            i == factor * q,
                            factor > 0,
                            q >= 0,
                    {
                        vstd::arithmetic::div_mod::lemma_fundamental_div_mod_converse(
                            i + factor,
                            factor as int,
                            q + 1,
                            0,
                        );
                    }
                }
                out.push(self.data[i]);
            } else {
                proof {
                    let q = i as int / factor as int;
                    let r = i as int % factor as int;
                    vstd::arithmetic::div_mod::lemma_fundamental_div_mod(i as int, factor as int);
                    assert(0 < r < factor);
                    assert((i + factor - 1) / factor as int == q + 1) by (nonlinear_arith)
                        requires
                            i == factor * q + r,
                            0 < r < factor,
                            q >= 0,
                    {
                        vstd::arithmetic::div_mod::lemma_fundamental_div_mod_converse(
                            i + factor - 1,
                            factor as int,
                            q + 1,
                            r - 1,
                        );
                    }
                    assert((i + 1 + factor - 1) / factor as int == q + 1) by (nonlinear_arith)
                        requires
                            i == factor * q + r,
                            0 < r < factor,
                            q >= 0,
                    {
                        vstd::arithmetic::div_mod::lemma_fundamental_div_mod_converse(
                            i + factor,
                            factor as int,
                            q + 1,
                            r,
                        );
                    }
                }
            }
            i = i + 1;
        }
        out
    }

    /// The `n` most recent values (all of them when there are fewer), oldest
    /// first.
    pub fn recent(&self, n: usize) -> (r: Vec<T>)
        requires
            self.wf(),
        ensures
            r@ == self@.subrange(
                self@.len() - (if n < self@.len() {
                    n as int
                } else {
                    self@.len() as int
                }),
                self@.len() as int,
            ),
    {
        proof {
            self.lemma_contents_len();
        }
        let len = self.data.len();
        let take = if n < len {
            n
        } else {
            len
        };
        let start = len - take;
        let ghost c = self.contents();
        let mut out: Vec<T> = Vec::new();
        let mut i: usize = start;
        while i < len
            invariant
                start <= i <= len,
                len == self.data@.len(),
                self.wf(),
                c == self.contents(),
                out@ == c.subrange(start as int, i as int),
            decreases len - i,
        {
            let idx = if self.write_pos == 0 {
                i
            } else if i < len - self.write_pos {
                self.write_pos + i
            } else {
                i - (len - self.write_pos)
            };
            proof {
                if self.write_pos != 0 {
                    let w = self.write_pos as int;
                    let d = self.data@;
                    assert(c =~= d.subrange(w, len as int) + d.subrange(0, w));
                    if i < len - self.write_pos {
                        assert(c[i as int] == d.subrange(w, len as int)[i as int]);
                    } else {
                        assert(c[i as int] == d.subrange(0, w)[i - (len - w)]);
                    }
                }
            }
            out.push(self.data[idx]);
            assert(c.subrange(start as int, i + 1) =~= c.subrange(start as int, i as int).push(
                c[i as int],
            ));
            i = i + 1;
        }
        out
    }

    /// Removes every value and raises `BufferEmpty`.
    pub fn clear(&mut self)
        requires
            old(self).wf(),
        ensures
            final(self).wf(),
            final(self)@ == Seq::<T>::empty(),
            final(self).config_spec() == old(self).config_spec(),
            final(self).stats_spec() == old(self).stats_spec(),
            final(self).pending_events() == old(self).events_after(
                seq![RingBufferEvent::BufferEmpty],
            ),
    {
        self.data.clear();
        self.write_pos = 0;
        self.raise(RingBufferEvent::BufferEmpty);
        proof {
            if self.config.enable_events {
                assert(self.events@ =~= old(self).events@ + seq![RingBufferEvent::BufferEmpty]);
            }
        }
    }

    /// The number of values.
    pub fn len(&self) -> (r: usize)
        requires
            self.wf(),
        ensures
            r == self@.len(),
    {
        proof {
            self.lemma_contents_len();
        }
        self.data.len()
    }

    /// Whether there is no value.
    pub fn is_empty(&self) -> (r: bool)
        requires
            self.wf(),
        ensures
            r == (self@.len() == 0),
    {
        proof {
            self.lemma_contents_len();
        }
        self.data.len() == 0
    }

    /// Whether the buffer holds `N` values.
    pub fn is_full(&self) -> (r: bool)
        requires
            self.wf(),
        ensures
            r == (self@.len() >= N),
    {
        proof {
            self.lemma_contents_len();
        }
        self.data.len() >= N
    }

    /// The capacity `N`.
    pub fn capacity(&self) -> (r: usize)
        ensures
            r == N,
    {
        N
    }

    /// How many more values fit before the buffer is full.
    pub fn remaining_capacity(&self) -> (r: usize)
        requires
            self.wf(),
        ensures
            r == N - self@.len(),
    {
        proof {
            self.lemma_contents_len();
        }
        N - self.data.len()
    }

    /// The counters.
    pub fn stats(&self) -> (r: &RingBufferStats)
        ensures
            *r == self.stats_spec(),
    {
        &self.stats
    }

    /// Sets every counter back to zero.
    pub fn reset_stats(&mut self)
        ensures
            final(self).wf() == old(self).wf(),
            final(self)@ == old(self)@,
            final(self).config_spec() == old(self).config_spec(),
            final(self).pending_events() == old(self).pending_events(),
            final(self).stats_spec() == RingBufferStats::zero(),
    {
        self.stats = RingBufferStats::default();
    }

    /// Hands out the queued events, oldest first, and empties the queue.
    pub fn take_events(&mut self) -> (r: Vec<RingBufferEvent>)
        ensures
            r@ == old(self).pending_events(),
            final(self).pending_events() == Seq::<RingBufferEvent>::empty(),
            final(self).wf() == old(self).wf(),
            final(self)@ == old(self)@,
            final(self).config_spec() == old(self).config_spec(),
            final(self).stats_spec() == old(self).stats_spec(),
    {
        let mut taken: Vec<RingBufferEvent> = Vec::new();
        std::mem::swap(&mut taken, &mut self.events);
        taken
    }

    /// The configuration.
    pub fn config(&self) -> (r: &RingBufferConfig)
        ensures
            *r == self.config_spec(),
    {
        &self.config
    }

    /// Whether events are raised.
    pub fn events_enabled(&self) -> (r: bool)
        ensures
            r == self.config_spec().enable_events,
    {
        self.config.enable_events
    }
}

} // verus!
