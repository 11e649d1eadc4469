//! Animation driven by an external progress value from 0 to 100.
//!
//! The application owns the timeline: it tells an animator how far an
//! animation has progressed, and the animator says which states to blend and
//! by how much.  The blending itself is left to the state type.
use crate::error::{AnimationError, AnimationResult, ChartError, ChartResult, DataError, DataErrorKind};
use crate::data::ring_buffer::slide;
use crate::memory::ManagedSlidingWindow;
use crate::time::{Milliseconds, TimeProvider};
use vstd::prelude::*;

verus! {

/// Animation progress in percent: 0 at the start, 100 at the end.
pub type Progress = u8;

/// The shape of a transition over time.
#[derive(Debug, Clone, Copy, PartialEq, Eq, Structural)]
pub enum EasingFunction {
    /// Constant speed.
    Linear,
    /// Slow start.
    EaseIn,
    /// Slow end.
    EaseOut,
    /// Slow start and slow end.
    EaseInOut,
}

/// A transition between two states with an easing function.
#[derive(Debug, Clone)]
pub struct ChartAnimator<T> {
    from_state: T,
    to_state: T,
    easing: EasingFunction,
}

impl<T: Clone> ChartAnimator<T> {
    /// The starting state.
    pub closed spec fn from_spec(&self) -> T {
        self.from_state
    }

    /// The target state.
    pub closed spec fn to_spec(&self) -> T {
        self.to_state
    }

    /// The easing function.
    pub closed spec fn easing_spec(&self) -> EasingFunction {
        self.easing
    }

    /// Creates an animator from `from` to `to`.
    pub fn new(from: T, to: T, easing: EasingFunction) -> (r: Self)
        ensures
            r.from_spec() == from,
            r.to_spec() == to,
            r.easing_spec() == easing,
    {
        ChartAnimator { from_state: from, to_state: to, easing }
    }

    /// Replaces the target state.
    pub fn set_target(&mut self, new_to: T)
        ensures
            final(self).from_spec() == old(self).from_spec(),
            final(self).to_spec() == new_to,
            final(self).easing_spec() == old(self).easing_spec(),
    {
        self.to_state = new_to;
    }

    /// Replaces both states.
    pub fn set_states(&mut self, new_from: T, new_to: T)
        ensures
            final(self).from_spec() == new_from,
            final(self).to_spec() == new_to,
            final(self).easing_spec() == old(self).easing_spec(),
    {
        self.from_state = new_from;
        self.to_state = new_to;
    }

    /// A copy of the starting state.
    pub fn from_state(&self) -> (r: T)
        ensures
            cloned(self.from_spec(), r),
    {
        self.from_state.clone()
    }

    /// A copy of the target state.
    pub fn to_state(&self) -> (r: T)
        ensures
            cloned(self.to_spec(), r),
    {
        self.to_state.clone()
    }

    /// The easing function.
    pub fn easing(&self) -> (r: EasingFunction)
        ensures
            r == self.easing_spec(),
    {
        self.easing
    }

    /// Replaces the easing function.
    pub fn set_easing(&mut self, easing: EasingFunction)
        ensures
            final(self).from_spec() == old(self).from_spec(),
            final(self).to_spec() == old(self).to_spec(),
            final(self).easing_spec() == easing,
    {
        self.easing = easing;
    }
}

/// Keyframes are in non-decreasing order of progress.
pub open spec fn keyframes_sorted<T>(s: Seq<(Progress, T)>) -> bool {
    forall|i: int, j: int| 0 <= i <= j < s.len() ==> #[trigger] s[i].0 <= #[trigger] s[j].0
}

/// The length of the longest prefix of `s` whose keyframes are at or before
/// `progress`.
pub open spec fn reached_prefix<T>(s: Seq<(Progress, T)>, progress: Progress) -> nat
    decreases s.len(),
{
    if s.len() == 0 {
        0
    } else if s[0].0 <= progress {
        1 + reached_prefix(s.drop_first(), progress)
    } else {
        0
    }
}

/// In sorted keyframes, the reached prefix is exactly the keyframes at or
/// before `progress`.
pub proof fn lemma_reached_prefix<T>(s: Seq<(Progress, T)>, progress: Progress)
    ensures
        reached_prefix(s, progress) <= s.len(),
        forall|i: int| 0 <= i < reached_prefix(s, progress) ==> (#[trigger] s[i]).0 <= progress,
        keyframes_sorted(s) ==> forall|i: int|
            reached_prefix(s, progress) <= i < s.len() ==> (#[trigger] s[i]).0 > progress,
    decreases s.len(),
{
    if s.len() > 0 {
        lemma_reached_prefix(s.drop_first(), progress);
        assert forall|i: int| 0 <= i < reached_prefix(s, progress) implies (
        #[trigger] s[i]).0 <= progress by {
            if i > 0 {
                assert(s[i] == s.drop_first()[i - 1]);
            }
        }
        if keyframes_sorted(s) {
            assert(keyframes_sorted(s.drop_first())) by {
                assert forall|i: int, j: int|
                    0 <= i <= j < s.drop_first().len() implies #[trigger] s.drop_first()[i].0
                    <= #[trigger] s.drop_first()[j].0 by {
                    assert(s.drop_first()[i] == s[i + 1]);
                    assert(s.drop_first()[j] == s[j + 1]);
                }
            }
            assert forall|i: int| reached_prefix(s, progress) <= i < s.len() implies (
            #[trigger] s[i]).0 > progress by {
                if s[0].0 <= progress {
                    assert(s[i] == s.drop_first()[i - 1]);
                } else {
                    assert(s[0].0 <= s[i].0);
                }
            }
        }
    }
}

/// Which keyframes an animation at some progress lies between.
#[derive(Debug, Clone, Copy, PartialEq, Eq, Structural)]
pub enum KeyframeSegment {
    /// There is no keyframe.
    Empty,
    /// The state is that of the keyframe at `index`, unchanged.
    Hold { index: usize },
    /// The state moves from keyframe `from` to keyframe `to`; `elapsed` of
    /// `span` progress units are done, shaped by `easing`.
    Between { from: usize, to: usize, elapsed: Progress, span: Progress, easing: EasingFunction },
}

/// The segment for `progress` in sorted keyframes with their easing functions.
pub open spec fn segment_spec<T>(
    keyframes: Seq<(Progress, T)>,
    easings: Seq<EasingFunction>,
    progress: Progress,
) -> KeyframeSegment {
    let c = reached_prefix(keyframes, progress);
    if keyframes.len() == 0 {
        KeyframeSegment::Empty
    } else if keyframes.len() == 1 || c == 0 {
        KeyframeSegment::Hold { index: 0 }
    } else if c == keyframes.len() {
        KeyframeSegment::Hold { index: (keyframes.len() - 1) as usize }
    } else {
        KeyframeSegment::Between {
            from: (c - 1) as usize,
            to: c as usize,
            elapsed: (progress - keyframes[c - 1].0) as u8,
            span: (keyframes[c as int].0 - keyframes[c - 1].0) as u8,
            easing: easings[c as int],
        }
    }
}

/// An animation through up to `N` keyframes.
#[derive(Debug, Clone)]
pub struct MultiStateAnimator<T, const N: usize> {
    keyframes: Vec<(Progress, T)>,
    easing_functions: Vec<EasingFunction>,
}

impl<T, const N: usize> MultiStateAnimator<T, N> {
    /// The keyframes, in order of progress.
    pub closed spec fn keyframes_view(&self) -> Seq<(Progress, T)> {
        self.keyframes@
    }

    /// The easing functions, one per keyframe and in the same order: each
    /// shapes the transition into its keyframe.
    pub closed spec fn easings_view(&self) -> Seq<EasingFunction> {
        self.easing_functions@
    }

    /// At most `N` keyframes, sorted by progress, one easing per keyframe.
    pub open spec fn wf(&self) -> bool {
        &&& self.keyframes_view().len() <= N
        &&& self.easings_view().len() == self.keyframes_view().len()
        &&& keyframes_sorted(self.keyframes_view())
    }

    /// Creates an animator without keyframes.
    pub fn new() -> (r: Self)
        ensures
            r.wf(),
            r.keyframes_view() == Seq::<(Progress, T)>::empty(),
            r.easings_view() == Seq::<EasingFunction>::empty(),
    {
        MultiStateAnimator { keyframes: Vec::new(), easing_functions: Vec::new() }
    }

    /// Adds a keyframe after every keyframe at or before its progress, with the
    /// easing that shapes the transition into it; fails with `BufferFull` when
    /// `N` keyframes are set.
    pub fn add_keyframe(&mut self, progress: Progress, state: T, easing: EasingFunction) -> (r:
        ChartResult<()>)
        requires
            old(self).wf(),
        ensures
            final(self).wf(),
            old(self).keyframes_view().len() >= N ==> final(self).keyframes_view() == old(
                self).keyframes_view() && final(self).easings_view() == old(self).easings_view()
                && (r matches Err(ChartError::DataError(e)) && e.is_simple(
                DataErrorKind::BufferFull,
            )),
            old(self).keyframes_view().len() < N ==> ({
                let p = reached_prefix(old(self).keyframes_view(), progress) as int;
                &&& r is Ok
                &&& final(self).keyframes_view() == old(self).keyframes_view().take(p).push(
                    (progress, state),
                ) + old(self).keyframes_view().skip(p)
                &&& final(self).easings_view() == old(self).easings_view().take(p).push(easing)
                    + old(self).easings_view().skip(p)
            }),
    {
        if self.keyframes.len() >= N {
            return Err(ChartError::DataError(DataError::simple(DataErrorKind::BufferFull)));
        }
        let ghost s = self.keyframes@;
        let pos = self.reached_count(progress);
        proof {
            lemma_reached_prefix(s, progress);
        }
        let ghost es = self.easing_functions@;
        self.keyframes.insert(pos, (progress, state));
        self.easing_functions.insert(pos, easing);
        proof {
            let t = self.keyframes@;
            let p = pos as int;
            assert(t =~= s.take(p).push((progress, state)) + s.skip(p));
            assert(self.easing_functions@ =~= es.take(p).push(easing) + es.skip(p));
            assert forall|i: int, j: int| 0 <= i <= j < t.len() implies #[trigger] t[i].0
                <= #[trigger] t[j].0 by {
                if j < p {
                    assert(t[i] == s[i] && t[j] == s[j]);
                } else if j == p {
                    if i < p {
                        assert(t[i] == s[i]);
                    }
                } else if i < p {
                    assert(t[i] == s[i] && t[j] == s[j - 1]);
                } else if i == p {
                    assert(t[j] == s[j - 1]);
                } else {
                    assert(t[i] == s[i - 1] && t[j] == s[j - 1]);
                }
            }
        }
        Ok(())
    }

    /// The number of leading keyframes at or before `progress`.
    fn reached_count(&self, progress: Progress) -> (r: usize)
        ensures
            r == reached_prefix(self.keyframes_view(), progress),
    {
        let ghost s = self.keyframes@;
        let mut i: usize = 0;
        proof {
            lemma_reached_prefix(s, progress);
            assert(s.skip(0) =~= s);
        }
        while i < self.keyframes.len() && self.keyframes[i].0 <= progress
            invariant
                0 <= i <= s.len(),
                s == self.keyframes@,
                reached_prefix(s, progress) == i + reached_prefix(s.skip(i as int), progress),
            decreases s.len() - i,
        {
            proof {
                assert(s.skip(i as int)[0] == s[i as int]);
                assert(s.skip(i as int).drop_first() =~= s.skip(i + 1));
            }
            i = i + 1;
        }
        proof {
            if i < s.len() {
                assert(s.skip(i as int)[0] == s[i as int]);
            }
        }
        i
    }

    /// The keyframes to blend between at `progress`, and how far along.
    pub fn segment_at(&self, progress: Progress) -> (r: KeyframeSegment)
        requires
            self.wf(),
        ensures
            r == segment_spec(self.keyframes_view(), self.easings_view(), progress),
    {
        let len = self.keyframes.len();
        if len == 0 {
            return KeyframeSegment::Empty;
        }
        if len == 1 {
            return KeyframeSegment::Hold { index: 0 };
        }
        let c = self.reached_count(progress);
        proof {
            lemma_reached_prefix(self.keyframes@, progress);
        }
        if c == 0 {
            KeyframeSegment::Hold { index: 0 }
        } else if c == len {
            KeyframeSegment::Hold { index: len - 1 }
        } else {
            let from_progress = self.keyframes[c - 1].0;
            let to_progress = self.keyframes[c].0;
            KeyframeSegment::Between {
                from: c - 1,
                to: c,
                elapsed: progress - from_progress,
                span: to_progress - from_progress,
                easing: self.easing_functions[c],
            }
        }
    }

    /// The keyframe at `index`, if there is one.
    pub fn keyframe(&self, index: usize) -> (r: Option<&(Progress, T)>)
        ensures
            index < self.keyframes_view().len() ==> r == Some(&self.keyframes_view()[index as int]),
            index >= self.keyframes_view().len() ==> r is None,
    {
        if index < self.keyframes.len() {
            Some(&self.keyframes[index])
        } else {
            None
        }
    }

    /// The number of keyframes.
    pub fn keyframe_count(&self) -> (r: usize)
        ensures
            r == self.keyframes_view().len(),
    {
        self.keyframes.len()
    }

    /// Removes every keyframe.
    pub fn clear(&mut self)
        ensures
            final(self).wf(),
            final(self).keyframes_view() == Seq::<(Progress, T)>::empty(),
            final(self).easings_view() == Seq::<EasingFunction>::empty(),
    {
        self.keyframes.clear();
        self.easing_functions.clear();
    }
}

impl<T, const N: usize> Default for MultiStateAnimator<T, N> {
    fn default() -> (r: Self)
        ensures
            r.wf(),
            r.keyframes_view() == Seq::<(Progress, T)>::empty(),
    {
        Self::new()
    }
}

/// The capacity of a streaming animator's window.
pub const STREAMING_WINDOW: usize = 100;

/// A sliding window of the latest values of a data stream, with the progress
/// of the transition towards the newest value.
#[derive(Debug)]
pub struct StreamingAnimator<T: Copy> {
    buffer: ManagedSlidingWindow<T, 100>,
    interpolation_progress: Progress,
    smooth_interpolation: bool,
}

impl<T: Copy> StreamingAnimator<T> {
    /// The values in the window, oldest first.
    pub closed spec fn data_view(&self) -> Seq<T> {
        self.buffer@
    }

    /// The progress of the transition towards the newest value.
    pub closed spec fn progress_spec(&self) -> Progress {
        self.interpolation_progress
    }

    /// Whether smooth interpolation is on.
    pub closed spec fn smooth_spec(&self) -> bool {
        self.smooth_interpolation
    }

    /// Internal invariant.
    pub closed spec fn wf(&self) -> bool {
        self.buffer.wf()
    }

    /// Creates an empty animator with smooth interpolation on.
    pub fn new() -> (r: Self)
        ensures
            r.wf(),
            r.data_view() == Seq::<T>::empty(),
            r.progress_spec() == 0,
            r.smooth_spec(),
    {
        StreamingAnimator {
            buffer: ManagedSlidingWindow::new(),
            interpolation_progress: 0,
            smooth_interpolation: true,
        }
    }

    /// Adds a value to the stream, dropping the oldest once 100 are held, and
    /// restarts the transition.
    pub fn push_data(&mut self, point: T)
        requires
            old(self).wf(),
        ensures
            final(self).wf(),
            final(self).data_view() == slide(old(self).data_view(), point, STREAMING_WINDOW as nat),
            final(self).progress_spec() == 0,
            final(self).smooth_spec() == old(self).smooth_spec(),
    {
        self.buffer.push(point);
        self.interpolation_progress = 0;
    }

    /// The values in the window, oldest first.
    pub fn current_data(&self) -> (r: Vec<T>)
        requires
            self.wf(),
        ensures
            r@ == self.data_view(),
    {
        self.buffer.iter()
    }

    /// Sets the transition progress.
    pub fn set_interpolation_progress(&mut self, progress: Progress)
        ensures
            final(self).wf() == old(self).wf(),
            final(self).data_view() == old(self).data_view(),
            final(self).progress_spec() == progress,
            final(self).smooth_spec() == old(self).smooth_spec(),
    {
        self.interpolation_progress = progress;
    }

    /// The transition progress.
    pub fn interpolation_progress(&self) -> (r: Progress)
        ensures
            r == self.progress_spec(),
    {
        self.interpolation_progress
    }

    /// Turns smooth interpolation on or off.
    pub fn set_smooth_interpolation(&mut self, enabled: bool)
        ensures
            final(self).wf() == old(self).wf(),
            final(self).data_view() == old(self).data_view(),
            final(self).progress_spec() == old(self).progress_spec(),
            final(self).smooth_spec() == enabled,
    {
        self.smooth_interpolation = enabled;
    }

    /// Whether smooth interpolation is on.
    pub fn is_smooth_interpolation_enabled(&self) -> (r: bool)
        ensures
            r == self.smooth_spec(),
    {
        self.smooth_interpolation
    }

    /// The window capacity, 100.
    pub fn capacity(&self) -> (r: usize)
        ensures
            r == STREAMING_WINDOW,
    {
        100
    }

    /// The number of values in the window, at most 100.
    pub fn len(&self) -> (r: usize)
        requires
            self.wf(),
        ensures
            r == self.data_view().len(),
            r <= STREAMING_WINDOW,
    {
        proof {
            self.buffer.lemma_window_bounded();
        }
        self.buffer.len()
    }

    /// Law: the window of a streaming animator never holds more than its
    /// capacity of 100 values.
    pub proof fn law_window_bounded(&self)
        requires
            self.wf(),
        ensures
            self.data_view().len() <= STREAMING_WINDOW,
    {
        self.buffer.lemma_window_bounded();
    }

    /// Whether the window is empty.
    pub fn is_empty(&self) -> (r: bool)
        requires
            self.wf(),
        ensures
            r == (self.data_view().len() == 0),
    {
        self.buffer.is_empty()
    }

    /// Empties the window and restarts the transition.
    pub fn clear(&mut self)
        ensures
            final(self).wf(),
            final(self).data_view() == Seq::<T>::empty(),
            final(self).progress_spec() == 0,
            final(self).smooth_spec() == old(self).smooth_spec(),
    {
        self.buffer.clear();
        self.interpolation_progress = 0;
    }

    /// Time-based updates do nothing: streaming has no end, and progress is
    /// set from outside.  Always `Ok(false)`.
    pub fn update_with_delta(&mut self, delta_time: Milliseconds) -> (r: AnimationResult<bool>)
        ensures
            r == Ok::<bool, AnimationError>(false),
            *final(self) == *old(self),
    {
        Ok(false)
    }
}

impl<T: Copy> Default for StreamingAnimator<T> {
    fn default() -> (r: Self)
        ensures
            r.wf(),
            r.data_view() == Seq::<T>::empty(),
            r.progress_spec() == 0,
            r.smooth_spec(),
    {
        Self::new()
    }
}

/// Progress in percent after `elapsed` milliseconds of an animation lasting
/// `duration`: wrapping around for a looping animation, held at 100 once a
/// non-looping one is over.
pub open spec fn progress_at(duration: int, looping: bool, elapsed: int) -> int {
    if looping {
        ((elapsed % duration) * 100) / duration
    } else if elapsed >= duration {
        100
    } else {
        (elapsed * 100) / duration
    }
}

/// Time elapsed from `start` to `now`, zero if `now` is earlier.
pub open spec fn elapsed_since(start: int, now: int) -> int {
    if now >= start {
        now - start
    } else {
        0
    }
}

/// Law: the progress of a non-looping animation never goes back as time
/// passes.
pub proof fn law_progress_monotone(duration: int, e1: int, e2: int)
    requires
        0 <= duration,
        0 <= e1 <= e2,
    ensures
        progress_at(duration, false, e1) <= progress_at(duration, false, e2),
{
    if e2 >= duration {
        law_progress_complete(duration, e1);
        if e1 < duration {
            assert((e1 * 100) / duration <= 100) by (nonlinear_arith)
                requires
                    0 <= e1 < duration,
            ;
        }
    } else {
        assert((e1 * 100) / duration <= (e2 * 100) / duration) by (nonlinear_arith)
            requires
                0 <= e1 <= e2 < duration,
        {
            vstd::arithmetic::div_mod::lemma_div_is_ordered(e1 * 100, e2 * 100, duration);
        }
    }
}

/// Law: a non-looping animation is at 100 exactly when its whole duration
/// has elapsed, and below 100 before.
pub proof fn law_progress_complete(duration: int, elapsed: int)
    requires
        0 <= duration,
        0 <= elapsed,
    ensures
        (progress_at(duration, false, elapsed) == 100) == (elapsed >= duration),
        0 <= progress_at(duration, false, elapsed) <= 100,
{
    if elapsed < duration {
        assert(0 <= (elapsed * 100) / duration < 100) by (nonlinear_arith)
            requires
                0 <= elapsed < duration,
        ;
    }
}

/// Law: a looping animation repeats its progress every duration, and never
/// reaches 100.
pub proof fn law_looping_periodic(duration: int, elapsed: int)
    requires
        duration > 0,
        elapsed >= 0,
    ensures
        progress_at(duration, true, elapsed + duration) == progress_at(duration, true, elapsed),
        0 <= progress_at(duration, true, elapsed) < 100,
{
    vstd::arithmetic::div_mod::lemma_mod_add_multiples_vanish(elapsed, duration);
    let c = elapsed % duration;
    assert(0 <= c < duration);
    assert(0 <= (c * 100) / duration < 100) by (nonlinear_arith)
        requires
            0 <= c < duration,
    ;
}

/// Law: the segment chosen for a progress value brackets it.  Before the
/// first keyframe and after the last the state is held; otherwise the
/// animation moves between two neighbouring keyframes, the first at or
/// before the progress, the second after it, with the easing of the second.
pub proof fn law_segment_brackets<T>(
    keyframes: Seq<(Progress, T)>,
    easings: Seq<EasingFunction>,
    progress: Progress,
)
    requires
        keyframes_sorted(keyframes),
        easings.len() == keyframes.len(),
        keyframes.len() <= usize::MAX,
    ensures
        match segment_spec(keyframes, easings, progress) {
            KeyframeSegment::Empty => keyframes.len() == 0,
            KeyframeSegment::Hold { index } => index < keyframes.len() && (keyframes.len() == 1 || (
            index == 0 && progress < keyframes[0].0) || (index == keyframes.len() - 1
                && keyframes.last().0 <= progress)),
            KeyframeSegment::Between { from, to, elapsed, span, easing } => {
                &&& to == from + 1
                &&& to < keyframes.len()
                &&& keyframes[from as int].0 <= progress < keyframes[to as int].0
                &&& elapsed == progress - keyframes[from as int].0
                &&& span == keyframes[to as int].0 - keyframes[from as int].0
                &&& elapsed < span
                &&& easing == easings[to as int]
            },
        },
{
    lemma_reached_prefix(keyframes, progress);
    let c = reached_prefix(keyframes, progress);
    if keyframes.len() > 1 && c > 0 && c < keyframes.len() {
        assert(keyframes[c - 1].0 <= progress);
        assert(keyframes[c as int].0 > progress);
    }
    if keyframes.len() > 1 && c == 0 {
        assert(keyframes[0].0 > progress);
    }
    if keyframes.len() > 1 && c == keyframes.len() {
        assert(keyframes[keyframes.len() - 1].0 <= progress);
    }
}

/// Converts time into animation progress.
#[derive(Debug, Clone)]
pub struct TimeBasedProgress {
    duration_ms: Milliseconds,
    start_time_ms: Option<Milliseconds>,
    looping: bool,
}

impl TimeBasedProgress {
    /// The animation's duration.
    pub closed spec fn duration_spec(&self) -> Milliseconds {
        self.duration_ms
    }

    /// When the animation started, once it has.
    pub closed spec fn start_spec(&self) -> Option<Milliseconds> {
        self.start_time_ms
    }

    /// Whether the animation loops.
    pub closed spec fn looping_spec(&self) -> bool {
        self.looping
    }

    /// A non-looping animation of the given duration, not started.
    pub fn new(duration_ms: Milliseconds) -> (r: Self)
        ensures
            r.duration_spec() == duration_ms,
            r.start_spec() == None::<Milliseconds>,
            !r.looping_spec(),
    {
        TimeBasedProgress { duration_ms, start_time_ms: None, looping: false }
    }

    /// A looping animation of the given duration, not started.
    pub fn new_looping(duration_ms: Milliseconds) -> (r: Self)
        ensures
            r.duration_spec() == duration_ms,
            r.start_spec() == None::<Milliseconds>,
            r.looping_spec(),
    {
        TimeBasedProgress { duration_ms, start_time_ms: None, looping: true }
    }

    /// Progress from the clock's current time; the first call starts the
    /// animation and returns 0.
    pub fn progress_from_time<P: TimeProvider>(&mut self, time_provider: &P) -> (r: Progress)
        requires
            old(self).start_spec() is Some && old(self).looping_spec() ==> old(
                self).duration_spec() > 0,
        ensures
            final(self).duration_spec() == old(self).duration_spec(),
            final(self).looping_spec() == old(self).looping_spec(),
            old(self).start_spec() is Some ==> final(self).start_spec() == old(self).start_spec(),
            final(self).start_spec() is Some,
            old(self).start_spec() is None ==> r == 0,
            old(self).start_spec() matches Some(start) ==> exists|now: u32|
                r == #[trigger] progress_at(
                    old(self).duration_spec() as int,
                    old(self).looping_spec(),
                    elapsed_since(start as int, now as int),
                ),
            exists|now: u32| #[trigger] old(self).reading_gives(*final(self), r, now),
            time_provider.steady_reading() matches Some(now) ==> old(self).reading_gives(
                *final(self),
                r,
                now,
            ),
            r <= 100,
    {
        let now = time_provider.current_time_ms();
        let r = self.progress_at_time(now);
        proof {
            if let Some(start) = old(self).start_spec() {
                assert(r == progress_at(
                    old(self).duration_spec() as int,
                    old(self).looping_spec(),
                    elapsed_since(start as int, now as int),
                ));
            }
            assert(old(self).reading_gives(*self, r, now));
        }
        r
    }

    /// Reading the clock at `now` takes this animation to `after` with
    /// progress `r`: the first reading starts the animation at `now` with
    /// progress 0; later ones measure the time from the start to `now`.
    pub open spec fn reading_gives(&self, after: Self, r: Progress, now: Milliseconds) -> bool {
        match self.start_spec() {
            None => after.start_spec() == Some(now) && r == 0,
            Some(start) => after.start_spec() == Some(start) && r == progress_at(
                self.duration_spec() as int,
                self.looping_spec(),
                elapsed_since(start as int, now as int),
            ),
        }
    }

    /// Progress at time `current_time`; the first call starts the animation
    /// at that time and returns 0.
    pub fn progress_at_time(&mut self, current_time: Milliseconds) -> (r: Progress)
        requires
            old(self).start_spec() is Some && old(self).looping_spec() ==> old(
                self).duration_spec() > 0,
        ensures
            final(self).duration_spec() == old(self).duration_spec(),
            final(self).looping_spec() == old(self).looping_spec(),
            old(self).start_spec() is None ==> r == 0 && final(self).start_spec() == Some(
                current_time,
            ),
            old(self).start_spec() matches Some(start) ==> final(self).start_spec() == Some(start)
                && r == progress_at(
                old(self).duration_spec() as int,
                old(self).looping_spec(),
                elapsed_since(start as int, current_time as int),
            ),
            r <= 100,
    {
        match self.start_time_ms {
            None => {
                self.start_time_ms = Some(current_time);
                0
            },
            Some(start) => {
                let elapsed = current_time.saturating_sub(start);
                self.progress_from_elapsed(elapsed)
            },
        }
    }

    /// Progress after `elapsed_ms` milliseconds: the floor of
    /// `100 * elapsed / duration`, computed in integers, where `elapsed` is
    /// the time within the current cycle when looping; 100 once a
    /// non-looping animation is over.  For example 53 ms of 100 ms gives 53.
    pub fn progress_from_elapsed(&self, elapsed_ms: Milliseconds) -> (r: Progress)
        requires
            self.looping_spec() ==> self.duration_spec() > 0,
        ensures
            r == progress_at(self.duration_spec() as int, self.looping_spec(), elapsed_ms as int),
            r <= 100,
    {
        let d = self.duration_ms;
        if self.looping {
            let cycle = elapsed_ms % d;
            let p = (cycle as u64) * 100 / (d as u64);
            assert(p < 100) by (nonlinear_arith)
                requires
                    p == (cycle as int) * 100 / (d as int),
                    cycle < d,
                    d > 0,
            ;
            p as u8
        } else if elapsed_ms >= d {
            100
        } else {
            let p = (elapsed_ms as u64) * 100 / (d as u64);
            assert(p < 100) by (nonlinear_arith)
                requires
                    p == (elapsed_ms as int) * 100 / (d as int),
                    elapsed_ms < d,
            ;
            p as u8
        }
    }

    /// Forgets the start time; the next time-based call restarts.
    pub fn reset(&mut self)
        ensures
            final(self).duration_spec() == old(self).duration_spec(),
            final(self).looping_spec() == old(self).looping_spec(),
            final(self).start_spec() == None::<Milliseconds>,
    {
        self.start_time_ms = None;
    }

    /// Whether a started, non-looping animation is over at the clock's time.
    pub fn is_complete<P: TimeProvider>(&self, time_provider: &P) -> (r: bool)
        ensures
            self.looping_spec() ==> !r,
            self.start_spec() is None ==> !r,
            !self.looping_spec() && self.start_spec() is Some ==> exists|now: u32|
                r == (#[trigger] elapsed_since(self.start_spec()->0 as int, now as int)
                    >= self.duration_spec()),
            time_provider.steady_reading() matches Some(now) ==> r == (!self.looping_spec() && (
            self.start_spec() matches Some(start) && elapsed_since(start as int, now as int)
                >= self.duration_spec())),
    {
        if self.looping {
            return false;
        }
        match self.start_time_ms {
            Some(_) => {
                let now = time_provider.current_time_ms();
                let r = self.is_complete_at(now);
                assert(r == (elapsed_since(self.start_spec()->0 as int, now as int)
                    >= self.duration_spec()));
                r
            },
            None => false,
        }
    }

    /// Whether a started, non-looping animation is over at `current_time`.
    pub fn is_complete_at(&self, current_time: Milliseconds) -> (r: bool)
        ensures
            r == (!self.looping_spec() && (self.start_spec() matches Some(start) && elapsed_since(
                start as int,
                current_time as int,
            ) >= self.duration_spec())),
    {
        if self.looping {
            return false;
        }
        match self.start_time_ms {
            Some(start) => current_time.saturating_sub(start) >= self.duration_ms,
            None => false,
        }
    }

    /// The animation's duration.
    pub fn duration_ms(&self) -> (r: Milliseconds)
        ensures
            r == self.duration_spec(),
    {
        self.duration_ms
    }

    /// Sets the animation's duration.
    pub fn set_duration_ms(&mut self, duration_ms: Milliseconds)
        ensures
            final(self).duration_spec() == duration_ms,
            final(self).start_spec() == old(self).start_spec(),
            final(self).looping_spec() == old(self).looping_spec(),
    {
        self.duration_ms = duration_ms;
    }

    /// Whether the animation loops.
    pub fn is_looping(&self) -> (r: bool)
        ensures
            r == self.looping_spec(),
    {
        self.looping
    }

    /// Sets whether the animation loops.
    pub fn set_looping(&mut self, looping: bool)
        ensures
            final(self).duration_spec() == old(self).duration_spec(),
            final(self).start_spec() == old(self).start_spec(),
            final(self).looping_spec() == looping,
    {
        self.looping = looping;
    }
}


/// Law: a time-based animation counts from the clock reading that started
/// it.  The first reading gives 0; a later reading `t1` after a first reading
/// `t0` gives the whole percent of the duration elapsed since `t0`, and 100
/// once the whole duration has passed (when not looping).
pub proof fn law_progress_counts_from_first_reading(
    fresh: TimeBasedProgress,
    started: TimeBasedProgress,
    later: TimeBasedProgress,
    r0: Progress,
    r1: Progress,
    t0: Milliseconds,
    t1: Milliseconds,
)
    requires
        fresh.start_spec() is None,
        fresh.reading_gives(started, r0, t0),
        started.duration_spec() == fresh.duration_spec(),
        started.looping_spec() == fresh.looping_spec(),
        started.reading_gives(later, r1, t1),
        !fresh.looping_spec(),
        fresh.duration_spec() > 0,
    ensures
        r0 == 0,
        later.start_spec() == Some(t0),
        t0 <= t1 < t0 + fresh.duration_spec() ==> r1 == (t1 - t0) * 100 / (fresh.duration_spec() as int),
        t1 >= t0 + fresh.duration_spec() ==> r1 == 100,
        t1 <= t0 ==> r1 == 0,
{
}
} // verus!
