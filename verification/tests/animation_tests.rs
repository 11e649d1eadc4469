use embedded_charts::animation::{
    ChartAnimator, EasingFunction, KeyframeSegment, MultiStateAnimator, StreamingAnimator, TimeBasedProgress,
};
use embedded_charts::time::ManualTimeProvider;

#[test]
fn test_streaming_animator() {
    let mut animator = StreamingAnimator::new();

    assert!(animator.is_empty());

    animator.push_data(1.0f32);
    animator.push_data(2.0f32);

    assert_eq!(animator.len(), 2);
    assert!(!animator.is_empty());

    let data: Vec<f32> = animator.current_data();
    let expected: Vec<f32> = vec![1.0, 2.0];
    assert_eq!(data, expected);
}

#[test]
fn test_time_based_progress() {
    let mut progress_calc = TimeBasedProgress::new(1000);
    let mut time_provider = ManualTimeProvider::new();

    assert_eq!(progress_calc.progress_from_time(&time_provider), 0);

    time_provider.advance_ms(500);
    assert_eq!(progress_calc.progress_from_time(&time_provider), 50);

    time_provider.advance_ms(500);
    assert_eq!(progress_calc.progress_from_time(&time_provider), 100);

    time_provider.advance_ms(500);
    assert_eq!(progress_calc.progress_from_time(&time_provider), 100);
}

#[test]
fn test_time_based_progress_looping() {
    let mut progress_calc = TimeBasedProgress::new_looping(1000);
    let mut time_provider = ManualTimeProvider::new();

    assert_eq!(progress_calc.progress_from_time(&time_provider), 0);

    time_provider.advance_ms(1000);
    assert_eq!(progress_calc.progress_from_time(&time_provider), 0);

    time_provider.advance_ms(500);
    assert_eq!(progress_calc.progress_from_time(&time_provider), 50);
}

#[test]
fn test_progress_from_elapsed() {
    let progress_calc = TimeBasedProgress::new(2000);

    assert_eq!(progress_calc.progress_from_elapsed(0), 0);
    assert_eq!(progress_calc.progress_from_elapsed(1000), 50);
    assert_eq!(progress_calc.progress_from_elapsed(2000), 100);
    assert_eq!(progress_calc.progress_from_elapsed(3000), 100);
}

#[test]
fn progress_at_time_starts_then_measures() {
    let mut p = TimeBasedProgress::new(400);
    assert_eq!(p.progress_at_time(1000), 0);
    assert_eq!(p.progress_at_time(1100), 25);
    assert_eq!(p.progress_at_time(900), 0);
    assert!(!p.is_complete_at(1399));
    assert!(p.is_complete_at(1400));
    p.reset();
    assert!(!p.is_complete_at(5000));
    assert_eq!(p.progress_at_time(5000), 0);
    assert_eq!(p.progress_at_time(5399), 99);
}

#[test]
fn looping_progress_wraps_each_cycle() {
    let p = TimeBasedProgress::new_looping(300);
    assert_eq!(p.progress_from_elapsed(150), 50);
    assert_eq!(p.progress_from_elapsed(450), 50);
    assert_eq!(p.progress_from_elapsed(600), 0);
    assert!(p.is_looping());
    assert!(!p.is_complete_at(100_000));
}

#[test]
fn progress_setters_keep_other_fields() {
    let mut p = TimeBasedProgress::new(10);
    p.set_duration_ms(200);
    p.set_looping(true);
    assert_eq!(p.duration_ms(), 200);
    assert!(p.is_looping());
    assert_eq!(p.progress_from_elapsed(250), 25);
}

#[test]
fn streaming_animator_keeps_last_hundred() {
    let mut a: StreamingAnimator<i32> = StreamingAnimator::new();
    for i in 0..130 {
        a.push_data(i);
    }
    assert_eq!(a.len(), 100);
    assert_eq!(a.capacity(), 100);
    let data = a.current_data();
    assert_eq!(data[0], 30);
    assert_eq!(data[99], 129);
    a.set_interpolation_progress(40);
    assert_eq!(a.interpolation_progress(), 40);
    a.push_data(7);
    assert_eq!(a.interpolation_progress(), 0);
    a.set_smooth_interpolation(false);
    assert!(!a.is_smooth_interpolation_enabled());
    assert_eq!(a.update_with_delta(16), Ok(false));
    a.clear();
    assert!(a.is_empty());
}

#[test]
fn keyframes_are_kept_in_progress_order() {
    let mut anim: MultiStateAnimator<i32, 4> = MultiStateAnimator::new();
    anim.add_keyframe(100, 100, EasingFunction::Linear).unwrap();
    anim.add_keyframe(0, 0, EasingFunction::EaseIn).unwrap();
    anim.add_keyframe(50, 25, EasingFunction::EaseOut).unwrap();
    assert_eq!(anim.keyframe_count(), 3);
    assert_eq!(anim.keyframe(0), Some(&(0, 0)));
    assert_eq!(anim.keyframe(1), Some(&(50, 25)));
    assert_eq!(anim.keyframe(2), Some(&(100, 100)));
    assert_eq!(anim.keyframe(3), None);
}

#[test]
fn keyframe_segments_follow_progress() {
    let mut anim: MultiStateAnimator<i32, 4> = MultiStateAnimator::new();
    assert_eq!(anim.segment_at(10), KeyframeSegment::Empty);
    anim.add_keyframe(20, 0, EasingFunction::Linear).unwrap();
    assert_eq!(anim.segment_at(90), KeyframeSegment::Hold { index: 0 });
    anim.add_keyframe(60, 25, EasingFunction::EaseIn).unwrap();
    anim.add_keyframe(100, 100, EasingFunction::EaseOut).unwrap();
    assert_eq!(anim.segment_at(10), KeyframeSegment::Hold { index: 0 });
    assert_eq!(
        anim.segment_at(30),
        KeyframeSegment::Between { from: 0, to: 1, elapsed: 10, span: 40, easing: EasingFunction::EaseIn }
    );
    assert_eq!(
        anim.segment_at(60),
        KeyframeSegment::Between { from: 1, to: 2, elapsed: 0, span: 40, easing: EasingFunction::EaseOut }
    );
    assert_eq!(anim.segment_at(100), KeyframeSegment::Hold { index: 2 });
}

#[test]
fn keyframe_capacity_is_enforced() {
    let mut anim: MultiStateAnimator<i32, 2> = MultiStateAnimator::new();
    anim.add_keyframe(0, 1, EasingFunction::Linear).unwrap();
    anim.add_keyframe(10, 2, EasingFunction::Linear).unwrap();
    assert!(anim.add_keyframe(20, 3, EasingFunction::Linear).is_err());
    assert_eq!(anim.keyframe_count(), 2);
    anim.clear();
    assert_eq!(anim.keyframe_count(), 0);
}

#[test]
fn keyframe_easing_follows_its_keyframe() {
    let mut a: MultiStateAnimator<i32, 4> = MultiStateAnimator::new();
    a.add_keyframe(100, 100, EasingFunction::EaseIn).unwrap();
    a.add_keyframe(0, 0, EasingFunction::Linear).unwrap();
    assert_eq!(
        a.segment_at(50),
        KeyframeSegment::Between { from: 0, to: 1, elapsed: 50, span: 100, easing: EasingFunction::EaseIn }
    );
    a.add_keyframe(50, 50, EasingFunction::EaseOut).unwrap();
    assert_eq!(
        a.segment_at(25),
        KeyframeSegment::Between { from: 0, to: 1, elapsed: 25, span: 50, easing: EasingFunction::EaseOut }
    );
    assert_eq!(
        a.segment_at(75),
        KeyframeSegment::Between { from: 1, to: 2, elapsed: 25, span: 50, easing: EasingFunction::EaseIn }
    );
}

#[test]
fn streaming_window_stays_within_capacity() {
    let mut s: StreamingAnimator<i32> = StreamingAnimator::new();
    for i in 0..250 {
        s.push_data(i);
        assert!(s.len() <= s.capacity());
    }
    assert_eq!(s.len(), 100);
    assert_eq!(s.capacity(), 100);
    assert_eq!(s.current_data()[0], 150);
}

#[test]
fn progress_is_floored_exactly() {
    let p = TimeBasedProgress::new(100);
    assert_eq!(p.progress_from_elapsed(53), 53);
}

fn linear_value_at(a: &MultiStateAnimator<f32, 4>, progress: u8) -> Option<f32> {
    match a.segment_at(progress) {
        KeyframeSegment::Empty => None,
        KeyframeSegment::Hold { index } => Some(a.keyframe(index).unwrap().1),
        KeyframeSegment::Between { from, to, elapsed, span, easing } => {
            assert_eq!(easing, EasingFunction::Linear);
            let (f, t) = (a.keyframe(from).unwrap().1, a.keyframe(to).unwrap().1);
            Some(f + (t - f) * (elapsed as f32 / span as f32))
        }
    }
}

#[test]
fn test_multi_state_animator() {
    let mut animator: MultiStateAnimator<f32, 4> = MultiStateAnimator::new();

    animator.add_keyframe(0, 0.0, EasingFunction::Linear).unwrap();
    animator.add_keyframe(50, 25.0, EasingFunction::Linear).unwrap();
    animator.add_keyframe(100, 100.0, EasingFunction::Linear).unwrap();

    assert_eq!(linear_value_at(&animator, 0), Some(0.0));
    assert_eq!(linear_value_at(&animator, 25), Some(12.5));
    assert_eq!(linear_value_at(&animator, 50), Some(25.0));
    assert_eq!(linear_value_at(&animator, 75), Some(62.5));
    assert_eq!(linear_value_at(&animator, 100), Some(100.0));
}

#[test]
fn test_chart_animator() {
    let animator = ChartAnimator::new(0.0f32, 100.0, EasingFunction::Linear);
    let (from, to) = (animator.from_state(), animator.to_state());
    assert_eq!(animator.easing(), EasingFunction::Linear);
    let value_at = |p: u8| from + (to - from) * (p as f32 / 100.0);

    assert_eq!(value_at(0), 0.0);
    assert_eq!(value_at(50), 50.0);
    assert_eq!(value_at(100), 100.0);
}
