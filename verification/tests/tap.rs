use audio_visualizer::tap::{Tap, BUFFER_SIZE};

#[test]
fn window_length_is_2048() {
    assert_eq!(BUFFER_SIZE, 2048);
}

#[test]
fn fresh_tap_holds_nothing() {
    let tap: Tap<f32> = Tap::new();
    assert_eq!(tap.buffered(), 0);
}

#[test]
fn sample_passes_unchanged() {
    let mut tap: Tap<f32> = Tap::new();
    let (sample, window) = tap.next(Some(0.25));
    assert_eq!(sample, Some(0.25));
    assert!(window.is_none());
    assert_eq!(tap.buffered(), 1);
}

#[test]
fn exhausted_stream_changes_nothing() {
    let mut tap: Tap<f32> = Tap::new();
    tap.next(Some(0.5));
    tap.next(Some(-0.5));
    let (sample, window) = tap.next(None);
    assert_eq!(sample, None);
    assert!(window.is_none());
    assert_eq!(tap.buffered(), 2);
}

#[test]
fn exhausted_stream_on_fresh_tap() {
    let mut tap: Tap<i16> = Tap::new();
    let (sample, window) = tap.next(None);
    assert_eq!(sample, None);
    assert!(window.is_none());
    assert_eq!(tap.buffered(), 0);
}

#[test]
fn window_is_handed_off_at_the_2048th_sample_and_not_before() {
    let mut tap: Tap<u32> = Tap::new();
    for k in 0..2047u32 {
        let (sample, window) = tap.next(Some(k));
        assert_eq!(sample, Some(k));
        assert!(window.is_none());
    }
    assert_eq!(tap.buffered(), 2047);
    let (sample, window) = tap.next(Some(2047));
    assert_eq!(sample, Some(2047));
    let window = window.unwrap();
    assert_eq!(window.len(), BUFFER_SIZE);
    assert_eq!(window, (0..2048u32).collect::<Vec<u32>>());
    assert_eq!(tap.buffered(), 0);
}

#[test]
fn windows_follow_each_other_without_gap_or_overlap() {
    let mut tap: Tap<u32> = Tap::new();
    let mut handed: Vec<Vec<u32>> = Vec::new();
    let total = 3 * 2048 + 100;
    for k in 0..total as u32 {
        let (sample, window) = tap.next(Some(k));
        assert_eq!(sample, Some(k));
        if let Some(full) = window {
            assert_eq!((k as usize + 1) % BUFFER_SIZE, 0);
            handed.push(full);
        }
    }
    assert_eq!(handed.len(), 3);
    let joined: Vec<u32> = handed.concat();
    assert_eq!(joined, (0..3 * 2048u32).collect::<Vec<u32>>());
    assert_eq!(tap.buffered(), 100);
}

#[test]
fn partial_window_is_never_handed_off() {
    let mut tap: Tap<f32> = Tap::new();
    for k in 0..1000 {
        let (_, window) = tap.next(Some(k as f32));
        assert!(window.is_none());
    }
    let (_, window) = tap.next(None);
    assert!(window.is_none());
    assert_eq!(tap.buffered(), 1000);
}

#[test]
fn float_samples_keep_their_bits() {
    let mut tap: Tap<f32> = Tap::new();
    let odd = [f32::MIN_POSITIVE, -0.0, 1.0e-40, f32::MAX, 0.1 + 0.2];
    for value in odd {
        let (sample, _) = tap.next(Some(value));
        assert_eq!(sample.unwrap().to_bits(), value.to_bits());
    }
    let (sample, _) = tap.next(Some(f32::NAN));
    assert!(sample.unwrap().is_nan());
}
