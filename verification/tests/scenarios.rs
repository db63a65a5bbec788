use audio_visualizer::bars::{group_frequencies_into_bars, SILENCE};
use audio_visualizer::scale::{MAX_DISPLAY_HEIGHT, MIN_BAR_HEIGHT};
use audio_visualizer::spectrum::{SpectrumSlot, SPECTRUM_BINS};
use audio_visualizer::tap::{Tap, BUFFER_SIZE};
use audio_visualizer::visualizer::{Action, AudioVisualizer, Message, DEFAULT_NUM_BARS};
use rustfft::num_complex::Complex;
use rustfft::FftPlanner;

/// Level of a bin in thousandths of a decibel, from its magnitude.
fn level_of(magnitude: f32) -> i32 {
    let raw = magnitude / BUFFER_SIZE as f32;
    if raw > 0.0 {
        (20.0 * raw.log10() * 1000.0).round() as i32
    } else {
        SILENCE
    }
}

/// Magnitudes of the lower half of the transform of one window.
fn magnitudes_of(window: &[f32]) -> Vec<f32> {
    let mut planner = FftPlanner::new();
    let fft = planner.plan_fft_forward(BUFFER_SIZE);
    let mut buffer: Vec<Complex<f32>> =
        window[..BUFFER_SIZE].iter().map(|&x| Complex::new(x, 0.0)).collect();
    fft.process(&mut buffer);
    buffer.iter().take(BUFFER_SIZE / 2).map(|c| c.norm()).collect()
}

fn sine_window(bin: usize) -> Vec<f32> {
    (0..BUFFER_SIZE)
        .map(|n| {
            let phase = 2.0 * std::f64::consts::PI * (bin as f64) * (n as f64) / BUFFER_SIZE as f64;
            phase.sin() as f32
        })
        .collect()
}

#[test]
fn spectrum_of_a_window_has_half_its_length_and_no_negative_value() {
    let window: Vec<f32> = (0..BUFFER_SIZE).map(|n| ((n * 37 % 101) as f32 - 50.0) / 50.0).collect();
    let magnitudes = magnitudes_of(&window);
    assert_eq!(magnitudes.len(), SPECTRUM_BINS);
    assert!(magnitudes.iter().all(|m| *m >= 0.0));
}

#[test]
fn sine_window_raises_one_mirrored_pair_of_bars() {
    // bars show every 26th bin: bin 52 is shown by bars 2 and 40
    let magnitudes = magnitudes_of(&sine_window(52));
    let peak = magnitudes
        .iter()
        .enumerate()
        .fold(0usize, |best, (k, m)| if *m > magnitudes[best] { k } else { best });
    assert_eq!(peak, 52);
    assert!((magnitudes[52] - 1024.0).abs() < 1.0);
    for (k, m) in magnitudes.iter().enumerate() {
        if k != 52 {
            assert!(*m < 0.01);
        }
    }
    let levels: Vec<i32> = magnitudes.iter().map(|m| level_of(*m)).collect();
    // half of full scale is 6.02 dB below it
    assert!((levels[52] + 6_021).abs() <= 1);
    let bars = group_frequencies_into_bars(&levels, DEFAULT_NUM_BARS);
    assert_eq!(bars.len(), 75);
    for (i, height) in bars.iter().enumerate() {
        if i == 2 || i == 40 {
            assert_eq!(*height, MAX_DISPLAY_HEIGHT);
        } else {
            assert_eq!(*height, MIN_BAR_HEIGHT);
        }
    }
}

#[test]
fn sine_between_the_shown_bins_raises_no_bar() {
    let magnitudes = magnitudes_of(&sine_window(60));
    let levels: Vec<i32> = magnitudes.iter().map(|m| level_of(*m)).collect();
    let bars = group_frequencies_into_bars(&levels, DEFAULT_NUM_BARS);
    assert_eq!(bars, vec![MIN_BAR_HEIGHT; 75]);
}

#[test]
fn silent_window_maps_every_bar_to_rest() {
    let magnitudes = magnitudes_of(&vec![0.0f32; BUFFER_SIZE]);
    assert_eq!(magnitudes.len(), 1024);
    assert!(magnitudes.iter().all(|m| *m == 0.0));
    let levels: Vec<i32> = magnitudes.iter().map(|m| level_of(*m)).collect();
    assert_eq!(levels, vec![SILENCE; 1024]);
    let bars = group_frequencies_into_bars(&levels, DEFAULT_NUM_BARS);
    assert_eq!(bars, vec![MIN_BAR_HEIGHT; 75]);
}

#[test]
fn quiet_sine_maps_to_a_height_in_between() {
    // amplitude 0.01: the bin holds 0.005 of full scale, 46.02 dB below it
    let window: Vec<f32> = sine_window(26).iter().map(|x| x * 0.01).collect();
    let levels: Vec<i32> = magnitudes_of(&window).iter().map(|m| level_of(*m)).collect();
    assert!((levels[26] + 46_021).abs() <= 2);
    let bars = group_frequencies_into_bars(&levels, DEFAULT_NUM_BARS);
    // 4 + (90 - 46.02) / 80 * 146 = 84.26
    assert!(bars[1].abs_diff(84_263) <= 4);
    assert_eq!(bars[1], bars[39]);
    assert_eq!(bars[0], MIN_BAR_HEIGHT);
}

#[test]
fn samples_flow_from_the_tap_to_the_bars() {
    let mut tap: Tap<f32> = Tap::new();
    let mut slot = SpectrumSlot::new();
    let (mut visualizer, _) = AudioVisualizer::new();
    visualizer.file_chosen();
    visualizer.pipeline_ready();
    assert_eq!(visualizer.update(Message::Play), Action::Play);

    let stream = sine_window(52);
    let mut played = Vec::new();
    for sample in stream.iter() {
        let (passed, window) = tap.next(Some(*sample));
        played.push(passed.unwrap());
        if let Some(full) = window {
            assert_eq!(full.len(), BUFFER_SIZE);
            let levels = magnitudes_of(&full).iter().map(|m| level_of(*m)).collect();
            slot.publish(levels);
        }
    }
    assert_eq!(played, stream);

    assert_eq!(visualizer.update(Message::Tick), Action::Drain);
    let latest = slot.take().unwrap();
    assert_eq!(visualizer.update(Message::AudioData(latest)), Action::Redraw);
    assert_eq!(visualizer.update(Message::Tick), Action::Drain);
    assert_eq!(slot.take(), None);

    let bars = visualizer.frequency_data();
    for (i, height) in bars.iter().enumerate() {
        if i == 2 || i == 40 {
            assert_eq!(*height, 120_800);
        } else {
            assert_eq!(*height, MIN_BAR_HEIGHT);
        }
    }
}
