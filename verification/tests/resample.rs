use whisperia::resample::{blend_pcm, output_len, resample, resample_pcm, tap, Tap, TARGET_RATE};

fn lerp(a: f32, b: f32, num: u32, den: u32) -> f32 {
    let t = num as f64 / den as f64;
    a * (1.0 - t as f32) + b * t as f32
}

#[test]
fn same_rate_returns_the_input() {
    let input = vec![0.1f32, -0.2, 0.3, 0.9, -1.0];
    assert_eq!(resample(&input, 44100, 44100, lerp), input);
    assert_eq!(resample(&input, 0, 0, lerp), input);
    let pcm = vec![1i16, -2, 300, i16::MAX, i16::MIN];
    assert_eq!(resample_pcm(&pcm, 16000, 16000), pcm);
}

#[test]
fn same_rate_never_calls_the_blend() {
    let input = vec![1.0f32, 2.0];
    let out = resample(&input, 8000, 8000, |_a: f32, _b: f32, _n: u32, _d: u32| -> f32 {
        panic!("blend called at equal rates")
    });
    assert_eq!(out, input);
}

#[test]
fn length_is_floor_of_len_times_to_over_from() {
    assert_eq!(output_len(220500, 44100, 16000), Some(80000));
    assert_eq!(output_len(10, 3, 2), Some(6));
    assert_eq!(output_len(10, 2, 3), Some(15));
    assert_eq!(output_len(7, 48000, 16000), Some(2));
    assert_eq!(output_len(1, 48000, 16000), Some(0));
    let input = vec![0i16; 1000];
    assert_eq!(resample_pcm(&input, 44100, TARGET_RATE).len(), 362);
    let floats = vec![0.0f32; 441];
    assert_eq!(resample(&floats, 44100, 16000, lerp).len(), 160);
}

#[test]
fn five_seconds_at_44100_become_80000_samples() {
    let input = vec![0.25f32; 5 * 44100];
    let out = resample(&input, 44100, 16000, lerp);
    assert_eq!(out.len(), 80000);
}

#[test]
fn empty_input_gives_empty_output() {
    let none: Vec<f32> = Vec::new();
    assert_eq!(resample(&none, 44100, 16000, lerp), Vec::<f32>::new());
    assert_eq!(resample(&none, 0, 16000, lerp), Vec::<f32>::new());
    assert_eq!(resample_pcm(&[], 8000, 16000), Vec::<i16>::new());
    assert_eq!(output_len(0, 0, 16000), Some(0));
}

#[test]
fn target_rate_zero_gives_empty_output() {
    assert_eq!(output_len(100, 44100, 0), Some(0));
    assert_eq!(resample_pcm(&[1, 2, 3], 44100, 0), Vec::<i16>::new());
}

#[test]
fn output_len_refuses_what_cannot_be_converted() {
    assert_eq!(output_len(1, 0, 16000), None);
    assert_eq!(output_len(usize::MAX, 1, 4), None);
    assert_eq!(output_len(usize::MAX, 4, 1), Some(usize::MAX / 4));
}

#[test]
fn single_sample_fills_the_whole_output() {
    let out = resample_pcm(&[1234], 1, 5);
    assert_eq!(out, vec![1234i16; 5]);
    let floats = resample(&[0.75f32], 1, 4, lerp);
    assert_eq!(floats, vec![0.75f32; 4]);
}

#[test]
fn constant_pcm_stays_constant() {
    let input = vec![-321i16; 97];
    let up = resample_pcm(&input, 16000, 44100);
    assert_eq!(up.len(), 267);
    assert!(up.iter().all(|&s| s == -321));
    let down = resample_pcm(&input, 48000, 16000);
    assert_eq!(down.len(), 32);
    assert!(down.iter().all(|&s| s == -321));
}

#[test]
fn constant_floats_stay_constant() {
    let input = vec![0.5f32; 441];
    let out = resample(&input, 44100, 16000, lerp);
    assert_eq!(out.len(), 160);
    assert!(out.iter().all(|&s| (s - 0.5).abs() < 1e-6));
}

#[test]
fn doubling_the_rate_interpolates_between_neighbours() {
    assert_eq!(resample_pcm(&[0, 100], 1, 2), vec![0, 50, 100, 100]);
    assert_eq!(resample_pcm(&[0, 100, -100], 1, 2), vec![0, 50, 100, 0, -100, -100]);
    let floats = resample(&[0.0f32, 1.0], 1, 2, lerp);
    assert_eq!(floats, vec![0.0, 0.5, 1.0, 1.0]);
}

#[test]
fn halving_the_rate_keeps_every_other_sample() {
    assert_eq!(resample_pcm(&[10, 20, 30, 40, 50], 2, 1), vec![10, 30]);
}

#[test]
fn three_to_two_uses_exact_fractions() {
    // positions 0, 1.5, 3, 4.5
    assert_eq!(resample_pcm(&[0, 10, 20, 30, 40, 50], 3, 2), vec![0, 15, 30, 45]);
}

#[test]
fn tap_gives_neighbours_and_weight() {
    assert_eq!(tap(0, 6, 3, 2), Tap { lo: 0, hi: 1, num: 0, den: 2 });
    assert_eq!(tap(1, 6, 3, 2), Tap { lo: 1, hi: 2, num: 1, den: 2 });
    assert_eq!(tap(3, 6, 3, 2), Tap { lo: 4, hi: 5, num: 1, den: 2 });
    assert_eq!(tap(3, 2, 1, 2), Tap { lo: 1, hi: 1, num: 1, den: 2 });
    assert_eq!(tap(79999, 220500, 44100, 16000), Tap { lo: 220497, hi: 220498, num: 3900, den: 16000 });
}

#[test]
fn blend_rounds_down() {
    assert_eq!(blend_pcm(0, 100, 1, 4), 25);
    assert_eq!(blend_pcm(0, 1, 1, 2), 0);
    assert_eq!(blend_pcm(-1, 0, 1, 2), -1);
    assert_eq!(blend_pcm(0, -1, 1, 2), -1);
    assert_eq!(blend_pcm(i16::MIN, i16::MAX, 0, 7), i16::MIN);
    assert_eq!(blend_pcm(i16::MIN, i16::MAX, u32::MAX - 1, u32::MAX), i16::MAX - 1);
    assert_eq!(blend_pcm(i16::MAX, i16::MAX, 12345, 16000), i16::MAX);
    assert_eq!(blend_pcm(i16::MIN, i16::MIN, 15999, 16000), i16::MIN);
}

#[test]
fn blend_receives_the_fraction_over_the_target_rate() {
    let seen = resample(&[(0u32, 0u32), (1, 1), (2, 2)], 3, 2, |a: (u32, u32), b: (u32, u32), num: u32, den: u32| {
        assert_eq!(den, 2);
        (a.0 * 10 + b.0, num)
    });
    assert_eq!(seen, vec![(1, 0), (12, 1)]);
}
