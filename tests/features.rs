use wakascribe::features::{
    frame_samples, num_frames, transpose, triangular_filterbank, FilterWeight, N_FFT,
};

#[test]
fn frame_counts() {
    assert_eq!(num_frames(0), 1);
    assert_eq!(num_frames(512), 1);
    assert_eq!(num_frames(513), 1);
    assert_eq!(num_frames(672), 2);
    assert_eq!(num_frames(16000), 97);
}

#[test]
fn frames_are_padded_past_the_end() {
    let audio: Vec<f32> = (0..600).map(|i| i as f32).collect();
    let f0 = frame_samples(&audio, 0, 0.0f32);
    assert_eq!(f0.len(), N_FFT);
    assert_eq!(f0[511], 511.0);
    let f1 = frame_samples(&audio, 1, 0.0f32);
    assert_eq!(f1[0], 160.0);
    assert_eq!(f1[439], 599.0);
    assert_eq!(f1[440], 0.0);
    assert_eq!(f1[511], 0.0);
    let short = frame_samples(&[1.0f32, 2.0], 0, 0.0f32);
    assert_eq!(short.len(), N_FFT);
    assert_eq!(short[1], 2.0);
    assert_eq!(short[2], 0.0);
}

#[test]
fn transpose_swaps_layout() {
    // two mel rows of three frames
    let m = vec![1, 2, 3, 4, 5, 6];
    assert_eq!(transpose(&m, 2, 3), vec![1, 4, 2, 5, 3, 6]);
    assert_eq!(transpose(&m, 1, 6), m);
    let empty: Vec<u8> = vec![];
    assert_eq!(transpose(&empty, 0, 4), empty);
}

#[test]
fn filterbank_triangles() {
    let bank = triangular_filterbank(&[0, 2, 4, 5], 6);
    assert_eq!(bank.len(), 2);
    let w = |num, den| FilterWeight { num, den };
    assert_eq!(bank[0], vec![w(0, 2), w(1, 2), w(2, 2), w(1, 2), w(0, 1), w(0, 1)]);
    assert_eq!(bank[1], vec![w(0, 1), w(0, 1), w(0, 2), w(1, 2), w(1, 1), w(0, 1)]);
}

#[test]
fn filterbank_is_zero_outside_each_span() {
    let bins = [1usize, 3, 6, 10, 12];
    let bank = triangular_filterbank(&bins, 14);
    for m in 0..3 {
        for k in 0..14 {
            let wgt = bank[m][k];
            assert!(wgt.den > 0 && wgt.num <= wgt.den);
            if k < bins[m] || k >= bins[m + 2] {
                assert_eq!(wgt.num, 0);
            }
        }
    }
    assert_eq!(bank[1][6], FilterWeight { num: 4, den: 4 });
}
