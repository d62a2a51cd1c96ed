use tuner::pitch::{hps_bins, keep_latest, mpm_lags, yin_lags, Mpm, BUFFER_SIZE, HPS_HARMONICS};

#[test]
fn buffer_keeps_latest_samples() {
    let mut b = vec![1, 2, 3, 4, 5];
    keep_latest(&mut b, 3);
    assert_eq!(b, vec![3, 4, 5]);
    let mut b = vec![1, 2];
    keep_latest(&mut b, 3);
    assert_eq!(b, vec![1, 2]);
    let mut b: Vec<f32> = (0..BUFFER_SIZE + 10).map(|i| i as f32).collect();
    keep_latest(&mut b, BUFFER_SIZE);
    assert_eq!(b.len(), 8192);
    assert_eq!(b[0], 10.0);
}

#[test]
fn yin_lag_window() {
    // 8192 samples at 44.1 kHz: half is 4096, lags 44 .. min(4096, 882)
    assert_eq!(yin_lags(8192, 44100), Some((4096, 44, 882)));
    assert_eq!(yin_lags(1000, 44100), Some((500, 44, 500)));
    assert_eq!(yin_lags(3, 44100), None);
    assert_eq!(yin_lags(4, 48000), Some((2, 48, 2)));
}

#[test]
fn mpm_lag_window() {
    assert_eq!(mpm_lags(8192, 44100), Some((44, 882)));
    // the largest lag must stay below the number of samples
    assert_eq!(mpm_lags(882, 44100), None);
    assert_eq!(mpm_lags(883, 44100), Some((44, 882)));
    assert_eq!(mpm_lags(40, 44100), None);
    assert_eq!(mpm_lags(1, 44100), None);
}

#[test]
fn hps_bin_window() {
    // 8192-point FFT at 44.1 kHz: Nyquist bin 4096, 50 Hz -> bin 10, 2000 Hz -> bin 371
    assert_eq!(hps_bins(4096, 10, 371), Some((10, 371)));
    // the fifth harmonic must stay below the Nyquist bin
    assert_eq!(hps_bins(1024, 10, 371), Some((10, 203)));
    assert_eq!(hps_bins(40, 10, 371), None);
    assert_eq!(hps_bins(4096, 371, 371), None);
    assert_eq!(hps_bins(1, 0, 5), None);
    assert_eq!(HPS_HARMONICS, 5);
}

#[test]
fn mpm_has_no_state() {
    let _m = Mpm::new();
}
