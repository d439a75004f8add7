use polysynth::reverb::{advance_index, allpass_delays, comb_delays, scaled_delay};

#[test]
fn delays_at_reference_rate() {
    assert_eq!(comb_delays(44100), [1557, 1617, 1491, 1422, 1277, 1356, 1188, 1116]);
    assert_eq!(allpass_delays(44100), [225, 556, 441, 341]);
}

#[test]
fn delays_scale_with_rounding() {
    // 1557 * 48000 / 44100 = 1694.69...
    assert_eq!(scaled_delay(1557, 48000), 1695);
    // 225 * 22050 / 44100 = 112.5, rounded up
    assert_eq!(scaled_delay(225, 22050), 113);
    assert_eq!(allpass_delays(88200), [450, 1112, 882, 682]);
}

#[test]
fn delays_never_zero() {
    assert_eq!(scaled_delay(1116, 1), 1);
    assert_eq!(scaled_delay(0, 44100), 1);
    assert!(comb_delays(0).iter().all(|&d| d == 1));
}

#[test]
fn circular_index_wraps() {
    assert_eq!(advance_index(0, 3), 1);
    assert_eq!(advance_index(2, 3), 0);
    assert_eq!(advance_index(0, 1), 0);
}
