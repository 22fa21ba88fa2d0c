use wavetable::graintable;
use wavetable::voiceset;
use wavetable::voiceset::interp::{self, WaveTable};

#[test]
fn mip_offset_levels() {
    assert_eq!(interp::mip_offset(0, 1000), 0);
    assert_eq!(interp::mip_offset(1, 1000), 1000);
    assert_eq!(interp::mip_offset(2, 1000), 1500);
    assert_eq!(interp::mip_offset(3, 1000), 1750);
    assert_eq!(interp::mip_offset(4, 1000), 1875);
    assert_eq!(interp::mip_offset(9, 1024), 2044);
    assert_eq!(interp::mip_offset(10, 1024), 2046);
    assert_eq!(interp::mip_offset(11, 1024), 0);
}

#[test]
fn mip_offset_nine_levels() {
    assert_eq!(voiceset::mip_offset(5, 4096), 7936);
    assert_eq!(voiceset::mip_offset(9, 1024), 2044);
    assert_eq!(voiceset::mip_offset(10, 1024), 0);
    assert_eq!(graintable::mip_offset(8, 256), 510);
    assert_eq!(graintable::mip_offset(10, 256), 0);
}

#[test]
fn mip_offset_matches_float_amounts() {
    let amounts: [f32; 11] = [
        0., 1., 1.5, 1.75, 1.875, 1.9375, 1.96875, 1.984375, 1.9921875, 1.99609375, 1.998046875,
    ];
    for len in [
        0usize, 1, 7, 100, 2048, 4096, 28672, 16384, 16777217, 16777219, 33554435, 123456789,
        987654321987, usize::MAX / 3, usize::MAX,
    ] {
        for mip in 0..11 {
            assert_eq!(interp::mip_offset(mip, len), (len as f32 * amounts[mip]) as usize);
        }
    }
}

#[test]
fn mip_offset_rounds_like_f32() {
    assert_eq!(interp::mip_offset(1, 16777217), 16777216);
    assert_eq!(voiceset::mip_offset(1, 16777217), 16777216);
    assert_eq!(graintable::mip_offset(2, 16777217), (16777217f32 * 1.5) as usize);
}

#[test]
fn mip_len_rounds_like_f32() {
    for len in [0usize, 1, 5, 4096, 16777217, 16777219, 123456789, usize::MAX] {
        let t = WaveTable { wave_number: 0, wave_len: 2048, len, amt_oversample: 1, mip_levels: 8 };
        for mip in [0usize, 1, 3, 23, 64, 127, 128, 200, 1 << 31, (1 << 32) - 1, (1 << 32) - 3, (1 << 32) + 2] {
            let expected = (len as f32 / 2f32.powi(mip as i32)) as usize;
            assert_eq!(t.mip_len(mip), expected, "len {} mip {}", len, mip);
        }
    }
}

#[test]
fn mip_offset_saturates() {
    assert_eq!(interp::mip_offset(3, usize::MAX), usize::MAX);
}

#[test]
fn mip_levels_back_to_back() {
    let len = 4096;
    for m in 0..9 {
        assert_eq!(interp::mip_offset(m + 1, len), interp::mip_offset(m, len) + len / (1 << m));
    }
}

#[test]
fn change_table_layout() {
    let mut t = WaveTable::default();
    assert_eq!(t.wave_len, 2048);
    assert_eq!(t.mip_levels, 8);
    t.change_table(8192 + 100);
    assert_eq!(t.wave_number, 4);
    assert_eq!(t.wave_len, 4096);
    assert_eq!(t.amt_oversample, 2);
    assert_eq!(t.len, 16384);
    assert_eq!(t.mips_len(), 32704);
}

#[test]
fn oversample_layout() {
    let mut t = WaveTable { wave_number: 3, wave_len: 10, len: 35, amt_oversample: 1, mip_levels: 1 };
    t.oversample(4);
    assert_eq!(t.amt_oversample, 4);
    assert_eq!(t.wave_len, 40);
    assert_eq!(t.len, 120);
}

#[test]
fn mip_len_halves() {
    let mut t = WaveTable::default();
    t.change_table(8192);
    assert_eq!(t.mip_len(0), 16384);
    assert_eq!(t.mip_len(3), 2048);
    assert_eq!(t.mip_len(20), 0);
    assert_eq!(t.mip_len(1000), 0);
}

#[test]
fn wave_ranges_follow_each_other() {
    let mut t = WaveTable::default();
    t.change_table(8192);
    assert_eq!(t.wave_range(0, 0), (0, 4096));
    assert_eq!(t.wave_range(0, 3), (12288, 16384));
    assert_eq!(t.wave_range(1, 0), (16384, 18432));
    assert_eq!(t.wave_range(1, 2), (20480, 22528));
    assert_eq!(t.wave_range(8, 3), (32688, 32704));
    for level in 0..8 {
        for wave in 0..4 {
            let (_, end) = t.wave_range(level, wave);
            let next = if wave + 1 < 4 { t.wave_range(level, wave + 1).0 } else { t.wave_range(level + 1, 0).0 };
            assert_eq!(end, next);
        }
    }
}

#[test]
fn coeff_taps_wrap_within_waveform() {
    let mut t = WaveTable::default();
    t.change_table(8192);
    assert_eq!(t.coeff_taps(0, 0, 0), (4095, 0, 1, 2));
    assert_eq!(t.coeff_taps(0, 0, 10), (9, 10, 11, 12));
    assert_eq!(t.coeff_taps(0, 1, 4094), (8189, 8190, 8191, 4096));
    assert_eq!(t.coeff_taps(0, 1, 4095), (8190, 8191, 4096, 4097));
    assert_eq!(t.coeff_taps(7, 3, 31), (32638, 32639, 32608, 32609));
}
