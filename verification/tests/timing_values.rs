use qmi_psram::regs::{pack_direct_enable, pack_read_format, pack_timing, pack_write_format};
use qmi_psram::timing::{derive_timing, TimingParams};

#[test]
fn timing_at_150_mhz() {
    let t = derive_timing(150_000_000);
    assert_eq!(t, TimingParams { clkdiv: 2, rxdelay: 2, max_select: 18, min_deselect: 2 });
}

#[test]
fn timing_at_133_mhz_avoids_divisor_one() {
    let t = derive_timing(133_000_000);
    assert_eq!(t, TimingParams { clkdiv: 2, rxdelay: 2, max_select: 16, min_deselect: 2 });
}

#[test]
fn timing_at_100_mhz_keeps_divisor_one() {
    let t = derive_timing(100_000_000);
    assert_eq!(t, TimingParams { clkdiv: 1, rxdelay: 1, max_select: 12, min_deselect: 1 });
}

#[test]
fn timing_just_above_100_mhz_forces_divisor_two() {
    let t = derive_timing(100_000_001);
    assert_eq!(t.clkdiv, 2);
    assert_eq!(t.rxdelay, 2);
}

#[test]
fn timing_at_250_mhz_adds_receive_delay() {
    let t = derive_timing(250_000_000);
    assert_eq!(t, TimingParams { clkdiv: 2, rxdelay: 3, max_select: 31, min_deselect: 4 });
}

#[test]
fn receive_delay_grows_only_above_200_mhz_at_divisor_two() {
    assert_eq!(derive_timing(200_000_000).rxdelay, 2);
    assert_eq!(derive_timing(200_000_001).rxdelay, 2);
    assert_eq!(derive_timing(200_000_002).rxdelay, 3);
}

#[test]
fn divisor_steps_at_multiples_of_the_chip_limit() {
    assert_eq!(derive_timing(266_000_000).clkdiv, 2);
    assert_eq!(derive_timing(266_000_001).clkdiv, 3);
    assert_eq!(derive_timing(267_000_000).rxdelay, 3);
}

#[test]
fn timing_at_one_hertz() {
    let t = derive_timing(1);
    assert_eq!(t, TimingParams { clkdiv: 1, rxdelay: 1, max_select: 0, min_deselect: 0 });
}

#[test]
fn timing_at_the_largest_clock_truncates_max_select() {
    let t = derive_timing(u32::MAX);
    assert_eq!(t, TimingParams { clkdiv: 33, rxdelay: 34, max_select: 24, min_deselect: 61 });
}

#[test]
fn divisor_and_receive_delay_laws_hold_over_the_operating_range() {
    let mut hz: u32 = 100_000_000;
    while hz <= 250_000_000 {
        let t = derive_timing(hz);
        assert!(t.clkdiv >= 1);
        assert!(t.clkdiv != 1 || hz <= 100_000_000);
        assert!(t.rxdelay >= t.clkdiv);
        assert_eq!(t.rxdelay == t.clkdiv + 1, hz / t.clkdiv > 100_000_000);
        hz += 250_000;
    }
}

#[test]
fn windows_never_shrink_as_the_clock_rises_within_one_divisor() {
    let mut hz: u32 = 134_000_000;
    let mut last = derive_timing(hz);
    while hz <= 266_000_000 {
        let t = derive_timing(hz);
        assert_eq!(t.clkdiv, 2);
        assert!(t.max_select >= last.max_select);
        assert!(t.min_deselect >= last.min_deselect);
        last = t;
        hz += 500_000;
    }
    assert_eq!(derive_timing(150_000_000).max_select, 18);
    assert_eq!(derive_timing(200_000_000).max_select, 25);
}

#[test]
fn timing_word_at_150_mhz() {
    assert_eq!(pack_timing(derive_timing(150_000_000)), 0x6024_2202);
}

#[test]
fn timing_word_cuts_each_value_to_its_field() {
    let t = TimingParams { clkdiv: 0x1FF, rxdelay: 0xF, max_select: 0xFF, min_deselect: 0x3F };
    assert_eq!(pack_timing(t), 0x6000_0000 | (0x3F << 17) | (0x1F << 12) | (0x7 << 8) | 0xFF);
    let zero = TimingParams { clkdiv: 0, rxdelay: 0, max_select: 0, min_deselect: 0 };
    assert_eq!(pack_timing(zero), 0x6000_0000);
}

#[test]
fn format_words() {
    assert_eq!(pack_read_format(), 0x0006_12AA);
    assert_eq!(pack_write_format(), 0x0000_12AA);
}

#[test]
fn direct_enable_words() {
    assert_eq!(pack_direct_enable(30, false), 0x0780_0001);
    assert_eq!(pack_direct_enable(10, true), 0x0280_0081);
    assert_eq!(pack_direct_enable(0, false), 0x0000_0001);
}
