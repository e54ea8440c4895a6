use emon::display::{
    apply_gradient, bar_widths, blend_channel, chart_bounds, connection_status, current_severity,
    dimmed, error_line_width, error_popup_area, fill, gauge_permille, get_rainbow_gradient,
    gradient_steps, notice_area, refresh_label, remaining_capacity, segment_start, spinner_frame,
    stop_color, temperature_severity, voltage_severity, Area, ConnectionStatus, Rgb, Severity,
    GAUGE_CHARGE_SCALE, GAUGE_POWER_SCALE, RAINBOW_STOPS,
};
use emon::text::{chars_of, trim_chars};

#[test]
fn the_error_popup_is_centred() {
    assert_eq!(error_popup_area(100, 40), Area { x: 20, y: 15, width: 60, height: 10 });
    assert_eq!(error_popup_area(200, 50), Area { x: 60, y: 20, width: 80, height: 10 });
    assert_eq!(error_popup_area(61, 25), Area { x: 12, y: 7, width: 36, height: 10 });
    assert_eq!(error_popup_area(0, 0), Area { x: 0, y: 0, width: 0, height: 10 });
    assert_eq!(error_popup_area(u16::MAX, u16::MAX).width, 80);
}

#[test]
fn error_lines_leave_room_for_the_border() {
    assert_eq!(error_line_width(60), 54);
    assert_eq!(error_line_width(6), 0);
    assert_eq!(error_line_width(3), 0);
}

#[test]
fn the_notice_fits_small_terminals() {
    assert_eq!(notice_area(59, 24), Area { x: 9, y: 8, width: 40, height: 8 });
    assert_eq!(notice_area(30, 5), Area { x: 0, y: 0, width: 30, height: 8 });
    assert_eq!(notice_area(40, 8), Area { x: 0, y: 0, width: 40, height: 8 });
}

#[test]
fn the_status_follows_the_age_of_the_data() {
    assert_eq!(connection_status(false, Some(0)), ConnectionStatus::Live);
    assert_eq!(connection_status(false, Some(4_999)), ConnectionStatus::Live);
    assert_eq!(connection_status(false, Some(5_000)), ConnectionStatus::Sync);
    assert_eq!(connection_status(false, Some(9_999)), ConnectionStatus::Sync);
    assert_eq!(connection_status(false, Some(10_000)), ConnectionStatus::Stale);
    assert_eq!(connection_status(false, None), ConnectionStatus::Stale);
    assert_eq!(connection_status(true, Some(0)), ConnectionStatus::Reconnecting);
    assert_eq!(connection_status(true, None), ConnectionStatus::Reconnecting);
}

#[test]
fn the_spinner_turns_four_times_a_second() {
    assert_eq!(spinner_frame(0), 0);
    assert_eq!(spinner_frame(249), 0);
    assert_eq!(spinner_frame(250), 1);
    assert_eq!(spinner_frame(500), 2);
    assert_eq!(spinner_frame(750), 3);
    assert_eq!(spinner_frame(1000), 0);
    assert_eq!(spinner_frame(u128::MAX), ((u128::MAX / 250) % 4) as u8);
}

#[test]
fn severities_follow_their_thresholds() {
    assert_eq!(temperature_severity(34_999), Severity::Normal);
    assert_eq!(temperature_severity(35_000), Severity::Warning);
    assert_eq!(voltage_severity(209_999), Severity::Critical);
    assert_eq!(voltage_severity(210_000), Severity::Warning);
    assert_eq!(voltage_severity(219_999), Severity::Warning);
    assert_eq!(voltage_severity(220_000), Severity::Normal);
    assert_eq!(current_severity(79_999), Severity::Normal);
    assert_eq!(current_severity(80_000), Severity::Warning);
    assert_eq!(current_severity(99_999), Severity::Warning);
    assert_eq!(current_severity(100_000), Severity::Critical);
}

#[test]
fn fill_is_the_share_of_the_width() {
    assert_eq!(fill(50, 100, 40), 20);
    assert_eq!(fill(1, 3, 10), 3);
    assert_eq!(fill(2, 3, 10), 6);
    assert_eq!(fill(100, 100, 40), 40);
    assert_eq!(fill(250, 100, 40), 40);
    assert_eq!(fill(0, 100, 40), 0);
    assert_eq!(fill(-5, 100, 40), 0);
    assert_eq!(fill(i64::MAX, i64::MAX, u16::MAX), u16::MAX);
    assert_eq!(fill(i64::MAX - 1, i64::MAX, u16::MAX), u16::MAX - 1);
}

#[test]
fn fill_on_a_scale_that_is_not_positive() {
    assert_eq!(fill(5, 0, 40), 40);
    assert_eq!(fill(0, 0, 40), 40);
    assert_eq!(fill(-5, 0, 40), 0);
    assert_eq!(fill(5, -100, 40), 0);
    assert_eq!(fill(0, -100, 40), 0);
    assert_eq!(fill(-50, -100, 40), 20);
    assert_eq!(fill(-100, -100, 40), 40);
    assert_eq!(fill(i64::MIN, i64::MIN, 40), 40);
    assert_eq!(fill(-1, i64::MIN, 40), 0);
}

#[test]
fn gauges_fill_to_their_scale() {
    assert_eq!(gauge_permille(9_000_000, GAUGE_POWER_SCALE), 500);
    assert_eq!(gauge_permille(18_000_000, GAUGE_POWER_SCALE), 1000);
    assert_eq!(gauge_permille(40_000_000, GAUGE_POWER_SCALE), 1000);
    assert_eq!(gauge_permille(-1, GAUGE_POWER_SCALE), 0);
    assert_eq!(gauge_permille(87_500, GAUGE_CHARGE_SCALE), 875);
    assert_eq!(gauge_permille(1_234_567, GAUGE_POWER_SCALE), 68);
}

#[test]
fn bars_take_what_the_legend_leaves() {
    assert_eq!(bar_widths(75, 50_000, 100_000), (40, 20));
    assert_eq!(bar_widths(75, 150_000, 100_000), (40, 40));
    assert_eq!(bar_widths(35, 50_000, 100_000), (0, 0));
    assert_eq!(bar_widths(10, 50_000, 100_000), (0, 0));
    assert_eq!(bar_widths(75, 0, 100_000), (40, 0));
}

#[test]
fn bars_are_shaded_in_at_most_ten_segments() {
    assert_eq!(gradient_steps(0), 0);
    assert_eq!(gradient_steps(7), 7);
    assert_eq!(gradient_steps(10), 10);
    assert_eq!(gradient_steps(200), 10);
    let starts: Vec<u16> = (0..=10).map(|step| segment_start(step, 10, 25)).collect();
    assert_eq!(starts, vec![0, 2, 5, 7, 10, 12, 15, 17, 20, 22, 25]);
    assert_eq!(segment_start(3, 3, u16::MAX), u16::MAX);
}

#[test]
fn the_rainbow_has_its_stops() {
    assert_eq!(RAINBOW_STOPS, 49);
    let expected = [
        (0, (180, 0, 0)),
        (1, (180, 10, 0)),
        (15, (180, 150, 0)),
        (16, (180, 155, 0)),
        (20, (180, 175, 0)),
        (21, (160, 175, 0)),
        (28, (20, 175, 0)),
        (29, (0, 175, 0)),
        (30, (0, 175, 20)),
        (37, (0, 175, 160)),
        (38, (0, 160, 175)),
        (41, (0, 115, 175)),
        (42, (5, 105, 165)),
        (45, (20, 75, 135)),
        (46, (25, 80, 140)),
        (48, (35, 90, 150)),
    ];
    for (i, (r, g, b)) in expected {
        assert_eq!(stop_color(i), Rgb { r, g, b }, "stop {}", i);
    }
}

#[test]
fn the_rainbow_blends_between_stops() {
    assert_eq!(get_rainbow_gradient(0), Rgb { r: 180, g: 0, b: 0 });
    assert_eq!(get_rainbow_gradient(1000), Rgb { r: 35, g: 90, b: 150 });
    assert_eq!(get_rainbow_gradient(5000), Rgb { r: 35, g: 90, b: 150 });
    // 500 thousandths of 48 stops is stop 24 exactly.
    assert_eq!(get_rainbow_gradient(500), Rgb { r: 100, g: 175, b: 0 });
    // 10 thousandths: position 0.48, between stop 0 and stop 1.
    assert_eq!(get_rainbow_gradient(10), Rgb { r: 180, g: 4, b: 0 });
    // 450 thousandths: position 21.6, from (160,175,0) towards (140,175,0).
    assert_eq!(get_rainbow_gradient(450), Rgb { r: 148, g: 175, b: 0 });
    // 900 thousandths: position 43.2, from (10,95,155) towards (15,85,145).
    assert_eq!(get_rainbow_gradient(900), Rgb { r: 11, g: 93, b: 153 });
}

#[test]
fn blending_rounds_down() {
    assert_eq!(blend_channel(0, 10, 480), 4);
    assert_eq!(blend_channel(10, 0, 480), 5);
    assert_eq!(blend_channel(10, 10, 999), 10);
    assert_eq!(blend_channel(0, 255, 999), 254);
    assert_eq!(blend_channel(255, 0, 999), 0);
    assert_eq!(blend_channel(255, 0, 1), 254);
    assert_eq!(blend_channel(100, 200, 0), 100);
}

#[test]
fn shading_runs_from_four_tenths_to_full() {
    let base = Rgb { r: 255, g: 100, b: 10 };
    assert_eq!(apply_gradient(base, 0, 10), Rgb { r: 102, g: 40, b: 4 });
    assert_eq!(apply_gradient(base, 5, 10), Rgb { r: 178, g: 70, b: 7 });
    assert_eq!(apply_gradient(base, 10, 10), base);
    assert_eq!(apply_gradient(base, 0, 0), Rgb { r: 102, g: 40, b: 4 });
    assert_eq!(apply_gradient(base, u16::MAX, u16::MAX), base);
    assert_eq!(dimmed(base), Rgb { r: 63, g: 25, b: 2 });
}

#[test]
fn the_chart_reaches_from_the_lowest_battery_power_to_the_peak_power() {
    assert_eq!(chart_bounds(&vec![], None), (0, 20));
    assert_eq!(chart_bounds(&vec![500_000, 1_000_000], Some(18_000_000)), (0, 18));
    assert_eq!(chart_bounds(&vec![500_000, -1], Some(18_000_000)), (-2, 18));
    assert_eq!(chart_bounds(&vec![-2_000_000], Some(17_000_001)), (-2, 18));
    assert_eq!(chart_bounds(&vec![-2_000_001, -100], Some(16_000_000)), (-4, 16));
    assert_eq!(chart_bounds(&vec![-7_300_000, 3_000_000], Some(5_000_000)), (-8, 6));
    assert_eq!(chart_bounds(&vec![0], Some(0)), (0, 2));
    assert_eq!(chart_bounds(&vec![0], Some(-5_000_000)), (0, 2));
    assert_eq!(chart_bounds(&vec![0], Some(1)), (0, 2));
    assert_eq!(chart_bounds(&vec![i64::MIN], Some(i64::MAX)).0, -9_223_372_036_856);
    assert_eq!(chart_bounds(&vec![i64::MIN], Some(i64::MAX)).1, 9_223_372_036_856);
}

#[test]
fn the_header_names_the_refresh_rate() {
    assert_eq!(refresh_label(None), "Refresh: 5s");
    assert_eq!(refresh_label(Some(0)), "Refresh: realtime");
    assert_eq!(refresh_label(Some(1)), "Refresh: 1s");
    assert_eq!(refresh_label(Some(120)), "Refresh: 120s");
    assert_eq!(refresh_label(Some(u64::MAX)), format!("Refresh: {}s", u64::MAX));
}

#[test]
fn remaining_energy_is_the_charged_share_of_the_capacity() {
    assert_eq!(remaining_capacity(50_000, 15_360), 7_680);
    assert_eq!(remaining_capacity(100_000, 15_360), 15_360);
    assert_eq!(remaining_capacity(33_333, 10_000), 3_333);
    assert_eq!(remaining_capacity(-50_000, 15_360), -7_680);
    assert_eq!(remaining_capacity(0, i64::MAX), 0);
    assert_eq!(remaining_capacity(i64::MAX, i64::MAX), i64::MAX);
    assert_eq!(remaining_capacity(i64::MIN, i64::MAX), -i64::MAX);
}

#[test]
fn trimming_removes_unicode_whitespace() {
    let trimmed = trim_chars(&chars_of(" \t\u{00a0}\u{2003}3 m\u{3000}\n"));
    assert_eq!(trimmed.iter().collect::<String>(), "3 m");
    assert_eq!(trim_chars(&chars_of("\u{200b}x\u{200b}")).len(), 3);
    assert!(trim_chars(&chars_of(" \u{1680}\u{2028}\u{2029}\u{202f}\u{205f}\u{0085} ")).is_empty());
    assert_eq!(chars_of("aé😀"), vec!['a', 'é', '😀']);
}

#[test]
fn whitespace_is_what_the_standard_library_says() {
    for code in 0..=0x11_0000u32 {
        if let Some(c) = char::from_u32(code) {
            assert_eq!(emon::text::char_is_whitespace(c), c.is_whitespace(), "U+{:04X}", code);
        }
    }
}
