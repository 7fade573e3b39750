use bpesc_balance::balance::{BalanceData, KeyResponse, KeyUsage, PaceStatus};
use bpesc_balance::compositor::{
    compose_gauge, fill_color, fill_ratio, has_data, menubar_icon, stroke_color, MenubarIcon,
};
use bpesc_balance::display::{format_value, menubar_display_value};
use bpesc_balance::gauge::gauge_pixel;
use bpesc_balance::hexagon::{is_inside_hexagon, is_on_hexagon_border};
use bpesc_balance::icon::{gauge_layout, logo_layout, Rgba, RENDER_SCALE};
use bpesc_balance::pace::{
    balance_from_response, balance_from_response_now, balance_from_usage, compute_pace_status, normalized_pace_thresholds,
    pace_status_from_delta, percent_from_target, LocalMoment,
};
use bpesc_balance::settings::AppSettings;

const M: i64 = 1_000_000;

fn moment(year: i32, month: u32, day: u32, hour: u32) -> LocalMoment {
    LocalMoment { year, month, day, hour, minute: 0, second: 0, weekday: 3 }
}

fn usage(limit: Option<i64>, used_monthly: Option<i64>, remaining: Option<i64>) -> KeyUsage {
    KeyUsage {
        limit,
        usage: None,
        usage_daily: None,
        usage_weekly: None,
        usage_monthly: used_monthly,
        limit_remaining: remaining,
        label: None,
    }
}

#[test]
fn thresholds_are_normalized_when_over_not_above_warn() {
    let mut s = AppSettings::default();
    s.pace_warn_threshold = 3000;
    s.pace_over_threshold = 2000;
    assert_eq!(normalized_pace_thresholds(&s), (3000, 3100));
    s.pace_over_threshold = 3000;
    assert_eq!(normalized_pace_thresholds(&s), (3000, 3100));
    s.pace_warn_threshold = -500;
    s.pace_over_threshold = -900;
    assert_eq!(normalized_pace_thresholds(&s), (0, 100));
    s.pace_warn_threshold = 1500;
    s.pace_over_threshold = 2500;
    assert_eq!(normalized_pace_thresholds(&s), (1500, 2500));
}

#[test]
fn status_moves_from_on_track_to_behind_to_ahead() {
    let seq: Vec<PaceStatus> = [-10_000i128, 0, 1500, 1501, 2000, 2500, 2501, 90_000]
        .iter()
        .map(|d| pace_status_from_delta(*d, 1500, 2500))
        .collect();
    assert_eq!(
        seq,
        vec![
            PaceStatus::OnTrack,
            PaceStatus::OnTrack,
            PaceStatus::OnTrack,
            PaceStatus::Behind,
            PaceStatus::Behind,
            PaceStatus::Behind,
            PaceStatus::Ahead,
            PaceStatus::Ahead,
        ]
    );
    assert_eq!(PaceStatus::OnTrack.as_str(), "on_track");
    assert_eq!(PaceStatus::Ahead.as_str(), "ahead");
    assert_eq!(PaceStatus::Behind.as_str(), "behind");
}

#[test]
fn fill_ratio_is_clamped() {
    let mut s = AppSettings::default();
    s.show_remaining = false;
    let mut b = BalanceData::empty();
    b.limit = Some(100 * M);
    b.usage_monthly = Some(250 * M);
    assert_eq!(fill_ratio(&b, &s), M);
    b.usage_monthly = Some(-5 * M);
    assert_eq!(fill_ratio(&b, &s), 0);
    b.usage_monthly = Some(25 * M);
    assert_eq!(fill_ratio(&b, &s), 250_000);
    b.limit = None;
    assert_eq!(fill_ratio(&b, &s), M);
}

#[test]
fn value_text_without_decimals_rounds_half_up() {
    assert_eq!(format_value(2_500_000, 0), "3");
    assert_eq!(format_value(2_499_999, 0), "2");
    assert_eq!(format_value(-2_500_000, 0), "-3");
    assert_eq!(format_value(-2_400_000, 0), "-2");
    assert_eq!(format_value(40_000_000, 0), "40");
    assert_eq!(format_value(0, 0), "0");
}

#[test]
fn value_text_with_decimals() {
    assert_eq!(format_value(1_250_000, 1), "1.3");
    assert_eq!(format_value(1_250_000, 3), "1.250");
    assert_eq!(format_value(-1_050_000, 2), "-1.05");
    assert_eq!(format_value(42_000_000, 8), "42.00000000");
    assert_eq!(format_value(7_123_456, 6), "7.123456");
}

#[test]
fn display_value_floors_without_decimals() {
    let mut s = AppSettings::default();
    let mut b = BalanceData::empty();
    b.limit = Some(3 * M);
    b.remaining_monthly = Some(2 * M);
    // two thirds of the limit: 66.67 %
    assert_eq!(menubar_display_value(&b, &s), 66 * M as i128);
    s.decimal_places = 1;
    assert_eq!(menubar_display_value(&b, &s), 66_700_000);
    s.show_percentage = false;
    s.decimal_places = 0;
    b.remaining_monthly = Some(12_900_000);
    assert_eq!(menubar_display_value(&b, &s), 12 * M as i128);
}

#[test]
fn layout_doubles_with_scale() {
    let one = gauge_layout(2, 40, 15, true, true);
    let two = gauge_layout(4, 80, 30, true, true);
    assert_eq!(two.canvas_width, 2 * one.canvas_width);
    assert_eq!(two.canvas_height, 2 * one.canvas_height);
    assert_eq!(two.hex_width, 2 * one.hex_width);
    assert_eq!(two.value_x, 2 * one.value_x);
    assert_eq!(two.unit_x.unwrap(), 2 * one.unit_x.unwrap());
    assert_eq!(one.canvas_width, 29 * 2 + 40 + 15);
    assert_eq!(one.canvas_height, 44);
    assert_eq!(one.hex_width, 36);
    assert_eq!(one.border, 3);
    assert_eq!(one.value_x, 48);
    assert_eq!(one.unit_x, Some(48 + 40 + 2));
    let dollars = gauge_layout(2, 40, 15, true, false);
    assert_eq!(dollars.unit_x, Some(48));
    assert_eq!(dollars.value_x, 48 + 15 + 2);
    let bare = gauge_layout(2, 40, 15, false, false);
    assert_eq!(bare.unit_x, None);
    assert_eq!(bare.canvas_width, 28 * 2 + 40);
    let l1 = logo_layout(2);
    let l2 = logo_layout(4);
    assert_eq!((l1.canvas_size, l1.logo_size, l1.offset), (44, 36, 4));
    assert_eq!((l2.canvas_size, l2.logo_size, l2.offset), (88, 72, 8));
}

#[test]
fn end_to_end_on_track_forty_percent() {
    let data = usage(Some(100 * M), Some(60 * M), Some(40 * M));
    // day 20 of June, a 30-day month, at midnight: 19 days elapsed
    let b = balance_from_usage(data, &moment(2025, 6, 20, 0));
    assert_eq!(b.usage_monthly, Some(60 * M));
    assert_eq!(b.remaining_monthly, Some(40 * M));
    assert_eq!(b.pace_month_target, Some(63_333_333));
    // (60 - 63.33) / 63.33 = -5.26 %
    assert_eq!(b.pace_month_delta_percent, Some(-527));
    assert_eq!(b.pace_status, Some(PaceStatus::OnTrack));
    let s = AppSettings::default();
    assert_eq!(compute_pace_status(&b, &s), Some(PaceStatus::OnTrack));
    assert_eq!(menubar_display_value(&b, &s), 40 * M as i128);
    match menubar_icon(&b, &s, true, RENDER_SCALE) {
        MenubarIcon::Gauge(g) => {
            assert_eq!(g.value_text, "40");
            assert_eq!(g.unit_text, "%");
            assert!(g.show_unit && g.is_percentage);
            assert_eq!(g.style.fill_ratio, 400_000);
            assert!(!g.style.fill_from_top);
            assert_eq!(g.style.fill, Rgba { r: 16, g: 185, b: 129, a: 200 });
            assert_eq!(g.style.stroke, Rgba { r: 255, g: 255, b: 255, a: 255 });
        }
        MenubarIcon::LogoOnly(_) => panic!("expected a gauge"),
    }
}

#[test]
fn no_data_gives_logo_only() {
    let b = BalanceData::empty();
    assert!(!has_data(&b));
    let s = AppSettings::default();
    match menubar_icon(&b, &s, false, RENDER_SCALE) {
        MenubarIcon::LogoOnly(l) => {
            assert_eq!((l.canvas_size, l.logo_size, l.offset), (44, 36, 4));
        }
        MenubarIcon::Gauge(_) => panic!("expected the logo alone"),
    }
}

#[test]
fn pace_ratio_uses_length_of_month() {
    // 2024 is a leap year: February has 29 days; noon of the 15th is 14.5 days in
    let b = balance_from_usage(usage(None, None, None), &moment(2024, 2, 15, 12));
    assert_eq!(b.pace_ratio, Some(500_000));
    let b = balance_from_usage(usage(None, None, None), &moment(2023, 2, 15, 12));
    assert_eq!(b.pace_ratio, Some(517_857));
    assert_eq!(b.pace_month_target, None);
    assert_eq!(b.pace_status, None);
}

#[test]
fn pace_ahead_and_behind() {
    // 10 of 30 days elapsed: target 33.33
    let m = moment(2025, 9, 11, 0);
    let b = balance_from_usage(usage(Some(90 * M), Some(45 * M), None), &m);
    assert_eq!(b.pace_month_target, Some(30 * M));
    assert_eq!(b.pace_month_delta_percent, Some(5000));
    assert_eq!(b.pace_status, Some(PaceStatus::Ahead));
    let b = balance_from_usage(usage(Some(90 * M), Some(35 * M), None), &m);
    assert_eq!(b.pace_month_delta_percent, Some(1666));
    assert_eq!(b.pace_status, Some(PaceStatus::Behind));
    assert_eq!(b.remaining_monthly, Some(55 * M));
}

#[test]
fn week_and_day_targets() {
    let mut data = usage(Some(300 * M), Some(100 * M), None);
    data.usage_weekly = Some(25 * M);
    data.usage_daily = Some(0);
    data.usage = Some(120 * M);
    // Wednesday (two days since Monday) at 06:00 of a 30-day month
    let mut m = moment(2025, 4, 16, 6);
    m.weekday = 2;
    let b = balance_from_usage(data, &m);
    // ten currency units a day
    assert_eq!(b.pace_week_target, Some(22_500_000));
    assert_eq!(b.pace_day_target, Some(2_500_000));
    assert_eq!(b.pace_week_delta_percent, Some(1111));
    assert_eq!(b.pace_day_delta_percent, Some(-10_000));
    assert_eq!(b.remaining, Some(180 * M));
}

#[test]
fn delta_is_absent_without_positive_target() {
    assert_eq!(percent_from_target(5 * M, 0), None);
    assert_eq!(percent_from_target(15 * M, 10 * M), Some(5000));
    assert_eq!(percent_from_target(M, 3 * M), Some(-6667));
}

#[test]
fn status_falls_back_to_usage_share() {
    let s = AppSettings::default();
    let mut b = BalanceData::empty();
    b.limit = Some(100 * M);
    b.usage = Some(80 * M);
    b.pace_ratio = Some(500_000);
    // 80 % used at half of the month: 30 points ahead
    assert_eq!(compute_pace_status(&b, &s), Some(PaceStatus::Ahead));
    b.usage = Some(68 * M);
    assert_eq!(compute_pace_status(&b, &s), Some(PaceStatus::Behind));
    b.usage = Some(50 * M);
    assert_eq!(compute_pace_status(&b, &s), Some(PaceStatus::OnTrack));
    b.limit = Some(0);
    assert_eq!(compute_pace_status(&b, &s), None);
}

#[test]
fn response_errors() {
    let r = balance_from_response(
        KeyResponse { data: None, error: Some("quota".to_string()) },
        &moment(2025, 1, 1, 0),
    );
    assert_eq!(r.unwrap_err(), "API error: quota");
    let r = balance_from_response(KeyResponse { data: None, error: None }, &moment(2025, 1, 1, 0));
    assert_eq!(r.unwrap_err(), "API response missing data. Please try again.");
    let r = balance_from_response(
        KeyResponse { data: Some(usage(Some(M), None, None)), error: None },
        &moment(2025, 12, 31, 23),
    );
    assert_eq!(r.unwrap().limit, Some(M));
}

#[test]
fn colors_follow_mode_and_status() {
    assert_eq!(stroke_color(false), Rgba { r: 0, g: 0, b: 0, a: 255 });
    let mut s = AppSettings::default();
    let mut b = BalanceData::empty();
    b.pace_month_delta_percent = Some(3000);
    assert_eq!(fill_color(&b, &s), Rgba { r: 239, g: 68, b: 68, a: 200 });
    b.pace_month_delta_percent = Some(2000);
    assert_eq!(fill_color(&b, &s), Rgba { r: 234, g: 179, b: 8, a: 210 });
    b.pace_month_delta_percent = None;
    assert_eq!(fill_color(&b, &s), Rgba { r: 255, g: 255, b: 255, a: 128 });
    s.menubar_monochrome = true;
    assert_eq!(fill_color(&b, &s), Rgba { r: 255, g: 255, b: 255, a: 180 });
}

#[test]
fn hexagon_pixels() {
    let l = gauge_layout(2, 40, 15, true, true);
    // center of the hexagon
    assert!(is_inside_hexagon(&l, 18, 22));
    assert!(!is_on_hexagon_border(&l, 18, 22));
    // the top corners of the canvas are outside
    assert!(!is_inside_hexagon(&l, 0, 0));
    assert!(!is_inside_hexagon(&l, 35, 0));
    // the left side is the outline
    assert!(is_inside_hexagon(&l, 0, 22));
    assert!(is_on_hexagon_border(&l, 0, 22));
}

#[test]
fn gauge_layer_is_drawn() {
    let mut s = AppSettings::default();
    s.show_remaining = true;
    let mut b = BalanceData::empty();
    b.limit = Some(100 * M);
    b.remaining_monthly = Some(50 * M);
    b.pace_month_delta_percent = Some(0);
    let request = match menubar_icon(&b, &s, true, 2) {
        MenubarIcon::Gauge(g) => g,
        MenubarIcon::LogoOnly(_) => panic!("expected a gauge"),
    };
    let icon = compose_gauge(&request, 2, 40, 15);
    let w = icon.layout.canvas_width as usize;
    assert_eq!(icon.pixels.len(), w * 44 * 4);
    let at = |x: usize, y: usize| -> [u8; 4] {
        let i = (y * w + x) * 4;
        [icon.pixels[i], icon.pixels[i + 1], icon.pixels[i + 2], icon.pixels[i + 3]]
    };
    assert_eq!(at(0, 22), [255, 255, 255, 255]);
    // half full from the bottom: lower center green, upper center empty
    assert_eq!(at(18, 30), [16, 185, 129, 200]);
    assert_eq!(at(18, 14), [0, 0, 0, 0]);
    assert_eq!(at(60, 22), [0, 0, 0, 0]);
    let c = gauge_pixel(&icon.layout, &request.style, 18, 30);
    assert_eq!(c, Rgba { r: 16, g: 185, b: 129, a: 200 });
}

#[test]
fn balance_at_the_current_time() {
    let data = usage(Some(100 * M), Some(10 * M), Some(90 * M));
    let b = balance_from_response_now(KeyResponse { data: Some(data), error: None }).unwrap();
    let ratio = b.pace_ratio.unwrap();
    assert!((0..=M).contains(&ratio));
    assert!(b.pace_month_target.unwrap() <= 100 * M);
    assert_eq!(b.remaining_monthly, Some(90 * M));
}
