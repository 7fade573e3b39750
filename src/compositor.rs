//! What the menubar icon shows for a balance: the logo alone or the gauge.
use vstd::prelude::*;
use crate::balance::{BalanceData, PaceStatus};
use crate::display::{format_value, menubar_display_value, shown_amount, value_text_spec, final_value_spec, display_value_spec, MAX_DISPLAY_VALUE};
use crate::fixed::{clamp, floor_div, MICROS};
use crate::gauge::{layer_spec, render_gauge_layer, GaugeStyle};
use crate::icon::{
    gauge_layout, gauge_layout_spec, logo_layout, logo_layout_spec, rgba, GaugeLayout, LogoLayout,
    Rgba, MAX_SCALE, MAX_TEXT_WIDTH,
};
use crate::pace::{compute_pace_status, pace_status_spec};
use crate::settings::AppSettings;

verus! {

/// Whether a fetch gave anything to show.
pub open spec fn has_data_spec(b: BalanceData) -> bool {
    b.remaining_monthly is Some || b.usage_monthly is Some || b.remaining is Some || b.usage is Some
        || b.limit is Some
}

pub fn has_data(balance: &BalanceData) -> (r: bool)
    ensures
        r == has_data_spec(*balance),
{
    balance.remaining_monthly.is_some() || balance.usage_monthly.is_some()
        || balance.remaining.is_some() || balance.usage.is_some() || balance.limit.is_some()
}

/// Filled share of the gauge, in parts per million: the shown amount over a
/// positive limit, kept within `[0, 1]`; full where no positive limit is known.
pub open spec fn fill_ratio_spec(b: BalanceData, s: AppSettings) -> int {
    match b.limit {
        Some(l) => if l > 0 {
            clamp(shown_amount(b, s) * MICROS / (l as int), 0, MICROS as int)
        } else {
            MICROS as int
        },
        None => MICROS as int,
    }
}

pub fn fill_ratio(balance: &BalanceData, settings: &AppSettings) -> (r: i64)
    requires
        balance.wf(),
    ensures
        r == fill_ratio_spec(*balance, *settings),
        0 <= r <= MICROS,
        balance.limit matches Some(l) && 0 < l <= shown_amount(*balance, *settings) ==> r == MICROS,
        balance.limit matches Some(l) && 0 < l && shown_amount(*balance, *settings) <= 0 ==> r == 0,
{
    let shown: i64 = if settings.show_remaining {
        match balance.remaining_monthly {
            Some(r) => r,
            None => match balance.remaining {
                Some(r) => r,
                None => 0,
            },
        }
    } else {
        match balance.usage_monthly {
            Some(u) => u,
            None => match balance.usage {
                Some(u) => u,
                None => 0,
            },
        }
    };
    match balance.limit {
        Some(l) => if l > 0 {
            assert(-0x1_0000_0000_0000_0000_0000_0000 <= shown * MICROS <= 0x1_0000_0000_0000_0000_0000_0000) by (nonlinear_arith)
                requires
                    -0x1_0000_0000_0000_0000 <= shown <= 0x1_0000_0000_0000_0000,
            ;
            let q = floor_div(shown as i128 * MICROS as i128, l as i128);
            proof {
                lemma_ratio_bounds(shown as int, l as int);
            }
            if q < 0 {
                0
            } else if q > MICROS as i128 {
                MICROS
            } else {
                q as i64
            }
        } else {
            MICROS
        },
        None => MICROS,
    }
}

proof fn lemma_ratio_bounds(shown: int, l: int)
    requires
        l > 0,
    ensures
        shown >= l ==> shown * MICROS / l >= MICROS,
        shown <= 0 ==> shown * MICROS / l <= 0,
{
    if shown >= l {
        assert(shown * MICROS >= l * MICROS) by (nonlinear_arith)
            requires
                shown >= l,
                l > 0,
        ;
        vstd::arithmetic::div_mod::lemma_div_is_ordered(l * MICROS, shown * MICROS, l);
        vstd::arithmetic::div_mod::lemma_div_by_multiple(MICROS as int, l);
        assert((l * MICROS) / l == MICROS) by {
            vstd::arithmetic::mul::lemma_mul_is_commutative(l, MICROS as int);
        }
    }
    if shown <= 0 {
        assert(shown * MICROS <= 0) by (nonlinear_arith)
            requires
                shown <= 0,
        ;
        vstd::arithmetic::div_mod::lemma_div_is_ordered(shown * MICROS, 0, l);
    }
}

/// Outline and text color: white on a dark menubar, black on a light one.
pub open spec fn stroke_color_spec(is_dark_mode: bool) -> Rgba {
    if is_dark_mode {
        rgba(255, 255, 255, 255)
    } else {
        rgba(0, 0, 0, 255)
    }
}

pub fn stroke_color(is_dark_mode: bool) -> (r: Rgba)
    ensures
        r == stroke_color_spec(is_dark_mode),
{
    if is_dark_mode {
        Rgba { r: 255, g: 255, b: 255, a: 255 }
    } else {
        Rgba { r: 0, g: 0, b: 0, a: 255 }
    }
}

/// Fill color: translucent white in monochrome mode, else a hue per pace
/// status (red ahead, amber behind, green on track) and a neutral
/// translucent white where the status is unknown.
pub open spec fn fill_color_spec(monochrome: bool, status: Option<PaceStatus>) -> Rgba {
    if monochrome {
        rgba(255, 255, 255, 180)
    } else {
        match status {
            Some(PaceStatus::Ahead) => rgba(239, 68, 68, 200),
            Some(PaceStatus::Behind) => rgba(234, 179, 8, 210),
            Some(PaceStatus::OnTrack) => rgba(16, 185, 129, 200),
            None => rgba(255, 255, 255, 128),
        }
    }
}

pub fn fill_color(balance: &BalanceData, settings: &AppSettings) -> (r: Rgba)
    requires
        balance.wf(),
        settings.wf(),
    ensures
        r == fill_color_spec(settings.menubar_monochrome, pace_status_spec(*balance, *settings)),
{
    if settings.menubar_monochrome {
        Rgba { r: 255, g: 255, b: 255, a: 180 }
    } else {
        match compute_pace_status(balance, settings) {
            Some(PaceStatus::Ahead) => Rgba { r: 239, g: 68, b: 68, a: 200 },
            Some(PaceStatus::Behind) => Rgba { r: 234, g: 179, b: 8, a: 210 },
            Some(PaceStatus::OnTrack) => Rgba { r: 16, g: 185, b: 129, a: 200 },
            None => Rgba { r: 255, g: 255, b: 255, a: 128 },
        }
    }
}

pub open spec fn unit_text_spec(is_percentage: bool) -> Seq<char> {
    if is_percentage {
        seq!['%']
    } else {
        seq!['$']
    }
}

/// The unit sign: `%` for a percentage, `$` for an amount.
pub fn unit_text(is_percentage: bool) -> (r: String)
    ensures
        r@ == unit_text_spec(is_percentage),
{
    if is_percentage {
        proof {
            reveal_strlit("%");
        }
        String::from_str("%")
    } else {
        proof {
            reveal_strlit("$");
        }
        String::from_str("$")
    }
}

/// What the icon with a gauge shows, before its texts are measured.
#[derive(Debug, Clone)]
pub struct GaugeRequest {
    pub value_text: String,
    pub unit_text: String,
    pub show_unit: bool,
    pub is_percentage: bool,
    pub style: GaugeStyle,
}

/// The menubar icon to draw: the logo alone while there is no data, else
/// the gauge with its texts.
#[derive(Debug, Clone)]
pub enum MenubarIcon {
    LogoOnly(LogoLayout),
    Gauge(GaugeRequest),
}

/// The icon with a gauge, its layer drawn.
#[derive(Debug, Clone)]
pub struct GaugeIcon {
    pub layout: GaugeLayout,
    /// RGBA bytes of the canvas with the hexagon drawn, texts not yet.
    pub pixels: Vec<u8>,
}

/// The style of the gauge for a balance under the settings.
pub open spec fn gauge_style_spec(b: BalanceData, s: AppSettings, is_dark_mode: bool) -> GaugeStyle {
    GaugeStyle {
        fill_ratio: fill_ratio_spec(b, s) as i64,
        fill_from_top: !s.show_remaining,
        stroke: stroke_color_spec(is_dark_mode),
        fill: fill_color_spec(s.menubar_monochrome, pace_status_spec(b, s)),
    }
}

/// Decides what the menubar icon shows for `value` (in millionths, as
/// `menubar_display_value` gives it): without data the logo alone on its
/// square canvas, with neither text nor font; else the gauge, the value text
/// and the unit sign.
pub fn generate_hybrid_menubar_icon(
    value: i128,
    is_percentage: bool,
    has_data: bool,
    show_unit: bool,
    settings: &AppSettings,
    balance: &BalanceData,
    is_dark_mode: bool,
    scale: u32,
) -> (r: MenubarIcon)
    requires
        1 <= scale <= MAX_SCALE,
        -MAX_DISPLAY_VALUE <= value <= MAX_DISPLAY_VALUE,
        balance.wf(),
        settings.wf(),
    ensures
        !has_data ==> r == MenubarIcon::LogoOnly(logo_layout_spec(scale as int)),
        has_data ==> (r matches MenubarIcon::Gauge(g) && {
            &&& g.value_text@ == value_text_spec(value as int, settings.decimal_places as nat)
            &&& g.unit_text@ == unit_text_spec(is_percentage)
            &&& g.show_unit == show_unit
            &&& g.is_percentage == is_percentage
            &&& g.style == gauge_style_spec(*balance, *settings, is_dark_mode)
        }),
{
    if !has_data {
        return MenubarIcon::LogoOnly(logo_layout(scale));
    }
    let style = GaugeStyle {
        fill_ratio: fill_ratio(balance, settings),
        fill_from_top: !settings.show_remaining,
        stroke: stroke_color(is_dark_mode),
        fill: fill_color(balance, settings),
    };
    MenubarIcon::Gauge(
        GaugeRequest {
            value_text: format_value(value, settings.decimal_places),
            unit_text: unit_text(is_percentage),
            show_unit,
            is_percentage,
            style,
        },
    )
}

/// The menubar icon for a balance under the settings: the value that the
/// settings ask for, rounded as they ask, on the gauge of the balance.
pub fn menubar_icon(balance: &BalanceData, settings: &AppSettings, is_dark_mode: bool, scale: u32) -> (r: MenubarIcon)
    requires
        1 <= scale <= MAX_SCALE,
        balance.wf(),
        settings.wf(),
    ensures
        !has_data_spec(*balance) ==> r == MenubarIcon::LogoOnly(logo_layout_spec(scale as int)),
        has_data_spec(*balance) ==> (r matches MenubarIcon::Gauge(g) && {
            &&& g.value_text@ == value_text_spec(
                final_value_spec(display_value_spec(*balance, *settings), settings.decimal_places as nat),
                settings.decimal_places as nat,
            )
            &&& g.unit_text@ == unit_text_spec(settings.show_percentage)
            &&& g.show_unit == settings.show_unit
            &&& g.is_percentage == settings.show_percentage
            &&& g.style == gauge_style_spec(*balance, *settings, is_dark_mode)
        }),
{
    let value = menubar_display_value(balance, settings);
    let data = has_data(balance);
    generate_hybrid_menubar_icon(
        value,
        settings.show_percentage,
        data,
        settings.show_unit,
        settings,
        balance,
        is_dark_mode,
        scale,
    )
}

/// Lays out the icon with a gauge once its texts are measured (widths in
/// physical pixels) and draws its hexagon.
pub fn compose_gauge(request: &GaugeRequest, scale: u32, value_width: u32, unit_width: u32) -> (r: GaugeIcon)
    requires
        1 <= scale <= MAX_SCALE,
        value_width <= MAX_TEXT_WIDTH,
        unit_width <= MAX_TEXT_WIDTH,
        request.style.wf(),
    ensures
        r.layout == gauge_layout_spec(
            scale as int,
            value_width as int,
            unit_width as int,
            request.show_unit,
            request.is_percentage,
        ),
        r.pixels@ == layer_spec(r.layout, request.style),
{
    let layout = gauge_layout(scale, value_width, unit_width, request.show_unit, request.is_percentage);
    let pixels = render_gauge_layer(&layout, &request.style);
    GaugeIcon { layout, pixels }
}

} // verus!
