//! Sizes and positions of the menubar icon.
use vstd::prelude::*;
use crate::hexagon::{hex_height, hex_top};

verus! {

/// Scale of the Retina display: physical pixels per logical point.
pub const RENDER_SCALE: u32 = 2;

/// Sizes in logical points.
pub const MENUBAR_HEIGHT_PTS: u32 = 22;

pub const LOGO_SIZE_PTS: u32 = 18;

pub const HEX_SIZE_PTS: u32 = 18;

pub const TEXT_SIZE_PTS: u32 = 18;

pub const LOGO_TEXT_GAP_PTS: u32 = 6;

pub const UNIT_VALUE_GAP_PTS: u32 = 1;

pub const END_PADDING_PTS: u32 = 4;

/// Largest render scale and text width that the icon arithmetic handles.
pub const MAX_SCALE: u32 = 64;

pub const MAX_TEXT_WIDTH: u32 = 1024;

/// A color with straight alpha.
#[derive(Debug, Clone, Copy, PartialEq, Eq, Structural)]
pub struct Rgba {
    pub r: u8,
    pub g: u8,
    pub b: u8,
    pub a: u8,
}

pub open spec fn rgba(r: u8, g: u8, b: u8, a: u8) -> Rgba {
    Rgba { r, g, b, a }
}

pub open spec fn transparent() -> Rgba {
    rgba(0, 0, 0, 0)
}

/// Where the parts of the icon with a gauge stand, in physical pixels.
#[derive(Debug, Clone, Copy, PartialEq, Eq, Structural)]
pub struct GaugeLayout {
    pub canvas_width: u32,
    pub canvas_height: u32,
    pub hex_width: u32,
    /// Thickness of the hexagon's outline.
    pub border: u32,
    /// Left edge of the value text.
    pub value_x: u32,
    /// Left edge of the unit text, where the unit is drawn.
    pub unit_x: Option<u32>,
    /// Top edge of both texts.
    pub text_y: u32,
}

/// The icon without data: the logo centered on a square canvas.
#[derive(Debug, Clone, Copy, PartialEq, Eq, Structural)]
pub struct LogoLayout {
    pub canvas_size: u32,
    pub logo_size: u32,
    pub offset: u32,
}

/// `points` logical points in physical pixels.
fn px(points: u32, scale: u32) -> (r: u32)
    requires
        points <= 64,
        scale <= MAX_SCALE,
    ensures
        r == points * scale,
        r <= 64 * MAX_SCALE,
{
    assert(points * scale <= 64 * MAX_SCALE) by (nonlinear_arith)
        requires
            points <= 64,
            scale <= MAX_SCALE,
    ;
    points * scale
}

pub open spec fn logo_layout_spec(scale: int) -> LogoLayout {
    LogoLayout {
        canvas_size: (MENUBAR_HEIGHT_PTS * scale) as u32,
        logo_size: (LOGO_SIZE_PTS * scale) as u32,
        offset: (((MENUBAR_HEIGHT_PTS - LOGO_SIZE_PTS) * scale) / 2) as u32,
    }
}

pub fn logo_layout(scale: u32) -> (r: LogoLayout)
    requires
        1 <= scale <= MAX_SCALE,
    ensures
        r == logo_layout_spec(scale as int),
{
    LogoLayout {
        canvas_size: px(MENUBAR_HEIGHT_PTS, scale),
        logo_size: px(LOGO_SIZE_PTS, scale),
        offset: px(MENUBAR_HEIGHT_PTS - LOGO_SIZE_PTS, scale) / 2,
    }
}

/// The layout of an icon with a gauge: the hexagon, a gap, the texts
/// (value then unit for a percentage, unit then value for an amount, with a
/// small gap between them) and an end padding. `value_width` and
/// `unit_width` are the widths of the texts in physical pixels.
pub open spec fn gauge_layout_spec(
    scale: int,
    value_width: int,
    unit_width: int,
    show_unit: bool,
    is_percentage: bool,
) -> GaugeLayout {
    let text_x = (HEX_SIZE_PTS + LOGO_TEXT_GAP_PTS) * scale;
    let gap = UNIT_VALUE_GAP_PTS * scale;
    let text_width = if show_unit {
        value_width + gap + unit_width
    } else {
        value_width
    };
    GaugeLayout {
        canvas_width: (text_x + text_width + END_PADDING_PTS * scale) as u32,
        canvas_height: (MENUBAR_HEIGHT_PTS * scale) as u32,
        hex_width: (HEX_SIZE_PTS * scale) as u32,
        border: ((3 * scale) / 2) as u32,
        value_x: (if !is_percentage && show_unit {
            text_x + unit_width + gap
        } else {
            text_x
        }) as u32,
        unit_x: if !show_unit {
            None
        } else if is_percentage {
            Some((text_x + value_width + gap) as u32)
        } else {
            Some(text_x as u32)
        },
        text_y: (((MENUBAR_HEIGHT_PTS - TEXT_SIZE_PTS) * scale) / 2) as u32,
    }
}

pub fn gauge_layout(
    scale: u32,
    value_width: u32,
    unit_width: u32,
    show_unit: bool,
    is_percentage: bool,
) -> (r: GaugeLayout)
    requires
        1 <= scale <= MAX_SCALE,
        value_width <= MAX_TEXT_WIDTH,
        unit_width <= MAX_TEXT_WIDTH,
    ensures
        r == gauge_layout_spec(
            scale as int,
            value_width as int,
            unit_width as int,
            show_unit,
            is_percentage,
        ),
{
    let text_x = px(HEX_SIZE_PTS + LOGO_TEXT_GAP_PTS, scale);
    let gap = px(UNIT_VALUE_GAP_PTS, scale);
    let text_width = if show_unit {
        value_width + gap + unit_width
    } else {
        value_width
    };
    GaugeLayout {
        canvas_width: text_x + text_width + px(END_PADDING_PTS, scale),
        canvas_height: px(MENUBAR_HEIGHT_PTS, scale),
        hex_width: px(HEX_SIZE_PTS, scale),
        border: px(3, scale) / 2,
        value_x: if !is_percentage && show_unit {
            text_x + unit_width + gap
        } else {
            text_x
        },
        unit_x: if !show_unit {
            None
        } else if is_percentage {
            Some(text_x + value_width + gap)
        } else {
            Some(text_x)
        },
        text_y: px(MENUBAR_HEIGHT_PTS - TEXT_SIZE_PTS, scale) / 2,
    }
}

/// Doubling the render scale, where the text widths double with it, doubles
/// every dimension and position of both layouts: the canvas, the hexagon,
/// the gaps and the places of the texts and of the logo.
pub proof fn lemma_layout_scales_linearly(
    scale: int,
    value_width: int,
    unit_width: int,
    show_unit: bool,
    is_percentage: bool,
)
    requires
        1 <= scale <= MAX_SCALE / 2,
        0 <= value_width <= MAX_TEXT_WIDTH / 2,
        0 <= unit_width <= MAX_TEXT_WIDTH / 2,
    ensures
        ({
            let one = gauge_layout_spec(scale, value_width, unit_width, show_unit, is_percentage);
            let two = gauge_layout_spec(
                2 * scale,
                2 * value_width,
                2 * unit_width,
                show_unit,
                is_percentage,
            );
            &&& two.canvas_width == 2 * one.canvas_width
            &&& two.canvas_height == 2 * one.canvas_height
            &&& two.hex_width == 2 * one.hex_width
            &&& hex_height(two) == 2 * hex_height(one)
            &&& hex_top(two) == 2 * hex_top(one)
            &&& two.value_x == 2 * one.value_x
            &&& two.text_y == 2 * one.text_y
            &&& (two.unit_x matches Some(u2) ==> one.unit_x matches Some(u1) && u2 == 2 * u1)
            &&& (two.unit_x is None <==> one.unit_x is None)
        }),
        logo_layout_spec(2 * scale).canvas_size == 2 * logo_layout_spec(scale).canvas_size,
        logo_layout_spec(2 * scale).logo_size == 2 * logo_layout_spec(scale).logo_size,
        logo_layout_spec(2 * scale).offset == 2 * logo_layout_spec(scale).offset,
{
}

} // verus!
