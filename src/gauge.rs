//! The pixels of the gauge layer.
use vstd::prelude::*;
use vstd::arithmetic::div_mod::lemma_fundamental_div_mod_converse;
use crate::fixed::MICROS;
use crate::hexagon::{
    hex_height, hex_top, inside_spec, is_inside_hexagon, is_on_hexagon_border, layout_ok,
    near_border_spec, MAX_PIXEL, UNIT,
};
use crate::icon::{transparent, GaugeLayout, Rgba};

verus! {

/// How the hexagon gauge is painted.
#[derive(Debug, Clone, Copy, PartialEq, Eq, Structural)]
pub struct GaugeStyle {
    /// Filled share of the hexagon, in parts per million.
    pub fill_ratio: i64,
    /// Fill from the top down (true) or from the bottom up (false).
    pub fill_from_top: bool,
    pub stroke: Rgba,
    pub fill: Rgba,
}

impl GaugeStyle {
    pub open spec fn wf(&self) -> bool {
        0 <= self.fill_ratio <= MICROS
    }
}

/// The row at `y`, in units, lies in the filled share of the hexagon.
pub open spec fn filled_spec(l: GaugeLayout, st: GaugeStyle, y: int) -> bool {
    let rel = (y - hex_top(l)) * MICROS;
    if st.fill_from_top {
        rel < st.fill_ratio * hex_height(l)
    } else {
        rel > (MICROS - st.fill_ratio) * hex_height(l)
    }
}

/// The color of the pixel `(x, y)` of the gauge layer: the outline of the
/// hexagon in the stroke color, its filled share in the fill color, and
/// every other pixel transparent.
pub open spec fn pixel_spec(l: GaugeLayout, st: GaugeStyle, x: int, y: int) -> Rgba {
    if x < l.hex_width && inside_spec(l, x * UNIT, y * UNIT) {
        if near_border_spec(l, x * UNIT, y * UNIT) {
            st.stroke
        } else if filled_spec(l, st, y * UNIT) {
            st.fill
        } else {
            transparent()
        }
    } else {
        transparent()
    }
}

pub open spec fn channel(c: Rgba, k: int) -> u8 {
    if k == 0 {
        c.r
    } else if k == 1 {
        c.g
    } else if k == 2 {
        c.b
    } else {
        c.a
    }
}

/// Byte `i` of the gauge layer: rows from the top, pixels from the left,
/// four bytes (red, green, blue, alpha) per pixel.
pub open spec fn layer_byte(l: GaugeLayout, st: GaugeStyle, i: int) -> u8 {
    let p = i / 4;
    channel(pixel_spec(l, st, p % (l.canvas_width as int), p / (l.canvas_width as int)), i % 4)
}

pub open spec fn layer_spec(l: GaugeLayout, st: GaugeStyle) -> Seq<u8> {
    Seq::new(
        (4 * l.canvas_width * l.canvas_height) as nat,
        |i: int| layer_byte(l, st, i),
    )
}

pub open spec fn layer_fits(l: GaugeLayout) -> bool {
    &&& layout_ok(l)
    &&& l.canvas_width <= MAX_PIXEL
    &&& l.canvas_height <= MAX_PIXEL
}

fn is_filled(l: &GaugeLayout, st: &GaugeStyle, y: u32) -> (r: bool)
    requires
        layer_fits(*l),
        st.wf(),
        y <= MAX_PIXEL,
    ensures
        r == filled_spec(*l, *st, y * UNIT),
{
    let top = 3464 * l.canvas_height as i128 - 4000 * l.hex_width as i128;
    let height = 8000 * l.hex_width as i128;
    let y_units = y as i128 * UNIT;
    assert(-0x1_0000_0000_0000_0000 <= (y_units - top) * MICROS <= 0x1_0000_0000_0000_0000) by (nonlinear_arith)
        requires
            -0x1000_0000 <= y_units - top <= 0x1000_0000,
    ;
    let rel = (y_units - top) * MICROS as i128;
    if st.fill_from_top {
        assert(0 <= st.fill_ratio * height <= MICROS * 8000 * 18 * 64) by (nonlinear_arith)
            requires
                0 <= st.fill_ratio <= MICROS,
                0 <= height <= 8000 * 18 * 64,
        ;
        rel < st.fill_ratio as i128 * height
    } else {
        assert(0 <= (MICROS - st.fill_ratio) * height <= MICROS * 8000 * 18 * 64) by (nonlinear_arith)
            requires
                0 <= st.fill_ratio <= MICROS,
                0 <= height <= 8000 * 18 * 64,
        ;
        rel > (MICROS - st.fill_ratio) as i128 * height
    }
}

/// The color of one pixel of the gauge layer.
pub fn gauge_pixel(l: &GaugeLayout, st: &GaugeStyle, x: u32, y: u32) -> (r: Rgba)
    requires
        layer_fits(*l),
        st.wf(),
        x <= MAX_PIXEL,
        y <= MAX_PIXEL,
    ensures
        r == pixel_spec(*l, *st, x as int, y as int),
{
    if x < l.hex_width && is_inside_hexagon(l, x, y) {
        if is_on_hexagon_border(l, x, y) {
            st.stroke
        } else if is_filled(l, st, y) {
            st.fill
        } else {
            Rgba { r: 0, g: 0, b: 0, a: 0 }
        }
    } else {
        Rgba { r: 0, g: 0, b: 0, a: 0 }
    }
}

proof fn lemma_pixel_index(x: int, y: int, w: int, i: int)
    requires
        0 <= x < w,
        0 <= y,
        4 * (y * w + x) <= i < 4 * (y * w + x) + 4,
    ensures
        i / 4 == y * w + x,
        i % 4 == i - 4 * (y * w + x),
        (i / 4) % w == x,
        (i / 4) / w == y,
{
    lemma_fundamental_div_mod_converse(i, 4, y * w + x, i - 4 * (y * w + x));
    lemma_fundamental_div_mod_converse(y * w + x, w, y, x);
}

/// The gauge layer of the icon: an RGBA buffer of the whole canvas with the
/// hexagon drawn in it, the rest transparent.
pub fn render_gauge_layer(l: &GaugeLayout, st: &GaugeStyle) -> (r: Vec<u8>)
    requires
        layer_fits(*l),
        st.wf(),
    ensures
        r@ == layer_spec(*l, *st),
{
    let w = l.canvas_width;
    let h = l.canvas_height;
    let mut buf: Vec<u8> = Vec::new();
    let mut y: u32 = 0;
    while y < h
        invariant
            layer_fits(*l),
            st.wf(),
            w == l.canvas_width,
            h == l.canvas_height,
            y <= h,
            buf@.len() == 4 * (y * w),
            forall|i: int| 0 <= i < buf@.len() ==> buf@[i] == layer_byte(*l, *st, i),
        decreases h - y,
    {
        let mut x: u32 = 0;
        while x < w
            invariant
                layer_fits(*l),
                st.wf(),
                w == l.canvas_width,
                h == l.canvas_height,
                y < h,
                x <= w,
                buf@.len() == 4 * (y * w + x),
                forall|i: int| 0 <= i < buf@.len() ==> buf@[i] == layer_byte(*l, *st, i),
            decreases w - x,
        {
            let c = gauge_pixel(l, st, x, y);
            let ghost before = buf@;
            buf.push(c.r);
            buf.push(c.g);
            buf.push(c.b);
            buf.push(c.a);
            proof {
                let start = 4 * (y * w + x);
                assert forall|i: int| 0 <= i < buf@.len() implies buf@[i] == layer_byte(*l, *st, i) by {
                    if i >= start {
                        lemma_pixel_index(x as int, y as int, w as int, i);
                    } else {
                        assert(buf@[i] == before[i]);
                    }
                }
            }
            x = x + 1;
        }
        proof {
            assert((y + 1) * w == y * w + w) by (nonlinear_arith);
        }
        y = y + 1;
    }
    proof {
        assert(4 * (h * w) == 4 * w * h) by (nonlinear_arith);
        assert(buf@ =~= layer_spec(*l, *st));
    }
    buf
}

} // verus!
