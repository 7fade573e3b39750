//! The hexagon of the gauge in exact integer coordinates.
use vstd::prelude::*;
use crate::icon::GaugeLayout;

verus! {

/// Coordinates of the hexagon are exact integers in units of `1 / UNIT` of a
/// pixel. The hexagon is pointy on top with vertical sides; its height is
/// its width divided by 0.866, so `UNIT = 8 * 866` makes every vertex an
/// integer.
pub const UNIT: i128 = 6928;

/// Largest magnitude of a coordinate in units.
pub const MAX_COORD: i128 = 0x400_0000;

/// Top edge of the hexagon, in units: the hexagon is centered vertically.
pub open spec fn hex_top(l: GaugeLayout) -> int {
    3464 * l.canvas_height - 4000 * l.hex_width
}

/// Height of the hexagon in units.
pub open spec fn hex_height(l: GaugeLayout) -> int {
    8000 * l.hex_width
}

/// The vertices of the hexagon in units, clockwise on screen from the top.
pub open spec fn vertex(l: GaugeLayout, i: int) -> (int, int) {
    let w = l.hex_width as int;
    let top = hex_top(l);
    if i == 0 {
        (3464 * w, top)
    } else if i == 1 {
        (6928 * w, top + 2000 * w)
    } else if i == 2 {
        (6928 * w, top + 6000 * w)
    } else if i == 3 {
        (3464 * w, top + 8000 * w)
    } else if i == 4 {
        (0, top + 6000 * w)
    } else {
        (0, top + 2000 * w)
    }
}

/// Which side of the edge from vertex `i` to the next the point is on.
pub open spec fn edge_cross(l: GaugeLayout, i: int, x: int, y: int) -> int {
    let a = vertex(l, i);
    let b = vertex(l, (i + 1) % 6);
    (b.0 - a.0) * (y - a.1) - (b.1 - a.1) * (x - a.0)
}

/// The point `(x, y)`, in units, is inside the hexagon or on its edge.
pub open spec fn inside_spec(l: GaugeLayout, x: int, y: int) -> bool {
    forall|i: int| 0 <= i < 6 ==> edge_cross(l, i, x, y) >= 0
}

/// The distance from `p` to the segment from `a` to `b` is below `r`.
pub open spec fn near_segment(px: int, py: int, a: (int, int), b: (int, int), r: int) -> bool {
    let dx = b.0 - a.0;
    let dy = b.1 - a.1;
    let l2 = dx * dx + dy * dy;
    let dot = (px - a.0) * dx + (py - a.1) * dy;
    let pa2 = (px - a.0) * (px - a.0) + (py - a.1) * (py - a.1);
    let pb2 = (px - b.0) * (px - b.0) + (py - b.1) * (py - b.1);
    if dot <= 0 {
        pa2 < r * r
    } else if dot >= l2 {
        pb2 < r * r
    } else {
        pa2 * l2 - dot * dot < r * r * l2
    }
}

/// The point `(x, y)`, in units, is nearer than the border thickness to an
/// edge of the hexagon.
pub open spec fn near_border_spec(l: GaugeLayout, x: int, y: int) -> bool {
    exists|i: int| 0 <= i < 6 && #[trigger] near_edge(l, i, x, y)
}

/// The point `(x, y)`, in units, is nearer than the border thickness to the
/// edge from vertex `i` to the next.
pub open spec fn near_edge(l: GaugeLayout, i: int, x: int, y: int) -> bool {
    near_segment(x, y, vertex(l, i), vertex(l, (i + 1) % 6), l.border * UNIT)
}

pub open spec fn layout_ok(l: GaugeLayout) -> bool {
    &&& l.hex_width <= 18 * 64
    &&& l.canvas_height <= 22 * 64
    &&& l.border <= 96
}

pub open spec fn coord_ok(x: int) -> bool {
    -MAX_COORD <= x <= MAX_COORD
}

fn times_small(a: i128, b: i128) -> (r: i128)
    requires
        -0x1000_0000 <= a <= 0x1000_0000,
        -0x1000_0000 <= b <= 0x1000_0000,
    ensures
        r == a * b,
        -0x100_0000_0000_0000 <= r <= 0x100_0000_0000_0000,
{
    assert(-0x100_0000_0000_0000 <= a * b <= 0x100_0000_0000_0000) by (nonlinear_arith)
        requires
            -0x1000_0000 <= a <= 0x1000_0000,
            -0x1000_0000 <= b <= 0x1000_0000,
    ;
    a * b
}

fn times(a: i128, b: i128) -> (r: i128)
    requires
        -0x1000_0000_0000_0000 <= a <= 0x1000_0000_0000_0000,
        -0x1000_0000_0000_0000 <= b <= 0x1000_0000_0000_0000,
    ensures
        r == a * b,
        -0x100_0000_0000_0000_0000_0000_0000_0000 <= r <= 0x100_0000_0000_0000_0000_0000_0000_0000,
{
    assert(-0x100_0000_0000_0000_0000_0000_0000_0000 <= a * b <= 0x100_0000_0000_0000_0000_0000_0000_0000) by (nonlinear_arith)
        requires
            -0x1000_0000_0000_0000 <= a <= 0x1000_0000_0000_0000,
            -0x1000_0000_0000_0000 <= b <= 0x1000_0000_0000_0000,
    ;
    a * b
}

fn vertex_of(l: &GaugeLayout, i: usize) -> (r: (i128, i128))
    requires
        layout_ok(*l),
        i < 6,
    ensures
        r.0 == vertex(*l, i as int).0,
        r.1 == vertex(*l, i as int).1,
        0 <= r.0 <= 6928 * 18 * 64,
        coord_ok(r.1 as int),
        -4000 * 18 * 64 <= r.1 <= 3464 * 22 * 64 + 4000 * 18 * 64,
{
    let w = l.hex_width as i128;
    let top = 3464 * l.canvas_height as i128 - 4000 * w;
    if i == 0 {
        (3464 * w, top)
    } else if i == 1 {
        (6928 * w, top + 2000 * w)
    } else if i == 2 {
        (6928 * w, top + 6000 * w)
    } else if i == 3 {
        (3464 * w, top + 8000 * w)
    } else if i == 4 {
        (0, top + 6000 * w)
    } else {
        (0, top + 2000 * w)
    }
}

/// Largest pixel coordinate that the hexagon tests handle.
pub const MAX_PIXEL: u32 = 4096;

fn edge_cross_of(l: &GaugeLayout, i: usize, x: i128, y: i128) -> (r: i128)
    requires
        layout_ok(*l),
        i < 6,
        0 <= x <= MAX_PIXEL * UNIT,
        0 <= y <= MAX_PIXEL * UNIT,
    ensures
        r == edge_cross(*l, i as int, x as int, y as int),
{
    let j: usize = if i == 5 {
        0
    } else {
        i + 1
    };
    assert(j == (i + 1) % 6);
    let a = vertex_of(l, i);
    let b = vertex_of(l, j);
    let c1 = times_small(b.0 - a.0, y - a.1);
    let c2 = times_small(b.1 - a.1, x - a.0);
    c1 - c2
}

/// Whether the pixel `(x, y)` is inside the hexagon of the layout.
pub fn is_inside_hexagon(l: &GaugeLayout, x: u32, y: u32) -> (r: bool)
    requires
        layout_ok(*l),
        x <= MAX_PIXEL,
        y <= MAX_PIXEL,
    ensures
        r == inside_spec(*l, x * UNIT, y * UNIT),
{
    let px = x as i128 * UNIT;
    let py = y as i128 * UNIT;
    let mut i: usize = 0;
    while i < 6
        invariant
            layout_ok(*l),
            px == x * UNIT,
            py == y * UNIT,
            0 <= px <= MAX_PIXEL * UNIT,
            0 <= py <= MAX_PIXEL * UNIT,
            i <= 6,
            forall|k: int| 0 <= k < i ==> edge_cross(*l, k, px as int, py as int) >= 0,
        decreases 6 - i,
    {
        if edge_cross_of(l, i, px, py) < 0 {
            return false;
        }
        i = i + 1;
    }
    true
}

fn near_segment_of(px: i128, py: i128, a: (i128, i128), b: (i128, i128), r: i128) -> (res: bool)
    requires
        0 <= px <= MAX_PIXEL * UNIT,
        0 <= py <= MAX_PIXEL * UNIT,
        coord_ok(a.0 as int),
        coord_ok(a.1 as int),
        coord_ok(b.0 as int),
        coord_ok(b.1 as int),
        0 <= r <= MAX_COORD,
    ensures
        res == near_segment(px as int, py as int, (a.0 as int, a.1 as int), (b.0 as int, b.1 as int), r as int),
{
    let dx = b.0 - a.0;
    let dy = b.1 - a.1;
    let ax = px - a.0;
    let ay = py - a.1;
    let bx = px - b.0;
    let by = py - b.1;
    let l2 = times_small(dx, dx) + times_small(dy, dy);
    let dot = times_small(ax, dx) + times_small(ay, dy);
    let pa2 = times_small(ax, ax) + times_small(ay, ay);
    let pb2 = times_small(bx, bx) + times_small(by, by);
    let r2 = times_small(r, r);
    if dot <= 0 {
        pa2 < r2
    } else if dot >= l2 {
        pb2 < r2
    } else {
        times(pa2, l2) - times(dot, dot) < times(r2, l2)
    }
}

/// Whether the pixel `(x, y)` is nearer than the border thickness to an edge
/// of the hexagon.
pub fn is_on_hexagon_border(l: &GaugeLayout, x: u32, y: u32) -> (r: bool)
    requires
        layout_ok(*l),
        x <= MAX_PIXEL,
        y <= MAX_PIXEL,
    ensures
        r == near_border_spec(*l, x * UNIT, y * UNIT),
{
    let px = x as i128 * UNIT;
    let py = y as i128 * UNIT;
    let radius = l.border as i128 * UNIT;
    let mut i: usize = 0;
    while i < 6
        invariant
            layout_ok(*l),
            px == x * UNIT,
            py == y * UNIT,
            radius == l.border * UNIT,
            0 <= px <= MAX_PIXEL * UNIT,
            0 <= py <= MAX_PIXEL * UNIT,
            i <= 6,
            forall|k: int| 0 <= k < i ==> !near_edge(*l, k, px as int, py as int),
        decreases 6 - i,
    {
        let j: usize = if i == 5 {
            0
        } else {
            i + 1
        };
        assert(j == (i + 1) % 6);
        if near_segment_of(px, py, vertex_of(l, i), vertex_of(l, j), radius) {
            assert(near_edge(*l, i as int, px as int, py as int));
            return true;
        }
        i = i + 1;
    }
    false
}

} // verus!
