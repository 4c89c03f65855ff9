//! Positions on the canvas and the cubic curves drawn between ports.

use vstd::prelude::*;
use vstd::string::*;
use crate::decimal::{halves_text, push_halves};

verus! {

/// A position on the canvas, in whole canvas units.
#[derive(Clone, Copy, Debug, PartialEq, Eq, Structural)]
pub struct Point {
    pub x: i32,
    pub y: i32,
}

/// `v` held to the closed range from `lo` to `hi`.
pub open spec fn clamp(v: int, lo: int, hi: int) -> int {
    if v < lo {
        lo
    } else if v > hi {
        hi
    } else {
        v
    }
}

/// `v` held to the range of a stored coordinate.
pub open spec fn clamp_coord(v: int) -> int {
    clamp(v, i32::MIN as int, i32::MAX as int)
}

/// The coordinate nearest to `v` that a node can be stored at.
pub fn to_coord(v: i128) -> (c: i32)
    ensures
        c == clamp_coord(v as int),
{
    if v < i32::MIN as i128 {
        i32::MIN
    } else if v > i32::MAX as i128 {
        i32::MAX
    } else {
        v as i32
    }
}

/// The distance between `a` and `b` on one axis.
pub open spec fn span(a: int, b: int) -> int {
    if b >= a {
        b - a
    } else {
        a - b
    }
}

/// The four control points of a cubic curve. Every coordinate counts halves of a
/// canvas unit, so that the half-unit offsets of the inner points are whole.
pub struct CurveView {
    pub start: (int, int),
    pub start_handle: (int, int),
    pub end_handle: (int, int),
    pub end: (int, int),
}

/// The curve from `(x1, y1)` to `(x2, y2)`, both in whole canvas units. The inner
/// control points stand level with their end points, moved towards the right of
/// the start and towards the left of the end by half the horizontal distance
/// between the two ends.
pub open spec fn control_points(x1: int, y1: int, x2: int, y2: int) -> CurveView {
    CurveView {
        start: (2 * x1, 2 * y1),
        start_handle: (2 * x1 + span(x1, x2), 2 * y1),
        end_handle: (2 * x2 - span(x1, x2), 2 * y2),
        end: (2 * x2, 2 * y2),
    }
}

/// The text of one control point: its two coordinates with a blank between.
pub open spec fn point_text(p: (int, int)) -> Seq<char> {
    halves_text(p.0) + seq![' '] + halves_text(p.1)
}

/// The path description of a curve: a move to the first control point, then one
/// cubic segment through the other three.
pub open spec fn path_text(c: CurveView) -> Seq<char> {
    seq!['M', ' '] + point_text(c.start) + seq![' ', 'C', ' '] + point_text(c.start_handle)
        + seq![',', ' '] + point_text(c.end_handle) + seq![',', ' '] + point_text(c.end)
}

/// A cubic curve by its four control points, in halves of a canvas unit.
#[derive(Clone, Copy, Debug, PartialEq, Eq)]
pub struct Curve {
    pub start: (i128, i128),
    pub start_handle: (i128, i128),
    pub end_handle: (i128, i128),
    pub end: (i128, i128),
}

impl View for Curve {
    type V = CurveView;

    open spec fn view(&self) -> CurveView {
        CurveView {
            start: (self.start.0 as int, self.start.1 as int),
            start_handle: (self.start_handle.0 as int, self.start_handle.1 as int),
            end_handle: (self.end_handle.0 as int, self.end_handle.1 as int),
            end: (self.end.0 as int, self.end.1 as int),
        }
    }
}

/// The curve that joins `(x1, y1)` to `(x2, y2)`.
pub fn curve(x1: i64, y1: i64, x2: i64, y2: i64) -> (c: Curve)
    ensures
        c@ == control_points(x1 as int, y1 as int, x2 as int, y2 as int),
{
    let ax: i128 = x1 as i128;
    let ay: i128 = y1 as i128;
    let bx: i128 = x2 as i128;
    let by: i128 = y2 as i128;
    let reach: i128 = if bx >= ax {
        bx - ax
    } else {
        ax - bx
    };
    Curve {
        start: (2 * ax, 2 * ay),
        start_handle: (2 * ax + reach, 2 * ay),
        end_handle: (2 * bx - reach, 2 * by),
        end: (2 * bx, 2 * by),
    }
}

/// Appends the text of one control point to `out`.
fn push_point(out: &mut String, p: (i128, i128))
    ensures
        final(out)@ == old(out)@ + point_text((p.0 as int, p.1 as int)),
{
    proof {
        reveal_strlit(" ");
    }
    push_halves(out, p.0);
    out.append(" ");
    push_halves(out, p.1);
    assert(final(out)@ =~= old(out)@ + point_text((p.0 as int, p.1 as int)));
}

impl Curve {
    /// The path description of the curve.
    pub fn path(&self) -> (text: String)
        ensures
            text@ == path_text(self@),
    {
        proof {
            reveal_strlit("M ");
            reveal_strlit(" C ");
            reveal_strlit(", ");
        }
        let mut text = String::from_str("M ");
        push_point(&mut text, self.start);
        text.append(" C ");
        push_point(&mut text, self.start_handle);
        text.append(", ");
        push_point(&mut text, self.end_handle);
        text.append(", ");
        push_point(&mut text, self.end);
        assert(text@ =~= path_text(self@));
        text
    }
}

} // verus!
