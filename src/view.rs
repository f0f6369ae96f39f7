use vstd::prelude::*;

verus! {

/// One unit of zoom: coordinates and factors are kept in thousandths.
pub const ZOOM_UNIT: i64 = 1000;

/// The smallest zoom factor, in thousandths.
pub const ZOOM_MIN: i64 = 50;

/// The largest zoom factor, in thousandths.
pub const ZOOM_MAX: i64 = 50_000;

pub open spec fn clamp(v: int, lo: int, hi: int) -> int {
    if v < lo {
        lo
    } else if v > hi {
        hi
    } else {
        v
    }
}

/// Narrows a wide intermediate to `i64`, saturating at both ends.
pub fn saturate(v: i128) -> (r: i64)
    ensures
        r == clamp(v as int, i64::MIN as int, i64::MAX as int),
{
    if v < i64::MIN as i128 {
        i64::MIN
    } else if v > i64::MAX as i128 {
        i64::MAX
    } else {
        v as i64
    }
}

/// A pair of coordinates in thousandths of a logical point (or, for a
/// zoom, thousandths of the unit factor).
#[derive(Clone, Copy, Debug, PartialEq, Eq, Structural)]
pub struct Vec2 {
    pub x: i64,
    pub y: i64,
}

pub open spec fn sat_add(a: int, b: int) -> int {
    clamp(a + b, i64::MIN as int, i64::MAX as int)
}

/// A length times a zoom factor in thousandths; a negative length or factor
/// counts as zero.
pub open spec fn scaled(len: int, factor: int) -> int {
    clamp(
        clamp(len, 0, i64::MAX as int) * clamp(factor, 0, i64::MAX as int) / ZOOM_UNIT as int,
        i64::MIN as int,
        i64::MAX as int,
    )
}

impl Vec2 {
    pub fn zero() -> (r: Vec2)
        ensures
            r.x == 0 && r.y == 0,
    {
        Vec2 { x: 0, y: 0 }
    }

    /// The componentwise sum, saturating at the bounds of `i64`.
    pub fn add_saturating(self, o: Vec2) -> (r: Vec2)
        ensures
            r.x == sat_add(self.x as int, o.x as int),
            r.y == sat_add(self.y as int, o.y as int),
    {
        Vec2 { x: saturate(self.x as i128 + o.x as i128), y: saturate(self.y as i128 + o.y as i128) }
    }

    /// A size scaled componentwise by a zoom; a negative length counts as none.
    pub fn scale(self, zoom: Vec2) -> (r: Vec2)
        ensures
            r.x == scaled(self.x as int, zoom.x as int),
            r.y == scaled(self.y as int, zoom.y as int),
    {
        Vec2 { x: scale_len(self.x, zoom.x), y: scale_len(self.y, zoom.y) }
    }
}

fn scale_len(len: i64, factor: i64) -> (r: i64)
    ensures
        r == scaled(len as int, factor as int),
{
    let l: i128 = if len < 0 { 0 } else { len as i128 };
    let f: i128 = if factor < 0 { 0 } else { factor as i128 };
    assert(0 <= l * f <= (i64::MAX as i128) * (i64::MAX as i128)) by (nonlinear_arith)
        requires
            0 <= l <= i64::MAX,
            0 <= f <= i64::MAX,
    ;
    let p: i128 = l * f;
    saturate(p / (ZOOM_UNIT as i128))
}

/// A rectangle given by its center and its size.
#[derive(Clone, Copy, Debug, PartialEq, Eq, Structural)]
pub struct Rect {
    pub center: Vec2,
    pub size: Vec2,
}

impl Rect {
    pub open spec fn spec_zero() -> Rect {
        Rect { center: Vec2 { x: 0, y: 0 }, size: Vec2 { x: 0, y: 0 } }
    }

    pub fn zero() -> (r: Rect)
        ensures
            r == Rect::spec_zero(),
    {
        Rect { center: Vec2::zero(), size: Vec2::zero() }
    }
}

} // verus!
