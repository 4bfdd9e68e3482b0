//! Pixel rectangles computed from relative margins.
//!
//! A margin is an exact fraction `num / den` of an image dimension. The top
//! margin rounds up, every other margin rounds down.
use vstd::prelude::*;

verus! {

/// Largest denominator a margin may have: with a `u32` dimension `n`,
/// `num * n + den` stays inside `u64`.
pub const MAX_DEN: u64 = 4_294_967_295;

/// An exact fraction in `[0, 1)`.
#[derive(Clone, Copy, Debug, PartialEq, Eq, Structural)]
pub struct Ratio {
    pub num: u64,
    pub den: u64,
}

impl Ratio {
    pub open spec fn wf(self) -> bool {
        0 < self.den <= MAX_DEN && self.num < self.den
    }

    /// `floor(self * n)`.
    pub open spec fn floor_of(self, n: nat) -> nat {
        (self.num as int * n / self.den as int) as nat
    }

    /// `ceil(self * n)`.
    pub open spec fn ceil_of(self, n: nat) -> nat {
        ((self.num as int * n + self.den as int - 1) / self.den as int) as nat
    }
}

/// Four margins, as fractions of the image width (`left`, `right`) and height
/// (`top`, `bottom`). `left` and `right` locate the left and right edges of the
/// kept region; `top` and `bottom` are cut from the top and from the bottom.
#[derive(Clone, Copy, Debug, PartialEq, Eq, Structural)]
pub struct Margins {
    pub left: Ratio,
    pub top: Ratio,
    pub right: Ratio,
    pub bottom: Ratio,
}

impl Margins {
    pub open spec fn wf(self) -> bool {
        self.left.wf() && self.top.wf() && self.right.wf() && self.bottom.wf()
    }
}

/// A rectangle of pixels: its top-left corner and its size.
#[derive(Clone, Copy, Debug, PartialEq, Eq, Structural)]
pub struct Rect {
    pub x: u32,
    pub y: u32,
    pub width: u32,
    pub height: u32,
}

/// The margins leave no pixel: the computed width or height is zero or negative.
#[derive(Clone, Copy, Debug, PartialEq, Eq, Structural)]
pub struct GeometryError {
    pub width: u32,
    pub height: u32,
}

/// Rows kept when `top` is cut (rounded up) and `bottom` is cut (rounded down)
/// from `height` rows; negative when the two cuts overlap.
pub open spec fn kept_rows(height: nat, top: Ratio, bottom: Ratio) -> int {
    height - top.ceil_of(height) - bottom.floor_of(height)
}

/// Columns between the left edge and the right edge, both rounded down.
pub open spec fn kept_cols(width: nat, left: Ratio, right: Ratio) -> int {
    right.floor_of(width) - left.floor_of(width)
}

/// The rectangle that `margins` select in a `width` x `height` image, if it is
/// not empty.
pub open spec fn rect_spec(width: nat, height: nat, m: Margins) -> Option<Rect> {
    if kept_cols(width, m.left, m.right) > 0 && kept_rows(height, m.top, m.bottom) > 0 {
        Some(
            Rect {
                x: m.left.floor_of(width) as u32,
                y: m.top.ceil_of(height) as u32,
                width: kept_cols(width, m.left, m.right) as u32,
                height: kept_rows(height, m.top, m.bottom) as u32,
            },
        )
    } else {
        None
    }
}

/// The full-width band that is left when `top` and `bottom` are cut from a
/// `width` x `height` image, if it is not empty.
pub open spec fn band_spec(width: nat, height: nat, top: Ratio, bottom: Ratio) -> Option<Rect> {
    if width > 0 && kept_rows(height, top, bottom) > 0 {
        Some(
            Rect {
                x: 0,
                y: top.ceil_of(height) as u32,
                width: width as u32,
                height: kept_rows(height, top, bottom) as u32,
            },
        )
    } else {
        None
    }
}

proof fn lemma_floor_bounded(r: Ratio, n: nat)
    requires
        r.wf(),
    ensures
        r.floor_of(n) <= n,
        r.ceil_of(n) <= n,
        n <= u32::MAX ==> r.num as int * n + r.den as int <= u64::MAX,
{
    let a = r.num as int;
    let d = r.den as int;
    let k = n as int;
    assert(a * k <= d * k && d * k <= MAX_DEN as int * k) by (nonlinear_arith)
        requires
            0 <= a < d <= MAX_DEN as int,
            k >= 0,
    ;
    if k <= u32::MAX {
        assert(a * k + d <= u64::MAX) by (nonlinear_arith)
            requires
                0 <= a * k <= MAX_DEN as int * k,
                0 <= k <= u32::MAX,
                d <= MAX_DEN as int,
        ;
    }
    assert(0 <= a * k / d <= k) by (nonlinear_arith)
        requires
            0 <= a * k <= d * k,
            d > 0,
            k >= 0,
    ;
    assert(0 <= (a * k + d - 1) / d <= k) by (nonlinear_arith)
        requires
            0 <= a,
            a + 1 <= d,
            k >= 0,
    ;
}

/// `floor(r * n)`, exactly.
pub fn floor_px(r: Ratio, n: u32) -> (px: u32)
    requires
        r.wf(),
    ensures
        px as nat == r.floor_of(n as nat),
{
    proof {
        lemma_floor_bounded(r, n as nat);
    }
    let p: u64 = r.num * (n as u64);
    (p / r.den) as u32
}

/// `ceil(r * n)`, exactly.
pub fn ceil_px(r: Ratio, n: u32) -> (px: u32)
    requires
        r.wf(),
    ensures
        px as nat == r.ceil_of(n as nat),
{
    proof {
        lemma_floor_bounded(r, n as nat);
    }
    let p: u64 = r.num * (n as u64) + (r.den - 1);
    (p / r.den) as u32
}

/// Rows that remain once `top` and `bottom` are cut from `height` rows, with
/// the first kept row; an error when nothing remains.
fn kept_band(height: u32, top: Ratio, bottom: Ratio) -> (r: Option<(u32, u32)>)
    requires
        top.wf(),
        bottom.wf(),
    ensures
        kept_rows(height as nat, top, bottom) > 0 <==> r is Some,
        r matches Some((y, h)) ==> y as nat == top.ceil_of(height as nat) && h as int
            == kept_rows(height as nat, top, bottom),
{
    let t = ceil_px(top, height);
    let b = floor_px(bottom, height);
    if t < height && b < height - t {
        Some((t, height - t - b))
    } else {
        None
    }
}

/// The rectangle that `m` selects in a `width` x `height` image: its left
/// edge at `floor(left * width)`, its right edge at `floor(right * width)`,
/// `ceil(top * height)` rows cut from the top and `floor(bottom * height)` from
/// the bottom. Fails when that leaves no column or no row.
pub fn crop_rect(width: u32, height: u32, m: Margins) -> (r: Result<Rect, GeometryError>)
    requires
        m.wf(),
    ensures
        match r {
            Ok(rect) => rect_spec(width as nat, height as nat, m) == Some(rect) && rect.x + rect.width
                <= width && rect.y + rect.height <= height,
            Err(e) => rect_spec(width as nat, height as nat, m) is None && e == (GeometryError {
                width,
                height,
            }),
        },
{
    let x = floor_px(m.left, width);
    let x_end = floor_px(m.right, width);
    proof {
        lemma_floor_bounded(m.right, width as nat);
    }
    match kept_band(height, m.top, m.bottom) {
        Some((y, h)) => {
            if x < x_end {
                Ok(Rect { x, y, width: x_end - x, height: h })
            } else {
                Err(GeometryError { width, height })
            }
        },
        None => Err(GeometryError { width, height }),
    }
}

/// The full-width band left when `top` (rounded up) and `bottom` (rounded
/// down) are cut from a `width` x `height` image. Fails when it is empty.
pub fn band_rect(width: u32, height: u32, top: Ratio, bottom: Ratio)
    -> (r: Result<Rect, GeometryError>)
    requires
        top.wf(),
        bottom.wf(),
    ensures
        match r {
            Ok(rect) => band_spec(width as nat, height as nat, top, bottom) == Some(rect) && rect.x
                + rect.width <= width && rect.y + rect.height <= height,
            Err(e) => band_spec(width as nat, height as nat, top, bottom) is None && e == (
            GeometryError { width, height }),
        },
{
    match kept_band(height, top, bottom) {
        Some((y, h)) => {
            if width > 0 {
                Ok(Rect { x: 0, y, width, height: h })
            } else {
                Err(GeometryError { width, height })
            }
        },
        None => Err(GeometryError { width, height }),
    }
}

} // verus!
