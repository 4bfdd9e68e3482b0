//! The two per-image transforms, on decoded images of the `image` crate.
use vstd::prelude::*;
use image::DynamicImage;
use crate::geometry::{band_rect, band_spec, crop_rect, kept_rows, rect_spec, GeometryError, Margins, Ratio, Rect};
use crate::report::AppError;

verus! {

/// A decoded image of the image crate, carried through unread.
#[verifier::external_type_specification]
#[verifier::external_body]
pub struct ExDynamicImage(image::DynamicImage);

/// Numerator of the share of the height cut from the top by the crop.
pub const CROP_TOP_NUM: u64 = 55;

/// Numerator of the share of the height cut from the bottom by the crop.
pub const CROP_BOTTOM_NUM: u64 = 124;

/// Denominator of both crop shares.
pub const CROP_DEN: u64 = 1000;

/// The share of the height that the crop cuts from the top (rounded up).
pub open spec fn crop_top() -> Ratio {
    Ratio { num: CROP_TOP_NUM, den: CROP_DEN }
}

/// The share of the height that the crop cuts from the bottom (rounded down).
pub open spec fn crop_bottom() -> Ratio {
    Ratio { num: CROP_BOTTOM_NUM, den: CROP_DEN }
}

/// The label region that recognition reads, in a 473 x 842 page layout:
/// columns 60 to 230, with 17 and 53 parts of 842 cut from top and bottom.
pub open spec fn region_margins() -> Margins {
    Margins {
        left: Ratio { num: 60, den: 473 },
        top: Ratio { num: 17, den: 842 },
        right: Ratio { num: 230, den: 473 },
        bottom: Ratio { num: 53, den: 842 },
    }
}

/// The rectangle that the crop keeps of a `width` x `height` image: the full
/// width, less `ceil(0.055 * height)` rows at the top and
/// `floor(0.124 * height)` rows at the bottom.
pub fn crop_plan(width: u32, height: u32) -> (r: Result<Rect, GeometryError>)
    ensures
        match r {
            Ok(rect) => band_spec(width as nat, height as nat, crop_top(), crop_bottom()) == Some(
                rect,
            ) && rect.y + rect.height <= height && rect.height == height - (55 * height + 999)
                / 1000 - (124 * height) / 1000 && rect.height < height,
            Err(e) => band_spec(width as nat, height as nat, crop_top(), crop_bottom()) is None
                && e.width == width && e.height == height,
        },
{
    let top = Ratio { num: CROP_TOP_NUM, den: CROP_DEN };
    let bottom = Ratio { num: CROP_BOTTOM_NUM, den: CROP_DEN };
    if height >= 1 {
        proof {
            crop_keeps_fewer_rows(width as nat, height as nat);
        }
    }
    band_rect(width, height, top, bottom)
}

/// The label region that recognition reads of a `width` x `height` image.
pub fn region_plan(width: u32, height: u32) -> (r: Result<Rect, GeometryError>)
    ensures
        match r {
            Ok(rect) => rect_spec(width as nat, height as nat, region_margins()) == Some(rect)
                && rect.x + rect.width <= width && rect.y + rect.height <= height,
            Err(e) => rect_spec(width as nat, height as nat, region_margins()) is None && e.width
                == width && e.height == height,
        },
{
    let m = Margins {
        left: Ratio { num: 60, den: 473 },
        top: Ratio { num: 17, den: 842 },
        right: Ratio { num: 230, den: 473 },
        bottom: Ratio { num: 53, den: 842 },
    };
    crop_rect(width, height, m)
}

/// The crop keeps `height - ceil(0.055 * height) - floor(0.124 * height)` rows
/// of an image `height` rows high, and for any height of at least one row that
/// is strictly fewer rows than it had.
pub proof fn crop_keeps_fewer_rows(width: nat, height: nat)
    requires
        height >= 1,
        width <= u32::MAX,
        height <= u32::MAX,
    ensures
        kept_rows(height, crop_top(), crop_bottom()) == height - (55 * height + 999) / 1000 - (124
            * height) / 1000,
        kept_rows(height, crop_top(), crop_bottom()) < height,
        band_spec(width, height, crop_top(), crop_bottom()) matches Some(rect) ==> rect.height
            < height,
{
    let h = height as int;
    assert((55 * h + 999) / 1000 >= 1 && (124 * h) / 1000 >= 0) by (nonlinear_arith)
        requires
            h >= 1,
    ;
}

/// A decoded image together with its size, which the transforms read.
pub struct Picture {
    image: DynamicImage,
    width: u32,
    height: u32,
}

impl Picture {
    /// Width in pixels.
    pub closed spec fn width(&self) -> nat {
        self.width as nat
    }

    /// Height in pixels.
    pub closed spec fn height(&self) -> nat {
        self.height as nat
    }

    /// Wraps a decoded image, reading its size.
    pub fn new(image: DynamicImage) -> (r: Picture) {
        let (width, height) = image_size(&image);
        Picture { image, width, height }
    }

    pub fn width_px(&self) -> (r: u32)
        ensures
            r as nat == self.width(),
    {
        self.width
    }

    pub fn height_px(&self) -> (r: u32)
        ensures
            r as nat == self.height(),
    {
        self.height
    }

    pub fn image(&self) -> (r: &DynamicImage) {
        &self.image
    }

    pub fn into_image(self) -> (r: DynamicImage) {
        self.image
    }
}

/// Relies on image::DynamicImage::width and ::height: the image's size.
#[verifier::external_body]
fn image_size(img: &DynamicImage) -> (r: (u32, u32)) {
    (img.width(), img.height())
}

/// Relies on image::DynamicImage::crop_imm: a copy of the given rectangle, the
/// source left as it was. A rectangle inside the image is copied unclamped, so
/// the copy has the rectangle's size.
#[verifier::external_body]
fn cut_out(p: &Picture, rect: Rect) -> (r: Picture)
    requires
        rect.x + rect.width <= p.width(),
        rect.y + rect.height <= p.height(),
    ensures
        r.width() == rect.width,
        r.height() == rect.height,
{
    let image = p.image.crop_imm(rect.x, rect.y, rect.width, rect.height);
    Picture { width: image.width(), height: image.height(), image }
}

/// Relies on image::DynamicImage::grayscale: a one-channel copy of the same
/// size.
#[verifier::external_body]
fn to_grayscale(p: &Picture) -> (r: Picture)
    ensures
        r.width() == p.width(),
        r.height() == p.height(),
{
    let image = p.image.grayscale();
    Picture { width: image.width(), height: image.height(), image }
}

/// Relies on image::DynamicImage::invert: flips every intensity in place; the
/// size stays.
#[verifier::external_body]
fn invert_in_place(p: &mut Picture)
    ensures
        final(p).width() == old(p).width(),
        final(p).height() == old(p).height(),
{
    p.image.invert()
}

/// The crop of a decoded image: the rectangle of `crop_plan` for its size.
/// An image too small to keep a row fails with `AppError::Geometry`.
pub fn crop_image(img: &Picture, filepath: &String) -> (r: Result<Picture, AppError>)
    ensures
        r is Err <==> band_spec(img.width(), img.height(), crop_top(), crop_bottom()) is None,
        r matches Ok(out) ==> (band_spec(img.width(), img.height(), crop_top(), crop_bottom())
            matches Some(rect) && out.width() == rect.width && out.height() == rect.height),
        r matches Err(e) ==> (e matches AppError::Geometry { filepath: p, width, height } && p@
            == filepath@ && width == img.width() && height == img.height()),
{
    match crop_plan(img.width_px(), img.height_px()) {
        Ok(rect) => Ok(cut_out(img, rect)),
        Err(e) => Err(AppError::Geometry { filepath: filepath.clone(), width: e.width, height: e.height }),
    }
}

/// The first half of the preparation for recognition: the label region, in
/// grayscale. An image too small for the region fails with `AppError::Geometry`.
pub fn extract_region(img: &Picture, filepath: &String) -> (r: Result<Picture, AppError>)
    ensures
        r is Err <==> rect_spec(img.width(), img.height(), region_margins()) is None,
        r matches Ok(out) ==> (rect_spec(img.width(), img.height(), region_margins()) matches Some(
            rect,
        ) && out.width() == rect.width && out.height() == rect.height),
        r matches Err(e) ==> (e matches AppError::Geometry { filepath: p, width, height } && p@
            == filepath@ && width == img.width() && height == img.height()),
{
    match region_plan(img.width_px(), img.height_px()) {
        Ok(rect) => {
            let region = cut_out(img, rect);
            Ok(to_grayscale(&region))
        },
        Err(e) => Err(AppError::Geometry { filepath: filepath.clone(), width: e.width, height: e.height }),
    }
}

/// The last step of the preparation for recognition, after smoothing: dark
/// text on light ground becomes light text on dark ground, at the same size.
pub fn flip_polarity(img: Picture) -> (r: Picture)
    ensures
        r.width() == img.width(),
        r.height() == img.height(),
{
    let mut out = img;
    invert_in_place(&mut out);
    out
}

} // verus!
