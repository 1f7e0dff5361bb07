//! A decoded image together with its size, and the transformations that the
//! service applies to it.

use vstd::prelude::*;
use image::DynamicImage;
use crate::operation::{describes, FlipDirection, Operation, Rotation};

verus! {

#[verifier::external_type_specification]
#[verifier::external_body]
pub struct ExDynamicImage(image::DynamicImage);

/// Relies on `DynamicImage::width`, which reads the width of the pixel buffer.
pub assume_specification[ image::DynamicImage::width ](img: &image::DynamicImage) -> u32;

/// Relies on `DynamicImage::height`, which reads the height of the pixel buffer.
pub assume_specification[ image::DynamicImage::height ](img: &image::DynamicImage) -> u32;

/// One transformation applied to a picture's pixels.
#[derive(Clone, Copy, Debug, PartialEq, Eq, Structural)]
pub enum Transform {
    /// Lanczos resampling to exactly this size.
    ResizeExact { width: u32, height: u32 },
    /// One luminance per pixel, in the original colour model.
    Grayscale,
    /// Each colour channel moved by this amount, clamped to its range.
    Brighten { delta: i32 },
    /// A quarter turn clockwise.
    Rotate90,
    Rotate180,
    /// A quarter turn counter-clockwise.
    Rotate270,
    /// Mirror left to right.
    FlipHorizontal,
    /// Mirror top to bottom.
    FlipVertical,
}

/// A decoded image. `width` and `height` are those of `pixels`;
/// `float_samples` tells whether its channels are 32-bit floats; `applied`
/// lists the transformations that made `pixels` from the decoded image.
pub struct Picture {
    pixels: DynamicImage,
    width: u32,
    height: u32,
    float_samples: bool,
    applied: Ghost<Seq<Transform>>,
}

/// Largest brightness change passed on: with channels of at most 16 bits,
/// any larger change clamps every channel to the same value.
pub const MAX_BRIGHTEN: i32 = 65535;

/// The brightness change, bounded to what can make a difference.
pub open spec fn clamped_delta(delta: i32) -> i32 {
    if delta > MAX_BRIGHTEN {
        MAX_BRIGHTEN
    } else if delta < -MAX_BRIGHTEN {
        (-MAX_BRIGHTEN) as i32
    } else {
        delta
    }
}

/// The brightness change, bounded to what can make a difference.
pub fn clamp_delta(delta: i32) -> (r: i32)
    ensures
        r == clamped_delta(delta),
        -MAX_BRIGHTEN <= r <= MAX_BRIGHTEN,
{
    if delta > MAX_BRIGHTEN {
        MAX_BRIGHTEN
    } else if delta < -MAX_BRIGHTEN {
        -MAX_BRIGHTEN
    } else {
        delta
    }
}

/// The transformation that `op` applies. A blur is applied outside this
/// library; no contract asks this of one, and the value given for it means nothing.
pub open spec fn transform_of(op: Operation) -> Transform {
    match op {
        Operation::Resize { width, height } => Transform::ResizeExact { width, height },
        Operation::Grayscale => Transform::Grayscale,
        Operation::Brighten { delta } => Transform::Brighten { delta: clamped_delta(delta) },
        Operation::Rotate { rotation: Rotation::Quarter } => Transform::Rotate90,
        Operation::Rotate { rotation: Rotation::Half } => Transform::Rotate180,
        Operation::Rotate { rotation: Rotation::ThreeQuarters } => Transform::Rotate270,
        Operation::Flip { direction: FlipDirection::Horizontal } => Transform::FlipHorizontal,
        Operation::Flip { direction: FlipDirection::Vertical } => Transform::FlipVertical,
        Operation::Blur { .. } => Transform::Grayscale,
    }
}

/// Largest number of elements that a pixel buffer can hold here: a row of
/// four channels per pixel must be countable in `usize`.
pub open spec fn buffer_fits(width: u32, height: u32) -> bool {
    4 * (width as int) * (height as int) <= usize::MAX as int
}

/// The size of the image that `op` makes from one of `width` by `height`.
pub open spec fn transformed_size(width: u32, height: u32, op: Operation) -> (u32, u32) {
    match op {
        Operation::Resize { width: w, height: h } => (w, h),
        Operation::Rotate { rotation: Rotation::Half } => (width, height),
        Operation::Rotate { rotation: _ } => (height, width),
        _ => (width, height),
    }
}

/// Whether `transform` can apply `op` to an image of this size: a blur is
/// applied by the caller, a resize needs its buffers to fit in memory, and a
/// brightness change reads channels as integers, which float channels need not be.
pub open spec fn can_transform(width: u32, height: u32, float_samples: bool, op: Operation) -> bool {
    match op {
        Operation::Blur { .. } => false,
        Operation::Brighten { .. } => !float_samples,
        Operation::Resize { width: w, height: h } => buffer_fits(width, h) && buffer_fits(w, h),
        _ => true,
    }
}

/// Relies on `DynamicImage::resize_exact`, with the Lanczos filter: the result
/// has exactly the requested size. Its buffers must fit in `usize`, else it panics.
#[verifier::external_body]
fn resize_exact_lanczos(p: &Picture, width: u32, height: u32) -> (r: Picture)
    requires
        buffer_fits(p.width, height),
        buffer_fits(width, height),
    ensures
        r.width == width,
        r.height == height,
        r.float_samples == p.float_samples,
        r.applied@ == p.applied@.push(Transform::ResizeExact { width, height }),
{
    let out = p.pixels.resize_exact(width, height, image::imageops::FilterType::Lanczos3);
    let applied = Ghost(p.applied@.push(Transform::ResizeExact { width, height }));
    Picture { width: out.width(), height: out.height(), pixels: out, float_samples: p.float_samples, applied }
}

/// Relies on `DynamicImage::grayscale`: the size is kept.
#[verifier::external_body]
fn grayscale_of(p: &Picture) -> (r: Picture)
    ensures
        r.width == p.width,
        r.height == p.height,
        r.float_samples == p.float_samples,
        r.applied@ == p.applied@.push(Transform::Grayscale),
{
    let out = p.pixels.grayscale();
    let applied = Ghost(p.applied@.push(Transform::Grayscale));
    Picture { width: out.width(), height: out.height(), pixels: out, float_samples: p.float_samples, applied }
}

/// Relies on `DynamicImage::brighten`: the size is kept. It adds the change to
/// each channel read as an `i32`, which overflows for a change beyond 16 bits
/// and fails on float channels that are out of range.
#[verifier::external_body]
fn brighten_of(p: &Picture, delta: i32) -> (r: Picture)
    requires
        -MAX_BRIGHTEN <= delta <= MAX_BRIGHTEN,
        !p.float_samples,
    ensures
        r.width == p.width,
        r.height == p.height,
        r.float_samples == p.float_samples,
        r.applied@ == p.applied@.push(Transform::Brighten { delta }),
{
    let out = p.pixels.brighten(delta);
    let applied = Ghost(p.applied@.push(Transform::Brighten { delta }));
    Picture { width: out.width(), height: out.height(), pixels: out, float_samples: p.float_samples, applied }
}

/// Relies on `DynamicImage::rotate90`: width and height swap.
#[verifier::external_body]
fn rotate90_of(p: &Picture) -> (r: Picture)
    ensures
        r.width == p.height,
        r.height == p.width,
        r.float_samples == p.float_samples,
        r.applied@ == p.applied@.push(Transform::Rotate90),
{
    let out = p.pixels.rotate90();
    let applied = Ghost(p.applied@.push(Transform::Rotate90));
    Picture { width: out.width(), height: out.height(), pixels: out, float_samples: p.float_samples, applied }
}

/// Relies on `DynamicImage::rotate180`: the size is kept.
#[verifier::external_body]
fn rotate180_of(p: &Picture) -> (r: Picture)
    ensures
        r.width == p.width,
        r.height == p.height,
        r.float_samples == p.float_samples,
        r.applied@ == p.applied@.push(Transform::Rotate180),
{
    let out = p.pixels.rotate180();
    let applied = Ghost(p.applied@.push(Transform::Rotate180));
    Picture { width: out.width(), height: out.height(), pixels: out, float_samples: p.float_samples, applied }
}

/// Relies on `DynamicImage::rotate270`: width and height swap.
#[verifier::external_body]
fn rotate270_of(p: &Picture) -> (r: Picture)
    ensures
        r.width == p.height,
        r.height == p.width,
        r.float_samples == p.float_samples,
        r.applied@ == p.applied@.push(Transform::Rotate270),
{
    let out = p.pixels.rotate270();
    let applied = Ghost(p.applied@.push(Transform::Rotate270));
    Picture { width: out.width(), height: out.height(), pixels: out, float_samples: p.float_samples, applied }
}

/// Relies on `DynamicImage::fliph`: the size is kept.
#[verifier::external_body]
fn fliph_of(p: &Picture) -> (r: Picture)
    ensures
        r.width == p.width,
        r.height == p.height,
        r.float_samples == p.float_samples,
        r.applied@ == p.applied@.push(Transform::FlipHorizontal),
{
    let out = p.pixels.fliph();
    let applied = Ghost(p.applied@.push(Transform::FlipHorizontal));
    Picture { width: out.width(), height: out.height(), pixels: out, float_samples: p.float_samples, applied }
}

/// Relies on `DynamicImage::flipv`: the size is kept.
#[verifier::external_body]
fn flipv_of(p: &Picture) -> (r: Picture)
    ensures
        r.width == p.width,
        r.height == p.height,
        r.float_samples == p.float_samples,
        r.applied@ == p.applied@.push(Transform::FlipVertical),
{
    let out = p.pixels.flipv();
    let applied = Ghost(p.applied@.push(Transform::FlipVertical));
    Picture { width: out.width(), height: out.height(), pixels: out, float_samples: p.float_samples, applied }
}

/// Relies on `DynamicImage::color`: whether the colour type is one of the
/// 32-bit float ones.
#[verifier::external_body]
fn has_float_samples(img: &DynamicImage) -> (r: bool) {
    matches!(img.color(), image::ColorType::Rgb32F | image::ColorType::Rgba32F)
}

impl Picture {
    /// The transformations applied since the picture was decoded, in order.
    pub closed spec fn applied(&self) -> Seq<Transform> {
        self.applied@
    }

    pub closed spec fn spec_float_samples(&self) -> bool {
        self.float_samples
    }

    pub closed spec fn spec_width(&self) -> u32 {
        self.width
    }

    pub closed spec fn spec_height(&self) -> u32 {
        self.height
    }

    /// Wraps a decoded image, reading its size.
    pub fn new(pixels: DynamicImage) -> (r: Picture)
        ensures
            r.applied() == Seq::<Transform>::empty(),
    {
        let width = pixels.width();
        let height = pixels.height();
        let float_samples = has_float_samples(&pixels);
        Picture { pixels, width, height, float_samples, applied: Ghost(Seq::empty()) }
    }

    pub fn width(&self) -> (r: u32)
        ensures
            r == self.spec_width(),
    {
        self.width
    }

    pub fn height(&self) -> (r: u32)
        ensures
            r == self.spec_height(),
    {
        self.height
    }

    /// Whether the channels are 32-bit floats.
    pub fn float_samples(&self) -> (r: bool)
        ensures
            r == self.spec_float_samples(),
    {
        self.float_samples
    }

    /// The decoded image.
    pub fn decoded(&self) -> (r: &DynamicImage) {
        &self.pixels
    }

    /// Gives the decoded image back.
    pub fn into_decoded(self) -> (r: DynamicImage) {
        self.pixels
    }

    /// Applies `op`: a resize to exactly the requested size, a rotation by
    /// the chosen turn, a flip in the chosen direction, a grayscale or a
    /// brightness change (bounded to what can make a difference).
    pub fn transform(&self, op: &Operation) -> (r: Picture)
        requires
            can_transform(self.spec_width(), self.spec_height(), self.spec_float_samples(), *op),
        ensures
            r.applied() == self.applied().push(transform_of(*op)),
            r.spec_float_samples() == self.spec_float_samples(),
            (r.spec_width(), r.spec_height()) == transformed_size(
                self.spec_width(),
                self.spec_height(),
                *op,
            ),
    {
        match op {
            Operation::Resize { width, height } => resize_exact_lanczos(self, *width, *height),
            Operation::Grayscale => grayscale_of(self),
            Operation::Brighten { delta } => brighten_of(self, clamp_delta(*delta)),
            Operation::Rotate { rotation } => match rotation {
                Rotation::Quarter => rotate90_of(self),
                Rotation::Half => rotate180_of(self),
                Rotation::ThreeQuarters => rotate270_of(self),
            },
            Operation::Flip { direction } => match direction {
                FlipDirection::Horizontal => fliph_of(self),
                FlipDirection::Vertical => flipv_of(self),
            },
            Operation::Blur { .. } => {
                // excluded by the precondition
                assert(false);
                grayscale_of(self)
            },
        }
    }
}

/// A resize with the parameters "50" and "50" can be applied to any picture
/// whose buffers for a height of 50 fit in memory (a machine limit), and
/// makes one of exactly 50 by 50 pixels.
pub proof fn resize_fifty_by_fifty_applies(op: Operation, width: u32, height: u32, float_samples: bool)
    requires
        describes(op, "resize"@, Some(seq!["50"@, "50"@])),
        buffer_fits(width, 50),
    ensures
        can_transform(width, height, float_samples, op),
        transformed_size(width, height, op) == (50u32, 50u32),
{
    crate::operation::fifty_reads_as_fifty();
    crate::operation::names_are_distinct();
    assert(crate::operation::param_at(Some(seq!["50"@, "50"@]), 0) == Some("50"@));
    assert(crate::operation::param_at(Some(seq!["50"@, "50"@]), 1) == Some("50"@));
    assert(op == Operation::Resize { width: 50, height: 50 });
    assert(buffer_fits(50, 50));
}

} // verus!
