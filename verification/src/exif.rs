use vstd::prelude::*;
use crate::config::RotateArg;
use crate::error::ConversionError;
use crate::raw_decoder::{raw_orientation_outcome_matches, spec_is_raw_file, RawDecoder};
use image::DynamicImage;
use crate::picture::{
    image_clone, image_dims, image_fliph, image_flipv, image_rotate180, image_rotate270,
    image_rotate90, in_image, pixel_at, same_picture, spec_image_format, exif_orientation,
    spec_exif_orientation,
};

verus! {

/// A rotation or mirroring that the image library performs in one call.
#[derive(Clone, Copy, Debug, PartialEq, Eq, Structural)]
pub enum ImageOp {
    FlipHorizontal,
    FlipVertical,
    Rotate90,
    Rotate180,
    Rotate270,
}

/// The (width, height) of a `w` x `h` image after one operation.
pub open spec fn op_dims(op: ImageOp, w: int, h: int) -> (int, int) {
    match op {
        ImageOp::Rotate90 | ImageOp::Rotate270 => (h, w),
        _ => (w, h),
    }
}

/// Where the pixel at column `x`, row `y` of a `w` x `h` image lands after
/// one operation; rotations turn clockwise.
pub open spec fn op_point(op: ImageOp, w: int, h: int, x: int, y: int) -> (int, int) {
    match op {
        ImageOp::FlipHorizontal => (w - 1 - x, y),
        ImageOp::FlipVertical => (x, h - 1 - y),
        ImageOp::Rotate90 => (h - 1 - y, x),
        ImageOp::Rotate180 => (w - 1 - x, h - 1 - y),
        ImageOp::Rotate270 => (y, w - 1 - x),
    }
}

/// The dimensions after a sequence of operations, applied first to last.
pub open spec fn ops_dims(ops: Seq<ImageOp>, w: int, h: int) -> (int, int)
    decreases ops.len(),
{
    if ops.len() == 0 {
        (w, h)
    } else {
        let d = op_dims(ops[0], w, h);
        ops_dims(ops.drop_first(), d.0, d.1)
    }
}

/// Where a pixel lands after a sequence of operations, applied first to last.
pub open spec fn ops_point(ops: Seq<ImageOp>, w: int, h: int, x: int, y: int) -> (int, int)
    decreases ops.len(),
{
    if ops.len() == 0 {
        (x, y)
    } else {
        let d = op_dims(ops[0], w, h);
        let p = op_point(ops[0], w, h, x, y);
        ops_point(ops.drop_first(), d.0, d.1, p.0, p.1)
    }
}

/// One of the eight ways of turning and mirroring an image.
#[derive(Clone, Copy, Debug, PartialEq, Eq, Structural)]
pub enum ImageTransform {
    Identity,
    FlipHorizontal,
    Rotate180,
    FlipVertical,
    Rotate90ThenFlipHorizontal,
    Rotate90,
    Rotate90ThenFlipVertical,
    Rotate270,
}

/// The operations that carry out a transform, in order.
pub open spec fn transform_ops(t: ImageTransform) -> Seq<ImageOp> {
    match t {
        ImageTransform::Identity => seq![],
        ImageTransform::FlipHorizontal => seq![ImageOp::FlipHorizontal],
        ImageTransform::Rotate180 => seq![ImageOp::Rotate180],
        ImageTransform::FlipVertical => seq![ImageOp::FlipVertical],
        ImageTransform::Rotate90ThenFlipHorizontal => seq![ImageOp::Rotate90, ImageOp::FlipHorizontal],
        ImageTransform::Rotate90 => seq![ImageOp::Rotate90],
        ImageTransform::Rotate90ThenFlipVertical => seq![ImageOp::Rotate90, ImageOp::FlipVertical],
        ImageTransform::Rotate270 => seq![ImageOp::Rotate270],
    }
}

/// The transform that shows upright an image stored with EXIF orientation
/// `orientation`; values outside 1..=8 leave the image as it is.
pub open spec fn spec_orientation_transform(orientation: u16) -> ImageTransform {
    if orientation == 2 {
        ImageTransform::FlipHorizontal
    } else if orientation == 3 {
        ImageTransform::Rotate180
    } else if orientation == 4 {
        ImageTransform::FlipVertical
    } else if orientation == 5 {
        ImageTransform::Rotate90ThenFlipHorizontal
    } else if orientation == 6 {
        ImageTransform::Rotate90
    } else if orientation == 7 {
        ImageTransform::Rotate90ThenFlipVertical
    } else if orientation == 8 {
        ImageTransform::Rotate270
    } else {
        ImageTransform::Identity
    }
}

/// The transform that a manual rotation asks for; `Auto` and `NoRotation`
/// leave the image as it is.
pub open spec fn spec_manual_transform(rotate: RotateArg) -> ImageTransform {
    match rotate {
        RotateArg::NoRotation => ImageTransform::Identity,
        RotateArg::Rotate90 => ImageTransform::Rotate90,
        RotateArg::Rotate180 => ImageTransform::Rotate180,
        RotateArg::Rotate270 => ImageTransform::Rotate270,
        RotateArg::Auto => ImageTransform::Identity,
    }
}

/// The transform that shows upright an image with a given EXIF orientation.
pub fn orientation_transform(orientation: u16) -> (r: ImageTransform)
    ensures
        r == spec_orientation_transform(orientation),
{
    match orientation {
        2 => ImageTransform::FlipHorizontal,
        3 => ImageTransform::Rotate180,
        4 => ImageTransform::FlipVertical,
        5 => ImageTransform::Rotate90ThenFlipHorizontal,
        6 => ImageTransform::Rotate90,
        7 => ImageTransform::Rotate90ThenFlipVertical,
        8 => ImageTransform::Rotate270,
        _ => ImageTransform::Identity,
    }
}

/// The transform that a manual rotation asks for.
pub fn manual_transform(rotate: RotateArg) -> (r: ImageTransform)
    ensures
        r == spec_manual_transform(rotate),
{
    match rotate {
        RotateArg::NoRotation => ImageTransform::Identity,
        RotateArg::Rotate90 => ImageTransform::Rotate90,
        RotateArg::Rotate180 => ImageTransform::Rotate180,
        RotateArg::Rotate270 => ImageTransform::Rotate270,
        RotateArg::Auto => ImageTransform::Identity,
    }
}

/// Whether `r` is `img` after the operations `ops`: its dimensions follow the
/// operations, and every pixel of `img` is found in `r` where the operations
/// move it.
pub open spec fn transformed_by(img: DynamicImage, r: DynamicImage, ops: Seq<ImageOp>) -> bool {
    let w = image_dims(img).0;
    let h = image_dims(img).1;
    &&& image_dims(r) == ops_dims(ops, w, h)
    &&& spec_image_format(r) == spec_image_format(img)
    &&& forall|x: int, y: int|
        in_image(w, h, x, y) ==> pixel_at(r, ops_point(ops, w, h, x, y).0, ops_point(ops, w, h, x, y).1)
            == #[trigger] pixel_at(img, x, y)
}

/// The operations of a transform, at most two, end after the first or the
/// second.
proof fn lemma_transform_ops_end(t: ImageTransform)
    ensures
        transform_ops(t).len() == 1 ==> transform_ops(t).drop_first() == Seq::<ImageOp>::empty(),
        transform_ops(t).len() == 2 ==> transform_ops(t).drop_first().drop_first() == Seq::<
            ImageOp,
        >::empty(),
{
    let ops = transform_ops(t);
    if ops.len() == 2 {
        assert(ops.drop_first().drop_first() =~= Seq::<ImageOp>::empty());
    }
    if ops.len() == 1 {
        assert(ops.drop_first() =~= Seq::<ImageOp>::empty());
    }
}

/// Applies a transform to an image, by the operations of `transform_ops`.
pub fn apply_transform(img: &DynamicImage, t: ImageTransform) -> (r: DynamicImage)
    ensures
        transformed_by(*img, r, transform_ops(t)),
{
    proof {
        reveal_with_fuel(ops_dims, 3);
        reveal_with_fuel(ops_point, 3);
    }
    let ghost ops = transform_ops(t);
    proof {
        lemma_transform_ops_end(t);
    }
    match t {
        ImageTransform::Identity => image_clone(img),
        ImageTransform::FlipHorizontal => image_fliph(img),
        ImageTransform::Rotate180 => image_rotate180(img),
        ImageTransform::FlipVertical => image_flipv(img),
        ImageTransform::Rotate90ThenFlipHorizontal => {
            let turned = image_rotate90(img);
            let r = image_fliph(&turned);
            proof {
                let h = image_dims(*img).1;
                assert forall|x: int, y: int| in_image(image_dims(*img).0, h, x, y) implies pixel_at(
                    r,
                    ops_point(ops, image_dims(*img).0, h, x, y).0,
                    ops_point(ops, image_dims(*img).0, h, x, y).1,
                ) == #[trigger] pixel_at(*img, x, y) by {
                    assert(pixel_at(*img, x, y) == pixel_at(turned, h - 1 - y, x));
                    assert(pixel_at(turned, h - 1 - y, x) == pixel_at(r, h - 1 - (h - 1 - y), x));
                }
            }
            r
        },
        ImageTransform::Rotate90 => image_rotate90(img),
        ImageTransform::Rotate90ThenFlipVertical => {
            let turned = image_rotate90(img);
            let r = image_flipv(&turned);
            proof {
                let w = image_dims(*img).0;
                let h = image_dims(*img).1;
                assert forall|x: int, y: int| in_image(w, h, x, y) implies pixel_at(
                    r,
                    ops_point(ops, w, h, x, y).0,
                    ops_point(ops, w, h, x, y).1,
                ) == #[trigger] pixel_at(*img, x, y) by {
                    assert(pixel_at(*img, x, y) == pixel_at(turned, h - 1 - y, x));
                    assert(pixel_at(turned, h - 1 - y, x) == pixel_at(r, h - 1 - y, w - 1 - x));
                }
            }
            r
        },
        ImageTransform::Rotate270 => image_rotate270(img),
    }
}

/// Turns and mirrors an image as its EXIF orientation asks, so that it shows
/// upright: for an orientation from 1 to 8, every stored pixel goes where
/// the EXIF meaning of the orientation places it in the upright picture;
/// other values give an unchanged copy.
pub fn apply_rotation(img: &DynamicImage, orientation: u16) -> (r: DynamicImage)
    ensures
        transformed_by(*img, r, transform_ops(spec_orientation_transform(orientation))),
        1 <= orientation <= 8 ==> image_dims(r) == exif_display_dims(
            orientation,
            image_dims(*img).0,
            image_dims(*img).1,
        ),
        1 <= orientation <= 8 ==> forall|x: int, y: int|
            in_image(image_dims(*img).0, image_dims(*img).1, x, y) ==> pixel_at(
                r,
                exif_display_point(orientation, image_dims(*img).0, image_dims(*img).1, x, y).0,
                exif_display_point(orientation, image_dims(*img).0, image_dims(*img).1, x, y).1,
            ) == #[trigger] pixel_at(*img, x, y),
        !(1 <= orientation <= 8) ==> same_picture(*img, r),
{
    let t = orientation_transform(orientation);
    let r = apply_transform(img, t);
    proof {
        let w = image_dims(*img).0;
        let h = image_dims(*img).1;
        if 1 <= orientation <= 8 {
            lemma_auto_rotation_shows_upright(orientation, w, h, 0, 0);
            assert forall|x: int, y: int| in_image(w, h, x, y) implies pixel_at(
                r,
                exif_display_point(orientation, w, h, x, y).0,
                exif_display_point(orientation, w, h, x, y).1,
            ) == #[trigger] pixel_at(*img, x, y) by {
                lemma_auto_rotation_shows_upright(orientation, w, h, x, y);
            }
        }
    }
    r
}

/// Rotates an image as a manual rotation asks; `Auto` and `NoRotation` give
/// an unchanged copy.
pub fn apply_manual_rotation(img: &DynamicImage, rotate: RotateArg) -> (r: DynamicImage)
    ensures
        transformed_by(*img, r, transform_ops(spec_manual_transform(rotate))),
        rotate == RotateArg::NoRotation || rotate == RotateArg::Auto ==> same_picture(*img, r),
{
    let t = manual_transform(rotate);
    apply_transform(img, t)
}

/// A side of the picture as the viewer sees it.
#[derive(Clone, Copy, Debug, PartialEq, Eq, Structural)]
pub enum Side {
    Top,
    Bottom,
    Left,
    Right,
}

/// The EXIF meaning of an orientation value: the side of the scene that the
/// stored image's first row shows.
pub open spec fn exif_first_row_side(orientation: u16) -> Side {
    if orientation == 1 || orientation == 2 {
        Side::Top
    } else if orientation == 3 || orientation == 4 {
        Side::Bottom
    } else if orientation == 5 || orientation == 8 {
        Side::Left
    } else {
        Side::Right
    }
}

/// The EXIF meaning of an orientation value: the side of the scene that the
/// stored image's first column shows.
pub open spec fn exif_first_column_side(orientation: u16) -> Side {
    if orientation == 1 || orientation == 4 {
        Side::Left
    } else if orientation == 2 || orientation == 3 {
        Side::Right
    } else if orientation == 5 || orientation == 6 {
        Side::Top
    } else {
        Side::Bottom
    }
}

/// The (width, height) of the upright picture of a stored `w` x `h` image.
pub open spec fn exif_display_dims(orientation: u16, w: int, h: int) -> (int, int) {
    match exif_first_row_side(orientation) {
        Side::Top | Side::Bottom => (w, h),
        _ => (h, w),
    }
}

/// Where the stored pixel at column `x`, row `y` belongs in the upright
/// picture, by the EXIF meaning of the orientation value.
pub open spec fn exif_display_point(orientation: u16, w: int, h: int, x: int, y: int) -> (int, int) {
    let row_side = exif_first_row_side(orientation);
    let col_side = exif_first_column_side(orientation);
    match row_side {
        Side::Top | Side::Bottom => {
            let row = if row_side == Side::Top { y } else { h - 1 - y };
            let col = if col_side == Side::Left { x } else { w - 1 - x };
            (col, row)
        },
        _ => {
            let col = if row_side == Side::Left { y } else { h - 1 - y };
            let row = if col_side == Side::Top { x } else { w - 1 - x };
            (col, row)
        },
    }
}

/// Automatic rotation shows a picture upright: for every EXIF orientation
/// value, the operations chosen for it move each stored pixel to the place
/// that the EXIF meaning of the value gives it, and give the picture its
/// upright dimensions.
pub proof fn lemma_auto_rotation_shows_upright(orientation: u16, w: int, h: int, x: int, y: int)
    requires
        1 <= orientation <= 8,
    ensures
        ops_point(transform_ops(spec_orientation_transform(orientation)), w, h, x, y)
            == exif_display_point(orientation, w, h, x, y),
        ops_dims(transform_ops(spec_orientation_transform(orientation)), w, h)
            == exif_display_dims(orientation, w, h),
{
    reveal_with_fuel(ops_point, 3);
    reveal_with_fuel(ops_dims, 3);
    let ops = transform_ops(spec_orientation_transform(orientation));
    lemma_transform_ops_end(spec_orientation_transform(orientation));
}

/// A manual rotation by 90, 180 or 270 degrees turns the image exactly as the
/// EXIF orientations 6, 3 and 8 do, and `NoRotation` and `Auto` act as
/// orientation 1.
pub proof fn lemma_manual_rotation_matches_exif()
    ensures
        spec_manual_transform(RotateArg::Rotate90) == spec_orientation_transform(6),
        spec_manual_transform(RotateArg::Rotate180) == spec_orientation_transform(3),
        spec_manual_transform(RotateArg::Rotate270) == spec_orientation_transform(8),
        spec_manual_transform(RotateArg::NoRotation) == spec_orientation_transform(1),
        spec_manual_transform(RotateArg::Auto) == spec_orientation_transform(1),
{
}

/// What each EXIF orientation value means for the stored pixel at `(x, y)`
/// of a `w` x `h` image, and for the upright dimensions: 1 as stored, 2
/// mirrored left to right, 3 turned half way round, 4 mirrored top to
/// bottom, 5 mirrored along the main diagonal, 6 turned a quarter clockwise,
/// 7 mirrored along the other diagonal, 8 turned a quarter counter-clockwise.
pub proof fn lemma_exif_orientation_meanings(w: int, h: int, x: int, y: int)
    ensures
        exif_display_point(1, w, h, x, y) == (x, y) && exif_display_dims(1, w, h) == (w, h),
        exif_display_point(2, w, h, x, y) == (w - 1 - x, y) && exif_display_dims(2, w, h) == (w, h),
        exif_display_point(3, w, h, x, y) == (w - 1 - x, h - 1 - y) && exif_display_dims(3, w, h) == (
        w,
        h,
        ),
        exif_display_point(4, w, h, x, y) == (x, h - 1 - y) && exif_display_dims(4, w, h) == (w, h),
        exif_display_point(5, w, h, x, y) == (y, x) && exif_display_dims(5, w, h) == (h, w),
        exif_display_point(6, w, h, x, y) == (h - 1 - y, x) && exif_display_dims(6, w, h) == (h, w),
        exif_display_point(7, w, h, x, y) == (h - 1 - y, w - 1 - x) && exif_display_dims(7, w, h) == (
        h,
        w,
        ),
        exif_display_point(8, w, h, x, y) == (y, w - 1 - x) && exif_display_dims(8, w, h) == (h, w),
{
}

/// A manual rotation turns the image clockwise by the angle asked for: a
/// quarter turn moves the stored pixel at `(x, y)` of a `w` x `h` image to
/// `(h - 1 - y, x)` of an `h` x `w` one, a half turn to
/// `(w - 1 - x, h - 1 - y)`, three quarters to `(y, w - 1 - x)`; no rotation
/// (and `Auto`, whose turning comes from the image) leaves every pixel where
/// it is.
pub proof fn lemma_manual_rotation_moves(w: int, h: int, x: int, y: int)
    ensures
        ops_point(transform_ops(spec_manual_transform(RotateArg::Rotate90)), w, h, x, y) == (h - 1 - y, x),
        ops_dims(transform_ops(spec_manual_transform(RotateArg::Rotate90)), w, h) == (h, w),
        ops_point(transform_ops(spec_manual_transform(RotateArg::Rotate180)), w, h, x, y) == (
            w - 1 - x,
            h - 1 - y,
        ),
        ops_dims(transform_ops(spec_manual_transform(RotateArg::Rotate180)), w, h) == (w, h),
        ops_point(transform_ops(spec_manual_transform(RotateArg::Rotate270)), w, h, x, y) == (y, w - 1 - x),
        ops_dims(transform_ops(spec_manual_transform(RotateArg::Rotate270)), w, h) == (h, w),
        ops_point(transform_ops(spec_manual_transform(RotateArg::NoRotation)), w, h, x, y) == (x, y),
        ops_dims(transform_ops(spec_manual_transform(RotateArg::NoRotation)), w, h) == (w, h),
        ops_point(transform_ops(spec_manual_transform(RotateArg::Auto)), w, h, x, y) == (x, y),
        ops_dims(transform_ops(spec_manual_transform(RotateArg::Auto)), w, h) == (w, h),
{
    reveal_with_fuel(ops_point, 2);
    reveal_with_fuel(ops_dims, 2);
    lemma_transform_ops_end(spec_manual_transform(RotateArg::Rotate90));
    lemma_transform_ops_end(spec_manual_transform(RotateArg::Rotate180));
    lemma_transform_ops_end(spec_manual_transform(RotateArg::Rotate270));
    lemma_transform_ops_end(spec_manual_transform(RotateArg::NoRotation));
}

/// The orientation value whose correction undoes the correction for
/// `orientation`: the two quarter turns (6 and 8) undo each other, every other
/// correction undoes itself.
pub open spec fn inverse_orientation(orientation: u16) -> u16 {
    if orientation == 6 {
        8
    } else if orientation == 8 {
        6
    } else {
        orientation
    }
}

proof fn lemma_inverse_point(orientation: u16, w: int, h: int, x: int, y: int)
    requires
        1 <= orientation <= 8,
        in_image(w, h, x, y),
    ensures
        ({
            let ops1 = transform_ops(spec_orientation_transform(orientation));
            let ops2 = transform_ops(spec_orientation_transform(inverse_orientation(orientation)));
            let d = ops_dims(ops1, w, h);
            let p = ops_point(ops1, w, h, x, y);
            &&& in_image(d.0, d.1, p.0, p.1)
            &&& ops_point(ops2, d.0, d.1, p.0, p.1) == (x, y)
        }),
{
    reveal_with_fuel(ops_point, 3);
    reveal_with_fuel(ops_dims, 3);
    let ops1 = transform_ops(spec_orientation_transform(orientation));
    let ops2 = transform_ops(spec_orientation_transform(inverse_orientation(orientation)));
    lemma_transform_ops_end(spec_orientation_transform(orientation));
    lemma_transform_ops_end(spec_orientation_transform(inverse_orientation(orientation)));
}

proof fn lemma_inverse_dims(orientation: u16, w: int, h: int)
    requires
        1 <= orientation <= 8,
    ensures
        ({
            let ops1 = transform_ops(spec_orientation_transform(orientation));
            let ops2 = transform_ops(spec_orientation_transform(inverse_orientation(orientation)));
            let d = ops_dims(ops1, w, h);
            ops_dims(ops2, d.0, d.1) == (w, h)
        }),
{
    reveal_with_fuel(ops_dims, 3);
    let ops1 = transform_ops(spec_orientation_transform(orientation));
    let ops2 = transform_ops(spec_orientation_transform(inverse_orientation(orientation)));
    lemma_transform_ops_end(spec_orientation_transform(orientation));
    lemma_transform_ops_end(spec_orientation_transform(inverse_orientation(orientation)));
}

/// Each orientation correction is undone by the correction for its inverse
/// orientation: correcting an image for `orientation` and then correcting the
/// result for `inverse_orientation(orientation)` gives back the same picture.
pub proof fn lemma_rotation_round_trip(
    img: DynamicImage,
    turned: DynamicImage,
    back: DynamicImage,
    orientation: u16,
)
    requires
        1 <= orientation <= 8,
        transformed_by(img, turned, transform_ops(spec_orientation_transform(orientation))),
        transformed_by(
            turned,
            back,
            transform_ops(spec_orientation_transform(inverse_orientation(orientation))),
        ),
    ensures
        same_picture(img, back),
{
    let w = image_dims(img).0;
    let h = image_dims(img).1;
    let ops1 = transform_ops(spec_orientation_transform(orientation));
    let ops2 = transform_ops(spec_orientation_transform(inverse_orientation(orientation)));
    lemma_inverse_dims(orientation, w, h);
    assert forall|x: int, y: int| in_image(w, h, x, y) implies #[trigger] pixel_at(img, x, y)
        == pixel_at(back, x, y) by {
        lemma_inverse_point(orientation, w, h, x, y);
        let p = ops_point(ops1, w, h, x, y);
        assert(pixel_at(turned, p.0, p.1) == pixel_at(img, x, y));
        let d = ops_dims(ops1, w, h);
        assert(pixel_at(back, ops_point(ops2, d.0, d.1, p.0, p.1).0, ops_point(ops2, d.0, d.1, p.0, p.1).1)
            == pixel_at(turned, p.0, p.1));
    }
}

/// The orientation of an image, read from its file's bytes: for a raw file,
/// the one its raw metadata records (or the error of decoding it); for any
/// other file, the EXIF orientation that the image decoder reports, or 1
/// (upright) when the bytes cannot be read as an image.
pub fn get_orientation(path: &str, bytes: &[u8]) -> (r: Result<u16, ConversionError>)
    ensures
        spec_is_raw_file(path@) ==> raw_orientation_outcome_matches(bytes@, r),
        !spec_is_raw_file(path@) ==> r == Ok::<u16, ConversionError>(
            match spec_exif_orientation(bytes@) {
                Some(v) => v as u16,
                None => 1,
            },
        ),
{
    if RawDecoder::is_raw_file(path) {
        return RawDecoder::get_raw_orientation(bytes);
    }
    match exif_orientation(bytes) {
        Some(v) => Ok(v as u16),
        None => Ok(1),
    }
}

/// Turns an image as a rotation setting asks: `Auto` follows the image's
/// orientation value, the others are manual rotations.
pub fn orient_image(img: &DynamicImage, rotate: RotateArg, orientation: u16) -> (r: DynamicImage)
    ensures
        rotate == RotateArg::Auto ==> transformed_by(
            *img,
            r,
            transform_ops(spec_orientation_transform(orientation)),
        ),
        rotate != RotateArg::Auto ==> transformed_by(*img, r, transform_ops(spec_manual_transform(rotate))),
{
    match rotate {
        RotateArg::Auto => apply_rotation(img, orientation),
        _ => apply_manual_rotation(img, rotate),
    }
}

} // verus!
