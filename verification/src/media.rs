//! The boundary with the image codecs: decoding, pixel transforms and
//! re-encoding are done by outside libraries. Each call is declared
//! here with a contract over named results — every codec here is a pure
//! function of its arguments, so decoded images, transforms and
//! encodings all have names the pipelines' contracts compose. The EXIF
//! orientation mapping itself is decided in verified code.

use vstd::prelude::*;

use crate::result::Error;

verus! {

/// Decoded raster images are carried through opaquely; the library
/// never reads their pixels, it only passes them between the codec
/// calls below.
#[verifier::external_type_specification]
#[verifier::external_body]
pub struct ExDynamicImage(image::DynamicImage);

/// The dimensions a probe of an image header yields: a pure function of
/// the bytes, `None` when they are not a readable image.
pub uninterp spec fn blob_dims_of(bytes: Seq<u8>) -> Option<(usize, usize)>;

/// Relies on imagesize::blob_size: reads width and height from the
/// image header; the result depends on the bytes alone.
#[verifier::external_body]
pub(crate) fn blob_size(buf: &[u8]) -> (r: Option<(usize, usize)>)
    ensures
        r == blob_dims_of(buf@),
{
    match imagesize::blob_size(buf) {
        Ok(s) => Some((s.width, s.height)),
        Err(_) => None,
    }
}

/// The EXIF orientation value carried in an image's metadata: a pure
/// function of the bytes, `None` when absent or unreadable.
pub uninterp spec fn exif_orientation_of(bytes: Seq<u8>) -> Option<u32>;

/// Relies on exif::Reader::read_from_container, Exif::get_field with
/// Tag::Orientation in the primary image, and Value::get_uint: together
/// they read the EXIF orientation value, a function of the bytes alone.
#[verifier::external_body]
pub(crate) fn exif_orientation(buf: &[u8]) -> (r: Option<u32>)
    ensures
        r == exif_orientation_of(buf@),
{
    let mut cursor = std::io::Cursor::new(buf);
    match exif::Reader::new().read_from_container(&mut cursor) {
        Ok(data) => match data.get_field(exif::Tag::Orientation, exif::In::PRIMARY) {
            Some(field) => field.value.get_uint(0),
            None => None,
        },
        Err(_) => None,
    }
}

/// The image the codec decodes from the bytes, `None` exactly when the
/// bytes are not a decodable image: a pure function of the bytes.
pub uninterp spec fn decoded_of(bytes: Seq<u8>) -> Option<image::DynamicImage>;

/// Relies on image::io::Reader::with_guessed_format and decode:
/// decodes the bytes as whichever raster format their magic bytes
/// announce, deterministically, and fails exactly on bytes no
/// supported codec accepts.
#[verifier::external_body]
pub(crate) fn decode_image(buf: &[u8]) -> (r: Result<image::DynamicImage, Error>)
    ensures
        r is Ok <==> decoded_of(buf@) is Some,
        r matches Ok(img) ==> decoded_of(buf@) == Some(img),
        r matches Err(e) ==> e == Error::IOError,
{
    match image::io::Reader::new(std::io::Cursor::new(buf)).with_guessed_format() {
        Ok(reader) => reader.decode().map_err(|_| Error::IOError),
        Err(_) => Err(Error::IOError),
    }
}

/// The fast approximate scale of an image to exactly the given
/// dimensions: a pure function of image and dimensions.
pub uninterp spec fn thumb_of(img: image::DynamicImage, width: u32, height: u32) -> (
    image::DynamicImage
);

/// Relies on image::DynamicImage::thumbnail_exact: a fast scale to
/// exactly the given dimensions, without preserving the aspect ratio;
/// total, zero dimensions included.
#[verifier::external_body]
pub(crate) fn thumbnail(img: &image::DynamicImage, width: u32, height: u32) -> (r:
    image::DynamicImage)
    ensures
        r == thumb_of(*img, width, height),
{
    img.thumbnail_exact(width, height)
}

/// The horizontal mirror of an image.
pub uninterp spec fn fliph_of(img: image::DynamicImage) -> image::DynamicImage;

/// Relies on image::DynamicImage::fliph: mirrors the image horizontally.
#[verifier::external_body]
pub(crate) fn fliph(img: &image::DynamicImage) -> (r: image::DynamicImage)
    ensures
        r == fliph_of(*img),
{
    img.fliph()
}

/// The image rotated 90 degrees clockwise.
pub uninterp spec fn rot90_of(img: image::DynamicImage) -> image::DynamicImage;

/// Relies on image::DynamicImage::rotate90.
#[verifier::external_body]
pub(crate) fn rotate90(img: &image::DynamicImage) -> (r: image::DynamicImage)
    ensures
        r == rot90_of(*img),
{
    img.rotate90()
}

/// The image rotated 180 degrees.
pub uninterp spec fn rot180_of(img: image::DynamicImage) -> image::DynamicImage;

/// Relies on image::DynamicImage::rotate180.
#[verifier::external_body]
pub(crate) fn rotate180(img: &image::DynamicImage) -> (r: image::DynamicImage)
    ensures
        r == rot180_of(*img),
{
    img.rotate180()
}

/// The image rotated 270 degrees clockwise.
pub uninterp spec fn rot270_of(img: image::DynamicImage) -> image::DynamicImage;

/// Relies on image::DynamicImage::rotate270.
#[verifier::external_body]
pub(crate) fn rotate270(img: &image::DynamicImage) -> (r: image::DynamicImage)
    ensures
        r == rot270_of(*img),
{
    img.rotate270()
}

/// The JPEG encoding of an image at a quality, `None` when the encoder
/// rejects the image's pixel layout: a pure function of its arguments.
pub uninterp spec fn jpeg_encoding_of(img: image::DynamicImage, quality: u8) -> Option<Seq<u8>>;

/// Relies on image::DynamicImage::write_to with a JPEG output format:
/// re-encodes the pixels at the given quality (the encoder clamps it
/// to 1–100), writing fresh bytes deterministically. The encoder emits
/// no EXIF segment, so no orientation value can be read back from its
/// output.
#[verifier::external_body]
pub(crate) fn encode_jpeg(img: &image::DynamicImage, quality: u8) -> (r: Result<Vec<u8>, Error>)
    ensures
        r is Ok <==> jpeg_encoding_of(*img, quality) is Some,
        r matches Ok(b) ==> Some(b@) == jpeg_encoding_of(*img, quality) && exif_orientation_of(b@)
            is None,
        r matches Err(e) ==> e == Error::IOError,
{
    let mut cursor = std::io::Cursor::new(Vec::new());
    match img.write_to(&mut cursor, image::ImageOutputFormat::Jpeg(quality)) {
        Ok(()) => Ok(cursor.into_inner()),
        Err(_) => Err(Error::IOError),
    }
}

/// The PNG encoding of an image, `None` when the encoder rejects it:
/// a pure function of the image.
pub uninterp spec fn png_encoding_of(img: image::DynamicImage) -> Option<Seq<u8>>;

/// Relies on image::DynamicImage::write_to with the PNG output format:
/// deterministic, failing exactly where the encoder does.
#[verifier::external_body]
pub(crate) fn encode_png(img: &image::DynamicImage) -> (r: Result<Vec<u8>, Error>)
    ensures
        r is Ok <==> png_encoding_of(*img) is Some,
        r matches Ok(b) ==> Some(b@) == png_encoding_of(*img),
        r matches Err(e) ==> e == Error::IOError,
{
    let mut cursor = std::io::Cursor::new(Vec::new());
    match img.write_to(&mut cursor, image::ImageOutputFormat::Png) {
        Ok(()) => Ok(cursor.into_inner()),
        Err(_) => Err(Error::IOError),
    }
}

/// The lossy WebP encoding of an image at a whole-number quality,
/// `None` when the encoder rejects the pixel layout, the dimensions or
/// the quality: a pure function of its arguments.
pub uninterp spec fn webp_encoding_of(img: image::DynamicImage, quality: u8) -> Option<Seq<u8>>;

/// Relies on webp::Encoder::from_image and Encoder::encode_simple:
/// lossy WebP at the given quality percentage. libwebp reports
/// qualities above 100, dimensions above its limit and unsupported
/// layouts as errors, which come back here as `IOError`; only the
/// library-version initialization inside encode_simple is assumed not
/// to fail.
#[verifier::external_body]
pub(crate) fn encode_webp_quality(img: &image::DynamicImage, quality: u8) -> (r: Result<
    Vec<u8>,
    Error,
>)
    ensures
        r is Ok <==> webp_encoding_of(*img, quality) is Some,
        r matches Ok(b) ==> Some(b@) == webp_encoding_of(*img, quality),
        r matches Err(e) ==> e == Error::IOError,
{
    match webp::Encoder::from_image(img) {
        Ok(encoder) => match encoder.encode_simple(false, quality.into()) {
            Ok(memory) => Ok(memory.to_vec()),
            Err(_) => Err(Error::IOError),
        },
        Err(_) => Err(Error::IOError),
    }
}

/// The lossless WebP encoding of an image, `None` when the encoder
/// rejects the pixel layout or the dimensions: a pure function of the
/// image.
pub uninterp spec fn webp_lossless_encoding_of(img: image::DynamicImage) -> Option<Seq<u8>>;

/// Relies on webp::Encoder::from_image and Encoder::encode_simple in
/// lossless mode: deterministic, with libwebp's failures (oversized
/// dimensions, unsupported layouts) coming back as `IOError`; only the
/// library-version initialization inside encode_simple is assumed not
/// to fail.
#[verifier::external_body]
pub(crate) fn encode_webp_lossless(img: &image::DynamicImage) -> (r: Result<Vec<u8>, Error>)
    ensures
        r is Ok <==> webp_lossless_encoding_of(*img) is Some,
        r matches Ok(b) ==> Some(b@) == webp_lossless_encoding_of(*img),
        r matches Err(e) ==> e == Error::IOError,
{
    match webp::Encoder::from_image(img) {
        Ok(encoder) => match encoder.encode_simple(true, (75u8).into()) {
            Ok(memory) => Ok(memory.to_vec()),
            Err(_) => Err(Error::IOError),
        },
        Err(_) => Err(Error::IOError),
    }
}

/// The lossless pixel transform that normalizes each EXIF orientation
/// value: rotations are clockwise, and where a rotation and a flip
/// combine, the rotation is applied first.
#[derive(Clone, Copy, Debug, PartialEq, Eq, Structural)]
pub enum Orient {
    Identity,
    FlipH,
    Rotate180,
    Rotate180FlipH,
    Rotate90FlipH,
    Rotate90,
    Rotate270FlipH,
    Rotate270,
}

/// The documented mapping from EXIF orientation values to transforms:
/// 2 mirrors horizontally; 3 rotates 180; 4 rotates 180 then mirrors;
/// 5 rotates 90 then mirrors; 6 rotates 90; 7 rotates 270 then mirrors;
/// 8 rotates 270; 1 and anything unreadable leave the pixels alone.
pub open spec fn spec_orient_for(v: u32) -> Orient {
    if v == 2 {
        Orient::FlipH
    } else if v == 3 {
        Orient::Rotate180
    } else if v == 4 {
        Orient::Rotate180FlipH
    } else if v == 5 {
        Orient::Rotate90FlipH
    } else if v == 6 {
        Orient::Rotate90
    } else if v == 7 {
        Orient::Rotate270FlipH
    } else if v == 8 {
        Orient::Rotate270
    } else {
        Orient::Identity
    }
}

/// The orientation value kept from an EXIF read: only 1 through 8 are
/// meaningful, anything else counts as unreadable.
pub open spec fn spec_rotation_of(o: Option<u32>) -> u32 {
    match o {
        Some(v) => if 1 <= v <= 8 {
            v
        } else {
            0
        },
        None => 0,
    }
}

/// Keeps an EXIF orientation read only when it is a meaningful value.
pub fn rotation_from_exif(o: Option<u32>) -> (v: u32)
    ensures
        v == spec_rotation_of(o),
{
    match o {
        Some(v) => if 1 <= v && v <= 8 {
            v
        } else {
            0
        },
        None => 0,
    }
}

/// The transform for an EXIF orientation value.
pub fn orient_for(v: u32) -> (o: Orient)
    ensures
        o == spec_orient_for(v),
{
    if v == 2 {
        Orient::FlipH
    } else if v == 3 {
        Orient::Rotate180
    } else if v == 4 {
        Orient::Rotate180FlipH
    } else if v == 5 {
        Orient::Rotate90FlipH
    } else if v == 6 {
        Orient::Rotate90
    } else if v == 7 {
        Orient::Rotate270FlipH
    } else if v == 8 {
        Orient::Rotate270
    } else {
        Orient::Identity
    }
}

/// The image a transform yields, composed from the named rotations and
/// the mirror.
pub open spec fn spec_apply_orient(img: image::DynamicImage, o: Orient) -> image::DynamicImage {
    match o {
        Orient::Identity => img,
        Orient::FlipH => fliph_of(img),
        Orient::Rotate180 => rot180_of(img),
        Orient::Rotate180FlipH => fliph_of(rot180_of(img)),
        Orient::Rotate90FlipH => fliph_of(rot90_of(img)),
        Orient::Rotate90 => rot90_of(img),
        Orient::Rotate270FlipH => fliph_of(rot270_of(img)),
        Orient::Rotate270 => rot270_of(img),
    }
}

/// Applies a normalization transform to a decoded image.
pub(crate) fn apply_orient(img: image::DynamicImage, o: Orient) -> (r: image::DynamicImage)
    ensures
        r == spec_apply_orient(img, o),
{
    match o {
        Orient::Identity => img,
        Orient::FlipH => fliph(&img),
        Orient::Rotate180 => rotate180(&img),
        Orient::Rotate180FlipH => fliph(&rotate180(&img)),
        Orient::Rotate90FlipH => fliph(&rotate90(&img)),
        Orient::Rotate90 => rotate90(&img),
        Orient::Rotate270FlipH => fliph(&rotate270(&img)),
        Orient::Rotate270 => rotate270(&img),
    }
}

/// The bytes JPEG normalization stores for an upload: the decoded
/// image, transformed per the EXIF orientation the bytes carry, then
/// re-encoded at the given quality; `None` when the bytes do not
/// decode or the re-encode fails.
pub open spec fn spec_normalized_jpeg(bytes: Seq<u8>, quality: u8) -> Option<Seq<u8>> {
    match decoded_of(bytes) {
        Some(img) => jpeg_encoding_of(
            spec_apply_orient(img, spec_orient_for(spec_rotation_of(exif_orientation_of(bytes)))),
            quality,
        ),
        None => None,
    }
}

/// Re-encodes a JPEG so the stored pixel data carries the orientation
/// the EXIF value announced, and no EXIF metadata survives: the bytes
/// are decoded, transformed per the orientation mapping, and written
/// fresh at the configured quality. Succeeds exactly when decode and
/// re-encode do; fails only with `IOError`.
pub fn normalize_jpeg(buf: &Vec<u8>, jpeg_quality: u8) -> (r: Result<Vec<u8>, Error>)
    ensures
        r is Ok <==> spec_normalized_jpeg(buf@, jpeg_quality) is Some,
        r matches Ok(b) ==> Some(b@) == spec_normalized_jpeg(buf@, jpeg_quality)
            && exif_orientation_of(b@) is None,
        r matches Err(e) ==> e == Error::IOError,
{
    let rotation = rotation_from_exif(exif_orientation(buf.as_slice()));
    let img = match decode_image(buf.as_slice()) {
        Ok(img) => img,
        Err(e) => { return Err(e) },
    };
    let oriented = apply_orient(img, orient_for(rotation));
    encode_jpeg(&oriented, jpeg_quality)
}

} // verus!
