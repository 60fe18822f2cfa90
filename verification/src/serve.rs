//! The serve/resize pipeline: target-dimension arithmetic, output-format
//! choice, and the disposition decision for served files.

use vstd::arithmetic::div_mod::{lemma_div_by_multiple, lemma_div_is_ordered};
use vstd::arithmetic::mul::lemma_mul_inequality;
use vstd::prelude::*;

use crate::config::ServeConfig;
use crate::db::Metadata;
use crate::media;
use crate::result::Error;
use crate::strutil::str_is;

verus! {

/// The optional resize query parameters of a serve request. At most one
/// combination applies, in the precedence order `size`, `max_side`,
/// `width` and `height` together, `width` alone, `height` alone.
#[derive(Clone, Copy, Debug, PartialEq, Eq, Structural)]
pub struct Resize {
    pub size: Option<isize>,
    pub width: Option<isize>,
    pub height: Option<isize>,
    pub max_side: Option<isize>,
}

/// What to do with the stored bytes: hand them back unchanged, or
/// re-encode them scaled to exactly the given dimensions.
#[derive(Clone, Copy, Debug, PartialEq, Eq, Structural)]
pub enum ResizePlan {
    Original,
    Scaled { width: u32, height: u32 },
}

/// The requested target dimensions for an original of `w0` by `h0`
/// (both positive), before any feasibility check; `None` when no
/// parameter was given. Scaling rounds down.
///
/// - `size`: the same square bound on both axes, capped by the shorter
///   original side.
/// - `max_side`: the longer side becomes at most `max_side`, the other
///   side scales with the aspect ratio.
/// - `width` and `height` together: each capped to the original,
///   independently.
/// - `width` or `height` alone: that side capped to the original, the
///   other scaled with the aspect ratio.
pub open spec fn spec_target(w0: int, h0: int, r: Resize) -> Option<(int, int)> {
    match (r.size, r.max_side, r.width, r.height) {
        (Some(s), _, _, _) => {
            let t = vstd::math::min(s as int, vstd::math::min(w0, h0));
            Some((t, t))
        },
        (None, Some(s), _, _) => {
            if vstd::math::min(w0, h0) == w0 {
                let h = vstd::math::min(h0, s as int);
                Some((w0 * h / h0, h))
            } else {
                let w = vstd::math::min(w0, s as int);
                Some((w, h0 * w / w0))
            }
        },
        (None, None, Some(w), Some(h)) => Some(
            (vstd::math::min(w0, w as int), vstd::math::min(h0, h as int)),
        ),
        (None, None, Some(w), None) => {
            let ww = vstd::math::min(w0, w as int);
            Some((ww, h0 * ww / w0))
        },
        (None, None, None, Some(h)) => {
            let hh = vstd::math::min(h0, h as int);
            Some((w0 * hh / h0, hh))
        },
        (None, None, None, None) => None,
    }
}

/// The plan for a serve request. A resize is attempted only for an
/// image record with positive dimensions, some resize parameter given,
/// and a feasible target; everything else serves the original bytes.
pub open spec fn spec_plan(meta: Metadata, r: Resize) -> ResizePlan {
    match meta {
        Metadata::Image { width: w0, height: h0 } => {
            if 0 < w0 && 0 < h0 {
                match spec_target(w0 as int, h0 as int, r) {
                    Some((tw, th)) => {
                        if 1 <= tw <= u32::MAX && 1 <= th <= u32::MAX {
                            ResizePlan::Scaled { width: tw as u32, height: th as u32 }
                        } else {
                            ResizePlan::Original
                        }
                    },
                    None => ResizePlan::Original,
                }
            } else {
                ResizePlan::Original
            }
        },
        _ => ResizePlan::Original,
    }
}

/// The smaller of two values.
fn min_isize(a: isize, b: isize) -> (m: isize)
    ensures
        m as int == vstd::math::min(a as int, b as int),
{
    if a < b {
        a
    } else {
        b
    }
}

/// `(a * b) / c` for positive operands, exact and overflow-free.
fn scale_div(a: isize, b: isize, c: isize) -> (q: u128)
    requires
        0 < a,
        0 <= b,
        0 < c,
    ensures
        q == a as int * b as int / c as int,
{
    let an = a as u128;
    let bn = b as u128;
    let cn = c as u128;
    proof {
        assert(an * bn <= 0x3fffffffffffffff0000000000000001u128) by (nonlinear_arith)
            requires
                an <= 0x7fffffffffffffffu128,
                bn <= 0x7fffffffffffffffu128,
        ;
    }
    an * bn / cn
}

/// Checks that a computed target is feasible and casts it.
fn feasible(tw: u128, th: u128) -> (p: ResizePlan)
    ensures
        p == (if 1 <= tw <= u32::MAX && 1 <= th <= u32::MAX {
            ResizePlan::Scaled { width: tw as u32, height: th as u32 }
        } else {
            ResizePlan::Original
        }),
{
    if 1 <= tw && tw <= u32::MAX as u128 && 1 <= th && th <= u32::MAX as u128 {
        ResizePlan::Scaled { width: tw as u32, height: th as u32 }
    } else {
        ResizePlan::Original
    }
}

/// Decides how a serve request treats the stored bytes: which exact
/// dimensions to scale an image to, or that the original bytes go back
/// unchanged. Pure arithmetic; no bytes are touched here.
pub fn plan_resize(meta: &Metadata, r: &Resize) -> (p: ResizePlan)
    ensures
        p == spec_plan(*meta, *r),
{
    let (w0, h0) = match meta {
        Metadata::Image { width, height } => (*width, *height),
        _ => { return ResizePlan::Original },
    };
    if w0 <= 0 || h0 <= 0 {
        return ResizePlan::Original;
    }
    match (r.size, r.max_side, r.width, r.height) {
        (Some(s), _, _, _) => {
            let t = min_isize(s, min_isize(w0, h0));
            if t < 1 {
                ResizePlan::Original
            } else {
                feasible(t as u128, t as u128)
            }
        },
        (None, Some(s), _, _) => {
            if min_isize(w0, h0) == w0 {
                let h = min_isize(h0, s);
                if h < 0 {
                    return ResizePlan::Original;
                }
                feasible(scale_div(w0, h, h0), h as u128)
            } else {
                let w = min_isize(w0, s);
                if w < 0 {
                    return ResizePlan::Original;
                }
                feasible(w as u128, scale_div(h0, w, w0))
            }
        },
        (None, None, Some(w), Some(h)) => {
            let tw = min_isize(w0, w);
            let th = min_isize(h0, h);
            if tw < 1 || th < 1 {
                ResizePlan::Original
            } else {
                feasible(tw as u128, th as u128)
            }
        },
        (None, None, Some(w), None) => {
            let ww = min_isize(w0, w);
            if ww < 0 {
                return ResizePlan::Original;
            }
            feasible(ww as u128, scale_div(h0, ww, w0))
        },
        (None, None, None, Some(h)) => {
            let hh = min_isize(h0, h);
            if hh < 0 {
                return ResizePlan::Original;
            }
            feasible(scale_div(w0, hh, h0), hh as u128)
        },
        (None, None, None, None) => ResizePlan::Original,
    }
}

/// Scaling one side down scales the other at most down: for a side of
/// `b` and a proportional factor `h / h0` with `h` at most `h0`, the
/// result stays within `b`.
proof fn lemma_scaled_le(b: int, h: int, h0: int)
    requires
        0 < b,
        0 <= h <= h0,
        0 < h0,
    ensures
        b * h / h0 <= b,
{
    lemma_mul_inequality(h, h0, b);
    lemma_div_is_ordered(b * h, b * h0, h0);
    lemma_div_by_multiple(b, h0);
}

/// A planned resize never upscales: a scale is only ever planned for an
/// image record, and the target fits within the original on both axes.
pub proof fn lemma_plan_never_upscales(meta: Metadata, r: Resize)
    ensures
        spec_plan(meta, r) matches ResizePlan::Scaled { width, height } ==> meta matches
            Metadata::Image { width: w0, height: h0 } && width <= w0 && height <= h0,
{
    match meta {
        Metadata::Image { width: w0, height: h0 } => {
            if 0 < w0 && 0 < h0 {
                match (r.size, r.max_side, r.width, r.height) {
                    (None, Some(s), _, _) => {
                        if vstd::math::min(w0 as int, h0 as int) == w0 as int {
                            let h = vstd::math::min(h0 as int, s as int);
                            if 1 <= h {
                                lemma_scaled_le(w0 as int, h, h0 as int);
                            }
                        } else {
                            let w = vstd::math::min(w0 as int, s as int);
                            if 1 <= w {
                                lemma_scaled_le(h0 as int, w, w0 as int);
                            }
                        }
                    },
                    (None, None, Some(w), None) => {
                        let ww = vstd::math::min(w0 as int, w as int);
                        if 1 <= ww {
                            lemma_scaled_le(h0 as int, ww, w0 as int);
                        }
                    },
                    (None, None, None, Some(h)) => {
                        let hh = vstd::math::min(h0 as int, h as int);
                        if 1 <= hh {
                            lemma_scaled_le(w0 as int, hh, h0 as int);
                        }
                    },
                    _ => {},
                }
            }
        },
        _ => {},
    }
}

/// The content type a resized serve announces: the one fixed output
/// format of the service.
pub open spec fn spec_serve_mime(sc: ServeConfig) -> Seq<char> {
    match sc {
        ServeConfig::PNG => "image/png"@,
        ServeConfig::WEBP { .. } => "image/webp"@,
    }
}

/// The content type for a resized serve under this output format.
pub fn serve_mime(sc: &ServeConfig) -> (m: String)
    ensures
        m@ == spec_serve_mime(*sc),
{
    match sc {
        ServeConfig::PNG => "image/png".to_owned(),
        ServeConfig::WEBP { .. } => "image/webp".to_owned(),
    }
}

/// The encoding of an image under the configured output format.
pub open spec fn spec_encoding_for(img: image::DynamicImage, sc: ServeConfig) -> Option<Seq<u8>> {
    match sc {
        ServeConfig::PNG => media::png_encoding_of(img),
        ServeConfig::WEBP { quality: Some(q) } => media::webp_encoding_of(img, q),
        ServeConfig::WEBP { quality: None } => media::webp_lossless_encoding_of(img),
    }
}

/// The bytes a resize of the stored bytes to the given dimensions
/// yields: decode, the fast thumbnail scale, and the configured
/// re-encode; `None` exactly when the bytes do not decode or the
/// encoder rejects the scaled image.
pub open spec fn spec_resized(bytes: Seq<u8>, width: u32, height: u32, sc: ServeConfig) -> Option<
    Seq<u8>,
> {
    match media::decoded_of(bytes) {
        Some(img) => spec_encoding_for(media::thumb_of(img, width, height), sc),
        None => None,
    }
}

/// Decodes the stored bytes, scales them to exactly the given
/// dimensions with the fast thumbnail algorithm, and re-encodes them to
/// the configured output format. Succeeds exactly when decode and
/// re-encode do, yielding the named resize; fails only with `IOError`.
pub fn try_resize(buf: &Vec<u8>, width: u32, height: u32, sc: &ServeConfig) -> (r: Result<
    Vec<u8>,
    Error,
>)
    ensures
        r is Ok <==> spec_resized(buf@, width, height, *sc) is Some,
        r matches Ok(b) ==> Some(b@) == spec_resized(buf@, width, height, *sc),
        r matches Err(e) ==> e == Error::IOError,
{
    let img = match media::decode_image(buf.as_slice()) {
        Ok(img) => img,
        Err(e) => { return Err(e) },
    };
    let scaled = media::thumbnail(&img, width, height);
    match sc {
        ServeConfig::PNG => media::encode_png(&scaled),
        ServeConfig::WEBP { quality: Some(q) } => media::encode_webp_quality(&scaled, *q),
        ServeConfig::WEBP { quality: None } => media::encode_webp_lossless(&scaled),
    }
}

/// Serves stored bytes under the resize parameters. With no plan the
/// original bytes go back untouched with no content-type override.
/// With a scale planned, the named resize goes back under the
/// configured format's content type; only when that resize fails —
/// undecodable bytes or a rejected re-encode — do the original bytes
/// go back instead, again with no override.
pub fn serve_file(buf: Vec<u8>, meta: &Metadata, params: &Resize, sc: &ServeConfig) -> (r: (
    Vec<u8>,
    Option<String>,
))
    ensures
        spec_plan(*meta, *params) == ResizePlan::Original ==> r.0@ == buf@ && r.1 is None,
        spec_plan(*meta, *params) matches ResizePlan::Scaled { width, height } ==> match
            spec_resized(buf@, width, height, *sc) {
            Some(b) => r.0@ == b && (r.1 matches Some(m) && m@ == spec_serve_mime(*sc)),
            None => r.0@ == buf@ && r.1 is None,
        },
{
    match plan_resize(meta, params) {
        ResizePlan::Original => (buf, None),
        ResizePlan::Scaled { width, height } => match try_resize(&buf, width, height, sc) {
            Ok(bytes) => (bytes, Some(serve_mime(sc))),
            Err(_) => (buf, None),
        },
    }
}

/// The fixed allow-list of content types a serve renders inline: the
/// normalized image, video and audio types this service itself accepts
/// and produces. Everything else is forced to an attachment.
pub open spec fn spec_inline_type(ct: Seq<char>) -> bool {
    ||| ct == "image/jpeg"@
    ||| ct == "image/png"@
    ||| ct == "image/gif"@
    ||| ct == "image/webp"@
    ||| ct == "video/mp4"@
    ||| ct == "video/webm"@
    ||| ct == "video/quicktime"@
    ||| ct == "audio/mpeg"@
}

/// The `Content-Disposition` a serve response carries for this content
/// type: `inline` only for the allow-listed types.
pub fn disposition_for(ct: &String) -> (d: String)
    ensures
        d@ == (if spec_inline_type(ct@) {
            "inline"@
        } else {
            "attachment"@
        }),
{
    let inline = str_is(ct, "image/jpeg") || str_is(ct, "image/png") || str_is(ct, "image/gif")
        || str_is(ct, "image/webp") || str_is(ct, "video/mp4") || str_is(ct, "video/webm")
        || str_is(ct, "video/quicktime") || str_is(ct, "audio/mpeg");
    if inline {
        "inline".to_owned()
    } else {
        "attachment".to_owned()
    }
}

} // verus!
