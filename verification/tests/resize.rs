//! The resize arithmetic, the serve pipeline and the disposition rule.

use autumn::config::ServeConfig;
use autumn::db::Metadata;
use autumn::serve::{Resize, ResizePlan, disposition_for, plan_resize, serve_file, serve_mime, try_resize};

fn params(
    size: Option<isize>,
    width: Option<isize>,
    height: Option<isize>,
    max_side: Option<isize>,
) -> Resize {
    Resize { size, width, height, max_side }
}

const META_800_600: Metadata = Metadata::Image { width: 800, height: 600 };

#[test]
fn size_bounds_both_axes() {
    let p = plan_resize(&META_800_600, &params(Some(100), None, None, None));
    assert_eq!(p, ResizePlan::Scaled { width: 100, height: 100 });
}

#[test]
fn size_is_capped_by_the_shorter_side() {
    let p = plan_resize(&META_800_600, &params(Some(900), None, None, None));
    assert_eq!(p, ResizePlan::Scaled { width: 600, height: 600 });
}

#[test]
fn max_side_keeps_the_aspect_ratio() {
    let p = plan_resize(&META_800_600, &params(None, None, None, Some(100)));
    assert_eq!(p, ResizePlan::Scaled { width: 100, height: 75 });
}

#[test]
fn width_alone_scales_height() {
    let p = plan_resize(&META_800_600, &params(None, Some(100), None, None));
    assert_eq!(p, ResizePlan::Scaled { width: 100, height: 75 });
}

#[test]
fn height_alone_scales_width() {
    let p = plan_resize(&META_800_600, &params(None, None, Some(100), None));
    assert_eq!(p, ResizePlan::Scaled { width: 133, height: 100 });
}

#[test]
fn width_and_height_cap_independently() {
    let p = plan_resize(&META_800_600, &params(None, Some(100), Some(50), None));
    assert_eq!(p, ResizePlan::Scaled { width: 100, height: 50 });
}

#[test]
fn size_takes_precedence_over_everything() {
    let p = plan_resize(&META_800_600, &params(Some(10), Some(100), Some(50), Some(200)));
    assert_eq!(p, ResizePlan::Scaled { width: 10, height: 10 });
}

#[test]
fn max_side_takes_precedence_over_width_and_height() {
    let p = plan_resize(&META_800_600, &params(None, Some(100), Some(50), Some(200)));
    assert_eq!(p, ResizePlan::Scaled { width: 200, height: 150 });
}

#[test]
fn no_parameters_serve_the_original() {
    let p = plan_resize(&META_800_600, &params(None, None, None, None));
    assert_eq!(p, ResizePlan::Original);
}

#[test]
fn non_images_are_never_resized() {
    let p = plan_resize(&Metadata::Audio, &params(Some(100), None, None, None));
    assert_eq!(p, ResizePlan::Original);
    let p = plan_resize(&Metadata::File, &params(Some(100), None, None, None));
    assert_eq!(p, ResizePlan::Original);
}

#[test]
fn degenerate_parameters_serve_the_original() {
    assert_eq!(plan_resize(&META_800_600, &params(Some(0), None, None, None)), ResizePlan::Original);
    assert_eq!(
        plan_resize(&META_800_600, &params(Some(-5), None, None, None)),
        ResizePlan::Original
    );
    assert_eq!(
        plan_resize(
            &Metadata::Image { width: 0, height: 600 },
            &params(Some(100), None, None, None)
        ),
        ResizePlan::Original
    );
}

fn png_bytes(width: u32, height: u32) -> Vec<u8> {
    let img = image::DynamicImage::ImageRgb8(image::RgbImage::new(width, height));
    let mut cursor = std::io::Cursor::new(Vec::new());
    img.write_to(&mut cursor, image::ImageOutputFormat::Png).unwrap();
    cursor.into_inner()
}

fn decoded_dims(bytes: &[u8]) -> (u32, u32) {
    let img = image::io::Reader::new(std::io::Cursor::new(bytes))
        .with_guessed_format()
        .unwrap()
        .decode()
        .unwrap();
    (img.width(), img.height())
}

#[test]
fn serve_file_without_parameters_returns_the_bytes_verbatim() {
    let bytes = vec![1u8, 2, 3, 4];
    let (out, over) = serve_file(
        bytes.clone(),
        &Metadata::Audio,
        &params(None, None, None, None),
        &ServeConfig::PNG,
    );
    assert_eq!(out, bytes);
    assert_eq!(over, None);
}

#[test]
fn serve_file_resizes_an_image_to_png() {
    let bytes = png_bytes(8, 6);
    let (out, over) = serve_file(
        bytes.clone(),
        &Metadata::Image { width: 8, height: 6 },
        &params(Some(4), None, None, None),
        &ServeConfig::PNG,
    );
    assert_eq!(over.as_deref(), Some("image/png"));
    assert_ne!(out, bytes);
    assert_eq!(decoded_dims(&out), (4, 4));
}

#[test]
fn serve_file_resizes_an_image_to_webp() {
    let bytes = png_bytes(8, 6);
    let (out, over) = serve_file(
        bytes,
        &Metadata::Image { width: 8, height: 6 },
        &params(None, None, None, Some(4)),
        &ServeConfig::WEBP { quality: None },
    );
    assert_eq!(over.as_deref(), Some("image/webp"));
    assert_eq!(&out[0..4], b"RIFF");
    assert_eq!(&out[8..12], b"WEBP");
    assert_eq!(decoded_dims(&out), (4, 3));
}

#[test]
fn serve_file_falls_back_to_the_original_on_undecodable_bytes() {
    let bytes = vec![9u8; 32];
    let (out, over) = serve_file(
        bytes.clone(),
        &Metadata::Image { width: 800, height: 600 },
        &params(Some(100), None, None, None),
        &ServeConfig::PNG,
    );
    assert_eq!(out, bytes);
    assert_eq!(over, None);
}

#[test]
fn try_resize_rejects_garbage() {
    let r = try_resize(&vec![0u8; 16], 4, 4, &ServeConfig::PNG);
    assert!(r.is_err());
}

#[test]
fn serve_mime_matches_the_configured_format() {
    assert_eq!(serve_mime(&ServeConfig::PNG), "image/png");
    assert_eq!(serve_mime(&ServeConfig::WEBP { quality: Some(80) }), "image/webp");
}

#[test]
fn inline_disposition_only_for_safe_types() {
    assert_eq!(disposition_for(&"image/png".to_string()), "inline");
    assert_eq!(disposition_for(&"image/jpeg".to_string()), "inline");
    assert_eq!(disposition_for(&"audio/mpeg".to_string()), "inline");
    assert_eq!(disposition_for(&"video/mp4".to_string()), "inline");
    assert_eq!(disposition_for(&"video/quicktime".to_string()), "inline");
    assert_eq!(disposition_for(&"application/pdf".to_string()), "attachment");
    assert_eq!(disposition_for(&"text/html".to_string()), "attachment");
}

#[test]
fn lossy_webp_encodes_at_a_valid_quality() {
    let bytes = png_bytes(8, 6);
    let (out, over) = serve_file(
        bytes,
        &Metadata::Image { width: 8, height: 6 },
        &params(Some(4), None, None, None),
        &ServeConfig::WEBP { quality: Some(80) },
    );
    assert_eq!(over.as_deref(), Some("image/webp"));
    assert_eq!(&out[0..4], b"RIFF");
    assert_eq!(decoded_dims(&out), (4, 4));
}

#[test]
fn out_of_range_webp_quality_falls_back_to_the_original() {
    let bytes = png_bytes(8, 6);
    assert!(try_resize(&bytes, 4, 4, &ServeConfig::WEBP { quality: Some(150) }).is_err());
    let (out, over) = serve_file(
        bytes.clone(),
        &Metadata::Image { width: 8, height: 6 },
        &params(Some(4), None, None, None),
        &ServeConfig::WEBP { quality: Some(150) },
    );
    assert_eq!(out, bytes);
    assert_eq!(over, None);
}
