//! The ingestion pipeline: bounded reads, classification, image
//! normalization, video stream selection and the final record.

use autumn::config::{ContentType, Tag};
use autumn::db::Metadata;
use autumn::result::Error;
use autumn::upload::{
    BoundedBuffer, IngestStep, SniffClass, classify, finalize_upload, generate_id, ingest,
    ingest_sniffed, select_video_stream, video_ext,
};

fn tag_restricted(restrict: Option<ContentType>, use_ulid: bool) -> Tag {
    Tag {
        max_size: 1 << 20,
        use_ulid,
        enabled: true,
        serve_if_field_present: Vec::new(),
        restrict_content_type: restrict,
    }
}

#[test]
fn bounded_buffer_rejects_at_the_cap() {
    let mut b = BoundedBuffer::new(10);
    assert!(b.push_chunk(&[1, 2, 3, 4, 5, 6]).is_ok());
    let r = b.push_chunk(&[7, 8, 9, 10, 11]);
    assert!(matches!(r, Err(Error::FileTooLarge { max_size: 10 })));
    assert!(b.push_chunk(&[7, 8, 9, 10]).is_ok());
    let bytes = b.into_bytes();
    assert_eq!(bytes, vec![1, 2, 3, 4, 5, 6, 7, 8, 9, 10]);
}

#[test]
fn bounded_buffer_never_buffers_past_the_cap() {
    let mut b = BoundedBuffer::new(4);
    assert!(matches!(
        b.push_chunk(&[0; 5]),
        Err(Error::FileTooLarge { max_size: 4 })
    ));
    assert_eq!(b.into_bytes(), Vec::<u8>::new());
}

#[test]
fn classification_follows_the_sniffed_type() {
    assert_eq!(classify(&"image/jpeg".to_string(), false), SniffClass::Jpeg);
    assert_eq!(classify(&"image/png".to_string(), false), SniffClass::OtherImage);
    assert_eq!(classify(&"image/gif".to_string(), false), SniffClass::OtherImage);
    assert_eq!(classify(&"image/webp".to_string(), false), SniffClass::OtherImage);
    assert_eq!(classify(&"video/mp4".to_string(), false), SniffClass::Video);
    assert_eq!(classify(&"video/webm".to_string(), false), SniffClass::Video);
    assert_eq!(classify(&"video/quicktime".to_string(), false), SniffClass::Video);
    assert_eq!(classify(&"audio/mpeg".to_string(), false), SniffClass::Audio);
    assert_eq!(classify(&"text/x-rust".to_string(), true), SniffClass::Text);
    assert_eq!(classify(&"application/zip".to_string(), false), SniffClass::Binary);
}

#[test]
fn video_extensions_match_the_container() {
    assert_eq!(video_ext(&"video/mp4".to_string()), "mp4");
    assert_eq!(video_ext(&"video/webm".to_string()), "webm");
    assert_eq!(video_ext(&"video/quicktime".to_string()), "mov");
}

#[test]
fn audio_passes_through_unchanged() {
    let bytes = vec![0xffu8, 0xfb, 0x90, 0x44, 0x00, 0x01, 0x02];
    let r = ingest_sniffed(bytes.clone(), &"audio/mpeg".to_string(), 80).unwrap();
    match r {
        IngestStep::Done { buf, metadata } => {
            assert_eq!(buf, bytes);
            assert_eq!(metadata, Metadata::Audio);
        }
        _ => panic!("audio must not need a probe"),
    }
}

#[test]
fn text_bytes_become_text_metadata() {
    let bytes = b"hello, plain text".to_vec();
    let r = ingest_sniffed(bytes.clone(), &"application/x-unknown".to_string(), 80).unwrap();
    match r {
        IngestStep::Done { buf, metadata } => {
            assert_eq!(buf, bytes);
            assert_eq!(metadata, Metadata::Text);
        }
        _ => panic!("text must not need a probe"),
    }
}

#[test]
fn binary_bytes_become_file_metadata() {
    let bytes = vec![0u8, 255, 1, 254, 2, 253];
    let r = ingest_sniffed(bytes.clone(), &"application/x-unknown".to_string(), 80).unwrap();
    match r {
        IngestStep::Done { buf, metadata } => {
            assert_eq!(buf, bytes);
            assert_eq!(metadata, Metadata::File);
        }
        _ => panic!("binary must not need a probe"),
    }
}

#[test]
fn video_asks_for_a_probe() {
    let bytes = vec![0u8; 64];
    let r = ingest_sniffed(bytes.clone(), &"video/webm".to_string(), 80).unwrap();
    match r {
        IngestStep::NeedsVideoProbe { buf, ext } => {
            assert_eq!(buf, bytes);
            assert_eq!(ext, "webm");
        }
        _ => panic!("video must ask for a probe"),
    }
}

fn png_bytes(width: u32, height: u32) -> Vec<u8> {
    let img = image::DynamicImage::ImageRgb8(image::RgbImage::new(width, height));
    let mut cursor = std::io::Cursor::new(Vec::new());
    img.write_to(&mut cursor, image::ImageOutputFormat::Png).unwrap();
    cursor.into_inner()
}

fn jpeg_bytes(width: u32, height: u32) -> Vec<u8> {
    let mut img = image::RgbImage::new(width, height);
    for (x, _, p) in img.enumerate_pixels_mut() {
        *p = if x == 0 { image::Rgb([255, 0, 0]) } else { image::Rgb([0, 0, 255]) };
    }
    let img = image::DynamicImage::ImageRgb8(img);
    let mut cursor = std::io::Cursor::new(Vec::new());
    img.write_to(&mut cursor, image::ImageOutputFormat::Jpeg(95)).unwrap();
    cursor.into_inner()
}

fn decoded_dims(bytes: &[u8]) -> (u32, u32) {
    let img = image::io::Reader::new(std::io::Cursor::new(bytes))
        .with_guessed_format()
        .unwrap()
        .decode()
        .unwrap();
    (img.width(), img.height())
}

/// An EXIF APP1 segment whose only field is the given orientation.
fn exif_orientation_segment(orientation: u16) -> Vec<u8> {
    let mut tiff: Vec<u8> = Vec::new();
    tiff.extend_from_slice(b"II");
    tiff.extend_from_slice(&[0x2a, 0x00]);
    tiff.extend_from_slice(&8u32.to_le_bytes());
    tiff.extend_from_slice(&1u16.to_le_bytes());
    tiff.extend_from_slice(&0x0112u16.to_le_bytes());
    tiff.extend_from_slice(&3u16.to_le_bytes());
    tiff.extend_from_slice(&1u32.to_le_bytes());
    tiff.extend_from_slice(&orientation.to_le_bytes());
    tiff.extend_from_slice(&[0, 0]);
    tiff.extend_from_slice(&0u32.to_le_bytes());

    let payload_len = 2 + 6 + tiff.len();
    let mut seg: Vec<u8> = vec![0xff, 0xe1];
    seg.extend_from_slice(&(payload_len as u16).to_be_bytes());
    seg.extend_from_slice(b"Exif\0\0");
    seg.extend_from_slice(&tiff);
    seg
}

/// The JPEG with an EXIF orientation spliced in right after the SOI
/// marker.
fn jpeg_with_orientation(width: u32, height: u32, orientation: u16) -> Vec<u8> {
    let plain = jpeg_bytes(width, height);
    assert_eq!(&plain[0..2], &[0xff, 0xd8]);
    let mut out = plain[0..2].to_vec();
    out.extend_from_slice(&exif_orientation_segment(orientation));
    out.extend_from_slice(&plain[2..]);
    out
}

fn read_orientation(bytes: &[u8]) -> Option<u32> {
    let mut cursor = std::io::Cursor::new(bytes);
    match exif::Reader::new().read_from_container(&mut cursor) {
        Ok(data) => data
            .get_field(exif::Tag::Orientation, exif::In::PRIMARY)
            .and_then(|f| f.value.get_uint(0)),
        Err(_) => None,
    }
}

#[test]
fn png_passes_through_with_its_dimensions() {
    let bytes = png_bytes(3, 2);
    let r = ingest_sniffed(bytes.clone(), &"image/png".to_string(), 80).unwrap();
    match r {
        IngestStep::Done { buf, metadata } => {
            assert_eq!(buf, bytes);
            assert_eq!(metadata, Metadata::Image { width: 3, height: 2 });
        }
        _ => panic!("image must not need a probe"),
    }
}

#[test]
fn unreadable_image_degrades_to_file() {
    let bytes = vec![7u8; 40];
    let r = ingest_sniffed(bytes.clone(), &"image/png".to_string(), 80).unwrap();
    match r {
        IngestStep::Done { buf, metadata } => {
            assert_eq!(buf, bytes);
            assert_eq!(metadata, Metadata::File);
        }
        _ => panic!("image must not need a probe"),
    }
}

#[test]
fn jpeg_is_reencoded_and_keeps_probed_dimensions() {
    let bytes = jpeg_bytes(2, 1);
    let r = ingest_sniffed(bytes.clone(), &"image/jpeg".to_string(), 90).unwrap();
    match r {
        IngestStep::Done { buf, metadata } => {
            assert_eq!(metadata, Metadata::Image { width: 2, height: 1 });
            assert_eq!(decoded_dims(&buf), (2, 1));
        }
        _ => panic!("jpeg must not need a probe"),
    }
}

#[test]
fn jpeg_orientation_is_rotated_into_the_pixels() {
    let bytes = jpeg_with_orientation(2, 1, 6);
    assert_eq!(read_orientation(&bytes), Some(6));
    let r = ingest_sniffed(bytes, &"image/jpeg".to_string(), 90).unwrap();
    match r {
        IngestStep::Done { buf, metadata } => {
            // The record keeps the probed dimensions of the uploaded bytes;
            // the stored pixels carry the rotation.
            assert_eq!(metadata, Metadata::Image { width: 2, height: 1 });
            assert_eq!(decoded_dims(&buf), (1, 2));
            assert_eq!(read_orientation(&buf), None);
        }
        _ => panic!("jpeg must not need a probe"),
    }
}

#[test]
fn normalized_jpeg_reuploads_as_a_no_op() {
    let bytes = jpeg_with_orientation(2, 1, 3);
    let first = match ingest_sniffed(bytes, &"image/jpeg".to_string(), 90).unwrap() {
        IngestStep::Done { buf, .. } => buf,
        _ => panic!("jpeg must not need a probe"),
    };
    assert_eq!(read_orientation(&first), None);
    let again = match ingest_sniffed(first.clone(), &"image/jpeg".to_string(), 90).unwrap() {
        IngestStep::Done { buf, .. } => buf,
        _ => panic!("jpeg must not need a probe"),
    };
    assert_eq!(decoded_dims(&first), (2, 1));
    assert_eq!(decoded_dims(&again), (2, 1));
}

#[test]
fn sniffing_recognizes_png_bytes() {
    let (ct, step) = ingest(png_bytes(3, 2), 80);
    assert_eq!(ct, "image/png");
    match step.unwrap() {
        IngestStep::Done { metadata, .. } => {
            assert_eq!(metadata, Metadata::Image { width: 3, height: 2 });
        }
        _ => panic!("png must not need a probe"),
    }
}

#[test]
fn first_usable_stream_wins() {
    let streams = vec![
        (None, Some(5i64)),
        (Some(3i64), None),
        (Some(10i64), Some(20i64)),
        (Some(1i64), Some(1i64)),
    ];
    assert_eq!(select_video_stream(&streams), Ok((10, 20)));
}

#[test]
fn no_usable_stream_is_a_probe_error() {
    let streams: Vec<(Option<i64>, Option<i64>)> = vec![(None, None), (Some(3), None)];
    assert_eq!(select_video_stream(&streams), Err(Error::ProbeError));
    assert_eq!(select_video_stream(&Vec::new()), Err(Error::ProbeError));
}

#[test]
fn restricted_tag_rejects_other_kinds() {
    let tag = tag_restricted(Some(ContentType::Video), false);
    let r = finalize_upload(
        "attachments".to_string(),
        &tag,
        "photo.jpg".to_string(),
        Metadata::Image { width: 2, height: 1 },
        "image/jpeg".to_string(),
        120,
    );
    assert!(matches!(r, Err(Error::FileTypeNotAllowed)));
}

#[test]
fn restricted_tag_accepts_its_own_kind() {
    let tag = tag_restricted(Some(ContentType::Video), false);
    let f = finalize_upload(
        "attachments".to_string(),
        &tag,
        "clip.mp4".to_string(),
        Metadata::Video { width: 640, height: 480 },
        "video/mp4".to_string(),
        12345,
    )
    .unwrap();
    assert_eq!(f.tag, "attachments");
    assert_eq!(f.filename, "clip.mp4");
    assert_eq!(f.metadata, Metadata::Video { width: 640, height: 480 });
    assert_eq!(f.content_type, "video/mp4");
    assert_eq!(f.size, 12345);
    assert_eq!(f.deleted, None);
    assert_eq!(f.reported, None);
    assert_eq!(f.id.len(), 42);
}

#[test]
fn unrestricted_tag_accepts_everything() {
    let tag = tag_restricted(None, true);
    let f = finalize_upload(
        "attachments".to_string(),
        &tag,
        "notes.txt".to_string(),
        Metadata::Text,
        "text/plain".to_string(),
        9,
    )
    .unwrap();
    assert_eq!(f.id.len(), 26);
}

#[test]
fn generated_ids_have_the_scheme_length_and_differ() {
    let a = generate_id(false);
    let b = generate_id(false);
    assert_eq!(a.len(), 42);
    assert_eq!(b.len(), 42);
    assert_ne!(a, b);
    let u = generate_id(true);
    assert_eq!(u.len(), 26);
}
