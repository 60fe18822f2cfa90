//! The ingestion pipeline: a bounded read of the upload stream,
//! classification of the bytes by their sniffed type, per-kind
//! normalization, the tag's content-type policy, and the final record.
//!
//! Video normalization needs a probe and a transcode that only the
//! process edge can run; the pipeline hands it an explicit
//! `NeedsVideoProbe` step and takes the probe's outcome back as plain
//! values.

use vstd::prelude::*;

use crate::config::{ContentType, Tag};
use crate::db::{File, Metadata};
use crate::media;
use crate::result::Error;
use crate::strutil::str_is;

verus! {

/// An upload buffer that never holds more than the tag's byte ceiling.
pub struct BoundedBuffer {
    pub data: Vec<u8>,
    pub max_size: usize,
}

impl BoundedBuffer {
    /// The buffer never exceeds its cap.
    pub open spec fn wf(self) -> bool {
        self.data@.len() <= self.max_size
    }

    /// An empty buffer with the tag's byte ceiling as its cap.
    pub fn new(max_size: usize) -> (b: BoundedBuffer)
        ensures
            b.wf(),
            b.data@ == Seq::<u8>::empty(),
            b.max_size == max_size,
    {
        BoundedBuffer { data: Vec::new(), max_size }
    }

    /// Appends one chunk of the stream, or rejects the upload the
    /// instant the cap would be exceeded: the chunk is then not
    /// buffered, the error carries the cap, and the buffer is unchanged.
    pub fn push_chunk(&mut self, chunk: &[u8]) -> (r: Result<(), Error>)
        requires
            old(self).wf(),
        ensures
            final(self).wf(),
            final(self).max_size == old(self).max_size,
            r is Ok <==> old(self).data@.len() + chunk@.len() <= old(self).max_size,
            r is Ok ==> final(self).data@ == old(self).data@ + chunk@,
            r is Err ==> final(self).data@ == old(self).data@,
            r matches Err(e) ==> e == (Error::FileTooLarge { max_size: old(self).max_size }),
    {
        if chunk.len() > self.max_size - self.data.len() {
            Err(Error::FileTooLarge { max_size: self.max_size })
        } else {
            self.data.extend_from_slice(chunk);
            Ok(())
        }
    }

    /// The buffered bytes, once the stream is fully consumed.
    pub fn into_bytes(self) -> (buf: Vec<u8>)
        ensures
            buf@ == self.data@,
    {
        self.data
    }
}

/// The classes the sniffed content type dispatches on.
#[derive(Clone, Copy, Debug, PartialEq, Eq, Structural)]
pub enum SniffClass {
    Jpeg,
    OtherImage,
    Video,
    Audio,
    Text,
    Binary,
}

/// Whether a sniffed type is one of the accepted video containers.
pub open spec fn spec_is_video(ct: Seq<char>) -> bool {
    ct == "video/mp4"@ || ct == "video/webm"@ || ct == "video/quicktime"@
}

/// The class a sniffed content type falls in; `text` is the byte
/// heuristic's verdict, consulted only for unrecognized types.
pub open spec fn spec_class_of(ct: Seq<char>, text: bool) -> SniffClass {
    if ct == "image/jpeg"@ {
        SniffClass::Jpeg
    } else if ct == "image/png"@ || ct == "image/gif"@ || ct == "image/webp"@ {
        SniffClass::OtherImage
    } else if spec_is_video(ct) {
        SniffClass::Video
    } else if ct == "audio/mpeg"@ {
        SniffClass::Audio
    } else if text {
        SniffClass::Text
    } else {
        SniffClass::Binary
    }
}

/// The container extension the transcode pass uses for each accepted
/// video type.
pub open spec fn spec_video_ext(ct: Seq<char>) -> Seq<char> {
    if ct == "video/mp4"@ {
        "mp4"@
    } else if ct == "video/webm"@ {
        "webm"@
    } else {
        "mov"@
    }
}

/// Whether the bytes look like printable text: a pure heuristic over
/// the bytes alone.
pub uninterp spec fn is_text_of(bytes: Seq<u8>) -> bool;

/// Relies on content_inspector::inspect and ContentType::is_text: a
/// byte-pattern heuristic for printable or UTF-encoded content,
/// depending on the bytes alone.
#[verifier::external_body]
fn text_heuristic(buf: &[u8]) -> (r: bool)
    ensures
        r == is_text_of(buf@),
{
    content_inspector::inspect(buf).is_text()
}

/// Relies on tree_magic::from_u8: classifies the bytes against the
/// FreeDesktop MIME database (the built-in copy, plus whatever the
/// system provides), falling back to a generic type for unknown bytes.
/// The verdict can differ between machines, so nothing is assumed of
/// it; the pipeline takes the returned string as its input.
#[verifier::external_body]
fn sniff_mime(buf: &[u8]) -> String {
    tree_magic::from_u8(buf)
}

/// Classifies a sniffed content type.
pub fn classify(ct: &String, text: bool) -> (c: SniffClass)
    ensures
        c == spec_class_of(ct@, text),
{
    if str_is(ct, "image/jpeg") {
        SniffClass::Jpeg
    } else if str_is(ct, "image/png") || str_is(ct, "image/gif") || str_is(ct, "image/webp") {
        SniffClass::OtherImage
    } else if str_is(ct, "video/mp4") || str_is(ct, "video/webm") || str_is(ct, "video/quicktime") {
        SniffClass::Video
    } else if str_is(ct, "audio/mpeg") {
        SniffClass::Audio
    } else if text {
        SniffClass::Text
    } else {
        SniffClass::Binary
    }
}

/// The container extension for an accepted video type.
pub fn video_ext(ct: &String) -> (e: String)
    ensures
        e@ == spec_video_ext(ct@),
{
    if str_is(ct, "video/mp4") {
        "mp4".to_owned()
    } else if str_is(ct, "video/webm") {
        "webm".to_owned()
    } else {
        "mov".to_owned()
    }
}

/// What classification and normalization decided for an upload: either
/// the final bytes and their metadata, or the video case, which still
/// needs the probe and transcode that only the process edge can run.
#[derive(Debug)]
pub enum IngestStep {
    Done { buf: Vec<u8>, metadata: Metadata },
    NeedsVideoProbe { buf: Vec<u8>, ext: String },
}

/// Everything the ingestion dispatch promises, for any sniffed type:
///
/// - audio, text and unknown binary pass through unchanged, tagged
///   `Audio`, `Text` and `File` respectively;
/// - an accepted video type asks for a probe under its container
///   extension;
/// - a non-JPEG image whose header probe succeeds passes through
///   unchanged with its dimensions; a JPEG stores exactly the named
///   re-encode of its transformed pixels, free of any EXIF
///   orientation, succeeding exactly when decode and re-encode do
///   (failures are `IOError`), and keeps the probed dimensions of the
///   original bytes;
/// - an image whose header probe fails degrades to plain `File` rather
///   than failing the upload; dimensions beyond the machine's integer
///   range are `IOError`.
pub open spec fn spec_ingest_post(input: Seq<u8>, ct: Seq<char>, quality: u8, r: Result<
    IngestStep,
    Error,
>) -> bool {
    let class = spec_class_of(ct, is_text_of(input));
    &&& class == SniffClass::Audio ==> (r matches Ok(IngestStep::Done { buf, metadata })
        && buf@ == input && metadata == Metadata::Audio)
    &&& class == SniffClass::Text ==> (r matches Ok(IngestStep::Done { buf, metadata })
        && buf@ == input && metadata == Metadata::Text)
    &&& class == SniffClass::Binary ==> (r matches Ok(IngestStep::Done { buf, metadata })
        && buf@ == input && metadata == Metadata::File)
    &&& class == SniffClass::Video ==> (r matches Ok(IngestStep::NeedsVideoProbe { buf, ext })
        && buf@ == input && ext@ == spec_video_ext(ct))
    &&& class == SniffClass::OtherImage ==> match media::blob_dims_of(input) {
        Some(d) => if d.0 <= isize::MAX && d.1 <= isize::MAX {
            r matches Ok(IngestStep::Done { buf, metadata }) && buf@ == input && metadata == (
            Metadata::Image { width: d.0 as isize, height: d.1 as isize })
        } else {
            r == Err::<IngestStep, Error>(Error::IOError)
        },
        None => r matches Ok(IngestStep::Done { buf, metadata }) && buf@ == input && metadata
            == Metadata::File,
    }
    &&& class == SniffClass::Jpeg ==> match media::blob_dims_of(input) {
        Some(d) => if d.0 <= isize::MAX && d.1 <= isize::MAX {
            &&& (r is Ok <==> media::spec_normalized_jpeg(input, quality) is Some)
            &&& (r matches Ok(step) ==> step matches IngestStep::Done { buf, metadata }
                && Some(buf@) == media::spec_normalized_jpeg(input, quality)
                && media::exif_orientation_of(buf@) is None
                && metadata == (Metadata::Image { width: d.0 as isize, height: d.1 as isize }))
            &&& (r matches Err(e) ==> e == Error::IOError)
        } else {
            r == Err::<IngestStep, Error>(Error::IOError)
        },
        None => r matches Ok(IngestStep::Done { buf, metadata }) && buf@ == input && metadata
            == Metadata::File,
    }
}

/// Dispatches a fully buffered upload on its sniffed content type and
/// normalizes it, per `spec_ingest_post`.
pub fn ingest_sniffed(buf: Vec<u8>, content_type: &String, jpeg_quality: u8) -> (r: Result<
    IngestStep,
    Error,
>)
    ensures
        spec_ingest_post(buf@, content_type@, jpeg_quality, r),
{
    let text = text_heuristic(buf.as_slice());
    let class = classify(content_type, text);
    match class {
        SniffClass::Jpeg => match media::blob_size(buf.as_slice()) {
            Some((w, h)) => {
                if w > isize::MAX as usize || h > isize::MAX as usize {
                    Err(Error::IOError)
                } else {
                    match media::normalize_jpeg(&buf, jpeg_quality) {
                        Ok(normalized) => Ok(
                            IngestStep::Done {
                                buf: normalized,
                                metadata: Metadata::Image {
                                    width: w as isize,
                                    height: h as isize,
                                },
                            },
                        ),
                        Err(e) => Err(e),
                    }
                }
            },
            None => Ok(IngestStep::Done { buf, metadata: Metadata::File }),
        },
        SniffClass::OtherImage => match media::blob_size(buf.as_slice()) {
            Some((w, h)) => {
                if w > isize::MAX as usize || h > isize::MAX as usize {
                    Err(Error::IOError)
                } else {
                    Ok(
                        IngestStep::Done {
                            buf,
                            metadata: Metadata::Image { width: w as isize, height: h as isize },
                        },
                    )
                }
            },
            None => Ok(IngestStep::Done { buf, metadata: Metadata::File }),
        },
        SniffClass::Video => Ok(
            IngestStep::NeedsVideoProbe { buf, ext: video_ext(content_type) },
        ),
        SniffClass::Audio => Ok(IngestStep::Done { buf, metadata: Metadata::Audio }),
        SniffClass::Text => Ok(IngestStep::Done { buf, metadata: Metadata::Text }),
        SniffClass::Binary => Ok(IngestStep::Done { buf, metadata: Metadata::File }),
    }
}

/// Sniffs a fully buffered upload's true content type from its bytes
/// and dispatches on it; the returned string is the sniffed type the
/// record will carry.
pub fn ingest(buf: Vec<u8>, jpeg_quality: u8) -> (r: (String, Result<IngestStep, Error>))
    ensures
        spec_ingest_post(buf@, r.0@, jpeg_quality, r.1),
{
    let ct = sniff_mime(buf.as_slice());
    let step = ingest_sniffed(buf, &ct, jpeg_quality);
    (ct, step)
}

/// Round trip for audio: bytes whose sniffed type is `audio/mpeg` are
/// stored byte-identical with `Audio` metadata, and a later serve
/// without resize parameters plans no resize — so, by `serve_file`'s
/// contract, it hands back exactly the stored bytes with no
/// content-type override.
pub proof fn lemma_audio_round_trip(
    input: Seq<u8>,
    ct: Seq<char>,
    quality: u8,
    r: Result<IngestStep, Error>,
)
    requires
        ct == "audio/mpeg"@,
        spec_ingest_post(input, ct, quality, r),
    ensures
        r matches Ok(IngestStep::Done { buf, metadata }) && buf@ == input && metadata
            == Metadata::Audio,
        crate::serve::spec_plan(
            Metadata::Audio,
            (crate::serve::Resize { size: None, width: None, height: None, max_side: None }),
        ) == crate::serve::ResizePlan::Original,
{
    reveal_strlit("audio/mpeg");
    reveal_strlit("image/jpeg");
    reveal_strlit("image/png");
    reveal_strlit("image/gif");
    reveal_strlit("image/webp");
    reveal_strlit("video/mp4");
    reveal_strlit("video/webm");
    reveal_strlit("video/quicktime");
    assert("audio/mpeg"@.len() == 10);
    assert("image/png"@.len() == 9);
    assert("image/gif"@.len() == 9);
    assert("video/mp4"@.len() == 9);
    assert("video/quicktime"@.len() == 15);
    assert("audio/mpeg"@ != "image/jpeg"@) by {
        assert("audio/mpeg"@[0] == 'a');
        assert("image/jpeg"@[0] == 'i');
    }
    assert("audio/mpeg"@ != "image/webp"@) by {
        assert("audio/mpeg"@[0] == 'a');
        assert("image/webp"@[0] == 'i');
    }
    assert("audio/mpeg"@ != "video/webm"@) by {
        assert("audio/mpeg"@[0] == 'a');
        assert("video/webm"@[0] == 'v');
    }
    assert(spec_class_of(ct, is_text_of(input)) == SniffClass::Audio);
}

/// A tag restricted to video rejects every upload whose bytes sniff as
/// an image: whatever normalization returned on success, its metadata
/// is of the image class or the generic fallback, which the
/// restriction refuses — so by `finalize_upload`'s contract the upload
/// then fails with `FileTypeNotAllowed`.
pub proof fn lemma_video_tag_rejects_images(
    input: Seq<u8>,
    ct: Seq<char>,
    quality: u8,
    r: Result<IngestStep, Error>,
)
    requires
        spec_class_of(ct, is_text_of(input)) == SniffClass::Jpeg || spec_class_of(
            ct,
            is_text_of(input),
        ) == SniffClass::OtherImage,
        spec_ingest_post(input, ct, quality, r),
    ensures
        r matches Ok(IngestStep::Done { metadata, .. }) ==> !spec_type_allowed(
            Some(ContentType::Video),
            metadata,
        ),
{
}

/// Idempotence of JPEG normalization: the bytes stored for a
/// re-encoded JPEG upload carry no EXIF orientation, so uploading them
/// again reads the identity transform — a second pass applies no
/// rotation or flip, it only re-encodes.
pub proof fn lemma_jpeg_normalization_idempotent(
    input: Seq<u8>,
    ct: Seq<char>,
    quality: u8,
    r: Result<IngestStep, Error>,
)
    requires
        spec_class_of(ct, is_text_of(input)) == SniffClass::Jpeg,
        spec_ingest_post(input, ct, quality, r),
    ensures
        r matches Ok(IngestStep::Done { buf, metadata }) ==> (metadata is Image
            ==> media::exif_orientation_of(buf@) is None && media::spec_orient_for(
            media::spec_rotation_of(media::exif_orientation_of(buf@)),
        ) == media::Orient::Identity),
{
}

/// The dimensions of the first usable stream a video probe reported,
/// `None` when no stream is usable.
pub open spec fn spec_video_size(streams: Seq<(Option<i64>, Option<i64>)>) -> Option<(int, int)>
    decreases streams.len(),
{
    if streams.len() == 0 {
        None
    } else {
        match (streams[0].0, streams[0].1) {
            (Some(w), Some(h)) => if isize::MIN <= w <= isize::MAX && isize::MIN <= h
                <= isize::MAX {
                Some((w as int, h as int))
            } else {
                spec_video_size(streams.drop_first())
            },
            _ => spec_video_size(streams.drop_first()),
        }
    }
}

/// Picks the dimensions of the first probed stream that reports both a
/// width and a height, skipping streams that miss either; with no
/// usable stream the probe fails with `ProbeError`.
pub fn select_video_stream(streams: &Vec<(Option<i64>, Option<i64>)>) -> (r: Result<
    (isize, isize),
    Error,
>)
    ensures
        spec_video_size(streams@) is None <==> r == Err::<(isize, isize), Error>(
            Error::ProbeError,
        ),
        r is Err ==> r == Err::<(isize, isize), Error>(Error::ProbeError),
        r matches Ok(d) ==> spec_video_size(streams@) == Some((d.0 as int, d.1 as int)),
{
    let n = streams.len();
    let mut i: usize = 0;
    proof {
        assert(streams@.skip(0) =~= streams@);
    }
    while i < n
        invariant
            n == streams@.len(),
            0 <= i <= n,
            spec_video_size(streams@) == spec_video_size(streams@.skip(i as int)),
        decreases n - i,
    {
        proof {
            assert(streams@.skip(i as int).len() > 0);
            assert(streams@.skip(i as int)[0] == streams@[i as int]);
            assert(streams@.skip(i as int).drop_first() =~= streams@.skip(i as int + 1));
        }
        let s = streams[i];
        if let (Some(w), Some(h)) = s {
            if w >= isize::MIN as i64 && w <= isize::MAX as i64 && h >= isize::MIN as i64 && h
                <= isize::MAX as i64 {
                return Ok((w as isize, h as isize));
            }
        }
        i += 1;
    }
    proof {
        assert(streams@.skip(n as int) =~= Seq::<(Option<i64>, Option<i64>)>::empty());
    }
    Err(Error::ProbeError)
}

/// Whether an upload's normalized metadata satisfies a tag's
/// content-type restriction: no restriction admits everything, a
/// restriction admits exactly its own media class.
pub open spec fn spec_type_allowed(rct: Option<ContentType>, m: Metadata) -> bool {
    match rct {
        None => true,
        Some(ContentType::Image) => m is Image,
        Some(ContentType::Video) => m is Video,
        Some(ContentType::Audio) => m is Audio,
    }
}

/// Decides a tag's content-type restriction against an upload's
/// normalized metadata. Runs after normalization, so a re-encoded JPEG
/// still counts as an image.
pub fn content_type_allowed(rct: &Option<ContentType>, m: &Metadata) -> (b: bool)
    ensures
        b == spec_type_allowed(*rct, *m),
{
    match rct {
        None => true,
        Some(ContentType::Image) => matches!(m, Metadata::Image { .. }),
        Some(ContentType::Video) => matches!(m, Metadata::Video { .. }),
        Some(ContentType::Audio) => matches!(m, Metadata::Audio),
    }
}

/// The length of a generated object id under each scheme.
pub open spec fn spec_id_len(use_ulid: bool) -> int {
    if use_ulid {
        26
    } else {
        42
    }
}

/// Relies on ulid::Ulid::generate and Ulid::to_string: a unique id
/// that sorts by its creation time, rendered as its 26-character
/// canonical encoding. The value depends on the clock and a random
/// source, so only its shape is assumed.
#[verifier::external_body]
fn ulid_string() -> (r: String)
    ensures
        r@.len() == 26,
{
    ulid::Ulid::generate().to_string()
}

/// Relies on nanoid::format with the url-safe 64-character alphabet:
/// one alphabet character per requested position, so exactly 42
/// characters. The value is random, so only its shape is assumed.
#[verifier::external_body]
fn nanoid_string() -> (r: String)
    ensures
        r@.len() == 42,
{
    nanoid::format(nanoid::rngs::default, &nanoid::alphabet::SAFE, 42)
}

/// Generates an object id under the tag's scheme: sortable unique ids
/// when `use_ulid` is set, short random ids otherwise.
pub fn generate_id(use_ulid: bool) -> (r: String)
    ensures
        r@.len() == spec_id_len(use_ulid),
{
    if use_ulid {
        ulid_string()
    } else {
        nanoid_string()
    }
}

/// Enforces the tag's content-type policy and builds the record an
/// accepted upload commits: a fresh id under the tag's scheme, the
/// original filename, the normalized metadata, the sniffed content
/// type, the stored byte count, and no deletion marks.
pub fn finalize_upload(
    tag_id: String,
    tag: &Tag,
    filename: String,
    metadata: Metadata,
    content_type: String,
    size: usize,
) -> (r: Result<File, Error>)
    requires
        size <= isize::MAX as usize,
    ensures
        r is Ok <==> spec_type_allowed(tag.restrict_content_type, metadata),
        r matches Ok(f) ==> f.tag@ == tag_id@ && f.filename@ == filename@ && f.metadata
            == metadata && f.content_type@ == content_type@ && f.size == size as isize
            && f.deleted is None && f.reported is None && f.id@.len() == spec_id_len(tag.use_ulid),
        r matches Err(e) ==> e == Error::FileTypeNotAllowed,
{
    if !content_type_allowed(&tag.restrict_content_type, &metadata) {
        return Err(Error::FileTypeNotAllowed);
    }
    let id = generate_id(tag.use_ulid);
    Ok(
        File {
            id,
            tag: tag_id,
            filename,
            metadata,
            content_type,
            size: size as isize,
            deleted: None,
            reported: None,
        },
    )
}

} // verus!
