//! The transcoding engine: detects the source format of raw image bytes,
//! decodes them, applies an ordered list of resize/crop operations, and
//! re-encodes to a target format, stripping the alpha channel before a JPEG
//! encode.
//!
//! The codec itself (decode, resize, crop, encode byte engines) is an outside
//! capability; each call is made through a trusted wrapper whose contract
//! names its result, so that the pipeline around the codec is verified: which
//! format is chosen, the order the operations are applied in, when the alpha
//! channel is stripped, and exactly which error comes back on each failure.

use vstd::prelude::*;
use crate::encoding::{ImageEncoding, encoding_of_extension};

verus! {

/// An unsigned top-left offset for cropping.
#[derive(Debug, Clone, Copy)]
pub struct Position(u32, u32);

impl Position {
    /// The horizontal offset.
    pub closed spec fn spec_x(self) -> u32 {
        self.0
    }

    /// The vertical offset.
    pub closed spec fn spec_y(self) -> u32 {
        self.1
    }

    pub fn new(x: u32, y: u32) -> (r: Self)
        ensures
            r.spec_x() == x && r.spec_y() == y,
    {
        Position(x, y)
    }

    pub fn x(&self) -> (r: &u32)
        ensures
            *r == self.spec_x(),
    {
        &self.0
    }

    pub fn y(&self) -> (r: &u32)
        ensures
            *r == self.spec_y(),
    {
        &self.1
    }
}

/// A width and height in pixels; the axes are independent, so a resize to a
/// `PixelSize` is exact and need not preserve the aspect ratio.
#[derive(Debug, Clone, Copy)]
pub struct PixelSize(u32, u32);

impl PixelSize {
    /// The width in pixels.
    pub closed spec fn spec_width(self) -> u32 {
        self.0
    }

    /// The height in pixels.
    pub closed spec fn spec_height(self) -> u32 {
        self.1
    }

    pub fn new(width: u32, height: u32) -> (r: Self)
        ensures
            r.spec_width() == width && r.spec_height() == height,
    {
        PixelSize(width, height)
    }

    pub fn width(&self) -> (r: &u32)
        ensures
            *r == self.spec_width(),
    {
        &self.0
    }

    pub fn height(&self) -> (r: &u32)
        ensures
            *r == self.spec_height(),
    {
        &self.1
    }
}

/// One transformation of a decoded pixel buffer. An ordered list of these is
/// applied left to right before re-encoding.
#[derive(Debug, Clone, Copy)]
pub enum Operations {
    Resize(PixelSize),
    Crop(Position, PixelSize),
}

/// Why a transcode failed. No partial output is ever returned.
#[derive(Debug, Clone, Copy, PartialEq, Eq, Structural)]
pub enum TranscodeError {
    /// Neither content sniffing nor the extension hint yielded a format.
    UnsupportedFormat,
    /// The codec could not decode the bytes in the resolved format.
    DecodeFailure,
    /// The codec could not encode the transformed buffer to the target.
    EncodeFailure,
}

/// The abstract value of a pixel buffer: its dimensions and its (otherwise
/// uninterpreted) pixel data.
pub struct ImageAbs {
    pub width: nat,
    pub height: nat,
    pub pixels: Seq<u8>,
}

#[verifier::external_type_specification]
#[verifier::external_body]
pub struct ExDynamicImage(image::DynamicImage);

/// The abstract pixel grid a codec buffer value denotes.
pub uninterp spec fn image_abs(img: image::DynamicImage) -> ImageAbs;

/// The format, if any, that magic-number sniffing assigns to these bytes.
pub uninterp spec fn sniffed_format(bytes: Seq<u8>) -> Option<ImageEncoding>;

/// What decoding these bytes in this format yields, or `None` if the codec
/// rejects them.
pub uninterp spec fn decoded_image(bytes: Seq<u8>, fmt: ImageEncoding) -> Option<ImageAbs>;

/// The pixel data of an exact resample of `a` to `w` by `h`.
pub uninterp spec fn resized_pixels(a: ImageAbs, w: u32, h: u32) -> Seq<u8>;

/// The pixel data of the cut-out of `a` at `(x, y)` of size `w` by `h`.
pub uninterp spec fn cropped_pixels(a: ImageAbs, x: u32, y: u32, w: u32, h: u32) -> Seq<u8>;

/// The pixel data of `a` forced to a three-channel, alpha-free representation.
pub uninterp spec fn rgb_pixels(a: ImageAbs) -> Seq<u8>;

/// The encoding of `a` in format `fmt`, or `None` if the codec cannot encode
/// this buffer to that format.
pub uninterp spec fn encoded_bytes(a: ImageAbs, fmt: ImageEncoding) -> Option<Seq<u8>>;

/// The largest width or height the transcoder lets a buffer take. The
/// codec's resampling allocates intermediate buffers of up to sixteen bytes
/// per pixel, sized by one image's width and the other's height; capping
/// each axis keeps every such allocation far below the address space.
pub const MAX_CODEC_DIM: u32 = 0x2000_0000;

/// A buffer whose dimensions the transcoder accepts.
pub open spec fn dims_bounded(a: ImageAbs) -> bool {
    a.width <= MAX_CODEC_DIM && a.height <= MAX_CODEC_DIM
}

/// An exact resize: the requested dimensions, with resampled pixel data.
pub open spec fn resized_abs(a: ImageAbs, w: u32, h: u32) -> ImageAbs {
    ImageAbs { width: w as nat, height: h as nat, pixels: resized_pixels(a, w, h) }
}

/// A crop: the codec clamps the rectangle to the source bounds, so the result
/// is `w` by `h` only when the rectangle lies fully inside the source.
pub open spec fn cropped_abs(a: ImageAbs, x: u32, y: u32, w: u32, h: u32) -> ImageAbs {
    let cx = vstd::math::min(x as int, a.width as int);
    let cy = vstd::math::min(y as int, a.height as int);
    let cw = vstd::math::min(w as int, a.width - cx);
    let ch = vstd::math::min(h as int, a.height - cy);
    ImageAbs { width: cw as nat, height: ch as nat, pixels: cropped_pixels(a, x, y, w, h) }
}

/// Alpha stripping: the same dimensions, three-channel pixel data.
pub open spec fn flattened_abs(a: ImageAbs) -> ImageAbs {
    ImageAbs { width: a.width, height: a.height, pixels: rgb_pixels(a) }
}

/// The format a transcode works in: content sniffing first, the extension
/// hint as fallback.
pub open spec fn resolved_format(bytes: Seq<u8>, hint: Seq<char>) -> Option<ImageEncoding> {
    match sniffed_format(bytes) {
        Some(f) => Some(f),
        None => encoding_of_extension(hint),
    }
}

/// One operation applied to an abstract buffer.
pub open spec fn apply_op_abs(a: ImageAbs, op: Operations) -> ImageAbs {
    match op {
        Operations::Resize(s) => resized_abs(a, s.spec_width(), s.spec_height()),
        Operations::Crop(p, s) => cropped_abs(
            a,
            p.spec_x(),
            p.spec_y(),
            s.spec_width(),
            s.spec_height(),
        ),
    }
}

/// An operation list applied left to right.
pub open spec fn apply_ops_abs(a: ImageAbs, ops: Seq<Operations>) -> ImageAbs
    decreases ops.len(),
{
    if ops.len() == 0 {
        a
    } else {
        apply_op_abs(apply_ops_abs(a, ops.drop_last()), ops.last())
    }
}

/// A resize request the codec can satisfy without its pixel allocations
/// overflowing.
pub open spec fn op_bounded(op: Operations) -> bool {
    match op {
        Operations::Resize(s) => s.spec_width() <= MAX_CODEC_DIM && s.spec_height()
            <= MAX_CODEC_DIM,
        Operations::Crop(_, _) => true,
    }
}

pub open spec fn ops_bounded(ops: Seq<Operations>) -> bool {
    forall|i: int| 0 <= i < ops.len() ==> op_bounded(#[trigger] ops[i])
}

/// The operation list a transcode applies: the given list, or none.
pub open spec fn ops_seq(ops: Option<Vec<Operations>>) -> Seq<Operations> {
    match ops {
        Some(v) => v@,
        None => Seq::empty(),
    }
}

/// The buffer handed to the encoder: the decoded source with all operations
/// applied, alpha-stripped when the target is JPEG; `None` when the format
/// cannot be resolved or the bytes do not decode.
pub open spec fn pre_encode_abs(
    bytes: Seq<u8>,
    hint: Seq<char>,
    target: ImageEncoding,
    ops: Seq<Operations>,
) -> Option<ImageAbs> {
    match resolved_format(bytes, hint) {
        None => None,
        Some(fmt) => match decoded_image(bytes, fmt) {
            None => None,
            Some(a0) => {
                let a1 = apply_ops_abs(a0, ops);
                Some(if target is JPEG { flattened_abs(a1) } else { a1 })
            },
        },
    }
}

/// What a transcode returns, for every input: the encoding of the
/// transformed buffer, or the exact error.
pub open spec fn transcode_spec(
    bytes: Seq<u8>,
    hint: Seq<char>,
    target: ImageEncoding,
    ops: Seq<Operations>,
) -> Result<Seq<u8>, TranscodeError> {
    if resolved_format(bytes, hint) is None {
        Err(TranscodeError::UnsupportedFormat)
    } else if decoded_image(bytes, resolved_format(bytes, hint)->0) is None {
        Err(TranscodeError::DecodeFailure)
    } else {
        match encoded_bytes(pre_encode_abs(bytes, hint, target, ops)->0, target) {
            None => Err(TranscodeError::EncodeFailure),
            Some(out) => Ok(out),
        }
    }
}

/// Relies on `image::guess_format`: a deterministic guess from the magic
/// bytes at the start of the buffer. Formats other than the three this
/// pipeline serves are reported as unrecognized.
#[verifier::external_body]
fn sniff_format(bytes: &[u8]) -> (r: Option<ImageEncoding>)
    ensures
        r == sniffed_format(bytes@),
{
    match image::guess_format(bytes) {
        Ok(image::ImageFormat::Avif) => Some(ImageEncoding::AVIF),
        Ok(image::ImageFormat::Jpeg) => Some(ImageEncoding::JPEG),
        Ok(image::ImageFormat::Png) => Some(ImageEncoding::PNG),
        _ => None,
    }
}

/// Relies on `image::load_from_memory_with_format`: deterministic in the
/// bytes and format. A decoded image's dimensions sit under the cap: JPEG
/// dimensions are sixteen-bit, and the PNG decoder rejects zero dimensions
/// and reserves the pixel buffer against the codec's default 512 MiB
/// allocation limit before decoding, which bounds each axis.
#[verifier::external_body]
fn decode_image(bytes: &[u8], fmt: ImageEncoding) -> (r: Option<image::DynamicImage>)
    ensures
        r is Some <==> decoded_image(bytes@, fmt) is Some,
        r is Some ==> image_abs(r->0) == decoded_image(bytes@, fmt)->0,
        r is Some ==> dims_bounded(image_abs(r->0)),
{
    let f = match fmt {
        ImageEncoding::AVIF => image::ImageFormat::Avif,
        ImageEncoding::JPEG => image::ImageFormat::Jpeg,
        ImageEncoding::PNG => image::ImageFormat::Png,
    };
    image::load_from_memory_with_format(bytes, f).ok()
}

/// Relies on `DynamicImage::resize_exact` with the Catmull-Rom filter: an
/// exact, aspect-ignoring resample to `w` by `h`, deterministic in the buffer
/// and the dimensions. Resampling allocates an intermediate buffer of the
/// source's width by the new height at sixteen bytes per pixel, and the
/// result at up to eight; the dimension caps keep every such allocation
/// from overflowing, which would panic.
#[verifier::external_body]
fn resize_image(img: image::DynamicImage, w: u32, h: u32) -> (r: image::DynamicImage)
    requires
        w <= MAX_CODEC_DIM && h <= MAX_CODEC_DIM,
        dims_bounded(image_abs(img)),
    ensures
        image_abs(r) == resized_abs(image_abs(img), w, h),
        image_abs(r).pixels == resized_pixels(image_abs(img), w, h),
{
    img.resize_exact(w, h, image::imageops::FilterType::CatmullRom)
}

/// Relies on `DynamicImage::crop_imm`: a cut-out whose rectangle is clamped
/// to the source bounds, deterministic in the buffer and the rectangle.
#[verifier::external_body]
fn crop_image(img: image::DynamicImage, x: u32, y: u32, w: u32, h: u32) -> (r:
    image::DynamicImage)
    ensures
        image_abs(r) == cropped_abs(image_abs(img), x, y, w, h),
        image_abs(r).pixels == cropped_pixels(image_abs(img), x, y, w, h),
{
    img.crop_imm(x, y, w, h)
}

/// Relies on `DynamicImage::to_rgb8`: the same image re-expressed with three
/// channels and no alpha, deterministic in the buffer. The dimension caps
/// cover the new buffer's allocation.
#[verifier::external_body]
fn flatten_alpha(img: image::DynamicImage) -> (r: image::DynamicImage)
    requires
        dims_bounded(image_abs(img)),
    ensures
        image_abs(r) == flattened_abs(image_abs(img)),
        image_abs(r).pixels == rgb_pixels(image_abs(img)),
{
    image::DynamicImage::ImageRgb8(img.to_rgb8())
}

/// Relies on `DynamicImage::write_to`: a deterministic encoding of the buffer
/// in the given format, or an error when the codec cannot encode this buffer
/// to that format.
#[verifier::external_body]
fn encode_image(img: &image::DynamicImage, fmt: ImageEncoding) -> (r: Option<Vec<u8>>)
    ensures
        r is Some <==> encoded_bytes(image_abs(*img), fmt) is Some,
        r is Some ==> r->0@ == encoded_bytes(image_abs(*img), fmt)->0,
{
    let f = match fmt {
        ImageEncoding::AVIF => image::ImageFormat::Avif,
        ImageEncoding::JPEG => image::ImageFormat::Jpeg,
        ImageEncoding::PNG => image::ImageFormat::Png,
    };
    let mut cursor = std::io::Cursor::new(Vec::new());
    match img.write_to(&mut cursor, f) {
        Ok(()) => Some(cursor.into_inner()),
        Err(_) => None,
    }
}

/// The transcoding engine.
#[derive(Debug)]
pub struct Transcoder;

impl Transcoder {
    /// Re-encodes `image` to `target`, after applying `ops` left to right.
    ///
    /// The source format is sniffed from the bytes; when sniffing fails, the
    /// `extension` hint decides; when both fail the transcode is rejected.
    /// Before a JPEG encode the buffer is forced to a three-channel
    /// representation, since JPEG has no alpha channel.
    pub fn transcode(
        &self,
        image: &[u8],
        extension: String,
        target: ImageEncoding,
        ops: Option<Vec<Operations>>,
    ) -> (r: Result<Vec<u8>, TranscodeError>)
        requires
            ops_bounded(ops_seq(ops)),
        ensures
            r matches Ok(v) ==> transcode_spec(image@, extension@, target, ops_seq(ops))
                matches Ok(s) && v@ == s,
            r matches Err(e) ==> transcode_spec(image@, extension@, target, ops_seq(ops))
                == Err::<Seq<u8>, TranscodeError>(e),
    {
        let fmt = match sniff_format(image) {
            Some(f) => f,
            None => match ImageEncoding::from_extension(extension.as_str()) {
                Some(f) => f,
                None => {
                    return Err(TranscodeError::UnsupportedFormat);
                },
            },
        };
        let mut img = match decode_image(image, fmt) {
            Some(i) => i,
            None => {
                return Err(TranscodeError::DecodeFailure);
            },
        };
        let ghost a0 = image_abs(img);
        if let Some(op_list) = &ops {
            let n = op_list.len();
            let mut i: usize = 0;
            while i < n
                invariant
                    i <= n,
                    n == op_list@.len(),
                    ops_bounded(op_list@),
                    image_abs(img) == apply_ops_abs(a0, op_list@.take(i as int)),
                    dims_bounded(image_abs(img)),
                decreases n - i,
            {
                let ghost prev = image_abs(img);
                match &op_list[i] {
                    Operations::Resize(s) => {
                        assert(op_bounded(op_list@[i as int]));
                        img = resize_image(img, *s.width(), *s.height());
                    },
                    Operations::Crop(p, s) => {
                        img = crop_image(img, *p.x(), *p.y(), *s.width(), *s.height());
                        proof {
                            lemma_crop_keeps_bound(prev, p.spec_x(), p.spec_y(),
                                s.spec_width(), s.spec_height());
                        }
                    },
                }
                proof {
                    assert(op_list@.take(i + 1 as int).drop_last() =~= op_list@.take(i as int));
                    assert(op_list@.take(i + 1 as int).last() == op_list@[i as int]);
                }
                i += 1;
            }
            proof {
                assert(op_list@.take(n as int) =~= op_list@);
            }
        }
        if target == ImageEncoding::JPEG {
            img = flatten_alpha(img);
        }
        match encode_image(&img, target) {
            Some(out) => Ok(out),
            None => Err(TranscodeError::EncodeFailure),
        }
    }
}

/// A clamped crop never enlarges the buffer, so it keeps the dimension
/// caps.
proof fn lemma_crop_keeps_bound(a: ImageAbs, x: u32, y: u32, w: u32, h: u32)
    requires
        dims_bounded(a),
    ensures
        dims_bounded(cropped_abs(a, x, y, w, h)),
{
    let c = cropped_abs(a, x, y, w, h);
    assert(c.width <= a.width && c.height <= a.height);
}

/// With an empty operation list the buffer handed to the encoder has the
/// dimensions of the decoded source: a transcode that applies no operations
/// re-encodes an image of unchanged width and height, whatever the source and
/// target formats. Alpha stripping before a JPEG encode keeps dimensions.
pub proof fn lemma_no_ops_preserves_dims(
    bytes: Seq<u8>,
    hint: Seq<char>,
    target: ImageEncoding,
)
    requires
        pre_encode_abs(bytes, hint, target, Seq::empty()) is Some,
    ensures
        ({
            let a0 = decoded_image(bytes, resolved_format(bytes, hint)->0)->0;
            let a2 = pre_encode_abs(bytes, hint, target, Seq::empty())->0;
            a2.width == a0.width && a2.height == a0.height
        }),
{
}

/// An operation list ending in an exact resize to `s` always hands the
/// encoder a buffer of exactly `s`'s width and height, regardless of the
/// source's dimensions or aspect ratio, and for every target format.
pub proof fn lemma_resize_fixes_dims(
    bytes: Seq<u8>,
    hint: Seq<char>,
    target: ImageEncoding,
    ops: Seq<Operations>,
    s: PixelSize,
)
    requires
        pre_encode_abs(bytes, hint, target, ops) is Some,
        ops.len() > 0,
        ops.last() == Operations::Resize(s),
    ensures
        ({
            let a2 = pre_encode_abs(bytes, hint, target, ops)->0;
            a2.width == s.spec_width() && a2.height == s.spec_height()
        }),
{
}

/// A transcode whose target is JPEG always encodes the alpha-stripped,
/// three-channel form of the transformed buffer: the alpha channel is
/// silently dropped, never handed to the JPEG encoder.
pub proof fn lemma_jpeg_always_flattened(
    bytes: Seq<u8>,
    hint: Seq<char>,
    ops: Seq<Operations>,
)
    requires
        pre_encode_abs(bytes, hint, ImageEncoding::JPEG, ops) is Some,
    ensures
        ({
            let a0 = decoded_image(bytes, resolved_format(bytes, hint)->0)->0;
            pre_encode_abs(bytes, hint, ImageEncoding::JPEG, ops)
                == Some(flattened_abs(apply_ops_abs(a0, ops)))
        }),
{
}

} // verus!
