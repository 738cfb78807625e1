//! From a lossless capture to a thumbnail: decode, resize to exactly the
//! requested size, encode in the requested format.
//!
//! The pictures themselves are handled by the `image` crate. The library
//! decides which of its functions run, on what, and what becomes of their
//! outcomes.

use crate::error::{AppError, ErrorView};
use crate::format::ImageFormat;
use crate::entry::{bytes_view, stored_view};
use vstd::prelude::*;
use vstd::string::*;

verus! {

/// The picture type of the `image` crate. A picture is carried from one
/// call into that crate to the next; the library never looks inside.
#[verifier::external_type_specification]
#[verifier::external_body]
pub struct ExDynamicImage(image::DynamicImage);

/// What a decoded picture holds: its size in pixels and, in one sequence,
/// everything else: colour layout, colour space and samples.
pub struct Raster {
    pub width: nat,
    pub height: nat,
    pub samples: Seq<u8>,
}

/// What a picture of the `image` crate holds.
pub uninterp spec fn raster(picture: image::DynamicImage) -> Raster;

/// What `DynamicImage::to_rgb8` computes for a picture, but for the size,
/// which it keeps: three eight-bit channels, no alpha.
pub uninterp spec fn flattening(source: Raster) -> Seq<u8>;

/// The bytes that `DynamicImage::write_to` writes for a picture in a
/// format, or the text of its error.
pub uninterp spec fn encoding(source: Raster, format: ImageFormat) -> Result<Seq<u8>, Seq<char>>;

/// What the transcoder makes of a capture: the bytes of the thumbnail, or
/// a failure.
pub type Transcoded = Result<Seq<u8>, ErrorView>;

/// The transcoder's failure with the given error.
pub open spec fn failed(error: ErrorView) -> Transcoded {
    Err(error)
}

/// Whether a picture of this size, at the sixteen bytes a pixel that the
/// resampler works with, is an object that the machine can hold.
pub open spec fn holdable(width: nat, height: nat) -> bool {
    16 * width * height <= isize::MAX
}

/// Whether the machine can hold what resizing needs: the thumbnail, and
/// the picture built on the way, which is as wide as the source and as
/// high as the thumbnail.
pub open spec fn resizable(source_width: nat, width: u32, height: u32) -> bool {
    holdable(source_width, height as nat) && holdable(width as nat, height as nat)
}

/// A picture of the given size and content.
pub open spec fn sized(width: u32, height: u32, samples: Seq<u8>) -> Raster {
    Raster { width: width as nat, height: height as nat, samples }
}

/// A picture without its alpha channel.
pub open spec fn flattened(source: Raster) -> Raster {
    Raster { samples: flattening(source), ..source }
}

/// A decoded picture or the text of a failure, as plain values.
pub open spec fn picture_view(loaded: Result<image::DynamicImage, String>) -> Result<
    Raster,
    Seq<char>,
> {
    match loaded {
        Ok(picture) => Ok(raster(picture)),
        Err(e) => Err(e@),
    }
}

/// Calls `image::load_from_memory` and turns an error into its text.
/// Nothing is claimed of the outcome: which decoder reads the bytes also
/// depends on what has been registered with the `image` crate in this
/// process.
#[verifier::external_body]
fn load_picture(data: &[u8]) -> (loaded: Result<image::DynamicImage, String>) {
    match image::load_from_memory(data) {
        Ok(picture) => Ok(picture),
        Err(e) => Err(e.to_string()),
    }
}

/// Calls `DynamicImage::width`. Trusted: it is the width of the picture.
#[verifier::external_body]
fn picture_width(picture: &image::DynamicImage) -> (width: u32)
    ensures
        width == raster(*picture).width,
{
    picture.width()
}

/// Calls `DynamicImage::height`. Trusted: it is the height of the picture.
#[verifier::external_body]
fn picture_height(picture: &image::DynamicImage) -> (height: u32)
    ensures
        height == raster(*picture).height,
{
    picture.height()
}

/// Calls `DynamicImage::resize_exact` with the `Lanczos3` filter. Trusted:
/// the new picture has exactly the size asked for, whatever the shape of
/// the old one. Nothing is claimed of its samples, which come out of
/// floating-point arithmetic. The bound keeps the two buffers that the
/// resampler allocates within what a vector can hold.
#[verifier::external_body]
fn resize_picture(picture: &image::DynamicImage, width: u32, height: u32) -> (scaled:
    image::DynamicImage)
    requires
        resizable(raster(*picture).width, width, height),
    ensures
        raster(scaled).width == width,
        raster(scaled).height == height,
{
    picture.resize_exact(width, height, image::imageops::FilterType::Lanczos3)
}

/// Calls `DynamicImage::to_rgb8` and wraps the buffer as a picture again.
/// Trusted: the new picture has the size of the old one and depends on it
/// alone. The bound keeps the new buffer within what a vector can hold.
#[verifier::external_body]
fn drop_alpha(picture: &image::DynamicImage) -> (opaque: image::DynamicImage)
    requires
        holdable(raster(*picture).width, raster(*picture).height),
    ensures
        raster(opaque).width == raster(*picture).width,
        raster(opaque).height == raster(*picture).height,
        raster(opaque).samples == flattening(raster(*picture)),
{
    image::DynamicImage::ImageRgb8(picture.to_rgb8())
}

/// Calls `DynamicImage::write_to` on a buffer in memory and turns an error
/// into its text. Trusted: the outcome depends on the picture and the
/// format alone. The bound keeps the buffers that the encoders allocate
/// within what a vector can hold.
#[verifier::external_body]
fn encode_picture(picture: &image::DynamicImage, format: ImageFormat) -> (encoded: Result<
    Vec<u8>,
    String,
>)
    requires
        holdable(raster(*picture).width, raster(*picture).height),
    ensures
        bytes_view(encoded) == encoding(raster(*picture), format),
{
    let target = match format {
        ImageFormat::Webp => image::ImageFormat::WebP,
        ImageFormat::Jpeg => image::ImageFormat::Jpeg,
        ImageFormat::Png => image::ImageFormat::Png,
    };
    let mut bytes = Vec::new();
    match picture.write_to(&mut std::io::Cursor::new(&mut bytes), target) {
        Ok(()) => Ok(bytes),
        Err(e) => Err(e.to_string()),
    }
}

impl ImageFormat {
    /// The name of the format as it is written in failures of its encoder.
    pub open spec fn label(self) -> Seq<char> {
        match self {
            ImageFormat::Webp => "WebP"@,
            ImageFormat::Jpeg => "JPEG"@,
            ImageFormat::Png => "PNG"@,
        }
    }

    /// Whether pictures lose their alpha channel before they are encoded
    /// in this format.
    pub open spec fn opaque(self) -> bool {
        self == ImageFormat::Jpeg
    }
}

/// The failure reported for a capture that cannot be decoded.
pub open spec fn load_failure(why: Seq<char>) -> ErrorView {
    ErrorView::ImageProcessing("Failed to load image: "@ + why)
}

/// What becomes of the encoder's outcome: its bytes, unless there are none;
/// a failure names the format.
pub open spec fn encoded_form(encoded: Result<Seq<u8>, Seq<char>>, format: ImageFormat) -> Transcoded {
    match encoded {
        Err(e) => Err(ErrorView::ImageProcessing(format.label() + " encoding failed: "@ + e)),
        Ok(bytes) => if bytes.len() == 0 {
            Err(ErrorView::ImageProcessing("Encoded image is empty"@))
        } else {
            Ok(bytes)
        },
    }
}

/// The failure reported where the machine cannot hold a picture of the
/// size in question.
pub open spec fn size_failure() -> ErrorView {
    ErrorView::ImageProcessing("Failed to resize image: size out of range"@)
}

/// The thumbnail made of a picture that has the requested size already:
/// the picture, stripped of alpha where the format asks for it, encoded.
pub open spec fn finished(scaled: Raster, format: ImageFormat) -> Transcoded {
    if !holdable(scaled.width, scaled.height) {
        Err(size_failure())
    } else if format.opaque() {
        encoded_form(encoding(flattened(scaled), format), format)
    } else {
        encoded_form(encoding(scaled, format), format)
    }
}

/// Whether `thumbnail` is what the transcoder may make of a capture that
/// was loaded as `loaded`. A failed load is reported as such. A picture is
/// resized where the machine can hold what that takes; the thumbnail is
/// then what encoding makes of some picture of exactly `width` by `height`
/// pixels.
pub open spec fn thumbnail_allowed(
    loaded: Result<Raster, Seq<char>>,
    width: u32,
    height: u32,
    format: ImageFormat,
    thumbnail: Transcoded,
) -> bool {
    match loaded {
        Err(e) => thumbnail == failed(load_failure(e)),
        Ok(source) => if resizable(source.width, width, height) {
            exists|samples: Seq<u8>|
                thumbnail == finished(#[trigger] sized(width, height, samples), format)
        } else {
            thumbnail == failed(size_failure())
        },
    }
}

/// Whether `thumbnail` is what the transcoder may make of a capture: for
/// an empty capture its own failure; else what it may make of the capture
/// as it was loaded, whichever way the load went.
pub open spec fn transcodes_to(
    data: Seq<u8>,
    width: u32,
    height: u32,
    format: ImageFormat,
    thumbnail: Transcoded,
) -> bool {
    if data.len() == 0 {
        thumbnail == failed(ErrorView::ImageProcessing("Empty image data"@))
    } else {
        exists|loaded: Result<Raster, Seq<char>>| #[trigger]
            thumbnail_allowed(loaded, width, height, format, thumbnail)
    }
}

/// Reports a capture that could not be decoded.
pub fn report_load_failure(why: String) -> (error: AppError)
    ensures
        error@ == load_failure(why@),
{
    AppError::ImageProcessing(String::from_str("Failed to load image: ").concat(why.as_str()))
}

/// Turns the encoder's outcome into the thumbnail or the failure to
/// report.
pub fn check_thumbnail(encoded: Result<Vec<u8>, String>, format: ImageFormat) -> (thumbnail: Result<
    Vec<u8>,
    AppError,
>)
    ensures
        stored_view(thumbnail) == encoded_form(bytes_view(encoded), format),
{
    match encoded {
        Err(e) => {
            let label = match format {
                ImageFormat::Webp => "WebP",
                ImageFormat::Jpeg => "JPEG",
                ImageFormat::Png => "PNG",
            };
            Err(
                AppError::ImageProcessing(
                    String::from_str(label).concat(" encoding failed: ").concat(e.as_str()),
                ),
            )
        },
        Ok(bytes) => {
            if bytes.len() == 0 {
                Err(AppError::ImageProcessing(String::from_str("Encoded image is empty")))
            } else {
                Ok(bytes)
            }
        },
    }
}

/// Whether the machine can hold a picture of this size at sixteen bytes a
/// pixel.
pub fn can_hold(width: u32, height: u32) -> (fits: bool)
    ensures
        fits == holdable(width as nat, height as nat),
{
    let wide: u64 = width as u64;
    let tall: u64 = height as u64;
    assert(wide * tall <= 0xffff_ffff * 0xffff_ffff) by (nonlinear_arith)
        requires
            wide <= 0xffff_ffff,
            tall <= 0xffff_ffff,
    ;
    assert(16 * (width as nat) * (height as nat) == 16 * (wide * tall)) by (nonlinear_arith)
        requires
            wide == width,
            tall == height,
    ;
    wide * tall <= isize::MAX as u64 / 16
}

/// Whether the machine can hold what resizing a picture of the given width
/// to the given size needs.
pub fn can_resize(source_width: u32, width: u32, height: u32) -> (fits: bool)
    ensures
        fits == resizable(source_width as nat, width, height),
{
    can_hold(source_width, height) && can_hold(width, height)
}

/// Makes the thumbnail of a picture that has the requested size already:
/// strips it of alpha where the format asks for it, and encodes it.
pub fn encode_thumbnail(scaled: &image::DynamicImage, format: &ImageFormat) -> (thumbnail: Result<
    Vec<u8>,
    AppError,
>)
    ensures
        stored_view(thumbnail) == finished(raster(*scaled), *format),
{
    if !can_hold(picture_width(scaled), picture_height(scaled)) {
        return Err(
            AppError::ImageProcessing(
                String::from_str("Failed to resize image: size out of range"),
            ),
        );
    }
    let encoded = match format {
        ImageFormat::Jpeg => encode_picture(&drop_alpha(scaled), *format),
        _ => encode_picture(scaled, *format),
    };
    check_thumbnail(encoded, *format)
}

/// Makes the thumbnail of a capture as it was loaded: reports a failed
/// load; resizes a picture to exactly `width` by `height` pixels, whatever
/// its shape, and encodes it in `format`.
pub fn thumbnail_from(
    loaded: Result<image::DynamicImage, String>,
    width: u32,
    height: u32,
    format: &ImageFormat,
) -> (thumbnail: Result<Vec<u8>, AppError>)
    ensures
        thumbnail_allowed(picture_view(loaded), width, height, *format, stored_view(thumbnail)),
{
    let picture = match loaded {
        Ok(picture) => picture,
        Err(e) => {
            return Err(report_load_failure(e));
        },
    };
    if !can_resize(picture_width(&picture), width, height) {
        return Err(
            AppError::ImageProcessing(
                String::from_str("Failed to resize image: size out of range"),
            ),
        );
    }
    let scaled = resize_picture(&picture, width, height);
    let thumbnail = encode_thumbnail(&scaled, format);
    assert(raster(scaled) == sized(width, height, raster(scaled).samples));
    thumbnail
}

/// Makes the thumbnail of a capture: decodes it, resizes the picture to
/// exactly `width` by `height` pixels and encodes it in `format`.
pub fn process_image(data: &[u8], width: u32, height: u32, format: &ImageFormat) -> (thumbnail:
    Result<Vec<u8>, AppError>)
    ensures
        transcodes_to(data@, width, height, *format, stored_view(thumbnail)),
        data@.len() == 0 <==> stored_view(thumbnail) == failed(
            ErrorView::ImageProcessing("Empty image data"@),
        ),
        thumbnail matches Ok(bytes) ==> bytes@.len() > 0,
        thumbnail matches Err(e) ==> e@ is ImageProcessing,
{
    if data.len() == 0 {
        return Err(AppError::ImageProcessing(String::from_str("Empty image data")));
    }
    let loaded = load_picture(data);
    let ghost seen = picture_view(loaded);
    let thumbnail = thumbnail_from(loaded, width, height, format);
    proof {
        assert(thumbnail_allowed(seen, width, height, *format, stored_view(thumbnail)));
        lemma_transcoder_outcomes(data@, width, height, *format, stored_view(thumbnail));
    }
    thumbnail
}

/// Whatever the transcoder makes of a capture: it reports an empty capture
/// if and only if the capture is empty; a thumbnail has at least one byte;
/// and every failure is one of image processing.
pub proof fn lemma_transcoder_outcomes(
    data: Seq<u8>,
    width: u32,
    height: u32,
    format: ImageFormat,
    thumbnail: Transcoded,
)
    requires
        transcodes_to(data, width, height, format, thumbnail),
    ensures
        data.len() == 0 <==> thumbnail == failed(
            ErrorView::ImageProcessing("Empty image data"@),
        ),
        thumbnail matches Ok(bytes) ==> bytes.len() > 0,
        thumbnail matches Err(e) ==> e is ImageProcessing,
{
    reveal_strlit("Empty image data");
    reveal_strlit("Failed to load image: ");
    reveal_strlit("Failed to resize image: size out of range");
    reveal_strlit("Encoded image is empty");
    reveal_strlit("WebP");
    reveal_strlit("JPEG");
    reveal_strlit("PNG");
    if data.len() > 0 {
        let loaded = choose|loaded: Result<Raster, Seq<char>>|
            thumbnail_allowed(loaded, width, height, format, thumbnail);
        let empty = "Empty image data"@;
        assert(empty[0] == 'E' && empty[1] == 'm');
        match thumbnail {
            Err(ErrorView::ImageProcessing(text)) => {
                // Each of the other failures begins differently.
                assert(text.len() > 1 ==> text[0] != 'E' || text[1] != 'm') by {
                    match loaded {
                        Err(e) => {
                            assert(("Failed to load image: "@ + e)[0] == 'F');
                        },
                        Ok(source) => {
                            assert("Failed to resize image: size out of range"@[0] == 'F');
                            assert("Encoded image is empty"@[1] == 'n');
                            assert((format.label() + " encoding failed: "@)[0] != 'E');
                        },
                    }
                }
            },
            _ => {},
        }
    }
}

} // verus!
