//! Mapping a selection on the overlay onto image pixels, and encoding the
//! selected region for transmission.
//!
//! The overlay shows the image at its logical size, which on a HiDPI display
//! differs from the image's size in pixels; each axis has its own scale. The
//! selection and the overlay's size are given in the same measure, steps,
//! and only their ratio enters the mapping.

use vstd::prelude::*;
use vstd::string::*;
use crate::error::{AppError, AppErrorView};
use crate::geometry::{PixelRect, Rect, Size};

verus! {

/// A length of the overlay scaled to image pixels, rounded down. A length that
/// is not positive, or an overlay without extent, gives zero.
pub open spec fn scaled(length: int, image_extent: int, ui_extent: int) -> int {
    if length <= 0 || ui_extent <= 0 {
        0
    } else {
        (length * image_extent) / ui_extent
    }
}

/// Where a selection starts on one axis of the image: its lower coordinate,
/// scaled, and never below zero.
pub open spec fn mapped_origin(low: int, image_extent: int, ui_extent: int) -> int {
    scaled(low, image_extent, ui_extent)
}

/// How far a selection reaches on one axis of the image: its extent, scaled,
/// then shortened so that it ends within the image.
pub open spec fn mapped_extent(low: int, high: int, image_extent: int, ui_extent: int) -> int {
    let origin = mapped_origin(low, image_extent, ui_extent);
    let extent = scaled(high - low, image_extent, ui_extent);
    if origin >= image_extent {
        0
    } else if origin + extent > image_extent {
        image_extent - origin
    } else {
        extent
    }
}

/// The pixels that a selection covers, or `None` where it covers none.
pub open spec fn mapped_rect(selection: Rect, ui_size: Size, image_size: Size) -> Option<
    PixelRect,
> {
    let x = mapped_origin(selection.min.x as int, image_size.width as int, ui_size.width as int);
    let y = mapped_origin(
        selection.min.y as int,
        image_size.height as int,
        ui_size.height as int,
    );
    let width = mapped_extent(
        selection.min.x as int,
        selection.max.x as int,
        image_size.width as int,
        ui_size.width as int,
    );
    let height = mapped_extent(
        selection.min.y as int,
        selection.max.y as int,
        image_size.height as int,
        ui_size.height as int,
    );
    if width <= 0 || height <= 0 {
        None
    } else {
        Some(PixelRect { x: x as u32, y: y as u32, width: width as u32, height: height as u32 })
    }
}

/// Scales a length that is already known not to be negative.
fn scale_length(length: u32, image_extent: u32, ui_extent: u32) -> (r: u64)
    ensures
        r == scaled(length as int, image_extent as int, ui_extent as int),
{
    if length == 0 || ui_extent == 0 {
        0
    } else {
        assert(length * image_extent <= 0xffff_ffff * 0xffff_ffff) by (nonlinear_arith)
            requires
                0 <= length <= 0xffff_ffff,
                0 <= image_extent <= 0xffff_ffff,
        ;
        let product: u64 = (length as u64) * (image_extent as u64);
        product / (ui_extent as u64)
    }
}

/// One axis of the mapping: origin and extent in pixels.
fn map_axis(low: i32, high: i32, image_extent: u32, ui_extent: u32) -> (r: (u64, u64))
    ensures
        r.0 == mapped_origin(low as int, image_extent as int, ui_extent as int),
        r.1 == mapped_extent(low as int, high as int, image_extent as int, ui_extent as int),
        r.1 > 0 ==> r.0 + r.1 <= image_extent,
{
    let low_clamped: u32 = if low > 0 { low as u32 } else { 0 };
    let span: i64 = high as i64 - low as i64;
    let span_clamped: u32 = if span > 0 { span as u32 } else { 0 };
    let origin: u64 = scale_length(low_clamped, image_extent, ui_extent);
    let extent: u64 = scale_length(span_clamped, image_extent, ui_extent);
    let limit: u64 = image_extent as u64;
    if origin >= limit {
        (origin, 0)
    } else if extent > limit - origin {
        (origin, limit - origin)
    } else {
        (origin, extent)
    }
}

/// The image, as the `image` crate holds it.
#[verifier::external_type_specification]
#[verifier::external_body]
pub struct ExDynamicImage(image::DynamicImage);

/// Why the `image` crate could not encode or decode.
#[verifier::external_type_specification]
#[verifier::external_body]
pub struct ExImageError(image::ImageError);

/// The width of an image in pixels, as `DynamicImage::width` reports it.
pub uninterp spec fn image_width(img: &image::DynamicImage) -> u32;

/// The height of an image in pixels, as `DynamicImage::height` reports it.
pub uninterp spec fn image_height(img: &image::DynamicImage) -> u32;

/// The cut-out that `DynamicImage::crop_imm` makes of an image.
pub uninterp spec fn image_crop(
    img: &image::DynamicImage,
    x: u32,
    y: u32,
    width: u32,
    height: u32,
) -> image::DynamicImage;

/// Whether the container of an image holds the samples of its pixels and
/// nothing beyond them. An image that the `image` crate allocates itself is
/// packed; one built over a buffer that the caller brought need not be.
pub uninterp spec fn image_is_packed(img: &image::DynamicImage) -> bool;

/// The bytes of an image written as JPEG by `DynamicImage::write_to`, or
/// `None` where the encoder refuses the image.
pub uninterp spec fn jpeg_encoding(img: &image::DynamicImage) -> Option<Seq<u8>>;

/// The standard Base64 text, with padding, of a sequence of bytes.
pub uninterp spec fn base64_standard(bytes: Seq<u8>) -> Seq<char>;

/// The size of an image as a plain value.
pub open spec fn image_size(img: &image::DynamicImage) -> Size {
    Size { width: image_width(img), height: image_height(img) }
}

/// `DynamicImage::width`: the number of pixel columns.
#[verifier::external_body]
fn width_of(img: &image::DynamicImage) -> (w: u32)
    ensures
        w == image_width(img),
{
    img.width()
}

/// `DynamicImage::height`: the number of pixel rows.
#[verifier::external_body]
fn height_of(img: &image::DynamicImage) -> (h: u32)
    ensures
        h == image_height(img),
{
    img.height()
}

/// `DynamicImage::crop_imm`: a new image holding the pixels of the given
/// rectangle. For a rectangle that lies within the image the cut-out has the
/// rectangle's width and height. Its container is allocated for exactly that
/// size, so the cut-out is packed.
#[verifier::external_body]
fn crop_of(img: &image::DynamicImage, rect: PixelRect) -> (out: image::DynamicImage)
    requires
        rect.x + rect.width <= image_width(img),
        rect.y + rect.height <= image_height(img),
    ensures
        out == image_crop(img, rect.x, rect.y, rect.width, rect.height),
        image_width(&out) == rect.width,
        image_height(&out) == rect.height,
        image_is_packed(&out),
{
    img.crop_imm(rect.x, rect.y, rect.width, rect.height)
}

/// `DynamicImage::write_to` with `ImageFormat::Jpeg`, into a buffer in memory:
/// the encoded bytes, or the encoder's error. The encoder takes the whole
/// container of an 8-bit grey or RGB image and panics where that is longer
/// than the pixels need, so only a packed image is admitted.
#[verifier::external_body]
fn write_jpeg(img: &image::DynamicImage) -> (r: Result<Vec<u8>, image::ImageError>)
    requires
        image_is_packed(img),
    ensures
        r is Ok <==> jpeg_encoding(img) is Some,
        r matches Ok(bytes) ==> Some(bytes@) == jpeg_encoding(img),
{
    let mut buffer: Vec<u8> = Vec::new();
    let mut cursor = std::io::Cursor::new(&mut buffer);
    match img.write_to(&mut cursor, image::ImageFormat::Jpeg) {
        Ok(()) => Ok(buffer),
        Err(e) => Err(e),
    }
}

/// The `Display` text of an `ImageError`.
#[verifier::external_body]
fn image_error_text(e: &image::ImageError) -> (s: String) {
    format!("{}", e)
}

/// `Engine::encode` of `base64`'s `STANDARD` engine: the Base64 text of the
/// bytes.
#[verifier::external_body]
fn base64_encode(bytes: &Vec<u8>) -> (s: String)
    ensures
        s@ == base64_standard(bytes@),
{
    base64::Engine::encode(&base64::engine::general_purpose::STANDARD, bytes)
}

/// Whether `r` is what encoding gives for the outcome `jpeg` of writing the
/// image: the Base64 text of the bytes, or an image processing error.
pub open spec fn is_encoding_of(r: Result<String, AppError>, jpeg: Option<Seq<u8>>) -> bool {
    match jpeg {
        Some(bytes) => r matches Ok(s) && s@ == base64_standard(bytes),
        None => r matches Err(e) && exists|detail: Seq<char>|
            e@ == AppErrorView::ImageProcessing("Failed to encode image: "@ + detail),
    }
}

/// Utilities that prepare a captured image for the completion service.
pub struct ImageProcessor;

impl ImageProcessor {
    /// Maps a selection on the overlay to the pixels it covers.
    ///
    /// The top-left corner is scaled by `image / ui` on each axis and kept at
    /// or above zero; the extent is scaled likewise and cut where it would
    /// leave the image. A selection that covers no pixel is an
    /// [`AppError::EmptySelection`], and nothing else is an error.
    pub fn map_selection(selection: Rect, ui_size: Size, image_size: Size) -> (r: Result<
        PixelRect,
        AppError,
    >)
        ensures
            match mapped_rect(selection, ui_size, image_size) {
                Some(rect) => r == Ok::<PixelRect, AppError>(rect),
                None => r matches Err(e) && e@ == AppErrorView::EmptySelection,
            },
            r matches Ok(rect) ==> rect.width > 0 && rect.height > 0 && rect.x + rect.width
                <= image_size.width && rect.y + rect.height <= image_size.height,
    {
        let (x, width) = map_axis(
            selection.min.x,
            selection.max.x,
            image_size.width,
            ui_size.width,
        );
        let (y, height) = map_axis(
            selection.min.y,
            selection.max.y,
            image_size.height,
            ui_size.height,
        );
        if width == 0 || height == 0 {
            Err(AppError::EmptySelection)
        } else {
            Ok(PixelRect { x: x as u32, y: y as u32, width: width as u32, height: height as u32 })
        }
    }

    /// Turns the outcome of writing an image as JPEG into what is sent on:
    /// the Base64 text of the bytes, or an error that carries the encoder's
    /// description.
    pub fn encode_outcome(jpeg: Result<Vec<u8>, String>) -> (r: Result<String, AppError>)
        ensures
            match jpeg {
                Ok(bytes) => r matches Ok(s) && s@ == base64_standard(bytes@),
                Err(detail) => r matches Err(e) && e@ == AppErrorView::ImageProcessing(
                    "Failed to encode image: "@ + detail@,
                ),
            },
    {
        match jpeg {
            Ok(bytes) => Ok(base64_encode(&bytes)),
            Err(detail) => Err(
                AppError::ImageProcessing(
                    "Failed to encode image: ".to_owned().concat(detail.as_str()),
                ),
            ),
        }
    }

    /// Encodes a packed image as JPEG and the JPEG as Base64 text.
    fn encode_to_base64_jpeg(image: &image::DynamicImage) -> (r: Result<String, AppError>)
        requires
            image_is_packed(image),
        ensures
            is_encoding_of(r, jpeg_encoding(image)),
    {
        let written = match write_jpeg(image) {
            Ok(bytes) => Ok(bytes),
            Err(e) => Err(image_error_text(&e)),
        };
        Self::encode_outcome(written)
    }

    /// Cuts the selected region out of the image and encodes it as Base64
    /// JPEG, ready for transmission.
    ///
    /// Fails with [`AppError::EmptySelection`] exactly where the selection
    /// covers no pixel, before any encoding, and with
    /// [`AppError::ImageProcessing`] exactly where the encoder refuses the
    /// cut-out.
    pub fn process_selection(screenshot: &image::DynamicImage, selection: Rect, ui_size: Size) -> (r:
        Result<String, AppError>)
        ensures
            match mapped_rect(selection, ui_size, image_size(screenshot)) {
                None => r matches Err(e) && e@ == AppErrorView::EmptySelection,
                Some(rect) => is_encoding_of(
                    r,
                    jpeg_encoding(
                        &image_crop(screenshot, rect.x, rect.y, rect.width, rect.height),
                    ),
                ),
            },
    {
        let size = Size { width: width_of(screenshot), height: height_of(screenshot) };
        match Self::map_selection(selection, ui_size, size) {
            Err(e) => Err(e),
            Ok(rect) => {
                let cropped = crop_of(screenshot, rect);
                Self::encode_to_base64_jpeg(&cropped)
            },
        }
    }
}

/// Scaling never gives a negative length.
proof fn lemma_scaled_bounds(length: int, image_extent: int, ui_extent: int)
    requires
        image_extent >= 0,
    ensures
        scaled(length, image_extent, ui_extent) >= 0,
        length >= ui_extent > 0 ==> scaled(length, image_extent, ui_extent) >= image_extent,
{
    if length > 0 && ui_extent > 0 {
        assert(length * image_extent >= 0) by (nonlinear_arith)
            requires
                length > 0,
                image_extent >= 0,
        ;
        assert((length * image_extent) / ui_extent >= 0) by (nonlinear_arith)
            requires
                length * image_extent >= 0,
                ui_extent > 0,
        ;
        if length >= ui_extent {
            assert((length * image_extent) / ui_extent >= image_extent) by (nonlinear_arith)
                requires
                    length >= ui_extent,
                    ui_extent > 0,
                    image_extent >= 0,
            ;
        }
    }
}

/// A length scaled by a whole factor is the length times the factor.
proof fn lemma_scaled_by_factor(length: int, factor: int, ui_extent: int)
    requires
        length >= 0,
        factor >= 0,
        ui_extent > 0,
    ensures
        scaled(length, factor * ui_extent, ui_extent) == factor * length,
{
    if length > 0 {
        assert((length * (factor * ui_extent)) / ui_extent == factor * length)
            by (nonlinear_arith)
            requires
                ui_extent > 0,
        ;
    } else {
        assert(factor * length == 0) by (nonlinear_arith)
            requires
                length == 0,
        ;
    }
}

/// A mapped rectangle covers at least one pixel and lies within the image,
/// however far the selection reaches beyond the overlay.
pub proof fn lemma_mapped_rect_within_image(selection: Rect, ui_size: Size, image_size: Size)
    ensures
        mapped_rect(selection, ui_size, image_size) matches Some(rect) ==> rect.width > 0
            && rect.height > 0 && rect.x + rect.width <= image_size.width && rect.y + rect.height
            <= image_size.height,
{
    lemma_scaled_bounds(selection.min.x as int, image_size.width as int, ui_size.width as int);
    lemma_scaled_bounds(selection.min.y as int, image_size.height as int, ui_size.height as int);
    lemma_scaled_bounds(
        selection.max.x - selection.min.x,
        image_size.width as int,
        ui_size.width as int,
    );
    lemma_scaled_bounds(
        selection.max.y - selection.min.y,
        image_size.height as int,
        ui_size.height as int,
    );
}

/// A selection without area covers no pixel, and neither does one whose
/// top-left corner lies at or beyond the right or the bottom edge of the
/// overlay, nor any selection where the overlay or the image has no extent.
pub proof fn lemma_degenerate_selection_is_empty(selection: Rect, ui_size: Size, image_size: Size)
    requires
        selection.max.x <= selection.min.x || selection.max.y <= selection.min.y
            || selection.min.x >= ui_size.width || selection.min.y >= ui_size.height
            || ui_size.width == 0 || ui_size.height == 0 || image_size.width == 0
            || image_size.height == 0,
    ensures
        mapped_rect(selection, ui_size, image_size) is None,
{
    lemma_scaled_bounds(selection.min.x as int, image_size.width as int, ui_size.width as int);
    lemma_scaled_bounds(selection.min.y as int, image_size.height as int, ui_size.height as int);
    lemma_scaled_bounds(
        selection.max.x - selection.min.x,
        image_size.width as int,
        ui_size.width as int,
    );
    lemma_scaled_bounds(
        selection.max.y - selection.min.y,
        image_size.height as int,
        ui_size.height as int,
    );
}

/// Where the image is a whole number of times as large as the overlay on
/// both axes, a selection inside the overlay maps to itself times that
/// factor: corner and extent alike.
pub proof fn lemma_whole_factor_mapping(
    selection: Rect,
    ui_size: Size,
    image_size: Size,
    factor: nat,
)
    requires
        factor >= 1,
        image_size.width == factor * ui_size.width,
        image_size.height == factor * ui_size.height,
        0 <= selection.min.x < selection.max.x <= ui_size.width,
        0 <= selection.min.y < selection.max.y <= ui_size.height,
    ensures
        mapped_rect(selection, ui_size, image_size) matches Some(rect) && rect.x == factor
            * selection.min.x && rect.y == factor * selection.min.y && rect.width == factor * (
        selection.max.x - selection.min.x) && rect.height == factor * (selection.max.y
            - selection.min.y),
{
    let f = factor as int;
    lemma_scaled_by_factor(selection.min.x as int, f, ui_size.width as int);
    lemma_scaled_by_factor(selection.min.y as int, f, ui_size.height as int);
    lemma_scaled_by_factor(selection.max.x - selection.min.x, f, ui_size.width as int);
    lemma_scaled_by_factor(selection.max.y - selection.min.y, f, ui_size.height as int);
    assert(f * selection.min.x + f * (selection.max.x - selection.min.x) <= f * ui_size.width
        && f * (selection.max.x - selection.min.x) > 0 && f * selection.min.x >= 0)
        by (nonlinear_arith)
        requires
            f >= 1,
            0 <= selection.min.x < selection.max.x <= ui_size.width,
    ;
    assert(f * selection.min.y + f * (selection.max.y - selection.min.y) <= f * ui_size.height
        && f * (selection.max.y - selection.min.y) > 0 && f * selection.min.y >= 0)
        by (nonlinear_arith)
        requires
            f >= 1,
            0 <= selection.min.y < selection.max.y <= ui_size.height,
    ;
}

} // verus!
