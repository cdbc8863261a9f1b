//! Preparing an image for clustering: whether it is shrunk first, the pixel
//! buffer handed to the palette extractor, and the messages of failed steps.
use vstd::prelude::*;

use crate::choices::{edge_limit, Downsample};
use crate::text::{decimal, push_decimal};

verus! {

#[verifier::external_type_specification]
#[verifier::external_body]
pub struct ExImageData<'a>(auto_palette::ImageData<'a>);

#[verifier::external_type_specification]
#[verifier::external_body]
pub struct ExImageError(auto_palette::ImageError);

/// The width, height and RGBA bytes that an `auto_palette::ImageData` holds.
pub uninterp spec fn image_data_parts(d: &auto_palette::ImageData) -> (u32, u32, Seq<u8>);

/// `auto_palette::ImageData::new`: wraps an RGBA pixel buffer of the given size.
///
/// Trusted: its source checks that the buffer holds `width * height * 4`
/// bytes, returns `Ok` when it does and the error `UnexpectedLength` (holding
/// that expected length and the actual one) when it does not. The product is
/// computed in `u32` first, so sizes whose pixel count exceeds `u32::MAX` are
/// left out. On success the value holds exactly the given width, height and
/// bytes (its source stores the three as they are), named by
/// `image_data_parts`. The error's fields are not read.
#[verifier::external_body]
fn image_data_new<'a>(width: u32, height: u32, data: &'a [u8]) -> (r: Result<auto_palette::ImageData<'a>, auto_palette::ImageError>)
    requires
        width as int * height as int <= u32::MAX,
        width as int * height as int * 4 <= usize::MAX,
    ensures
        r is Ok <==> data@.len() == width as int * height as int * 4,
        r matches Ok(d) ==> image_data_parts(&d) == (width, height, data@),
{
    auto_palette::ImageData::new(width, height, data)
}

#[verifier::external_type_specification]
#[verifier::external_body]
pub struct ExDynamicImage(image::DynamicImage);

/// `image::load_from_memory`: decodes an encoded image, guessing its format
/// from the bytes; a failure is handed on as the error's description.
///
/// Trusted, and nothing is stated of the outcome: besides the bytes it
/// depends on the format-detection and decoding hooks that any code in the
/// process may register with the image crate. The image crate documents
/// failures as returned errors; that its decoders never panic on malformed
/// bytes, and that its hook registries are never poisoned, is not documented,
/// and this wrapper's callers rest on it.
#[verifier::external_body]
fn load_from_memory(bytes: &[u8]) -> (r: Result<image::DynamicImage, String>) {
    image::load_from_memory(bytes).map_err(|e| e.to_string())
}

/// What a decoding attempt of dropped bytes gives the workflow: a decoded
/// image as it is, and a decoder failure, given by its description, as
/// `DecodeFailed` holding that description.
pub fn decode_outcome(outcome: Result<image::DynamicImage, String>) -> (r: Result<image::DynamicImage, ExtractError>)
    ensures
        r is Ok <==> outcome is Ok,
        r matches Ok(img) ==> (outcome matches Ok(o) && img == o),
        r matches Err(e) ==> (outcome matches Err(t) && e matches ExtractError::DecodeFailed(d) && d@ == t@),
{
    match outcome {
        Ok(img) => Ok(img),
        Err(text) => Err(ExtractError::DecodeFailed(text)),
    }
}

/// Decodes image bytes dropped onto the window. Whether they decode is the
/// decoder's answer; a failure is always `DecodeFailed`, holding the
/// decoder's description of it (see `decode_outcome`).
pub fn decode_image(bytes: &[u8]) -> (r: Result<image::DynamicImage, ExtractError>)
    ensures
        r matches Err(e) ==> e is DecodeFailed,
{
    decode_outcome(load_from_memory(bytes))
}

/// The longest edge of the preview shown beside the swatches.
pub const PREVIEW_MAX_EDGE: u32 = 1200;

/// The bound an image of the given size is shrunk to: `limit` when its
/// longest edge exceeds it, and `None` (keep the image) otherwise.
pub open spec fn shrink_bound(limit: Option<u32>, width: u32, height: u32) -> Option<u32> {
    match limit {
        Some(l) => if width > l || height > l { Some(l) } else { None },
        None => None,
    }
}

/// Whether an image is shrunk before clustering, and to which longest edge.
pub fn downscale_bound(downsample: Downsample, width: u32, height: u32) -> (b: Option<u32>)
    ensures
        b == shrink_bound(edge_limit(downsample), width, height),
        b matches Some(n) ==> (edge_limit(downsample) == Some(n) && (width > n || height > n)),
        b matches Some(n) ==> ((downsample == Downsample::Px1024 && n == 1024)
            || (downsample == Downsample::Px1600 && n == 1600)
            || (downsample == Downsample::Px2048 && n == 2048)),
        b is None ==> downsample == Downsample::Off || width <= edge_limit(downsample).unwrap()
            && height <= edge_limit(downsample).unwrap(),
{
    match downsample.max_edge() {
        Some(limit) => {
            let longest = if width >= height { width } else { height };
            if longest > limit {
                Some(limit)
            } else {
                None
            }
        },
        None => None,
    }
}

/// Whether the preview of an image is shrunk, and to which longest edge.
pub fn preview_bound(width: u32, height: u32) -> (b: Option<u32>)
    ensures
        b == shrink_bound(Some(PREVIEW_MAX_EDGE), width, height),
        b matches Some(n) ==> (n == 1200 && (width > 1200 || height > 1200)),
        b is None ==> width <= 1200 && height <= 1200,
{
    let longest = if width >= height { width } else { height };
    if longest > PREVIEW_MAX_EDGE {
        Some(PREVIEW_MAX_EDGE)
    } else {
        None
    }
}

/// An image is shrunk only when its longest edge exceeds the limit, and then
/// to exactly that limit, which is below its longest edge: shrinking never
/// enlarges an image, and an image that fits is kept as it is.
pub proof fn lemma_shrink_bound(limit: Option<u32>, width: u32, height: u32)
    ensures
        shrink_bound(limit, width, height) matches Some(n) ==> (limit == Some(n) && (width > n
            || height > n)),
        shrink_bound(limit, width, height) is None ==> (limit is None || (width <= limit.unwrap()
            && height <= limit.unwrap())),
        limit is None ==> shrink_bound(limit, width, height) is None,
{
}

/// Why an extraction failed. The `String` fields hold the rendering of the
/// underlying error of the image decoder or the palette extractor.
#[derive(Debug)]
pub enum ExtractError {
    /// The image file could not be opened or decoded.
    OpenFailed(String),
    /// Dropped image bytes could not be decoded.
    DecodeFailed(String),
    /// The pixel buffer does not have the length its size calls for.
    PixelBuffer { expected: usize, actual: usize },
    /// Clustering the pixels failed.
    BuildFailed(String),
    /// Selecting swatches by prominence failed.
    FindFailed(String),
    /// Selecting swatches by theme failed.
    FindWithThemeFailed(String),
}

/// The message shown for a failed extraction.
pub open spec fn error_message(e: ExtractError) -> Seq<char> {
    match e {
        ExtractError::OpenFailed(d) => "Failed to open image: "@ + d@,
        ExtractError::DecodeFailed(d) => "Decode failed: "@ + d@,
        ExtractError::PixelBuffer { expected, actual } => "auto-palette ImageData failed: UnexpectedLength { expected: "@
            + decimal(expected as nat) + ", actual: "@ + decimal(actual as nat) + " }"@,
        ExtractError::BuildFailed(d) => "Palette build failed: "@ + d@,
        ExtractError::FindFailed(d) => "find_swatches failed: "@ + d@,
        ExtractError::FindWithThemeFailed(d) => "find_swatches_with_theme failed: "@ + d@,
    }
}

impl ExtractError {
    /// The message shown for this failure.
    pub fn message(&self) -> (m: String)
        ensures
            m@ == error_message(*self),
    {
        match self {
            ExtractError::OpenFailed(d) => String::from_str("Failed to open image: ").concat(
                d.as_str(),
            ),
            ExtractError::DecodeFailed(d) => String::from_str("Decode failed: ").concat(d.as_str()),
            ExtractError::PixelBuffer { expected, actual } => {
                let mut m = String::from_str(
                    "auto-palette ImageData failed: UnexpectedLength { expected: ",
                );
                push_decimal(&mut m, *expected);
                m.append(", actual: ");
                push_decimal(&mut m, *actual);
                m.append(" }");
                m
            },
            ExtractError::BuildFailed(d) => String::from_str("Palette build failed: ").concat(
                d.as_str(),
            ),
            ExtractError::FindFailed(d) => String::from_str("find_swatches failed: ").concat(
                d.as_str(),
            ),
            ExtractError::FindWithThemeFailed(d) => String::from_str(
                "find_swatches_with_theme failed: ",
            ).concat(d.as_str()),
        }
    }
}

/// The pixel buffer handed to the palette extractor: `width` by `height`
/// RGBA pixels. It is refused, with the expected and the actual length,
/// unless it holds exactly four bytes per pixel.
pub fn pixel_buffer<'a>(width: u32, height: u32, pixels: &'a [u8]) -> (r: Result<auto_palette::ImageData<'a>, ExtractError>)
    requires
        width as int * height as int <= u32::MAX,
        width as int * height as int * 4 <= usize::MAX,
    ensures
        r is Ok <==> pixels@.len() == width as int * height as int * 4,
        r matches Ok(d) ==> image_data_parts(&d) == (width, height, pixels@),
        r matches Err(e) ==> (e == ExtractError::PixelBuffer {
            expected: (width as int * height as int * 4) as usize,
            actual: pixels@.len() as usize,
        }),
{
    match image_data_new(width, height, pixels) {
        Ok(data) => Ok(data),
        Err(_) => {
            let area: u32 = width * height;
            let expected: usize = (area as usize) * 4;
            Err(ExtractError::PixelBuffer { expected, actual: pixels.len() })
        },
    }
}

} // verus!
