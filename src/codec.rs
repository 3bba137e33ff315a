//! The image codec: the calls into the `image` crate that decode, resize and
//! encode pixel data. Pixel data stays opaque to the rest of the library.
use vstd::prelude::*;
use image::{DynamicImage, ImageError, ImageFormat};
use image::imageops::FilterType;
use crate::format::{ResampleFilter, Resize};
use crate::text::ascii_lower;

verus! {

#[verifier::external_type_specification]
#[verifier::external_body]
pub struct ExImageFormat(ImageFormat);

#[verifier::external_type_specification]
#[verifier::external_body]
pub struct ExDynamicImage(DynamicImage);

#[verifier::external_type_specification]
#[verifier::external_body]
pub struct ExImageError(ImageError);

/// Whether `l`, in lower case, is a file extension that the codec maps to an
/// image format.
pub open spec fn is_codec_extension(l: Seq<char>) -> bool {
    ||| l == seq!['a', 'v', 'i', 'f']
    ||| l == seq!['j', 'p', 'g']
    ||| l == seq!['j', 'p', 'e', 'g']
    ||| l == seq!['j', 'f', 'i', 'f']
    ||| l == seq!['p', 'n', 'g']
    ||| l == seq!['a', 'p', 'n', 'g']
    ||| l == seq!['g', 'i', 'f']
    ||| l == seq!['w', 'e', 'b', 'p']
    ||| l == seq!['t', 'i', 'f']
    ||| l == seq!['t', 'i', 'f', 'f']
    ||| l == seq!['t', 'g', 'a']
    ||| l == seq!['d', 'd', 's']
    ||| l == seq!['b', 'm', 'p']
    ||| l == seq!['i', 'c', 'o']
    ||| l == seq!['h', 'd', 'r']
    ||| l == seq!['e', 'x', 'r']
    ||| l == seq!['p', 'b', 'm']
    ||| l == seq!['p', 'a', 'm']
    ||| l == seq!['p', 'p', 'm']
    ||| l == seq!['p', 'g', 'm']
    ||| l == seq!['p', 'n', 'm']
    ||| l == seq!['f', 'f']
    ||| l == seq!['q', 'o', 'i']
}

/// Whether `data` decodes as an image of the format that the lower-case
/// extension `ext` names.
pub uninterp spec fn decodes(data: Seq<u8>, ext: Seq<char>) -> bool;

/// The bytes of the image that `data` decodes to (in the format that `ext`
/// names), after the resize `fit` if any, encoded in the format that the
/// lower-case extension `target` names; `None` where the encoder refuses it.
pub uninterp spec fn encoded(data: Seq<u8>, ext: Seq<char>, fit: Option<Resize>, target: Seq<char>) -> Option<Seq<u8>>;

/// A codec format, with the lower-case extension that selected it.
pub(crate) struct Format {
    pub(crate) format: ImageFormat,
    pub(crate) ext: Ghost<Seq<char>>,
}

/// Decoded pixel data, with what it was made from: the bytes, the lower-case
/// extension of their format and the resize applied since.
pub(crate) struct Image {
    pub(crate) image: DynamicImage,
    pub(crate) data: Ghost<Seq<u8>>,
    pub(crate) ext: Ghost<Seq<char>>,
    pub(crate) fit: Ghost<Option<Resize>>,
}

/// Relies on `image::ImageFormat::from_extension`: it lower-cases the extension
/// (ASCII only) and looks it up in a fixed table of known extensions.
#[verifier::external_body]
pub(crate) fn format_from_extension(ext: &str) -> (r: Option<Format>)
    ensures
        r is Some <==> is_codec_extension(ascii_lower(ext@)),
        r matches Some(f) ==> f.ext@ == ascii_lower(ext@),
{
    match ImageFormat::from_extension(ext) {
        Some(format) => Some(Format { format, ext: Ghost(ascii_lower(ext@)) }),
        None => None,
    }
}

/// Relies on `image::load_from_memory_with_format`: decodes bytes as an image
/// of the given format, with the default limits, or reports why it could not.
#[verifier::external_body]
pub(crate) fn decode(data: &[u8], format: &Format) -> (r: Result<Image, ImageError>)
    ensures
        r is Ok <==> decodes(data@, format.ext@),
        r matches Ok(img) ==> img.data@ == data@ && img.ext@ == format.ext@ && img.fit@ is None,
{
    match image::load_from_memory_with_format(data, format.format) {
        Ok(image) => Ok(Image { image, data: Ghost(data@), ext: Ghost(format.ext@), fit: Ghost(None) }),
        Err(e) => Err(e),
    }
}

/// Relies on `image::DynamicImage::resize_exact`: resamples the image to
/// exactly the given size with the given filter.
#[verifier::external_body]
pub(crate) fn resize_exact(img: &Image, fit: Resize) -> (r: Image)
    requires
        img.fit@ is None,
    ensures
        r.data@ == img.data@ && r.ext@ == img.ext@ && r.fit@ == Some(fit),
{
    let filter = match fit.filter {
        ResampleFilter::Nearest => FilterType::Nearest,
        ResampleFilter::Triangle => FilterType::Triangle,
        ResampleFilter::CatmullRom => FilterType::CatmullRom,
        ResampleFilter::Gaussian => FilterType::Gaussian,
        ResampleFilter::Lanczos3 => FilterType::Lanczos3,
    };
    let image = img.image.resize_exact(fit.width, fit.height, filter);
    Image { image, data: Ghost(img.data@), ext: Ghost(img.ext@), fit: Ghost(Some(fit)) }
}

/// Relies on `image::DynamicImage::write_to`: encodes the image in the given
/// format into a fresh byte buffer, or reports why it could not.
#[verifier::external_body]
pub(crate) fn encode(img: &Image, target: &Format) -> (r: Result<Vec<u8>, ImageError>)
    ensures
        r is Ok <==> encoded(img.data@, img.ext@, img.fit@, target.ext@) is Some,
        r matches Ok(b) ==> encoded(img.data@, img.ext@, img.fit@, target.ext@) == Some(b@),
{
    let mut out: Vec<u8> = Vec::new();
    match img.image.write_to(std::io::Cursor::new(&mut out), target.format) {
        Ok(()) => Ok(out),
        Err(e) => Err(e),
    }
}

/// Relies on the `Display` impl of `image::ImageError`: a readable reason.
#[verifier::external_body]
pub(crate) fn error_message(e: &ImageError) -> (r: String) {
    e.to_string()
}

} // verus!
