//! The codec boundary: container-format sniffing and decoding of untrusted
//! bytes, and canonical PNG re-encoding.  Both directions call the `image`
//! crate through trusted wrappers; everything around the calls is verified.
//!
//! Supported input formats are the ones `image::load_from_memory` sniffs
//! from the payload's magic bytes: PNG, JPEG, GIF, BMP, WebP, TIFF, ICO,
//! PNM, DDS, HDR, farbfeld, OpenEXR and QOI.  The output container is
//! always PNG.
use vstd::prelude::*;

use image::DynamicImage::{ImageLuma8, ImageLumaA8, ImageRgb8, ImageRgba8};

use crate::pipeline::ProcessingError;
use crate::pixel::{ChannelLayout, GrayscaleBuffer, PixelBuffer};

verus! {

/// What decoding a byte payload yields: `None` when the bytes are not a
/// parseable image in any supported format, otherwise the decoded width,
/// height, channel count and sample bytes.  Decoding depends on the payload
/// alone, so its outcome is a fixed function of the bytes.
pub uninterp spec fn image_decoding(bytes: Seq<u8>) -> Option<(int, int, int, Seq<u8>)>;

/// What serializing a single-channel raster as a PNG yields: `None` when the
/// serializer refuses the raster, otherwise the encoded bytes.  The encoder
/// runs with fixed parameters, so its outcome is a fixed function of the
/// dimensions and samples.
pub uninterp spec fn png_encoding(width: int, height: int, samples: Seq<u8>) -> Option<Seq<u8>>;

/// A payload the decoder rejects: either no supported format parses it, or
/// the parsed raster has a zero dimension.
pub open spec fn decode_rejected(bytes: Seq<u8>) -> bool {
    match image_decoding(bytes) {
        None => true,
        Some(m) => m.0 <= 0 || m.1 <= 0,
    }
}

/// Relies on `image::load_from_memory`: the container format is sniffed from
/// the payload's leading magic bytes (never from an outside hint) and the
/// payload is parsed accordingly, so the outcome is a function of the bytes
/// alone, and an empty payload matches no signature.  A decoded eight-bit
/// image keeps its channel layout and holds exactly
/// `width * height * channels` sample bytes; images with deeper samples are
/// reduced to eight-bit RGBA by `DynamicImage::to_rgba8` first.  On failure
/// the parser's diagnostic is returned as text.
#[verifier::external_body]
fn decode_image_bytes(raw: &Vec<u8>) -> (r: Result<(u32, u32, ChannelLayout, Vec<u8>), String>)
    ensures
        match r {
            Ok(d) => {
                &&& image_decoding(raw@) == Some(
                    (d.0 as int, d.1 as int, d.2.spec_channels() as int, d.3@),
                )
                &&& d.3@.len() == d.0 as int * d.1 as int * d.2.spec_channels() as int
            },
            Err(_) => image_decoding(raw@) is None,
        },
        raw@.len() == 0 ==> r is Err,
{
    let img = match image::load_from_memory(raw.as_slice()) {
        Ok(img) => img,
        Err(e) => {
            return Err(format!("{}", e));
        },
    };
    let (w, h) = (img.width(), img.height());
    match img {
        ImageLuma8(b) => Ok((w, h, ChannelLayout::Gray, b.into_raw())),
        ImageLumaA8(b) => Ok((w, h, ChannelLayout::GrayAlpha, b.into_raw())),
        ImageRgb8(b) => Ok((w, h, ChannelLayout::Rgb, b.into_raw())),
        ImageRgba8(b) => Ok((w, h, ChannelLayout::Rgba, b.into_raw())),
        other => Ok((w, h, ChannelLayout::Rgba, other.to_rgba8().into_raw())),
    }
}

/// Relies on `image::write_buffer_with_format` with `ImageOutputFormat::Png`
/// and `ColorType::L8`: lossless PNG serialization of an eight-bit
/// single-channel raster into an in-memory writer, with fixed encoder
/// parameters, so the outcome is a function of the dimensions and samples
/// alone.  The encoder panics unless the buffer holds exactly
/// `width * height` samples, which the precondition rules out.  On failure
/// the serializer's diagnostic is returned as text.
#[verifier::external_body]
fn encode_gray_png(width: u32, height: u32, samples: &Vec<u8>) -> (r: Result<Vec<u8>, String>)
    requires
        samples@.len() == width as int * height as int,
    ensures
        match r {
            Ok(png) => png_encoding(width as int, height as int, samples@) == Some(png@),
            Err(_) => png_encoding(width as int, height as int, samples@) is None,
        },
{
    let mut out: Vec<u8> = Vec::new();
    let mut cursor = std::io::Cursor::new(&mut out);
    let res = image::write_buffer_with_format(
        &mut cursor,
        samples.as_slice(),
        width,
        height,
        image::ColorType::L8,
        image::ImageOutputFormat::Png,
    );
    match res {
        Ok(()) => Ok(out),
        Err(e) => Err(format!("{}", e)),
    }
}

/// Decode an untrusted byte payload into a pixel buffer.
///
/// The container format is determined from the byte content alone.  The call
/// succeeds exactly when some supported format parses the payload into a
/// raster with positive dimensions; every rejected payload yields a
/// `DecodeFailure` carrying the parser's diagnostic.
pub fn decode(raw: &Vec<u8>) -> (r: Result<PixelBuffer, ProcessingError>)
    ensures
        match r {
            Ok(pb) => {
                &&& pb.wf()
                &&& image_decoding(raw@) == Some(pb.model())
            },
            Err(e) => {
                &&& e is DecodeFailure
                &&& decode_rejected(raw@)
            },
        },
        raw@.len() == 0 ==> r is Err,
{
    match decode_image_bytes(raw) {
        Err(msg) => Err(ProcessingError::DecodeFailure(msg)),
        Ok((w, h, layout, data)) => {
            if w == 0 || h == 0 {
                Err(
                    ProcessingError::DecodeFailure(
                        "decoded image has a zero dimension".to_string(),
                    ),
                )
            } else {
                Ok(PixelBuffer { width: w, height: h, layout, data })
            }
        },
    }
}

/// Serialize a luminance raster as a PNG, losslessly and with fixed encoder
/// parameters.  Failure of the in-memory serializer is a defensive branch;
/// it surfaces as an `EncodeFailure` carrying the serializer's diagnostic.
pub fn encode(gray: &GrayscaleBuffer) -> (r: Result<Vec<u8>, ProcessingError>)
    requires
        gray.wf(),
    ensures
        match r {
            Ok(png) => png_encoding(gray.width as int, gray.height as int, gray.data@) == Some(
                png@,
            ),
            Err(e) => {
                &&& e is EncodeFailure
                &&& png_encoding(gray.width as int, gray.height as int, gray.data@) is None
            },
        },
{
    match encode_gray_png(gray.width, gray.height, &gray.data) {
        Ok(png) => Ok(png),
        Err(msg) => Err(ProcessingError::EncodeFailure(msg)),
    }
}

} // verus!
