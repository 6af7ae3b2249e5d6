//! Pipeline orchestration: decode, transform and encode run strictly in
//! order, short-circuiting on the first error, and the error taxonomy they
//! surface.  No partial output is ever returned, and the whole run is a
//! function of the input bytes.
use vstd::prelude::*;

use crate::codec;
use crate::pixel::GrayscaleBuffer;
use crate::pixel::PixelBuffer;
use crate::transform;

verus! {

/// The pipeline's error taxonomy.  Both kinds carry the human-readable
/// diagnostic of the stage that failed and propagate unchanged to the
/// boundary; no stage attempts recovery or a fallback format.
#[derive(Debug)]
pub enum ProcessingError {
    /// The payload is not a parseable image in any supported format: no
    /// signature matched, the stream is truncated or corrupt, or the parsed
    /// raster has a zero dimension.  Never valid on retry.
    DecodeFailure(String),
    /// The serializer refused the grayscale raster after a successful decode
    /// and transform: an unexpected internal fault, not an input fault.
    EncodeFailure(String),
}

impl ProcessingError {
    /// The diagnostic text of either kind.
    pub open spec fn spec_reason(self) -> Seq<char> {
        match self {
            ProcessingError::DecodeFailure(s) => s@,
            ProcessingError::EncodeFailure(s) => s@,
        }
    }

    /// The diagnostic text to surface at the boundary.
    pub fn reason(&self) -> (s: &String)
        ensures
            s@ == self.spec_reason(),
    {
        match self {
            ProcessingError::DecodeFailure(s) => s,
            ProcessingError::EncodeFailure(s) => s,
        }
    }

    /// Whether this error came from the decode stage.
    pub fn is_decode_failure(&self) -> (b: bool)
        ensures
            b == (self is DecodeFailure),
    {
        match self {
            ProcessingError::DecodeFailure(_) => true,
            ProcessingError::EncodeFailure(_) => false,
        }
    }
}

/// A successful pipeline result: the canonical encoding of the grayscale
/// raster.  The associated content-type tag is fixed and independent of the
/// input format.
#[derive(Debug)]
pub struct EncodedImage {
    /// The PNG-encoded bytes.
    pub bytes: Vec<u8>,
}

impl EncodedImage {
    /// The fixed content-type tag of the canonical output encoding.
    pub fn content_type(&self) -> (s: &'static str)
        ensures
            s@ == "image/png"@,
    {
        "image/png"
    }
}

/// The luminance plane of a decoded raster model: one BT.601 luminance
/// sample per pixel, in row-major order.
pub open spec fn model_luma_plane(m: (int, int, int, Seq<u8>)) -> Seq<u8> {
    transform::luma_plane((m.0 * m.1) as nat, m.2, m.3)
}

/// Everything the pipeline promises of a run on `bytes`:
/// - success yields exactly the canonical encoding, at the decoded width and
///   height, of the decoded raster's luminance plane;
/// - `DecodeFailure` comes exactly when the decoder rejects the payload;
/// - `EncodeFailure` comes exactly when the payload decodes but the
///   serializer refuses the grayscale raster.
pub open spec fn pipeline_post(bytes: Seq<u8>, r: Result<EncodedImage, ProcessingError>) -> bool {
    match r {
        Ok(out) => {
            &&& !codec::decode_rejected(bytes)
            &&& codec::image_decoding(bytes) matches Some(m) && codec::png_encoding(
                m.0,
                m.1,
                model_luma_plane(m),
            ) == Some(out.bytes@)
        },
        Err(e) => match e {
            ProcessingError::DecodeFailure(_) => codec::decode_rejected(bytes),
            ProcessingError::EncodeFailure(_) => {
                &&& !codec::decode_rejected(bytes)
                &&& codec::image_decoding(bytes) matches Some(m) && codec::png_encoding(
                    m.0,
                    m.1,
                    model_luma_plane(m),
                ) is None
            },
        },
    }
}

/// Run the whole pipeline on one payload: sniff and decode the bytes,
/// collapse the raster to its luminance plane, and re-encode it as a PNG.
/// Pure and stateless; the outcome is a function of the payload, and an
/// empty payload is always rejected by the decoder.
pub fn process(raw: &Vec<u8>) -> (r: Result<EncodedImage, ProcessingError>)
    ensures
        pipeline_post(raw@, r),
        raw@.len() == 0 ==> r matches Err(ProcessingError::DecodeFailure(_)),
{
    let buf: PixelBuffer = match codec::decode(raw) {
        Ok(buf) => buf,
        Err(e) => {
            return Err(e);
        },
    };
    let gray: GrayscaleBuffer = transform::to_grayscale(&buf);
    match codec::encode(&gray) {
        Ok(bytes) => Ok(EncodedImage { bytes }),
        Err(e) => Err(e),
    }
}

/// Round-trip determinism: the pipeline is a function of its input bytes.
/// Two runs on the same payload land in the same arm of the error taxonomy,
/// and when both succeed they carry byte-identical encodings.
pub proof fn lemma_pipeline_deterministic(
    bytes: Seq<u8>,
    r1: Result<EncodedImage, ProcessingError>,
    r2: Result<EncodedImage, ProcessingError>,
)
    requires
        pipeline_post(bytes, r1),
        pipeline_post(bytes, r2),
    ensures
        r1 is Ok <==> r2 is Ok,
        r1 is Ok ==> r1->Ok_0.bytes@ == r2->Ok_0.bytes@,
        (r1 matches Err(e1) && e1 is DecodeFailure) <==> (r2 matches Err(e2)
            && e2 is DecodeFailure),
{
}

/// Dimension preservation: a successful run returns the canonical encoding
/// at exactly the width and height the payload decoded to.
pub proof fn lemma_dimensions_preserved(bytes: Seq<u8>, r: Result<EncodedImage, ProcessingError>)
    requires
        pipeline_post(bytes, r),
        r is Ok,
    ensures
        codec::image_decoding(bytes) matches Some(m) && codec::png_encoding(
            m.0,
            m.1,
            model_luma_plane(m),
        ) == Some(r->Ok_0.bytes@),
{
}

} // verus!
