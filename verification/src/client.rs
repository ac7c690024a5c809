//! The request side: an encoded image, the outbound payload shape, and the
//! credential holder.
//!
//! The transport itself (the HTTP POST and the credential lookup) is an
//! external collaborator; this module builds everything such a collaborator
//! sends: the base64 image content and the JSON request body.

use vstd::prelude::*;
use base64::Engine;
use image::ImageEncoder;
use crate::error::VisionError;
use crate::json::Json;

verus! {

#[verifier::external_type_specification]
#[verifier::external_body]
pub struct ExDynamicImage(image::DynamicImage);

#[verifier::external_type_specification]
#[verifier::external_body]
pub struct ExImageError(image::ImageError);

/// The standard-alphabet, padded base64 rendering of a byte sequence: a
/// function of the bytes alone.
pub uninterp spec fn base64_of(bytes: Seq<u8>) -> Seq<char>;

/// Relies on base64's `Engine::encode` with the padded standard-alphabet
/// engine: the output is a function of the input bytes alone, four output
/// characters for every started group of three input bytes.
#[verifier::external_body]
fn base64_string(bytes: &Vec<u8>) -> (r: String)
    ensures
        r@ == base64_of(bytes@),
        r@.len() == 4 * ((bytes@.len() + 2) / 3),
{
    base64::engine::general_purpose::STANDARD.encode(bytes)
}

/// The PNG stream the codec produces for an image: `Some` bytes when it
/// accepts the image's pixels, dimensions and color type, `None` when it
/// refuses them. A function of the image alone.
pub uninterp spec fn png_of(img: image::DynamicImage) -> Option<Seq<u8>>;

/// Relies on the png codec's `ImageEncoder::write_image`: it writes a
/// lossless PNG stream for the image's pixels, dimensions and color type,
/// or refuses them with an encoding error; either way the outcome is a
/// function of the image alone. The codec panics on a raw container larger
/// than the dimensions call for — such an image is refused here with the
/// codec's own parameter error before the call.
#[verifier::external_body]
fn encode_png(img: &image::DynamicImage) -> (r: Result<Vec<u8>, image::ImageError>)
    ensures
        r matches Ok(b) ==> png_of(*img) == Some(b@),
        r matches Err(_) ==> png_of(*img) is None,
{
    let bytes = img.as_bytes();
    let expected = u64::from(img.color().bytes_per_pixel()) * u64::from(img.width()) * u64::from(img.height());
    if bytes.len() as u64 != expected {
        let kind = image::error::ParameterErrorKind::DimensionMismatch;
        return Err(image::ImageError::Parameter(image::error::ParameterError::from_kind(kind)));
    }
    let mut buf: Vec<u8> = Vec::new();
    let encoder = image::codecs::png::PngEncoder::new(&mut buf);
    match encoder.write_image(bytes, img.width(), img.height(), img.color().into()) {
        Ok(()) => Ok(buf),
        Err(e) => Err(e),
    }
}

/// An image already serialized for transport: the base64 rendering of a
/// lossless-compressed byte buffer.
pub struct ImageGCV {
    pub base64_data: String,
}

impl ImageGCV {
    /// Wraps an already PNG-encoded byte buffer: the content is exactly the
    /// base64 rendering of those bytes.
    pub fn from_png_bytes(bytes: &Vec<u8>) -> (r: ImageGCV)
        ensures
            r.base64_data@ == base64_of(bytes@),
            r.base64_data@.len() == 4 * ((bytes@.len() + 2) / 3),
    {
        ImageGCV { base64_data: base64_string(bytes) }
    }

    /// Serializes an in-memory image to PNG and wraps it. When the codec
    /// accepts the image, the content is exactly the base64 rendering of
    /// its PNG stream; when it refuses the image, that failure propagates
    /// as [`VisionError::Encode`].
    pub fn from_image(img: &image::DynamicImage) -> (r: Result<ImageGCV, VisionError>)
        ensures
            r matches Ok(g) ==> png_of(*img) matches Some(b) && g.base64_data@ == base64_of(b),
            r matches Err(e) ==> e == VisionError::Encode && png_of(*img) is None,
    {
        match encode_png(img) {
            Ok(bytes) => Ok(ImageGCV::from_png_bytes(&bytes)),
            Err(_) => Err(VisionError::Encode),
        }
    }
}

/// The exact outbound payload for one document-text-detection request on an
/// image whose base64 content reads `content`:
/// `{"requests":[{"image":{"content":...},"features":[{"type":"DOCUMENT_TEXT_DETECTION"}]}]}`.
pub open spec fn request_shape(j: Json, content: Seq<char>) -> bool {
    &&& j matches Json::Obj(top)
    &&& top@.len() == 1
    &&& top@[0].0@ == "requests"@
    &&& top@[0].1 matches Json::Arr(reqs)
    &&& reqs@.len() == 1
    &&& reqs@[0] matches Json::Obj(req)
    &&& req@.len() == 2
    &&& req@[0].0@ == "image"@
    &&& req@[0].1 matches Json::Obj(img)
    &&& img@.len() == 1
    &&& img@[0].0@ == "content"@
    &&& img@[0].1 matches Json::Str(c)
    &&& c@ == content
    &&& req@[1].0@ == "features"@
    &&& req@[1].1 matches Json::Arr(feats)
    &&& feats@.len() == 1
    &&& feats@[0] matches Json::Obj(feat)
    &&& feat@.len() == 1
    &&& feat@[0].0@ == "type"@
    &&& feat@[0].1 matches Json::Str(t)
    &&& t@ == "DOCUMENT_TEXT_DETECTION"@
}

/// Builds the outbound payload for one document-text-detection request.
/// Pure: no transport is touched here.
pub fn request_body(image: &ImageGCV) -> (r: Json)
    ensures
        request_shape(r, image.base64_data@),
{
    let mut img: Vec<(String, Json)> = Vec::new();
    img.push(("content".to_owned(), Json::Str(image.base64_data.clone())));

    let mut feat: Vec<(String, Json)> = Vec::new();
    feat.push(("type".to_owned(), Json::Str("DOCUMENT_TEXT_DETECTION".to_owned())));
    let mut feats: Vec<Json> = Vec::new();
    feats.push(Json::Obj(feat));

    let mut req: Vec<(String, Json)> = Vec::new();
    req.push(("image".to_owned(), Json::Obj(img)));
    req.push(("features".to_owned(), Json::Arr(feats)));
    let mut reqs: Vec<Json> = Vec::new();
    reqs.push(Json::Obj(req));

    let mut top: Vec<(String, Json)> = Vec::new();
    top.push(("requests".to_owned(), Json::Arr(reqs)));
    Json::Obj(top)
}

/// A handle on the OCR service: the bearer credential the transport is to
/// present.
pub struct Client {
    pub credential: String,
}

impl Client {
    /// Makes a client from a bearer-token credential.
    pub fn new(apikey: &str) -> (r: Client)
        ensures
            r.credential@ == apikey@,
    {
        Client { credential: apikey.to_owned() }
    }
}

} // verus!
