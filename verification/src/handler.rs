//! The handler: from a request to its response.

use crate::http::{bare, plain_text, png_image, Request, RequestView, Response, ResponseView, StatusCode};
use crate::png::{encode_png, png_encoding};
use crate::query::{query_params, CodeParams};
use crate::raster::{lemma_module_pixels_span, render, rendered, RasterView};
use crate::symbol::{encode_qr, qr_symbol};
use crate::text::{byte_len, str_eq};
use vstd::prelude::*;

verus! {

/// The longest text, in bytes, that is encoded.
pub const MAX_URL_LEN: usize = 128;

/// The least width and height of the image, in pixels.
pub const MIN_DIMENSION: u32 = 512;

/// The width of the border round the symbol, in modules: there is none.
pub const QUIET_ZONE: u32 = 0;

/// Why a request for an image is turned down.
#[derive(Clone, Copy, Debug, PartialEq, Eq, Structural)]
pub enum Rejection {
    /// The query names no `url`.
    NoUrl,
    /// The `url` is longer than [`MAX_URL_LEN`] bytes.
    UrlTooLong,
}

impl Rejection {
    /// The reason as the client reads it.
    pub open spec fn spec_message(self) -> Seq<char> {
        match self {
            Rejection::NoUrl => "No URL provided"@,
            Rejection::UrlTooLong => "URL too long"@,
        }
    }

    /// The reason as the client reads it.
    pub fn message(self) -> (text: &'static str)
        ensures
            text@ == self.spec_message(),
    {
        match self {
            Rejection::NoUrl => "No URL provided",
            Rejection::UrlTooLong => "URL too long",
        }
    }
}

/// Which step failed to produce the image.
#[derive(Clone, Copy, Debug, PartialEq, Eq, Structural)]
pub enum EncodeError {
    /// No QR symbol holds the text.
    Symbol,
    /// The raster could not be packed into a PNG file.
    Png,
}

/// Whether a request is one for an image: a `GET` of `/qr.png`.
pub open spec fn is_image_request(method: Seq<char>, path: Seq<char>) -> bool {
    method == "GET"@ && path == "/qr.png"@
}

/// The text to encode, or why there is none: a `url` must be there and must
/// not be longer than [`MAX_URL_LEN`] bytes.
pub open spec fn accepted_url(url: Option<Seq<char>>) -> Result<Seq<char>, Rejection> {
    match url {
        None => Err(Rejection::NoUrl),
        Some(text) => if byte_len(text) > MAX_URL_LEN {
            Err(Rejection::UrlTooLong)
        } else {
            Ok(text)
        },
    }
}

/// The raster that is drawn for the symbol of `url`, where there is a
/// symbol.
pub open spec fn raster_of(url: Seq<char>) -> Option<RasterView> {
    match qr_symbol(url) {
        Some(symbol) => Some(
            rendered(symbol, QUIET_ZONE as nat, MIN_DIMENSION as nat, MIN_DIMENSION as nat),
        ),
        None => None,
    }
}

/// The PNG file with the QR code of `url`, or the step that fails.
pub open spec fn qr_png_of(url: Seq<char>) -> Result<Seq<u8>, EncodeError> {
    match raster_of(url) {
        None => Err(EncodeError::Symbol),
        Some(raster) => match png_encoding(
            raster.pixels,
            raster.width as u32,
            raster.height as u32,
        ) {
            Some(bytes) => Ok(bytes),
            None => Err(EncodeError::Png),
        },
    }
}

/// The response to the outcome of the encoding: the image, or a server
/// error that tells the client nothing of the cause.
pub open spec fn encoded_response(outcome: Result<Seq<u8>, EncodeError>) -> ResponseView {
    match outcome {
        Ok(bytes) => png_image(bytes),
        Err(_) => bare(StatusCode::InternalServerError),
    }
}

/// The response to a request for an image, given the `url` of its query.
pub open spec fn image_response(url: Option<Seq<char>>) -> ResponseView {
    match accepted_url(url) {
        Err(rejection) => plain_text(StatusCode::BadRequest, rejection.spec_message()),
        Ok(text) => encoded_response(qr_png_of(text)),
    }
}

/// The response that a request is owed.
pub open spec fn response_for(request: RequestView) -> ResponseView {
    if is_image_request(request.method, request.path) {
        image_response(query_params(request.query))
    } else {
        bare(StatusCode::NotFound)
    }
}

/// A request for an image whose `url` is within the limit gets the image
/// wherever it can be produced, and status 500 with nothing else wherever it
/// cannot. The image is the PNG file of a square raster, at least
/// [`MIN_DIMENSION`] pixels wide and high, with one byte for every pixel.
pub proof fn lemma_accepted_url_gets_image(request: RequestView, url: Seq<char>)
    requires
        is_image_request(request.method, request.path),
        query_params(request.query) == Some(url),
        byte_len(url) <= MAX_URL_LEN,
    ensures
        response_for(request) == encoded_response(qr_png_of(url)),
        response_for(request).status == StatusCode::Success <==> qr_png_of(url) is Ok,
        qr_png_of(url) matches Ok(bytes) ==> response_for(request) == png_image(bytes),
        qr_png_of(url) is Err ==> response_for(request) == bare(StatusCode::InternalServerError),
        qr_symbol(url) is Some && qr_symbol(url)->0.well_formed() ==> {
            let raster = raster_of(url)->0;
            &&& raster.well_formed()
            &&& raster.width == raster.height
            &&& MIN_DIMENSION <= raster.width < MIN_DIMENSION + qr_symbol(url)->0.width
        },
{
    if let Some(symbol) = qr_symbol(url) {
        if symbol.well_formed() {
            lemma_module_pixels_span(symbol.width, MIN_DIMENSION as nat);
        }
    }
}

/// A request for an image whose `url` is longer than the limit gets status
/// 400 and the words `URL too long`.
pub proof fn lemma_long_url_is_rejected(request: RequestView, url: Seq<char>)
    requires
        is_image_request(request.method, request.path),
        query_params(request.query) == Some(url),
        byte_len(url) > MAX_URL_LEN,
    ensures
        response_for(request) == plain_text(StatusCode::BadRequest, "URL too long"@),
{
}

/// A request for an image whose query names no `url` gets status 400 and
/// the words `No URL provided`.
pub proof fn lemma_missing_url_is_rejected(request: RequestView)
    requires
        is_image_request(request.method, request.path),
        query_params(request.query) is None,
    ensures
        response_for(request) == plain_text(StatusCode::BadRequest, "No URL provided"@),
{
}

/// A request with another method than `GET`, or for another path than
/// `/qr.png`, gets status 404 and an empty body, whatever its query.
pub proof fn lemma_other_requests_are_not_found(request: RequestView)
    requires
        request.method != "GET"@ || request.path != "/qr.png"@,
    ensures
        response_for(request).status == StatusCode::NotFound,
        response_for(request).content_type is None,
        response_for(request).body.len() == 0,
{
}

/// Two requests with the same method, path and query get the same response,
/// byte for byte.
pub proof fn lemma_same_request_same_response(first: Request, second: Request)
    requires
        first@ == second@,
    ensures
        response_for(first@) == response_for(second@),
{
}

/// The limit is inclusive: a text of exactly [`MAX_URL_LEN`] bytes is
/// accepted, and one of a byte more is turned down.
pub proof fn lemma_limit_is_inclusive(url: Seq<char>)
    ensures
        byte_len(url) == MAX_URL_LEN ==> accepted_url(Some(url)) == Ok::<Seq<char>, Rejection>(
            url,
        ),
        byte_len(url) == MAX_URL_LEN + 1 ==> accepted_url(Some(url)) == Err::<
            Seq<char>,
            Rejection,
        >(Rejection::UrlTooLong),
        accepted_url(Some(url)) is Ok <==> byte_len(url) <= MAX_URL_LEN,
{
}

/// Decides whether the parameters name a text that may be encoded.
pub fn check_url(params: &CodeParams) -> (r: Result<&str, Rejection>)
    ensures
        match r {
            Ok(text) => accepted_url(params@) == Ok::<Seq<char>, Rejection>(text@),
            Err(rejection) => accepted_url(params@) == Err::<Seq<char>, Rejection>(rejection),
        },
{
    match &params.url {
        None => Err(Rejection::NoUrl),
        Some(url) => {
            let text = url.as_str();
            if text.as_bytes().len() > MAX_URL_LEN {
                Err(Rejection::UrlTooLong)
            } else {
                Ok(text)
            }
        },
    }
}

/// Draws the QR code of `url` and packs it into a PNG file: an 8-bit
/// greyscale image without a quiet zone, at least [`MIN_DIMENSION`] pixels
/// wide and high.
pub fn qr_png(url: &str) -> (r: Result<Vec<u8>, EncodeError>)
    ensures
        match r {
            Ok(bytes) => qr_png_of(url@) == Ok::<Seq<u8>, EncodeError>(bytes@),
            Err(e) => qr_png_of(url@) == Err::<Seq<u8>, EncodeError>(e),
        },
{
    match encode_qr(url) {
        None => Err(EncodeError::Symbol),
        Some(matrix) => {
            let raster = render(&matrix, QUIET_ZONE, MIN_DIMENSION, MIN_DIMENSION);
            match encode_png(&raster) {
                Some(bytes) => Ok(bytes),
                None => Err(EncodeError::Png),
            }
        },
    }
}

/// Turns the outcome of the encoding into a response.
pub fn respond_encoded(outcome: Result<Vec<u8>, EncodeError>) -> (r: Response)
    ensures
        r@ == encoded_response(
            match outcome {
                Ok(bytes) => Ok(bytes@),
                Err(e) => Err(e),
            },
        ),
{
    match outcome {
        Ok(bytes) => Response::with_png(bytes),
        Err(_) => Response::from_status(StatusCode::InternalServerError),
    }
}

/// Answers a request for an image whose parameters have been read.
pub fn respond_image(params: &CodeParams) -> (r: Response)
    ensures
        r@ == image_response(params@),
{
    match check_url(params) {
        Err(rejection) => Response::with_text(StatusCode::BadRequest, rejection.message()),
        Ok(text) => respond_encoded(qr_png(text)),
    }
}

/// Answers a request.
///
/// A `GET` of `/qr.png` whose query names one `url` of at most
/// [`MAX_URL_LEN`] bytes gets the QR code of that text as a PNG image. The
/// same request without a `url`, or with a longer one, gets status 400 and
/// the reason as plain text. Where the image cannot be produced the status
/// is 500. Every other request gets status 404.
pub fn handle_request(request: &Request) -> (r: Response)
    ensures
        r@ == response_for(request@),
{
    if str_eq(request.method.as_str(), "GET") && str_eq(request.path.as_str(), "/qr.png") {
        let params = CodeParams::parse(request.query.as_str());
        respond_image(&params)
    } else {
        Response::from_status(StatusCode::NotFound)
    }
}

} // verus!
