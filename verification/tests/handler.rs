use qr_png::handler::{
    check_url, handle_request, qr_png, respond_encoded, respond_image, EncodeError, Rejection,
    MAX_URL_LEN, MIN_DIMENSION, QUIET_ZONE,
};
use qr_png::http::{ContentType, Request, Response, StatusCode};
use qr_png::query::CodeParams;

fn request(method: &str, path: &str, query: &str) -> Request {
    Request { method: method.to_string(), path: path.to_string(), query: query.to_string() }
}

fn get(query: &str) -> Response {
    handle_request(&request("GET", "/qr.png", query))
}

/// Decodes a PNG file into its width, its height and its grey values.
fn decode_png(bytes: &[u8]) -> (u32, u32, Vec<u8>) {
    let image = image::load_from_memory_with_format(bytes, image::ImageFormat::Png)
        .expect("the body is a PNG file")
        .to_luma8();
    let (width, height) = image.dimensions();
    (width, height, image.into_raw())
}

/// Reads the one QR code in a greyscale image, after putting a white border
/// round it.
fn read_qr(width: u32, height: u32, pixels: &[u8]) -> String {
    let border = 64usize;
    let (w, h) = (width as usize, height as usize);
    let mut prepared =
        rqrr::PreparedImage::prepare_from_greyscale(w + 2 * border, h + 2 * border, |x, y| {
            if x < border || y < border || x >= w + border || y >= h + border {
                255
            } else {
                pixels[(y - border) * w + (x - border)]
            }
        });
    let grids = prepared.detect_grids();
    assert_eq!(grids.len(), 1);
    let (_, content) = grids[0].decode().expect("the code can be read");
    content
}

fn assert_png_of(response: &Response, text: &str) {
    assert_eq!(response.status, StatusCode::Success);
    assert_eq!(response.status.code(), 200);
    assert_eq!(response.content_type, Some(ContentType::ImagePng));
    let (width, height, pixels) = decode_png(&response.body);
    assert!(width >= 512);
    assert!(height >= 512);
    assert_eq!(width, height);
    assert!(pixels.iter().all(|p| *p == 0 || *p == 255));
    assert_eq!(read_qr(width, height, &pixels), text);
}

fn assert_rejected(response: &Response, reason: &str) {
    assert_eq!(response.status, StatusCode::BadRequest);
    assert_eq!(response.status.code(), 400);
    assert_eq!(response.content_type, Some(ContentType::TextPlain));
    assert_eq!(response.body, reason.as_bytes());
}

fn assert_not_found(response: &Response) {
    assert_eq!(response.status, StatusCode::NotFound);
    assert_eq!(response.status.code(), 404);
    assert_eq!(response.content_type, None);
    assert!(response.body.is_empty());
}

#[test]
fn example_url_gets_its_code() {
    let response = get("url=https://example.com");
    assert_png_of(&response, "https://example.com");
}

#[test]
fn example_url_image_has_twenty_one_pixels_a_module() {
    // "https://example.com" takes a symbol of 25 modules; 21 pixels a module
    // is the least that reaches 512.
    let response = get("url=https://example.com");
    let (width, height, _) = decode_png(&response.body);
    assert_eq!((width, height), (525, 525));
}

#[test]
fn percent_encoded_url_is_decoded_before_it_is_encoded() {
    let response = get("url=https%3A%2F%2Fexample.com%2Fa%3Fb%3D1%26c%3D2");
    assert_png_of(&response, "https://example.com/a?b=1&c=2");
}

#[test]
fn plus_in_the_query_is_a_space() {
    let response = get("url=hello+world");
    assert_png_of(&response, "hello world");
}

#[test]
fn other_parameters_are_ignored() {
    let response = get("size=9&url=https://example.com&format=svg");
    assert_png_of(&response, "https://example.com");
}

#[test]
fn missing_url_is_rejected() {
    assert_rejected(&get(""), "No URL provided");
    assert_rejected(&get("uri=https://example.com"), "No URL provided");
    assert_rejected(&get("URL=https://example.com"), "No URL provided");
}

#[test]
fn url_named_twice_counts_as_missing() {
    assert_rejected(&get("url=a&url=b"), "No URL provided");
    assert_rejected(&get("url=a&x=1&url=a"), "No URL provided");
}

#[test]
fn long_url_is_rejected() {
    let url = "a".repeat(129);
    assert_rejected(&get(&format!("url={}", url)), "URL too long");
    let url = "a".repeat(5000);
    assert_rejected(&get(&format!("url={}", url)), "URL too long");
}

#[test]
fn limit_is_inclusive() {
    assert_eq!(MAX_URL_LEN, 128);
    let at_limit = "a".repeat(MAX_URL_LEN);
    assert_png_of(&get(&format!("url={}", at_limit)), &at_limit);
    let over = "a".repeat(MAX_URL_LEN + 1);
    assert_rejected(&get(&format!("url={}", over)), "URL too long");
}

#[test]
fn length_is_counted_in_bytes() {
    // Each letter takes two bytes: 64 of them are at the limit, 65 over it.
    let at_limit = "é".repeat(64);
    assert_eq!(at_limit.len(), 128);
    let response = get(&format!("url={}", at_limit));
    assert_eq!(response.status, StatusCode::Success);
    let over = "é".repeat(65);
    assert_rejected(&get(&format!("url={}", over)), "URL too long");
}

#[test]
fn empty_url_is_present() {
    let response = get("url=");
    assert_eq!(response.status, StatusCode::Success);
    assert_eq!(response.content_type, Some(ContentType::ImagePng));
    let (width, height, pixels) = decode_png(&response.body);
    assert_eq!((width, height), (525, 525));
    assert_eq!(read_qr(width, height, &pixels), "");
}

#[test]
fn other_methods_are_not_found() {
    for method in ["POST", "PUT", "DELETE", "HEAD", "OPTIONS", "PATCH", "get", "Get", ""] {
        let response = handle_request(&request(method, "/qr.png", "url=https://example.com"));
        assert_not_found(&response);
    }
}

#[test]
fn other_paths_are_not_found() {
    for path in ["/", "", "/qr", "/qr.png/", "/QR.png", "/qr.pngx", "/a/qr.png", "qr.png"] {
        let response = handle_request(&request("GET", path, "url=https://example.com"));
        assert_not_found(&response);
    }
    assert_not_found(&handle_request(&request("POST", "/", "")));
}

#[test]
fn same_request_same_response() {
    let first = get("url=https://example.com/some/path");
    let second = get("url=https://example.com/some/path");
    assert_eq!(first.status, second.status);
    assert_eq!(first.content_type, second.content_type);
    assert_eq!(first.body, second.body);
    assert_png_of(&first, "https://example.com/some/path");
    assert_png_of(&second, "https://example.com/some/path");
}

#[test]
fn check_url_accepts_up_to_the_limit() {
    let none = CodeParams { url: None };
    assert_eq!(check_url(&none), Err(Rejection::NoUrl));
    let empty = CodeParams { url: Some(String::new()) };
    assert_eq!(check_url(&empty), Ok(""));
    let at_limit = CodeParams { url: Some("b".repeat(128)) };
    assert_eq!(check_url(&at_limit), Ok("b".repeat(128).as_str()));
    let over = CodeParams { url: Some("b".repeat(129)) };
    assert_eq!(check_url(&over), Err(Rejection::UrlTooLong));
}

#[test]
fn rejections_have_their_words() {
    assert_eq!(Rejection::NoUrl.message(), "No URL provided");
    assert_eq!(Rejection::UrlTooLong.message(), "URL too long");
}

#[test]
fn respond_image_follows_the_parameters() {
    assert_rejected(&respond_image(&CodeParams { url: None }), "No URL provided");
    assert_rejected(
        &respond_image(&CodeParams { url: Some("c".repeat(200)) }),
        "URL too long",
    );
    assert_png_of(&respond_image(&CodeParams { url: Some("HELLO WORLD".to_string()) }), "HELLO WORLD");
}

#[test]
fn respond_encoded_sends_the_image_or_a_bare_error() {
    let ok = respond_encoded(Ok(vec![1, 2, 3]));
    assert_eq!(ok.status, StatusCode::Success);
    assert_eq!(ok.content_type, Some(ContentType::ImagePng));
    assert_eq!(ok.body, vec![1, 2, 3]);
    for error in [EncodeError::Symbol, EncodeError::Png] {
        let failed = respond_encoded(Err(error));
        assert_eq!(failed.status, StatusCode::InternalServerError);
        assert_eq!(failed.status.code(), 500);
        assert_eq!(failed.content_type, None);
        assert!(failed.body.is_empty());
    }
}

#[test]
fn qr_png_is_the_body_of_the_response() {
    let bytes = qr_png("https://example.com").expect("the text fits a symbol");
    assert_eq!(get("url=https://example.com").body, bytes);
    assert_eq!(&bytes[..8], &[137, 80, 78, 71, 13, 10, 26, 10]);
}

#[test]
fn qr_png_fails_where_no_symbol_holds_the_text() {
    let text = "x".repeat(3000);
    assert_eq!(qr_png(&text), Err(EncodeError::Symbol));
}

#[test]
fn image_settings() {
    assert_eq!(MIN_DIMENSION, 512);
    assert_eq!(QUIET_ZONE, 0);
}

#[test]
fn content_types_have_their_header_values() {
    assert_eq!(ContentType::TextPlain.header_value(), "text/plain; charset=utf-8");
    assert_eq!(ContentType::ImagePng.header_value(), "image/png");
}

#[test]
fn status_codes_have_their_numbers() {
    assert_eq!(StatusCode::Success.code(), 200);
    assert_eq!(StatusCode::BadRequest.code(), 400);
    assert_eq!(StatusCode::NotFound.code(), 404);
    assert_eq!(StatusCode::InternalServerError.code(), 500);
}

#[test]
fn responses_are_built_as_named() {
    let bare = Response::from_status(StatusCode::NotFound);
    assert_not_found(&bare);
    let text = Response::with_text(StatusCode::BadRequest, "No URL provided");
    assert_rejected(&text, "No URL provided");
    let png = Response::with_png(vec![9, 8]);
    assert_eq!(png.status, StatusCode::Success);
    assert_eq!(png.content_type, Some(ContentType::ImagePng));
    assert_eq!(png.body, vec![9, 8]);
}
