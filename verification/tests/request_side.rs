use base64::Engine;
use vision_ocr::client::{request_body, Client, ImageGCV};
use vision_ocr::error::VisionError;
use vision_ocr::json::Json;

#[test]
fn encode_() {
    let image = image::DynamicImage::new_rgb8(10, 10);
    let gcv_image = ImageGCV::from_image(&image).unwrap();

    assert_ne!(gcv_image.base64_data.len(), 0);
}

#[test]
fn from_image_emits_base64_of_a_png_stream() {
    let image = image::DynamicImage::new_rgb8(4, 3);
    let gcv_image = ImageGCV::from_image(&image).unwrap();
    let bytes = base64::engine::general_purpose::STANDARD
        .decode(&gcv_image.base64_data)
        .unwrap();
    assert_eq!(&bytes[..8], &[137u8, 80, 78, 71, 13, 10, 26, 10]);
}

#[test]
fn from_png_bytes_encodes_base64() {
    let g = ImageGCV::from_png_bytes(&vec![104u8, 101, 108, 108, 111]);
    assert_eq!(g.base64_data, "aGVsbG8=");
    assert_eq!(g.base64_data.len(), 4 * ((5 + 2) / 3));

    let empty = ImageGCV::from_png_bytes(&Vec::new());
    assert_eq!(empty.base64_data, "");
}

#[test]
fn zero_size_image_is_an_encode_error() {
    let image = image::DynamicImage::new_rgb8(0, 0);
    match ImageGCV::from_image(&image) {
        Err(VisionError::Encode) => (),
        Err(other) => panic!("encode error expected, got {:?}", other),
        Ok(_) => panic!("encode error expected, got an encoded image"),
    }
}

#[test]
fn oversized_raw_container_is_an_encode_error() {
    // `from_raw` accepts a container larger than 2*2*3 bytes; the codec
    // must refuse such an image as an error, never panic on it.
    let buffer = image::RgbImage::from_raw(2, 2, vec![0u8; 16]).unwrap();
    let image = image::DynamicImage::ImageRgb8(buffer);
    match ImageGCV::from_image(&image) {
        Err(VisionError::Encode) => (),
        Err(other) => panic!("encode error expected, got {:?}", other),
        Ok(_) => panic!("encode error expected, got an encoded image"),
    }
}

#[test]
fn request_body_has_the_wire_shape() {
    let g = ImageGCV { base64_data: "QUJD".to_owned() };
    let body = request_body(&g);

    let requests = body.get("requests").unwrap();
    let first = requests.index(0).unwrap();
    assert!(requests.index(1).is_none());
    assert_eq!(
        first.get("image").unwrap().get("content"),
        Some(&Json::Str("QUJD".to_owned()))
    );
    let feature = first.get("features").unwrap().index(0).unwrap();
    assert_eq!(
        feature.get("type"),
        Some(&Json::Str("DOCUMENT_TEXT_DETECTION".to_owned()))
    );
}

#[test]
fn client_keeps_the_credential() {
    let client = Client::new("bearer-token-for-tests");
    assert_eq!(client.credential, "bearer-token-for-tests");
}
