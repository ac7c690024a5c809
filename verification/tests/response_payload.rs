use serde_json::Value;
use vision_ocr::error::VisionError;
use vision_ocr::json::{Json, JsonNum};
use vision_ocr::response::Response;

/// Converts a dynamically typed JSON value into the library's tree.
fn to_json(v: &Value) -> Json {
    match v {
        Value::Null => Json::Null,
        Value::Bool(b) => Json::Bool(*b),
        Value::Number(n) => match n.as_i64() {
            Some(i) => Json::Number(JsonNum::Int(i)),
            None => Json::Number(JsonNum::Float(n.as_f64().unwrap().to_bits())),
        },
        Value::String(s) => Json::Str(s.clone()),
        Value::Array(a) => Json::Arr(a.iter().map(to_json).collect()),
        Value::Object(m) => Json::Obj(m.iter().map(|(k, x)| (k.clone(), to_json(x))).collect()),
    }
}

fn parse(text: &str) -> Json {
    to_json(&serde_json::from_str::<Value>(text).unwrap())
}

#[test]
fn missing_text_annotations_is_schema_error() {
    let resp = Response::from_payload(parse(r#"{"responses":[{}]}"#)).unwrap();
    match resp.text_annotations() {
        Err(VisionError::Schema(m)) => assert_eq!(m, "text_annotations must be array"),
        other => panic!("schema error expected, got {:?}", other),
    }
}

#[test]
fn non_array_text_annotations_is_schema_error() {
    let resp = Response::from_payload(parse(r#"{"responses":[{"textAnnotations":7}]}"#)).unwrap();
    match resp.text_annotations() {
        Err(VisionError::Schema(m)) => assert_eq!(m, "text_annotations must be array"),
        other => panic!("schema error expected, got {:?}", other),
    }
}

#[test]
fn undecodable_element_fails_the_whole_call() {
    let resp = Response::from_payload(parse(
        r#"{"responses":[{"textAnnotations":[
            {"description":"ok","boundingPoly":{"vertices":[]}},
            {"description":42,"boundingPoly":{"vertices":[]}}]}]}"#,
    ))
    .unwrap();
    match resp.text_annotations() {
        Err(VisionError::Schema(m)) => {
            assert_eq!(m, "text annotation element does not match the annotation schema");
        },
        other => panic!("schema error expected, got {:?}", other),
    }
}

#[test]
fn text_annotations_happy_path() {
    let resp = Response::from_payload(parse(
        r#"{"responses":[{"textAnnotations":[
            {"locale":"en","description":"44097050","boundingPoly":{"vertices":[{"x":1,"y":2}]}},
            {"description":"44097050","boundingPoly":{"vertices":[]}}]}]}"#,
    ))
    .unwrap();
    let annotations = resp.text_annotations().unwrap();
    assert_eq!(annotations.len(), 2);
    assert_eq!(annotations[0].locale.as_deref(), Some("en"));
    assert_eq!(annotations[0].description, "44097050");
    assert_eq!(annotations[0].bounding_poly.vertices[0].x, 1);
    assert_eq!(annotations[1].locale, None);
}

#[test]
fn service_error_object_blocks_the_response() {
    let payload = parse(r#"{"error":{"code":403,"message":"permission denied"},"responses":[]}"#);
    match Response::from_payload(payload) {
        Err(VisionError::Service(obj)) => {
            assert_eq!(obj.get("message"), Some(&Json::Str("permission denied".to_owned())));
            assert_eq!(obj.get("code"), Some(&Json::Number(JsonNum::Int(403))));
        },
        other => panic!("service error expected, got {:?}", other),
    }
}

#[test]
fn non_object_error_member_is_not_a_service_error() {
    let resp = Response::from_payload(parse(r#"{"error":"harmless","responses":[{}]}"#));
    assert!(resp.is_ok());
}

#[test]
fn both_accessors_are_independent() {
    let resp = Response::from_payload(parse(
        r#"{"responses":[{
            "textAnnotations":[{"description":"d","boundingPoly":{"vertices":[]}}],
            "fullTextAnnotation":{"pages":[]}}]}"#,
    ))
    .unwrap();
    let flat_first = resp.text_annotations().unwrap();
    let tree = resp.full_text_annotations().unwrap();
    let flat_again = resp.text_annotations().unwrap();
    assert_eq!(flat_first, flat_again);
    assert_eq!(tree.pages.len(), 0);
}
