use serde_json::Value;
use vision_ocr::json::{Json, JsonNum};
use vision_ocr::response::Response;

/// Converts a dynamically typed JSON value into the library's tree.
fn to_json(v: &Value) -> Json {
    match v {
        Value::Null => Json::Null,
        Value::Bool(b) => Json::Bool(*b),
        Value::Number(n) => match n.as_i64() {
            Some(i) => Json::Number(JsonNum::Int(i)),
            None => Json::Number(JsonNum::Float(n.as_f64().unwrap().to_bits())),
        },
        Value::String(s) => Json::Str(s.clone()),
        Value::Array(a) => Json::Arr(a.iter().map(to_json).collect()),
        Value::Object(m) => Json::Obj(m.iter().map(|(k, x)| (k.clone(), to_json(x))).collect()),
    }
}

fn parse(text: &str) -> Json {
    to_json(&serde_json::from_str::<Value>(text).unwrap())
}

fn word(confidence: &str, text: &str) -> String {
    format!(
        r#"{{"boundingBox":{{"vertices":[{{"x":0,"y":0}},{{"x":1,"y":0}},{{"x":1,"y":1}},{{"x":0,"y":1}}]}},
            "confidence":{confidence},
            "symbols":[{{"boundingBox":{{"vertices":[]}},"confidence":{confidence},"text":"{text}"}}]}}"#
    )
}

#[test]
fn full_text_annotation() {
    let payload = format!(
        r#"{{"responses":[{{"fullTextAnnotation":{{"pages":[{{"blocks":[
            {{"blockType":"TEXT",
              "boundingBox":{{"vertices":[{{"x":0,"y":0}},{{"x":9,"y":0}},{{"x":9,"y":9}},{{"x":0,"y":9}}]}},
              "confidence":0.99,
              "paragraphs":[
                {{"boundingBox":{{"vertices":[]}},
                  "confidence":0.97,
                  "words":[{},{}]}}]}}]}}]}}}}]}}"#,
        word("0.9", "a"),
        word("0.95", "b"),
    );
    let resp = Response::from_payload(parse(&payload)).unwrap();
    let doc = resp.full_text_annotations().unwrap();

    assert_eq!(doc.pages.len(), 1);
    assert_eq!(doc.pages[0].blocks.len(), 1);
    let block = &doc.pages[0].blocks[0];
    assert_eq!(block.block_type, "TEXT");
    assert_eq!(block.paragraphs.len(), 1);
    let words = &block.paragraphs[0].words;
    assert_eq!(words.len(), 2);
    assert_eq!(words[0].confidence, JsonNum::Float(0.9f64.to_bits()));
    assert_eq!(words[1].confidence, JsonNum::Float(0.95f64.to_bits()));
    match words[0].confidence {
        JsonNum::Float(bits) => assert_eq!(f64::from_bits(bits), 0.9),
        JsonNum::Int(_) => panic!("fractional confidence expected"),
    }
    assert_eq!(words[0].symbols.len(), 1);
    assert_eq!(words[0].symbols[0].text, "a");
    assert_eq!(words[1].symbols[0].text, "b");
}

#[test]
fn tree_vertex_coordinates_may_be_absent() {
    let payload = parse(
        r#"{"responses":[{"fullTextAnnotation":{"pages":[{"blocks":[
            {"blockType":"TEXT",
             "boundingBox":{"vertices":[{"y":7},{},{"x":3},{"x":4,"y":5}]},
             "confidence":1,
             "paragraphs":[]}]}]}}]}"#,
    );
    let resp = Response::from_payload(payload).unwrap();
    let doc = resp.full_text_annotations().unwrap();
    let bb = &doc.pages[0].blocks[0].bounding_box;
    assert_eq!(bb.vertices.len(), 4);
    assert_eq!(bb.vertices[0].x, None);
    assert_eq!(bb.vertices[0].y, Some(7));
    assert_eq!(bb.vertices[1].x, None);
    assert_eq!(bb.vertices[1].y, None);
    assert_eq!(bb.vertices[3].x, Some(4));
    assert_eq!(bb.vertices[3].y, Some(5));
    assert_eq!(doc.pages[0].blocks[0].confidence, JsonNum::Int(1));
}

#[test]
fn full_text_annotation_missing_path_is_schema_error() {
    let resp = Response::from_payload(parse(r#"{"responses":[{}]}"#)).unwrap();
    match resp.full_text_annotations() {
        Err(vision_ocr::error::VisionError::Schema(m)) => {
            assert_eq!(m, "fullTextAnnotation does not match the document schema");
        },
        other => panic!("schema error expected, got {:?}", other),
    }
}

#[test]
fn full_text_annotation_missing_confidence_is_schema_error() {
    let resp = Response::from_payload(parse(
        r#"{"responses":[{"fullTextAnnotation":{"pages":[{"blocks":[
            {"blockType":"TEXT","boundingBox":{"vertices":[]},"paragraphs":[]}]}]}}]}"#,
    ))
    .unwrap();
    assert!(resp.full_text_annotations().is_err());
}
