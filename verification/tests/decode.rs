use serde_json::Value;
use vision_ocr::annotation::TextAnnotation;
use vision_ocr::geometry::{Point, Polygon};
use vision_ocr::json::{Json, JsonNum};

/// Converts a dynamically typed JSON value into the library's tree.
fn to_json(v: &Value) -> Json {
    match v {
        Value::Null => Json::Null,
        Value::Bool(b) => Json::Bool(*b),
        Value::Number(n) => match n.as_i64() {
            Some(i) => Json::Number(JsonNum::Int(i)),
            None => Json::Number(JsonNum::Float(n.as_f64().unwrap().to_bits())),
        },
        Value::String(s) => Json::Str(s.clone()),
        Value::Array(a) => Json::Arr(a.iter().map(to_json).collect()),
        Value::Object(m) => Json::Obj(m.iter().map(|(k, x)| (k.clone(), to_json(x))).collect()),
    }
}

fn parse(text: &str) -> Json {
    to_json(&serde_json::from_str::<Value>(text).unwrap())
}

#[test]
fn deserialize_text_annotation() {
    let json_text = r#"{
  "description": "ENGINE",
  "boundingPoly": {
    "vertices": [
      {
        "x": 1222,
        "y": 1771
      },
      {
        "x": 1944,
        "y": 1834
      },
      {
        "x": 1930,
        "y": 1992
      },
      {
        "x": 1208,
        "y": 1928
      }
    ]
  }
}"#;
    let json_value = parse(json_text);
    let text_annotation = TextAnnotation::from_json(&json_value).unwrap();

    assert_eq!(text_annotation.description, "ENGINE");
    assert_eq!(text_annotation.locale, None);
    assert_eq!(text_annotation.bounding_poly.vertices.len(), 4);
    assert_eq!(text_annotation.bounding_poly.vertices[0].x, 1222);
    assert_eq!(text_annotation.bounding_poly.vertices[0].y, 1771);
}

#[test]
fn annotation_round_trip_locale_present() {
    let t = TextAnnotation {
        locale: Some("en".to_owned()),
        description: "44097050".to_owned(),
        bounding_poly: Polygon {
            vertices: vec![
                Point { x: 0, y: 0 },
                Point { x: 10, y: 0 },
                Point { x: 10, y: 5 },
                Point { x: 0, y: 5 },
            ],
        },
    };
    let j = t.to_json();
    let back = TextAnnotation::from_json(&j).unwrap();
    assert_eq!(back, t);
}

#[test]
fn annotation_round_trip_locale_absent() {
    let t = TextAnnotation {
        locale: None,
        description: "word".to_owned(),
        bounding_poly: Polygon { vertices: vec![Point { x: 3, y: 4 }] },
    };
    let j = t.to_json();
    let back = TextAnnotation::from_json(&j).unwrap();
    assert_eq!(back, t);
}

#[test]
fn annotation_null_locale_decodes_absent() {
    let j = parse(r#"{"locale":null,"description":"d","boundingPoly":{"vertices":[]}}"#);
    let t = TextAnnotation::from_json(&j).unwrap();
    assert_eq!(t.locale, None);
    assert_eq!(t.bounding_poly.vertices.len(), 0);
}

#[test]
fn annotation_rejects_missing_description() {
    let j = parse(r#"{"boundingPoly":{"vertices":[]}}"#);
    assert!(TextAnnotation::from_json(&j).is_none());
}

#[test]
fn annotation_rejects_fractional_coordinate() {
    let j = parse(r#"{"description":"d","boundingPoly":{"vertices":[{"x":1.5,"y":2}]}}"#);
    assert!(TextAnnotation::from_json(&j).is_none());
}

#[test]
fn json_get_and_index() {
    let j = parse(r#"{"a":[1,2,3],"b":{"c":"deep"}}"#);
    let arr = j.get("a").unwrap();
    assert_eq!(arr.index(1), Some(&Json::Number(JsonNum::Int(2))));
    assert_eq!(arr.index(3), None);
    assert_eq!(j.get("b").unwrap().get("c"), Some(&Json::Str("deep".to_owned())));
    assert_eq!(j.get("missing"), None);
    assert_eq!(j.get("a").unwrap().get("c"), None);
}
