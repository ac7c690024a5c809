//! The decoded service reply and its two accessors.
//!
//! A [`Response`] wraps exactly one payload. [`Response::from_payload`]
//! refuses a payload whose top level carries a structured `error` object, so
//! that neither accessor is reachable on a service error. Each accessor
//! independently navigates and decodes its own subtree of the payload on
//! every call; neither mutates the response nor depends on the other.

use vstd::prelude::*;
use crate::annotation::{spec_text_annotation, TextAnnotation, TextAnnotationV};
use crate::document::{spec_full_text_annotation, FullTextAnnotation, FullTextAnnotationV};
use crate::error::VisionError;
use crate::json::{spec_get, spec_index, Json};

verus! {

/// One service reply, held as its payload.
#[derive(Debug)]
pub struct Response {
    payload: Json,
}

/// The structured error object at the payload's top level, if there is one:
/// the value of a top-level `error` member that is an object.
pub open spec fn spec_error_object(payload: Json) -> Option<Json> {
    match spec_get(payload, "error"@) {
        Some(e) => if e is Obj {
            Some(e)
        } else {
            None
        },
        None => None,
    }
}

/// The subtree both flat accessors read: `responses[0].textAnnotations`.
pub open spec fn spec_annotations_path(payload: Json) -> Option<Json> {
    match spec_get(payload, "responses"@) {
        Some(rs) => match spec_index(rs, 0) {
            Some(r0) => spec_get(r0, "textAnnotations"@),
            None => None,
        },
        None => None,
    }
}

/// The subtree the hierarchical accessor reads:
/// `responses[0].fullTextAnnotation`.
pub open spec fn spec_document_path(payload: Json) -> Option<Json> {
    match spec_get(payload, "responses"@) {
        Some(rs) => match spec_index(rs, 0) {
            Some(r0) => spec_get(r0, "fullTextAnnotation"@),
            None => None,
        },
        None => None,
    }
}

/// Decode of the annotation array elements from index `i` on, fail-fast.
pub open spec fn spec_annotations_from(elems: Seq<Json>, i: int) -> Option<Seq<TextAnnotationV>>
    decreases elems.len() - i,
{
    if !(0 <= i < elems.len()) {
        Some(Seq::empty())
    } else {
        match spec_text_annotation(elems[i]) {
            Some(t) => match spec_annotations_from(elems, i + 1) {
                Some(rest) => Some(rest.insert(0, t)),
                None => None,
            },
            None => None,
        }
    }
}

/// What the flat accessor returns on a given payload: the decoded list when
/// `responses[0].textAnnotations` is an array every element of which matches
/// the flat-annotation schema, nothing otherwise.
pub open spec fn spec_text_annotations(payload: Json) -> Option<Seq<TextAnnotationV>> {
    match spec_annotations_path(payload) {
        Some(Json::Arr(elems)) => spec_annotations_from(elems@, 0),
        _ => None,
    }
}

/// What the hierarchical accessor returns on a given payload.
pub open spec fn spec_full_text_annotations(payload: Json) -> Option<FullTextAnnotationV> {
    match spec_document_path(payload) {
        Some(d) => spec_full_text_annotation(d),
        None => None,
    }
}

/// Decodes the annotation array from index `i` on, fail-fast.
fn decode_annotations_from(elems: &Vec<Json>, i: usize) -> (r: Option<Vec<TextAnnotation>>)
    requires
        i <= elems@.len(),
    ensures
        match r {
            Some(v) => spec_annotations_from(elems@, i as int) == Some(v.deep_view()),
            None => spec_annotations_from(elems@, i as int) is None,
        },
    decreases elems@.len() - i,
{
    if i >= elems.len() {
        Some(Vec::new())
    } else {
        let t = match TextAnnotation::from_json(&elems[i]) {
            Some(t) => t,
            None => {
                return None;
            },
        };
        let mut rest = match decode_annotations_from(elems, i + 1) {
            Some(rest) => rest,
            None => {
                return None;
            },
        };
        rest.insert(0, t);
        Some(rest)
    }
}

impl Response {
    /// The payload this response wraps.
    pub closed spec fn spec_payload(self) -> Json {
        self.payload
    }

    /// Wraps a payload, unless its top level carries a structured error
    /// object: then the service refused the request, the error object is
    /// surfaced verbatim, and no response — so neither accessor — exists.
    pub fn from_payload(payload: Json) -> (r: Result<Response, VisionError>)
        ensures
            match r {
                Ok(resp) => spec_error_object(payload) is None && resp.spec_payload() == payload,
                Err(e) => {
                    &&& spec_error_object(payload) is Some
                    &&& e == VisionError::Service(spec_error_object(payload)->0)
                },
            },
    {
        match payload {
            Json::Obj(mut fields) => {
                let key: String = "error".to_owned();
                match crate::json::obj_find_index(&fields, &key, 0) {
                    Some(n) => {
                        let is_obj = match &fields[n].1 {
                            Json::Obj(_) => true,
                            _ => false,
                        };
                        if is_obj {
                            let entry = fields.remove(n);
                            Err(VisionError::Service(entry.1))
                        } else {
                            Ok(Response { payload: Json::Obj(fields) })
                        }
                    },
                    None => Ok(Response { payload: Json::Obj(fields) }),
                }
            },
            _ => Ok(Response { payload }),
        }
    }

    /// Navigates to `responses[0].textAnnotations` and decodes every
    /// element, fail-fast: one undecodable element fails the whole call.
    /// Fails with a schema error when the path is absent or not an array.
    pub fn text_annotations(&self) -> (r: Result<Vec<TextAnnotation>, VisionError>)
        ensures
            match r {
                Ok(v) => spec_text_annotations(self.spec_payload()) == Some(v.deep_view()),
                Err(e) => {
                    &&& spec_text_annotations(self.spec_payload()) is None
                    &&& match spec_annotations_path(self.spec_payload()) {
                        Some(Json::Arr(elems)) => e matches VisionError::Schema(m)
                            && m@ == "text annotation element does not match the annotation schema"@,
                        _ => e matches VisionError::Schema(m)
                            && m@ == "text_annotations must be array"@,
                    }
                },
            },
    {
        let target = match self.payload.get("responses") {
            Some(rs) => match rs.index(0) {
                Some(r0) => r0.get("textAnnotations"),
                None => None,
            },
            None => None,
        };
        match target {
            Some(Json::Arr(elems)) => match decode_annotations_from(elems, 0) {
                Some(v) => Ok(v),
                None => Err(
                    VisionError::Schema(
                        "text annotation element does not match the annotation schema".to_owned(),
                    ),
                ),
            },
            _ => Err(VisionError::Schema("text_annotations must be array".to_owned())),
        }
    }

    /// Navigates to `responses[0].fullTextAnnotation` and decodes the whole
    /// document tree in one pass. Fails with a schema error when the path is
    /// absent or its shape does not match the tree schema.
    pub fn full_text_annotations(&self) -> (r: Result<FullTextAnnotation, VisionError>)
        ensures
            match r {
                Ok(f) => spec_full_text_annotations(self.spec_payload()) == Some(f@),
                Err(e) => {
                    &&& spec_full_text_annotations(self.spec_payload()) is None
                    &&& e matches VisionError::Schema(m)
                    &&& m@ == "fullTextAnnotation does not match the document schema"@
                },
            },
    {
        let target = match self.payload.get("responses") {
            Some(rs) => match rs.index(0) {
                Some(r0) => r0.get("fullTextAnnotation"),
                None => None,
            },
            None => None,
        };
        match target {
            Some(d) => match FullTextAnnotation::from_json(d) {
                Some(f) => Ok(f),
                None => Err(
                    VisionError::Schema(
                        "fullTextAnnotation does not match the document schema".to_owned(),
                    ),
                ),
            },
            None => Err(
                VisionError::Schema("fullTextAnnotation does not match the document schema".to_owned()),
            ),
        }
    }
}

} // verus!
