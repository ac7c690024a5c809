//! The flat annotation model: one recognized text span.
//!
//! A flat annotation carries an optional locale, the recognized text, and a
//! bounding polygon whose vertices always have both coordinates. Decoding
//! from a [`Json`] value is specified by [`spec_text_annotation`]; encoding
//! back to the canonical JSON shape is pinned down by [`ta_json_shape`], and
//! [`lemma_annotation_round_trip`] proves that decoding an encoded
//! annotation gives the original back.

use vstd::prelude::*;
use crate::geometry::{Point, Polygon};
use crate::json::{obj_find_from, spec_get, Json, JsonNum};

verus! {

/// The mathematical content of a [`TextAnnotation`].
pub ghost struct TextAnnotationV {
    pub locale: Option<Seq<char>>,
    pub description: Seq<char>,
    pub bounding_poly: Seq<Point>,
}

/// One recognized text span: its locale (absent on all but the synthetic
/// whole-image span), its text, and its bounding polygon.
#[derive(Debug, PartialEq, Eq)]
pub struct TextAnnotation {
    pub locale: Option<String>,
    pub description: String,
    pub bounding_poly: Polygon,
}

impl View for TextAnnotation {
    type V = TextAnnotationV;

    open spec fn view(&self) -> TextAnnotationV {
        TextAnnotationV {
            locale: self.locale.deep_view(),
            description: self.description@,
            bounding_poly: self.bounding_poly@,
        }
    }
}

impl DeepView for TextAnnotation {
    type V = TextAnnotationV;

    open spec fn deep_view(&self) -> TextAnnotationV {
        self@
    }
}

/// Decode of a flat-schema vertex: an object with required integer `x` and
/// `y` members.
pub open spec fn spec_point(j: Json) -> Option<Point> {
    match spec_get(j, "x"@) {
        Some(Json::Number(JsonNum::Int(x))) => match spec_get(j, "y"@) {
            Some(Json::Number(JsonNum::Int(y))) => Some(Point { x, y }),
            _ => None,
        },
        _ => None,
    }
}

/// Decode of the vertex array elements from index `i` on; any failing
/// element fails the whole list.
pub open spec fn spec_points_from(elems: Seq<Json>, i: int) -> Option<Seq<Point>>
    decreases elems.len() - i,
{
    if !(0 <= i < elems.len()) {
        Some(Seq::empty())
    } else {
        match spec_point(elems[i]) {
            Some(p) => match spec_points_from(elems, i + 1) {
                Some(rest) => Some(rest.insert(0, p)),
                None => None,
            },
            None => None,
        }
    }
}

/// Decode of a flat-schema bounding polygon: an object with a required
/// `vertices` array.
pub open spec fn spec_polygon(j: Json) -> Option<Seq<Point>> {
    match spec_get(j, "vertices"@) {
        Some(Json::Arr(elems)) => spec_points_from(elems@, 0),
        _ => None,
    }
}

/// Decode of the optional `locale` member: an absent or null member is a
/// legitimate absent locale, a string is a present one, anything else does
/// not match the schema.
pub open spec fn spec_locale(j: Json) -> Option<Option<Seq<char>>> {
    match spec_get(j, "locale"@) {
        None => Some(None),
        Some(Json::Null) => Some(None),
        Some(Json::Str(s)) => Some(Some(s@)),
        Some(_) => None,
    }
}

/// Decode of a whole flat annotation: optional `locale`, required string
/// `description`, required `boundingPoly`.
pub open spec fn spec_text_annotation(j: Json) -> Option<TextAnnotationV> {
    match spec_locale(j) {
        Some(loc) => match spec_get(j, "description"@) {
            Some(Json::Str(d)) => match spec_get(j, "boundingPoly"@) {
                Some(bp) => match spec_polygon(bp) {
                    Some(vs) => Some(
                        TextAnnotationV { locale: loc, description: d@, bounding_poly: vs },
                    ),
                    None => None,
                },
                None => None,
            },
            _ => None,
        },
        None => None,
    }
}

/// Decodes one flat-schema vertex.
pub fn decode_point(j: &Json) -> (r: Option<Point>)
    ensures
        r == spec_point(*j),
{
    let x = match j.get("x") {
        Some(Json::Number(JsonNum::Int(x))) => *x,
        _ => {
            return None;
        },
    };
    let y = match j.get("y") {
        Some(Json::Number(JsonNum::Int(y))) => *y,
        _ => {
            return None;
        },
    };
    Some(Point { x, y })
}

/// Decodes the vertex array from index `i` on, fail-fast.
fn decode_points_from(elems: &Vec<Json>, i: usize) -> (r: Option<Vec<Point>>)
    requires
        i <= elems@.len(),
    ensures
        match r {
            Some(v) => spec_points_from(elems@, i as int) == Some(v@),
            None => spec_points_from(elems@, i as int) is None,
        },
    decreases elems@.len() - i,
{
    if i >= elems.len() {
        Some(Vec::new())
    } else {
        let p = match decode_point(&elems[i]) {
            Some(p) => p,
            None => {
                return None;
            },
        };
        let mut rest = match decode_points_from(elems, i + 1) {
            Some(rest) => rest,
            None => {
                return None;
            },
        };
        rest.insert(0, p);
        Some(rest)
    }
}

/// Decodes a flat-schema bounding polygon.
pub fn decode_polygon(j: &Json) -> (r: Option<Polygon>)
    ensures
        match r {
            Some(pg) => spec_polygon(*j) == Some(pg@),
            None => spec_polygon(*j) is None,
        },
{
    match j.get("vertices") {
        Some(Json::Arr(elems)) => match decode_points_from(elems, 0) {
            Some(pts) => Some(Polygon { vertices: pts }),
            None => None,
        },
        _ => None,
    }
}

impl TextAnnotation {
    /// Decodes a flat annotation from its JSON shape; `None` exactly when
    /// the value does not match the flat-annotation schema.
    pub fn from_json(j: &Json) -> (r: Option<TextAnnotation>)
        ensures
            match r {
                Some(t) => spec_text_annotation(*j) == Some(t@),
                None => spec_text_annotation(*j) is None,
            },
    {
        let locale: Option<String> = match j.get("locale") {
            None => None,
            Some(Json::Null) => None,
            Some(Json::Str(s)) => Some(s.clone()),
            Some(_) => {
                return None;
            },
        };
        let description = match j.get("description") {
            Some(Json::Str(d)) => d.clone(),
            _ => {
                return None;
            },
        };
        let bounding_poly = match j.get("boundingPoly") {
            Some(bp) => match decode_polygon(bp) {
                Some(pg) => pg,
                None => {
                    return None;
                },
            },
            None => {
                return None;
            },
        };
        Some(TextAnnotation { locale, description, bounding_poly })
    }
}

/// The exact JSON shape [`point_to_json`] emits for a vertex: an object
/// with integer `x` then `y`.
pub open spec fn point_json_shape(j: Json, p: Point) -> bool {
    &&& j matches Json::Obj(fields)
    &&& fields@.len() == 2
    &&& fields@[0].0@ == "x"@
    &&& fields@[0].1 == Json::Number(JsonNum::Int(p.x))
    &&& fields@[1].0@ == "y"@
    &&& fields@[1].1 == Json::Number(JsonNum::Int(p.y))
}

/// The exact JSON shape [`polygon_to_json`] emits: an object with a single
/// `vertices` array, one vertex object per point.
pub open spec fn polygon_json_shape(j: Json, vs: Seq<Point>) -> bool {
    &&& j matches Json::Obj(fields)
    &&& fields@.len() == 1
    &&& fields@[0].0@ == "vertices"@
    &&& fields@[0].1 matches Json::Arr(elems)
    &&& elems@.len() == vs.len()
    &&& forall|i: int| 0 <= i < vs.len() ==> point_json_shape(#[trigger] elems@[i], vs[i])
}

/// The exact JSON shape [`TextAnnotation::to_json`] emits: `locale` (only
/// when present), then `description`, then `boundingPoly`.
pub open spec fn ta_json_shape(j: Json, t: TextAnnotationV) -> bool {
    match t.locale {
        Some(loc) => {
            &&& j matches Json::Obj(fields)
            &&& fields@.len() == 3
            &&& fields@[0].0@ == "locale"@
            &&& fields@[0].1 matches Json::Str(s) && s@ == loc
            &&& fields@[1].0@ == "description"@
            &&& fields@[1].1 matches Json::Str(d) && d@ == t.description
            &&& fields@[2].0@ == "boundingPoly"@
            &&& polygon_json_shape(fields@[2].1, t.bounding_poly)
        },
        None => {
            &&& j matches Json::Obj(fields)
            &&& fields@.len() == 2
            &&& fields@[0].0@ == "description"@
            &&& fields@[0].1 matches Json::Str(d) && d@ == t.description
            &&& fields@[1].0@ == "boundingPoly"@
            &&& polygon_json_shape(fields@[1].1, t.bounding_poly)
        },
    }
}

/// Decoding a vertex of the canonical shape gives the point back.
pub proof fn lemma_point_round_trip(j: Json, p: Point)
    requires
        point_json_shape(j, p),
    ensures
        spec_point(j) == Some(p),
{
    reveal_strlit("x");
    reveal_strlit("y");
    assert("x"@[0] == 'x');
    assert("y"@[0] == 'y');
    let fields = j->Obj_0;
    assert(obj_find_from(fields@, "x"@, 0) == Some(0int));
    assert(obj_find_from(fields@, "y"@, 1) == Some(1int));
    assert(obj_find_from(fields@, "y"@, 0) == Some(1int));
}

/// Decoding the vertex array of the canonical shape gives the points back,
/// from index `i` on.
proof fn lemma_points_round_trip(elems: Seq<Json>, vs: Seq<Point>, i: int)
    requires
        0 <= i <= elems.len(),
        elems.len() == vs.len(),
        forall|k: int| i <= k < vs.len() ==> point_json_shape(#[trigger] elems[k], vs[k]),
    ensures
        spec_points_from(elems, i) == Some(vs.skip(i)),
    decreases elems.len() - i,
{
    if i == elems.len() {
        assert(vs.skip(i) =~= Seq::<Point>::empty());
    } else {
        lemma_point_round_trip(elems[i], vs[i]);
        lemma_points_round_trip(elems, vs, i + 1);
        assert(vs.skip(i + 1).insert(0, vs[i]) =~= vs.skip(i));
    }
}

/// Decoding a polygon of the canonical shape gives the vertex list back.
pub proof fn lemma_polygon_round_trip(j: Json, vs: Seq<Point>)
    requires
        polygon_json_shape(j, vs),
    ensures
        spec_polygon(j) == Some(vs),
{
    reveal_strlit("vertices");
    let fields = j->Obj_0;
    assert(obj_find_from(fields@, "vertices"@, 0) == Some(0int));
    let elems = fields@[0].1->Arr_0;
    lemma_points_round_trip(elems@, vs, 0);
    assert(vs.skip(0) =~= vs);
}

/// Round trip: decoding an annotation of the canonical JSON shape gives the
/// annotation back, whether its locale is present or absent.
pub proof fn lemma_annotation_round_trip(j: Json, t: TextAnnotationV)
    requires
        ta_json_shape(j, t),
    ensures
        spec_text_annotation(j) == Some(t),
{
    reveal_strlit("locale");
    reveal_strlit("description");
    reveal_strlit("boundingPoly");
    assert("locale"@.len() == 6);
    assert("description"@.len() == 11);
    assert("boundingPoly"@.len() == 12);
    let fields = j->Obj_0;
    match t.locale {
        Some(loc) => {
            assert(obj_find_from(fields@, "locale"@, 0) == Some(0int));
            assert(obj_find_from(fields@, "description"@, 1) == Some(1int));
            assert(obj_find_from(fields@, "description"@, 0) == Some(1int));
            assert(obj_find_from(fields@, "boundingPoly"@, 2) == Some(2int));
            assert(obj_find_from(fields@, "boundingPoly"@, 1) == Some(2int));
            assert(obj_find_from(fields@, "boundingPoly"@, 0) == Some(2int));
            lemma_polygon_round_trip(fields@[2].1, t.bounding_poly);
        },
        None => {
            assert(obj_find_from(fields@, "locale"@, 2) is None);
            assert(obj_find_from(fields@, "locale"@, 1) is None);
            assert(obj_find_from(fields@, "locale"@, 0) is None);
            assert(obj_find_from(fields@, "description"@, 0) == Some(0int));
            assert(obj_find_from(fields@, "boundingPoly"@, 1) == Some(1int));
            assert(obj_find_from(fields@, "boundingPoly"@, 0) == Some(1int));
            lemma_polygon_round_trip(fields@[1].1, t.bounding_poly);
        },
    }
}

/// Encodes a vertex to its canonical JSON shape.
pub fn point_to_json(p: &Point) -> (r: Json)
    ensures
        point_json_shape(r, *p),
{
    let mut fields: Vec<(String, Json)> = Vec::new();
    fields.push(("x".to_owned(), Json::Number(JsonNum::Int(p.x))));
    fields.push(("y".to_owned(), Json::Number(JsonNum::Int(p.y))));
    Json::Obj(fields)
}

/// Encodes a polygon to its canonical JSON shape.
pub fn polygon_to_json(pg: &Polygon) -> (r: Json)
    ensures
        polygon_json_shape(r, pg@),
{
    let mut elems: Vec<Json> = Vec::new();
    let mut i: usize = 0;
    while i < pg.vertices.len()
        invariant
            i <= pg.vertices.len(),
            elems@.len() == i as int,
            forall|k: int| 0 <= k < i as int ==> point_json_shape(#[trigger] elems@[k], pg@[k]),
        decreases pg.vertices.len() - i,
    {
        elems.push(point_to_json(&pg.vertices[i]));
        i = i + 1;
    }
    let mut fields: Vec<(String, Json)> = Vec::new();
    fields.push(("vertices".to_owned(), Json::Arr(elems)));
    Json::Obj(fields)
}

impl TextAnnotation {
    /// Encodes the annotation to its canonical JSON shape. Decoding the
    /// result gives the annotation back, field for field.
    pub fn to_json(&self) -> (r: Json)
        ensures
            ta_json_shape(r, self@),
            spec_text_annotation(r) == Some(self@),
    {
        let mut fields: Vec<(String, Json)> = Vec::new();
        match &self.locale {
            Some(s) => fields.push(("locale".to_owned(), Json::Str(s.clone()))),
            None => (),
        }
        fields.push(("description".to_owned(), Json::Str(self.description.clone())));
        fields.push(("boundingPoly".to_owned(), polygon_to_json(&self.bounding_poly)));
        let r = Json::Obj(fields);
        proof {
            lemma_annotation_round_trip(r, self@);
        }
        r
    }
}

} // verus!
