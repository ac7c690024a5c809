//! The hierarchical document model: page, block, paragraph, word, symbol.
//!
//! Each node of the tree owns its children by value and carries a bounding
//! box whose vertex coordinates the service may omit, together with a
//! confidence. The confidence is whatever number the service supplied,
//! carried as a [`JsonNum`] and never validated here. A block's type is an
//! open string enumeration and is passed through opaquely.
//!
//! Decoding is total over the schema: every function here returns `Some`
//! exactly when the value matches the schema, and a mismatch surfaces at the
//! accessor boundary, never as a panic inside tree construction.

use vstd::prelude::*;
use crate::geometry::{BoundingBox, OptPoint};
use crate::json::{spec_get, Json, JsonNum};

verus! {

/// The mathematical content of a [`Symbol`].
pub ghost struct SymbolV {
    pub bounding_box: Seq<OptPoint>,
    pub confidence: JsonNum,
    pub text: Seq<char>,
}

/// The mathematical content of a [`Word`].
pub ghost struct WordV {
    pub bounding_box: Seq<OptPoint>,
    pub confidence: JsonNum,
    pub symbols: Seq<SymbolV>,
}

/// The mathematical content of a [`Paragraph`].
pub ghost struct ParagraphV {
    pub bounding_box: Seq<OptPoint>,
    pub confidence: JsonNum,
    pub words: Seq<WordV>,
}

/// The mathematical content of a [`Block`].
pub ghost struct BlockV {
    pub block_type: Seq<char>,
    pub bounding_box: Seq<OptPoint>,
    pub confidence: JsonNum,
    pub paragraphs: Seq<ParagraphV>,
}

/// The mathematical content of a [`Page`].
pub ghost struct PageV {
    pub blocks: Seq<BlockV>,
}

/// The mathematical content of a [`FullTextAnnotation`].
pub ghost struct FullTextAnnotationV {
    pub pages: Seq<PageV>,
}

/// One recognized character or symbol.
#[derive(Debug, PartialEq, Eq)]
pub struct Symbol {
    pub bounding_box: BoundingBox,
    pub confidence: JsonNum,
    pub text: String,
}

/// One recognized word, a run of symbols.
#[derive(Debug, PartialEq, Eq)]
pub struct Word {
    pub bounding_box: BoundingBox,
    pub confidence: JsonNum,
    pub symbols: Vec<Symbol>,
}

/// One paragraph, a run of words.
#[derive(Debug, PartialEq, Eq)]
pub struct Paragraph {
    pub bounding_box: BoundingBox,
    pub confidence: JsonNum,
    pub words: Vec<Word>,
}

/// One block of a page. `block_type` is an open enumeration (for example
/// `"TEXT"`); unknown values pass through untouched.
#[derive(Debug, PartialEq, Eq)]
pub struct Block {
    pub block_type: String,
    pub bounding_box: BoundingBox,
    pub confidence: JsonNum,
    pub paragraphs: Vec<Paragraph>,
}

/// One page of the document.
#[derive(Debug, PartialEq, Eq)]
pub struct Page {
    pub blocks: Vec<Block>,
}

/// The whole hierarchical annotation of a document.
#[derive(Debug, PartialEq, Eq)]
pub struct FullTextAnnotation {
    pub pages: Vec<Page>,
}

impl View for Symbol {
    type V = SymbolV;

    open spec fn view(&self) -> SymbolV {
        SymbolV {
            bounding_box: self.bounding_box@,
            confidence: self.confidence,
            text: self.text@,
        }
    }
}

impl DeepView for Symbol {
    type V = SymbolV;

    open spec fn deep_view(&self) -> SymbolV {
        self@
    }
}

impl View for Word {
    type V = WordV;

    open spec fn view(&self) -> WordV {
        WordV {
            bounding_box: self.bounding_box@,
            confidence: self.confidence,
            symbols: self.symbols.deep_view(),
        }
    }
}

impl DeepView for Word {
    type V = WordV;

    open spec fn deep_view(&self) -> WordV {
        self@
    }
}

impl View for Paragraph {
    type V = ParagraphV;

    open spec fn view(&self) -> ParagraphV {
        ParagraphV {
            bounding_box: self.bounding_box@,
            confidence: self.confidence,
            words: self.words.deep_view(),
        }
    }
}

impl DeepView for Paragraph {
    type V = ParagraphV;

    open spec fn deep_view(&self) -> ParagraphV {
        self@
    }
}

impl View for Block {
    type V = BlockV;

    open spec fn view(&self) -> BlockV {
        BlockV {
            block_type: self.block_type@,
            bounding_box: self.bounding_box@,
            confidence: self.confidence,
            paragraphs: self.paragraphs.deep_view(),
        }
    }
}

impl DeepView for Block {
    type V = BlockV;

    open spec fn deep_view(&self) -> BlockV {
        self@
    }
}

impl View for Page {
    type V = PageV;

    open spec fn view(&self) -> PageV {
        PageV { blocks: self.blocks.deep_view() }
    }
}

impl DeepView for Page {
    type V = PageV;

    open spec fn deep_view(&self) -> PageV {
        self@
    }
}

impl View for FullTextAnnotation {
    type V = FullTextAnnotationV;

    open spec fn view(&self) -> FullTextAnnotationV {
        FullTextAnnotationV { pages: self.pages.deep_view() }
    }
}

impl DeepView for FullTextAnnotation {
    type V = FullTextAnnotationV;

    open spec fn deep_view(&self) -> FullTextAnnotationV {
        self@
    }
}

/// Decode of one optional coordinate of a tree vertex: an absent or null
/// member is a legitimately absent coordinate, an integer is a present one,
/// anything else does not match the schema.
pub open spec fn spec_opt_coord(j: Json, key: Seq<char>) -> Option<Option<i64>> {
    match spec_get(j, key) {
        None => Some(None),
        Some(Json::Null) => Some(None),
        Some(Json::Number(JsonNum::Int(i))) => Some(Some(i)),
        Some(_) => None,
    }
}

/// Decode of one tree vertex, both coordinates of which may be absent.
pub open spec fn spec_opt_point(j: Json) -> Option<OptPoint> {
    match spec_opt_coord(j, "x"@) {
        Some(x) => match spec_opt_coord(j, "y"@) {
            Some(y) => Some(OptPoint { x, y }),
            None => None,
        },
        None => None,
    }
}

/// Decode of the tree vertex array elements from index `i` on, fail-fast.
pub open spec fn spec_opt_points_from(elems: Seq<Json>, i: int) -> Option<Seq<OptPoint>>
    decreases elems.len() - i,
{
    if !(0 <= i < elems.len()) {
        Some(Seq::empty())
    } else {
        match spec_opt_point(elems[i]) {
            Some(p) => match spec_opt_points_from(elems, i + 1) {
                Some(rest) => Some(rest.insert(0, p)),
                None => None,
            },
            None => None,
        }
    }
}

/// Decode of a tree bounding box: an object with a required `vertices`
/// array.
pub open spec fn spec_bounding_box(j: Json) -> Option<Seq<OptPoint>> {
    match spec_get(j, "vertices"@) {
        Some(Json::Arr(elems)) => spec_opt_points_from(elems@, 0),
        _ => None,
    }
}

/// Decode of a node's required `confidence` member: any JSON number, taken
/// as supplied.
pub open spec fn spec_confidence(j: Json) -> Option<JsonNum> {
    match spec_get(j, "confidence"@) {
        Some(Json::Number(n)) => Some(n),
        _ => None,
    }
}

/// Decode of one symbol: `boundingBox`, `confidence`, string `text`.
pub open spec fn spec_symbol(j: Json) -> Option<SymbolV> {
    match spec_get(j, "boundingBox"@) {
        Some(bb) => match spec_bounding_box(bb) {
            Some(vs) => match spec_confidence(j) {
                Some(c) => match spec_get(j, "text"@) {
                    Some(Json::Str(t)) => Some(
                        SymbolV { bounding_box: vs, confidence: c, text: t@ },
                    ),
                    _ => None,
                },
                None => None,
            },
            None => None,
        },
        None => None,
    }
}

/// Decode of the symbol array elements from index `i` on, fail-fast.
pub open spec fn spec_symbols_from(elems: Seq<Json>, i: int) -> Option<Seq<SymbolV>>
    decreases elems.len() - i,
{
    if !(0 <= i < elems.len()) {
        Some(Seq::empty())
    } else {
        match spec_symbol(elems[i]) {
            Some(s) => match spec_symbols_from(elems, i + 1) {
                Some(rest) => Some(rest.insert(0, s)),
                None => None,
            },
            None => None,
        }
    }
}

/// Decode of one word: `boundingBox`, `confidence`, `symbols` array.
pub open spec fn spec_word(j: Json) -> Option<WordV> {
    match spec_get(j, "boundingBox"@) {
        Some(bb) => match spec_bounding_box(bb) {
            Some(vs) => match spec_confidence(j) {
                Some(c) => match spec_get(j, "symbols"@) {
                    Some(Json::Arr(elems)) => match spec_symbols_from(elems@, 0) {
                        Some(ss) => Some(
                            WordV { bounding_box: vs, confidence: c, symbols: ss },
                        ),
                        None => None,
                    },
                    _ => None,
                },
                None => None,
            },
            None => None,
        },
        None => None,
    }
}

/// Decode of the word array elements from index `i` on, fail-fast.
pub open spec fn spec_words_from(elems: Seq<Json>, i: int) -> Option<Seq<WordV>>
    decreases elems.len() - i,
{
    if !(0 <= i < elems.len()) {
        Some(Seq::empty())
    } else {
        match spec_word(elems[i]) {
            Some(w) => match spec_words_from(elems, i + 1) {
                Some(rest) => Some(rest.insert(0, w)),
                None => None,
            },
            None => None,
        }
    }
}

/// Decode of one paragraph: `boundingBox`, `confidence`, `words` array.
pub open spec fn spec_paragraph(j: Json) -> Option<ParagraphV> {
    match spec_get(j, "boundingBox"@) {
        Some(bb) => match spec_bounding_box(bb) {
            Some(vs) => match spec_confidence(j) {
                Some(c) => match spec_get(j, "words"@) {
                    Some(Json::Arr(elems)) => match spec_words_from(elems@, 0) {
                        Some(ws) => Some(
                            ParagraphV { bounding_box: vs, confidence: c, words: ws },
                        ),
                        None => None,
                    },
                    _ => None,
                },
                None => None,
            },
            None => None,
        },
        None => None,
    }
}

/// Decode of the paragraph array elements from index `i` on, fail-fast.
pub open spec fn spec_paragraphs_from(elems: Seq<Json>, i: int) -> Option<Seq<ParagraphV>>
    decreases elems.len() - i,
{
    if !(0 <= i < elems.len()) {
        Some(Seq::empty())
    } else {
        match spec_paragraph(elems[i]) {
            Some(p) => match spec_paragraphs_from(elems, i + 1) {
                Some(rest) => Some(rest.insert(0, p)),
                None => None,
            },
            None => None,
        }
    }
}

/// Decode of one block: string `blockType`, `boundingBox`, `confidence`,
/// `paragraphs` array.
pub open spec fn spec_block(j: Json) -> Option<BlockV> {
    match spec_get(j, "blockType"@) {
        Some(Json::Str(bt)) => match spec_get(j, "boundingBox"@) {
            Some(bb) => match spec_bounding_box(bb) {
                Some(vs) => match spec_confidence(j) {
                    Some(c) => match spec_get(j, "paragraphs"@) {
                        Some(Json::Arr(elems)) => match spec_paragraphs_from(elems@, 0) {
                            Some(ps) => Some(
                                BlockV {
                                    block_type: bt@,
                                    bounding_box: vs,
                                    confidence: c,
                                    paragraphs: ps,
                                },
                            ),
                            None => None,
                        },
                        _ => None,
                    },
                    None => None,
                },
                None => None,
            },
            None => None,
        },
        _ => None,
    }
}

/// Decode of the block array elements from index `i` on, fail-fast.
pub open spec fn spec_blocks_from(elems: Seq<Json>, i: int) -> Option<Seq<BlockV>>
    decreases elems.len() - i,
{
    if !(0 <= i < elems.len()) {
        Some(Seq::empty())
    } else {
        match spec_block(elems[i]) {
            Some(b) => match spec_blocks_from(elems, i + 1) {
                Some(rest) => Some(rest.insert(0, b)),
                None => None,
            },
            None => None,
        }
    }
}

/// Decode of one page: a required `blocks` array.
pub open spec fn spec_page(j: Json) -> Option<PageV> {
    match spec_get(j, "blocks"@) {
        Some(Json::Arr(elems)) => match spec_blocks_from(elems@, 0) {
            Some(bs) => Some(PageV { blocks: bs }),
            None => None,
        },
        _ => None,
    }
}

/// Decode of the page array elements from index `i` on, fail-fast.
pub open spec fn spec_pages_from(elems: Seq<Json>, i: int) -> Option<Seq<PageV>>
    decreases elems.len() - i,
{
    if !(0 <= i < elems.len()) {
        Some(Seq::empty())
    } else {
        match spec_page(elems[i]) {
            Some(p) => match spec_pages_from(elems, i + 1) {
                Some(rest) => Some(rest.insert(0, p)),
                None => None,
            },
            None => None,
        }
    }
}

/// Decode of a whole hierarchical annotation: a required `pages` array.
pub open spec fn spec_full_text_annotation(j: Json) -> Option<FullTextAnnotationV> {
    match spec_get(j, "pages"@) {
        Some(Json::Arr(elems)) => match spec_pages_from(elems@, 0) {
            Some(ps) => Some(FullTextAnnotationV { pages: ps }),
            None => None,
        },
        _ => None,
    }
}

/// Decodes a tree bounding box.
pub fn decode_bounding_box(j: &Json) -> (r: Option<BoundingBox>)
    ensures
        match r {
            Some(b) => spec_bounding_box(*j) == Some(b@),
            None => spec_bounding_box(*j) is None,
        },
{
    match j.get("vertices") {
        Some(Json::Arr(elems)) => match decode_opt_points_from(elems, 0) {
            Some(vs) => Some(BoundingBox { vertices: vs }),
            None => None,
        },
        _ => None,
    }
}

/// Decodes one tree vertex.
pub fn decode_opt_point(j: &Json) -> (r: Option<OptPoint>)
    ensures
        r == spec_opt_point(*j),
{
    let x = match j.get("x") {
        None => None,
        Some(Json::Null) => None,
        Some(Json::Number(JsonNum::Int(i))) => Some(*i),
        Some(_) => {
            return None;
        },
    };
    let y = match j.get("y") {
        None => None,
        Some(Json::Null) => None,
        Some(Json::Number(JsonNum::Int(i))) => Some(*i),
        Some(_) => {
            return None;
        },
    };
    Some(OptPoint { x, y })
}

/// Decodes the tree vertex array from index `i` on, fail-fast.
fn decode_opt_points_from(elems: &Vec<Json>, i: usize) -> (r: Option<Vec<OptPoint>>)
    requires
        i <= elems@.len(),
    ensures
        match r {
            Some(v) => spec_opt_points_from(elems@, i as int) == Some(v@),
            None => spec_opt_points_from(elems@, i as int) is None,
        },
    decreases elems@.len() - i,
{
    if i >= elems.len() {
        Some(Vec::new())
    } else {
        let p = match decode_opt_point(&elems[i]) {
            Some(p) => p,
            None => {
                return None;
            },
        };
        let mut rest = match decode_opt_points_from(elems, i + 1) {
            Some(rest) => rest,
            None => {
                return None;
            },
        };
        rest.insert(0, p);
        Some(rest)
    }
}

/// Decodes a node's `confidence` member.
pub fn decode_confidence(j: &Json) -> (r: Option<JsonNum>)
    ensures
        r == spec_confidence(*j),
{
    match j.get("confidence") {
        Some(Json::Number(n)) => Some(*n),
        _ => None,
    }
}

impl Symbol {
    /// Decodes one symbol; `None` exactly when the value does not match the
    /// symbol schema.
    pub fn from_json(j: &Json) -> (r: Option<Symbol>)
        ensures
            match r {
                Some(s) => spec_symbol(*j) == Some(s@),
                None => spec_symbol(*j) is None,
            },
    {
        let bounding_box = match j.get("boundingBox") {
            Some(bb) => match decode_bounding_box(bb) {
                Some(b) => b,
                None => {
                    return None;
                },
            },
            None => {
                return None;
            },
        };
        let confidence = match decode_confidence(j) {
            Some(c) => c,
            None => {
                return None;
            },
        };
        let text = match j.get("text") {
            Some(Json::Str(t)) => t.clone(),
            _ => {
                return None;
            },
        };
        Some(Symbol { bounding_box, confidence, text })
    }
}

/// Decodes the symbol array from index `i` on, fail-fast.
fn decode_symbols_from(elems: &Vec<Json>, i: usize) -> (r: Option<Vec<Symbol>>)
    requires
        i <= elems@.len(),
    ensures
        match r {
            Some(v) => spec_symbols_from(elems@, i as int) == Some(v.deep_view()),
            None => spec_symbols_from(elems@, i as int) is None,
        },
    decreases elems@.len() - i,
{
    if i >= elems.len() {
        Some(Vec::new())
    } else {
        let s = match Symbol::from_json(&elems[i]) {
            Some(s) => s,
            None => {
                return None;
            },
        };
        let mut rest = match decode_symbols_from(elems, i + 1) {
            Some(rest) => rest,
            None => {
                return None;
            },
        };
        rest.insert(0, s);
        Some(rest)
    }
}

impl Word {
    /// Decodes one word; `None` exactly when the value does not match the
    /// word schema.
    pub fn from_json(j: &Json) -> (r: Option<Word>)
        ensures
            match r {
                Some(w) => spec_word(*j) == Some(w@),
                None => spec_word(*j) is None,
            },
    {
        let bounding_box = match j.get("boundingBox") {
            Some(bb) => match decode_bounding_box(bb) {
                Some(b) => b,
                None => {
                    return None;
                },
            },
            None => {
                return None;
            },
        };
        let confidence = match decode_confidence(j) {
            Some(c) => c,
            None => {
                return None;
            },
        };
        let symbols = match j.get("symbols") {
            Some(Json::Arr(elems)) => match decode_symbols_from(elems, 0) {
                Some(ss) => ss,
                None => {
                    return None;
                },
            },
            _ => {
                return None;
            },
        };
        Some(Word { bounding_box, confidence, symbols })
    }
}

/// Decodes the word array from index `i` on, fail-fast.
fn decode_words_from(elems: &Vec<Json>, i: usize) -> (r: Option<Vec<Word>>)
    requires
        i <= elems@.len(),
    ensures
        match r {
            Some(v) => spec_words_from(elems@, i as int) == Some(v.deep_view()),
            None => spec_words_from(elems@, i as int) is None,
        },
    decreases elems@.len() - i,
{
    if i >= elems.len() {
        Some(Vec::new())
    } else {
        let w = match Word::from_json(&elems[i]) {
            Some(w) => w,
            None => {
                return None;
            },
        };
        let mut rest = match decode_words_from(elems, i + 1) {
            Some(rest) => rest,
            None => {
                return None;
            },
        };
        rest.insert(0, w);
        Some(rest)
    }
}

impl Paragraph {
    /// Decodes one paragraph; `None` exactly when the value does not match
    /// the paragraph schema.
    pub fn from_json(j: &Json) -> (r: Option<Paragraph>)
        ensures
            match r {
                Some(p) => spec_paragraph(*j) == Some(p@),
                None => spec_paragraph(*j) is None,
            },
    {
        let bounding_box = match j.get("boundingBox") {
            Some(bb) => match decode_bounding_box(bb) {
                Some(b) => b,
                None => {
                    return None;
                },
            },
            None => {
                return None;
            },
        };
        let confidence = match decode_confidence(j) {
            Some(c) => c,
            None => {
                return None;
            },
        };
        let words = match j.get("words") {
            Some(Json::Arr(elems)) => match decode_words_from(elems, 0) {
                Some(ws) => ws,
                None => {
                    return None;
                },
            },
            _ => {
                return None;
            },
        };
        Some(Paragraph { bounding_box, confidence, words })
    }
}

/// Decodes the paragraph array from index `i` on, fail-fast.
fn decode_paragraphs_from(elems: &Vec<Json>, i: usize) -> (r: Option<Vec<Paragraph>>)
    requires
        i <= elems@.len(),
    ensures
        match r {
            Some(v) => spec_paragraphs_from(elems@, i as int) == Some(v.deep_view()),
            None => spec_paragraphs_from(elems@, i as int) is None,
        },
    decreases elems@.len() - i,
{
    if i >= elems.len() {
        Some(Vec::new())
    } else {
        let p = match Paragraph::from_json(&elems[i]) {
            Some(p) => p,
            None => {
                return None;
            },
        };
        let mut rest = match decode_paragraphs_from(elems, i + 1) {
            Some(rest) => rest,
            None => {
                return None;
            },
        };
        rest.insert(0, p);
        Some(rest)
    }
}

impl Block {
    /// Decodes one block; `None` exactly when the value does not match the
    /// block schema.
    pub fn from_json(j: &Json) -> (r: Option<Block>)
        ensures
            match r {
                Some(b) => spec_block(*j) == Some(b@),
                None => spec_block(*j) is None,
            },
    {
        let block_type = match j.get("blockType") {
            Some(Json::Str(bt)) => bt.clone(),
            _ => {
                return None;
            },
        };
        let bounding_box = match j.get("boundingBox") {
            Some(bb) => match decode_bounding_box(bb) {
                Some(b) => b,
                None => {
                    return None;
                },
            },
            None => {
                return None;
            },
        };
        let confidence = match decode_confidence(j) {
            Some(c) => c,
            None => {
                return None;
            },
        };
        let paragraphs = match j.get("paragraphs") {
            Some(Json::Arr(elems)) => match decode_paragraphs_from(elems, 0) {
                Some(ps) => ps,
                None => {
                    return None;
                },
            },
            _ => {
                return None;
            },
        };
        Some(Block { block_type, bounding_box, confidence, paragraphs })
    }
}

/// Decodes the block array from index `i` on, fail-fast.
fn decode_blocks_from(elems: &Vec<Json>, i: usize) -> (r: Option<Vec<Block>>)
    requires
        i <= elems@.len(),
    ensures
        match r {
            Some(v) => spec_blocks_from(elems@, i as int) == Some(v.deep_view()),
            None => spec_blocks_from(elems@, i as int) is None,
        },
    decreases elems@.len() - i,
{
    if i >= elems.len() {
        Some(Vec::new())
    } else {
        let b = match Block::from_json(&elems[i]) {
            Some(b) => b,
            None => {
                return None;
            },
        };
        let mut rest = match decode_blocks_from(elems, i + 1) {
            Some(rest) => rest,
            None => {
                return None;
            },
        };
        rest.insert(0, b);
        Some(rest)
    }
}

impl Page {
    /// Decodes one page; `None` exactly when the value does not match the
    /// page schema.
    pub fn from_json(j: &Json) -> (r: Option<Page>)
        ensures
            match r {
                Some(p) => spec_page(*j) == Some(p@),
                None => spec_page(*j) is None,
            },
    {
        match j.get("blocks") {
            Some(Json::Arr(elems)) => match decode_blocks_from(elems, 0) {
                Some(bs) => Some(Page { blocks: bs }),
                None => None,
            },
            _ => None,
        }
    }
}

/// Decodes the page array from index `i` on, fail-fast.
fn decode_pages_from(elems: &Vec<Json>, i: usize) -> (r: Option<Vec<Page>>)
    requires
        i <= elems@.len(),
    ensures
        match r {
            Some(v) => spec_pages_from(elems@, i as int) == Some(v.deep_view()),
            None => spec_pages_from(elems@, i as int) is None,
        },
    decreases elems@.len() - i,
{
    if i >= elems.len() {
        Some(Vec::new())
    } else {
        let p = match Page::from_json(&elems[i]) {
            Some(p) => p,
            None => {
                return None;
            },
        };
        let mut rest = match decode_pages_from(elems, i + 1) {
            Some(rest) => rest,
            None => {
                return None;
            },
        };
        rest.insert(0, p);
        Some(rest)
    }
}

impl FullTextAnnotation {
    /// Decodes a whole hierarchical annotation; `None` exactly when the
    /// value does not match the document schema.
    pub fn from_json(j: &Json) -> (r: Option<FullTextAnnotation>)
        ensures
            match r {
                Some(f) => spec_full_text_annotation(*j) == Some(f@),
                None => spec_full_text_annotation(*j) is None,
            },
    {
        match j.get("pages") {
            Some(Json::Arr(elems)) => match decode_pages_from(elems, 0) {
                Some(ps) => Some(FullTextAnnotation { pages: ps }),
                None => None,
            },
            _ => None,
        }
    }
}

} // verus!
