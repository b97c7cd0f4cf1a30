//! Flat encoding of parse trees for boundary transfer.
//!
//! A tree-shaped parse result crosses the boundary as a linear stream
//! of marks: a start mark with the node's kind at its starting byte
//! offset, the children in order, and a matching end mark at its ending
//! offset. Error nodes emit an error mark referencing a side buffer of
//! raw message bytes. The stream is well nested, and reconstructing
//! node boundaries from it yields exactly the kinds and offsets of the
//! original tree, which is proved below.

use vstd::prelude::*;
use crate::buffer::CVec;

verus! {

/// The kind of a syntax node, as the grammar distinguishes them. The
/// order fixes each kind's numeric code in the flat encoding.
#[derive(Debug, Clone, Copy, PartialEq, Eq, Structural)]
pub enum SyntaxKind {
    End,
    Error,
    Shebang,
    LineComment,
    BlockComment,
    Markup,
    Text,
    Space,
    Linebreak,
    Parbreak,
    Escape,
    Shorthand,
    SmartQuote,
    Strong,
    Emph,
    Raw,
    RawLang,
    RawDelim,
    RawTrimmed,
    Link,
    Label,
    Ref,
    RefMarker,
    Heading,
    HeadingMarker,
    ListItem,
    ListMarker,
    EnumItem,
    EnumMarker,
    TermItem,
    TermMarker,
    Equation,
    Math,
    MathText,
    MathIdent,
    MathShorthand,
    MathAlignPoint,
    MathDelimited,
    MathAttach,
    MathPrimes,
    MathFrac,
    MathRoot,
    Hash,
    LeftBrace,
    RightBrace,
    LeftBracket,
    RightBracket,
    LeftParen,
    RightParen,
    Comma,
    Semicolon,
    Colon,
    Star,
    Underscore,
    Dollar,
    Plus,
    Minus,
    Slash,
    Hat,
    Prime,
    Dot,
    EqSign,
    EqEq,
    ExclEq,
    Lt,
    LtEq,
    Gt,
    GtEq,
    PlusEq,
    HyphEq,
    StarEq,
    SlashEq,
    Dots,
    Arrow,
    Root,
    Not,
    And,
    Or,
    NoneKw,
    Auto,
    Let,
    SetKw,
    Show,
    Context,
    If,
    Else,
    For,
    In,
    While,
    Break,
    Continue,
    Return,
    Import,
    Include,
    As,
    Code,
    Ident,
    Bool,
    Int,
    Float,
    Numeric,
    Str,
    CodeBlock,
    ContentBlock,
    Parenthesized,
    Array,
    Dict,
    Named,
    Keyed,
    Unary,
    Binary,
    FieldAccess,
    FuncCall,
    Args,
    Spread,
    Closure,
    Params,
    LetBinding,
    SetRule,
    ShowRule,
    Contextual,
    Conditional,
    WhileLoop,
    ForLoop,
    ModuleImport,
    ImportItems,
    ImportItemPath,
    RenamedImportItem,
    ModuleInclude,
    LoopBreak,
    LoopContinue,
    FuncReturn,
    Destructuring,
    DestructAssignment,
}

/// The numeric code of a node kind in the flat encoding.
pub open spec fn kind_code(k: SyntaxKind) -> int {
    match k {
        SyntaxKind::End => 0,
        SyntaxKind::Error => 1,
        SyntaxKind::Shebang => 2,
        SyntaxKind::LineComment => 3,
        SyntaxKind::BlockComment => 4,
        SyntaxKind::Markup => 5,
        SyntaxKind::Text => 6,
        SyntaxKind::Space => 7,
        SyntaxKind::Linebreak => 8,
        SyntaxKind::Parbreak => 9,
        SyntaxKind::Escape => 10,
        SyntaxKind::Shorthand => 11,
        SyntaxKind::SmartQuote => 12,
        SyntaxKind::Strong => 13,
        SyntaxKind::Emph => 14,
        SyntaxKind::Raw => 15,
        SyntaxKind::RawLang => 16,
        SyntaxKind::RawDelim => 17,
        SyntaxKind::RawTrimmed => 18,
        SyntaxKind::Link => 19,
        SyntaxKind::Label => 20,
        SyntaxKind::Ref => 21,
        SyntaxKind::RefMarker => 22,
        SyntaxKind::Heading => 23,
        SyntaxKind::HeadingMarker => 24,
        SyntaxKind::ListItem => 25,
        SyntaxKind::ListMarker => 26,
        SyntaxKind::EnumItem => 27,
        SyntaxKind::EnumMarker => 28,
        SyntaxKind::TermItem => 29,
        SyntaxKind::TermMarker => 30,
        SyntaxKind::Equation => 31,
        SyntaxKind::Math => 32,
        SyntaxKind::MathText => 33,
        SyntaxKind::MathIdent => 34,
        SyntaxKind::MathShorthand => 35,
        SyntaxKind::MathAlignPoint => 36,
        SyntaxKind::MathDelimited => 37,
        SyntaxKind::MathAttach => 38,
        SyntaxKind::MathPrimes => 39,
        SyntaxKind::MathFrac => 40,
        SyntaxKind::MathRoot => 41,
        SyntaxKind::Hash => 42,
        SyntaxKind::LeftBrace => 43,
        SyntaxKind::RightBrace => 44,
        SyntaxKind::LeftBracket => 45,
        SyntaxKind::RightBracket => 46,
        SyntaxKind::LeftParen => 47,
        SyntaxKind::RightParen => 48,
        SyntaxKind::Comma => 49,
        SyntaxKind::Semicolon => 50,
        SyntaxKind::Colon => 51,
        SyntaxKind::Star => 52,
        SyntaxKind::Underscore => 53,
        SyntaxKind::Dollar => 54,
        SyntaxKind::Plus => 55,
        SyntaxKind::Minus => 56,
        SyntaxKind::Slash => 57,
        SyntaxKind::Hat => 58,
        SyntaxKind::Prime => 59,
        SyntaxKind::Dot => 60,
        SyntaxKind::EqSign => 61,
        SyntaxKind::EqEq => 62,
        SyntaxKind::ExclEq => 63,
        SyntaxKind::Lt => 64,
        SyntaxKind::LtEq => 65,
        SyntaxKind::Gt => 66,
        SyntaxKind::GtEq => 67,
        SyntaxKind::PlusEq => 68,
        SyntaxKind::HyphEq => 69,
        SyntaxKind::StarEq => 70,
        SyntaxKind::SlashEq => 71,
        SyntaxKind::Dots => 72,
        SyntaxKind::Arrow => 73,
        SyntaxKind::Root => 74,
        SyntaxKind::Not => 75,
        SyntaxKind::And => 76,
        SyntaxKind::Or => 77,
        SyntaxKind::NoneKw => 78,
        SyntaxKind::Auto => 79,
        SyntaxKind::Let => 80,
        SyntaxKind::SetKw => 81,
        SyntaxKind::Show => 82,
        SyntaxKind::Context => 83,
        SyntaxKind::If => 84,
        SyntaxKind::Else => 85,
        SyntaxKind::For => 86,
        SyntaxKind::In => 87,
        SyntaxKind::While => 88,
        SyntaxKind::Break => 89,
        SyntaxKind::Continue => 90,
        SyntaxKind::Return => 91,
        SyntaxKind::Import => 92,
        SyntaxKind::Include => 93,
        SyntaxKind::As => 94,
        SyntaxKind::Code => 95,
        SyntaxKind::Ident => 96,
        SyntaxKind::Bool => 97,
        SyntaxKind::Int => 98,
        SyntaxKind::Float => 99,
        SyntaxKind::Numeric => 100,
        SyntaxKind::Str => 101,
        SyntaxKind::CodeBlock => 102,
        SyntaxKind::ContentBlock => 103,
        SyntaxKind::Parenthesized => 104,
        SyntaxKind::Array => 105,
        SyntaxKind::Dict => 106,
        SyntaxKind::Named => 107,
        SyntaxKind::Keyed => 108,
        SyntaxKind::Unary => 109,
        SyntaxKind::Binary => 110,
        SyntaxKind::FieldAccess => 111,
        SyntaxKind::FuncCall => 112,
        SyntaxKind::Args => 113,
        SyntaxKind::Spread => 114,
        SyntaxKind::Closure => 115,
        SyntaxKind::Params => 116,
        SyntaxKind::LetBinding => 117,
        SyntaxKind::SetRule => 118,
        SyntaxKind::ShowRule => 119,
        SyntaxKind::Contextual => 120,
        SyntaxKind::Conditional => 121,
        SyntaxKind::WhileLoop => 122,
        SyntaxKind::ForLoop => 123,
        SyntaxKind::ModuleImport => 124,
        SyntaxKind::ImportItems => 125,
        SyntaxKind::ImportItemPath => 126,
        SyntaxKind::RenamedImportItem => 127,
        SyntaxKind::ModuleInclude => 128,
        SyntaxKind::LoopBreak => 129,
        SyntaxKind::LoopContinue => 130,
        SyntaxKind::FuncReturn => 131,
        SyntaxKind::Destructuring => 132,
        SyntaxKind::DestructAssignment => 133,
    }
}

/// Encodes a node kind as its numeric code.
pub fn encode_kind(k: SyntaxKind) -> (r: i32)
    ensures
        r == kind_code(k),
{
    match k {
            SyntaxKind::End => 0,
            SyntaxKind::Error => 1,
            SyntaxKind::Shebang => 2,
            SyntaxKind::LineComment => 3,
            SyntaxKind::BlockComment => 4,
            SyntaxKind::Markup => 5,
            SyntaxKind::Text => 6,
            SyntaxKind::Space => 7,
            SyntaxKind::Linebreak => 8,
            SyntaxKind::Parbreak => 9,
            SyntaxKind::Escape => 10,
            SyntaxKind::Shorthand => 11,
            SyntaxKind::SmartQuote => 12,
            SyntaxKind::Strong => 13,
            SyntaxKind::Emph => 14,
            SyntaxKind::Raw => 15,
            SyntaxKind::RawLang => 16,
            SyntaxKind::RawDelim => 17,
            SyntaxKind::RawTrimmed => 18,
            SyntaxKind::Link => 19,
            SyntaxKind::Label => 20,
            SyntaxKind::Ref => 21,
            SyntaxKind::RefMarker => 22,
            SyntaxKind::Heading => 23,
            SyntaxKind::HeadingMarker => 24,
            SyntaxKind::ListItem => 25,
            SyntaxKind::ListMarker => 26,
            SyntaxKind::EnumItem => 27,
            SyntaxKind::EnumMarker => 28,
            SyntaxKind::TermItem => 29,
            SyntaxKind::TermMarker => 30,
            SyntaxKind::Equation => 31,
            SyntaxKind::Math => 32,
            SyntaxKind::MathText => 33,
            SyntaxKind::MathIdent => 34,
            SyntaxKind::MathShorthand => 35,
            SyntaxKind::MathAlignPoint => 36,
            SyntaxKind::MathDelimited => 37,
            SyntaxKind::MathAttach => 38,
            SyntaxKind::MathPrimes => 39,
            SyntaxKind::MathFrac => 40,
            SyntaxKind::MathRoot => 41,
            SyntaxKind::Hash => 42,
            SyntaxKind::LeftBrace => 43,
            SyntaxKind::RightBrace => 44,
            SyntaxKind::LeftBracket => 45,
            SyntaxKind::RightBracket => 46,
            SyntaxKind::LeftParen => 47,
            SyntaxKind::RightParen => 48,
            SyntaxKind::Comma => 49,
            SyntaxKind::Semicolon => 50,
            SyntaxKind::Colon => 51,
            SyntaxKind::Star => 52,
            SyntaxKind::Underscore => 53,
            SyntaxKind::Dollar => 54,
            SyntaxKind::Plus => 55,
            SyntaxKind::Minus => 56,
            SyntaxKind::Slash => 57,
            SyntaxKind::Hat => 58,
            SyntaxKind::Prime => 59,
            SyntaxKind::Dot => 60,
            SyntaxKind::EqSign => 61,
            SyntaxKind::EqEq => 62,
            SyntaxKind::ExclEq => 63,
            SyntaxKind::Lt => 64,
            SyntaxKind::LtEq => 65,
            SyntaxKind::Gt => 66,
            SyntaxKind::GtEq => 67,
            SyntaxKind::PlusEq => 68,
            SyntaxKind::HyphEq => 69,
            SyntaxKind::StarEq => 70,
            SyntaxKind::SlashEq => 71,
            SyntaxKind::Dots => 72,
            SyntaxKind::Arrow => 73,
            SyntaxKind::Root => 74,
            SyntaxKind::Not => 75,
            SyntaxKind::And => 76,
            SyntaxKind::Or => 77,
            SyntaxKind::NoneKw => 78,
            SyntaxKind::Auto => 79,
            SyntaxKind::Let => 80,
            SyntaxKind::SetKw => 81,
            SyntaxKind::Show => 82,
            SyntaxKind::Context => 83,
            SyntaxKind::If => 84,
            SyntaxKind::Else => 85,
            SyntaxKind::For => 86,
            SyntaxKind::In => 87,
            SyntaxKind::While => 88,
            SyntaxKind::Break => 89,
            SyntaxKind::Continue => 90,
            SyntaxKind::Return => 91,
            SyntaxKind::Import => 92,
            SyntaxKind::Include => 93,
            SyntaxKind::As => 94,
            SyntaxKind::Code => 95,
            SyntaxKind::Ident => 96,
            SyntaxKind::Bool => 97,
            SyntaxKind::Int => 98,
            SyntaxKind::Float => 99,
            SyntaxKind::Numeric => 100,
            SyntaxKind::Str => 101,
            SyntaxKind::CodeBlock => 102,
            SyntaxKind::ContentBlock => 103,
            SyntaxKind::Parenthesized => 104,
            SyntaxKind::Array => 105,
            SyntaxKind::Dict => 106,
            SyntaxKind::Named => 107,
            SyntaxKind::Keyed => 108,
            SyntaxKind::Unary => 109,
            SyntaxKind::Binary => 110,
            SyntaxKind::FieldAccess => 111,
            SyntaxKind::FuncCall => 112,
            SyntaxKind::Args => 113,
            SyntaxKind::Spread => 114,
            SyntaxKind::Closure => 115,
            SyntaxKind::Params => 116,
            SyntaxKind::LetBinding => 117,
            SyntaxKind::SetRule => 118,
            SyntaxKind::ShowRule => 119,
            SyntaxKind::Contextual => 120,
            SyntaxKind::Conditional => 121,
            SyntaxKind::WhileLoop => 122,
            SyntaxKind::ForLoop => 123,
            SyntaxKind::ModuleImport => 124,
            SyntaxKind::ImportItems => 125,
            SyntaxKind::ImportItemPath => 126,
            SyntaxKind::RenamedImportItem => 127,
            SyntaxKind::ModuleInclude => 128,
            SyntaxKind::LoopBreak => 129,
            SyntaxKind::LoopContinue => 130,
            SyntaxKind::FuncReturn => 131,
            SyntaxKind::Destructuring => 132,
            SyntaxKind::DestructAssignment => 133,
    }
}

/// One mark of the flat encoding, paired with a byte offset when
/// emitted.
#[derive(Debug, Clone, Copy, PartialEq, Eq, Structural)]
pub enum SyntaxMark {
    /// A node of this kind begins here.
    NodeStart(SyntaxKind),
    /// The most recent unmatched node ends here.
    NodeEnd,
    /// An error node begins here; its message is the referenced entry
    /// of the error side buffer.
    Error(i32),
}

/// The numeric code of a mark: kinds keep their codes, the end mark
/// follows them, and error marks carry their buffer index above that.
pub open spec fn mark_code(m: SyntaxMark) -> int {
    match m {
        SyntaxMark::NodeStart(k) => kind_code(k),
        SyntaxMark::NodeEnd => 134,
        SyntaxMark::Error(idx) => 135 + idx,
    }
}

impl SyntaxMark {
    /// Encodes a mark as its numeric code.
    pub fn encode(self) -> (r: i32)
        requires
            self matches SyntaxMark::Error(idx) ==> 0 <= idx <= i32::MAX - 135,
        ensures
            r == mark_code(self),
    {
        match self {
            SyntaxMark::NodeStart(k) => encode_kind(k),
            SyntaxMark::NodeEnd => 134,
            SyntaxMark::Error(idx) => 135 + idx,
        }
    }
}

/// A parse tree in the form the flattener consumes: tokens with their
/// byte length, inner nodes over their children, and error nodes with
/// their raw message bytes and the length of the text they cover.
#[derive(Debug, PartialEq)]
pub enum TreeNode {
    Leaf { kind: SyntaxKind, len: u32 },
    Inner { kind: SyntaxKind, children: Vec<TreeNode> },
    Error { message: Vec<u8>, len: u32 },
}

/// The model of a parse tree.
#[verifier::ext_equal]
pub enum TreeModel {
    Leaf { kind: SyntaxKind, len: int },
    Inner { kind: SyntaxKind, children: Seq<TreeModel> },
    Error { message: Seq<u8>, len: int },
}

/// The model of a tree node.
pub open spec fn tree_model(t: TreeNode) -> TreeModel
    decreases t, 1int,
{
    match t {
        TreeNode::Leaf { kind, len } => TreeModel::Leaf { kind, len: len as int },
        TreeNode::Inner { kind, children } => TreeModel::Inner {
            kind,
            children: forest_model(children@),
        },
        TreeNode::Error { message, len } => TreeModel::Error { message: message@, len: len as int },
    }
}

/// The models of a sequence of tree nodes.
pub open spec fn forest_model(s: Seq<TreeNode>) -> Seq<TreeModel>
    decreases s, 0int,
{
    if s.len() == 0 {
        Seq::empty()
    } else {
        seq![tree_model(s[0])] + forest_model(s.drop_first())
    }
}

/// The byte length a node covers: a token's own length, or the sum of
/// the children's lengths.
pub open spec fn model_len(m: TreeModel) -> int
    decreases m, 1int,
{
    match m {
        TreeModel::Leaf { len, .. } => len,
        TreeModel::Inner { children, .. } => forest_len(children),
        TreeModel::Error { len, .. } => len,
    }
}

/// The combined byte length of a forest.
pub open spec fn forest_len(s: Seq<TreeModel>) -> int
    decreases s, 0int,
{
    if s.len() == 0 {
        0
    } else {
        model_len(s[0]) + forest_len(s.drop_first())
    }
}

/// The number of error nodes in a tree, in pre-order.
pub open spec fn error_count(m: TreeModel) -> int
    decreases m, 1int,
{
    match m {
        TreeModel::Leaf { .. } => 0,
        TreeModel::Inner { children, .. } => forest_error_count(children),
        TreeModel::Error { .. } => 1,
    }
}

/// The number of error nodes in a forest.
pub open spec fn forest_error_count(s: Seq<TreeModel>) -> int
    decreases s, 0int,
{
    if s.len() == 0 {
        0
    } else {
        error_count(s[0]) + forest_error_count(s.drop_first())
    }
}

/// The error message bytes of a tree, concatenated in pre-order.
pub open spec fn flat_errors(m: TreeModel) -> Seq<u8>
    decreases m, 1int,
{
    match m {
        TreeModel::Leaf { .. } => Seq::empty(),
        TreeModel::Inner { children, .. } => forest_errors(children),
        TreeModel::Error { message, .. } => message,
    }
}

/// The error message bytes of a forest.
pub open spec fn forest_errors(s: Seq<TreeModel>) -> Seq<u8>
    decreases s, 0int,
{
    if s.len() == 0 {
        Seq::empty()
    } else {
        flat_errors(s[0]) + forest_errors(s.drop_first())
    }
}

/// The start offsets of a tree's error messages within the error
/// buffer, when the buffer already holds `b0` bytes.
pub open spec fn flat_starts(m: TreeModel, b0: int) -> Seq<int>
    decreases m, 1int,
{
    match m {
        TreeModel::Leaf { .. } => Seq::empty(),
        TreeModel::Inner { children, .. } => forest_starts(children, b0),
        TreeModel::Error { .. } => seq![b0],
    }
}

/// The start offsets of a forest's error messages.
pub open spec fn forest_starts(s: Seq<TreeModel>, b0: int) -> Seq<int>
    decreases s, 0int,
{
    if s.len() == 0 {
        Seq::empty()
    } else {
        flat_starts(s[0], b0) + forest_starts(s.drop_first(), b0 + flat_errors(s[0]).len())
    }
}

/// A mark at the model level, with unbounded error indices.
#[verifier::ext_equal]
pub enum MarkModel {
    Start { kind: SyntaxKind },
    End,
    ErrorRef { index: int },
}

/// The model of an emitted mark/offset pair.
pub open spec fn pair_model(p: (SyntaxMark, i32)) -> (MarkModel, int) {
    (
        match p.0 {
            SyntaxMark::NodeStart(k) => MarkModel::Start { kind: k },
            SyntaxMark::NodeEnd => MarkModel::End,
            SyntaxMark::Error(idx) => MarkModel::ErrorRef { index: idx as int },
        },
        p.1 as int,
    )
}

/// The mark stream of a tree in pre-order: a start (or error) mark at
/// the node's starting offset, the children's streams, and an end mark
/// at its ending offset. `e0` is the number of error nodes already
/// emitted, which fixes the error indices.
pub open spec fn flat_marks(m: TreeModel, off: int, e0: int) -> Seq<(MarkModel, int)>
    decreases m, 1int,
{
    match m {
        TreeModel::Leaf { kind, len } => seq![
            (MarkModel::Start { kind }, off),
            (MarkModel::End, off + len),
        ],
        TreeModel::Inner { kind, children } => seq![(MarkModel::Start { kind }, off)]
            + flat_marks_forest(children, off, e0) + seq![
            (MarkModel::End, off + forest_len(children)),
        ],
        TreeModel::Error { len, .. } => seq![
            (MarkModel::ErrorRef { index: e0 }, off),
            (MarkModel::End, off + len),
        ],
    }
}

/// The mark stream of a forest: each child's stream in order, offsets
/// advanced by the lengths consumed and error indices by the errors
/// emitted.
pub open spec fn flat_marks_forest(s: Seq<TreeModel>, off: int, e0: int) -> Seq<(MarkModel, int)>
    decreases s, 0int,
{
    if s.len() == 0 {
        Seq::empty()
    } else {
        flat_marks(s[0], off, e0) + flat_marks_forest(
            s.drop_first(),
            off + model_len(s[0]),
            e0 + error_count(s[0]),
        )
    }
}

/// Whether every length in a tree model is nonnegative; every model of
/// an executable tree is.
pub open spec fn model_wf(m: TreeModel) -> bool
    decreases m, 1int,
{
    match m {
        TreeModel::Leaf { len, .. } => len >= 0,
        TreeModel::Inner { children, .. } => forest_wf(children),
        TreeModel::Error { len, .. } => len >= 0,
    }
}

/// Whether every length in a forest is nonnegative.
pub open spec fn forest_wf(s: Seq<TreeModel>) -> bool
    decreases s, 0int,
{
    if s.len() == 0 {
        true
    } else {
        model_wf(s[0]) && forest_wf(s.drop_first())
    }
}

/// The shape of a tree: its kinds and covered lengths, which is all the
/// mark stream encodes. A token and a childless node share a shape, and
/// error messages live in the side buffer, not the stream.
#[verifier::ext_equal]
pub enum ShapeModel {
    Node { kind: SyntaxKind, len: int, children: Seq<ShapeModel> },
    ErrorNode { len: int },
}

/// The shape of a tree model.
pub open spec fn shape_of(m: TreeModel) -> ShapeModel
    decreases m, 1int,
{
    match m {
        TreeModel::Leaf { kind, len } => ShapeModel::Node { kind, len, children: Seq::empty() },
        TreeModel::Inner { kind, children } => ShapeModel::Node {
            kind,
            len: forest_len(children),
            children: shape_forest(children),
        },
        TreeModel::Error { len, .. } => ShapeModel::ErrorNode { len },
    }
}

/// The shapes of a forest.
pub open spec fn shape_forest(s: Seq<TreeModel>) -> Seq<ShapeModel>
    decreases s, 0int,
{
    if s.len() == 0 {
        Seq::empty()
    } else {
        seq![shape_of(s[0])] + shape_forest(s.drop_first())
    }
}

/// Reconstructs the first node of a mark stream, as the receiving side
/// does: a start mark opens a node whose children run until the
/// matching end mark; an error mark is followed directly by its end
/// mark. Yields the node's shape and the number of marks consumed, or
/// nothing if the stream is not the encoding of a node.
pub open spec fn parse_node(marks: Seq<(MarkModel, int)>) -> Option<(ShapeModel, int)>
    decreases marks.len(), 0int,
{
    if marks.len() < 2 {
        None
    } else {
        let (m0, off) = marks[0];
        match m0 {
            MarkModel::End => None,
            MarkModel::ErrorRef { .. } => {
                let (m1, end_off) = marks[1];
                if m1 is End {
                    Some((ShapeModel::ErrorNode { len: end_off - off }, 2))
                } else {
                    None
                }
            },
            MarkModel::Start { kind } => {
                match parse_forest(marks.drop_first()) {
                    None => None,
                    Some((children, consumed)) => {
                        if 0 <= consumed && 1 + consumed < marks.len() && marks[1 + consumed].0
                            is End {
                            Some(
                                (
                                    ShapeModel::Node {
                                        kind,
                                        len: marks[1 + consumed].1 - off,
                                        children,
                                    },
                                    consumed + 2,
                                ),
                            )
                        } else {
                            None
                        }
                    },
                }
            },
        }
    }
}

/// Reconstructs nodes until the enclosing end mark comes into view,
/// which is left unconsumed for the parent.
pub open spec fn parse_forest(marks: Seq<(MarkModel, int)>) -> Option<(Seq<ShapeModel>, int)>
    decreases marks.len(), 1int,
{
    if marks.len() == 0 {
        None
    } else if marks[0].0 is End {
        Some((Seq::empty(), 0))
    } else {
        match parse_node(marks) {
            None => None,
            Some((node, c)) => {
                let step = if c < 1 {
                    1int
                } else if c > marks.len() {
                    marks.len() as int
                } else {
                    c
                };
                match parse_forest(marks.skip(step)) {
                    None => None,
                    Some((rest, c2)) => Some((seq![node] + rest, step + c2)),
                }
            },
        }
    }
}

/// A mark stream starts with a start or error mark, never an end mark,
/// and holds at least two marks.
proof fn lemma_flat_marks_head(m: TreeModel, off: int, e0: int)
    ensures
        flat_marks(m, off, e0).len() >= 2,
        !(flat_marks(m, off, e0)[0].0 is End),
        flat_marks(m, off, e0)[0].1 == off,
    decreases m,
{
}

/// Reconstruction inverts flattening for a single node: parsing the
/// node's mark stream followed by anything yields exactly the node's
/// shape, consuming exactly the node's marks.
proof fn lemma_parse_flat_node(m: TreeModel, off: int, e0: int, rest: Seq<(MarkModel, int)>)
    requires
        model_wf(m),
    ensures
        parse_node(flat_marks(m, off, e0) + rest) == Some(
            (shape_of(m), flat_marks(m, off, e0).len() as int),
        ),
    decreases m, 1int,
{
    let stream = flat_marks(m, off, e0) + rest;
    match m {
        TreeModel::Leaf { kind, len } => {
            assert(stream[0] == (MarkModel::Start { kind }, off));
            assert(stream[1] == (MarkModel::End, off + len));
            assert(stream.drop_first()[0].0 is End);
            assert(parse_forest(stream.drop_first()) == Some((Seq::<ShapeModel>::empty(), 0int)));
            assert(shape_of(m) =~= ShapeModel::Node { kind, len, children: Seq::empty() });
        },
        TreeModel::Error { len, .. } => {
            assert(stream[0] == (MarkModel::ErrorRef { index: e0 }, off));
            assert(stream[1] == (MarkModel::End, off + len));
        },
        TreeModel::Inner { kind, children } => {
            let fm = flat_marks_forest(children, off, e0);
            let endmark = seq![(MarkModel::End, off + forest_len(children))];
            assert(flat_marks(m, off, e0) =~= seq![(MarkModel::Start { kind }, off)] + fm
                + endmark);
            assert(stream.drop_first() =~= fm + (endmark + rest));
            lemma_parse_flat_forest(children, off, e0, endmark + rest);
            let consumed = fm.len() as int;
            assert(stream[0] == (MarkModel::Start { kind }, off));
            assert(stream.len() == 2 + fm.len() + rest.len());
            assert(stream[1 + consumed] == (MarkModel::End, off + forest_len(children)));
        },
    }
}

/// Reconstruction inverts flattening for a forest standing before its
/// enclosing end mark.
proof fn lemma_parse_flat_forest(
    s: Seq<TreeModel>,
    off: int,
    e0: int,
    rest: Seq<(MarkModel, int)>,
)
    requires
        forest_wf(s),
        rest.len() > 0,
        rest[0].0 is End,
    ensures
        parse_forest(flat_marks_forest(s, off, e0) + rest) == Some(
            (shape_forest(s), flat_marks_forest(s, off, e0).len() as int),
        ),
    decreases s, 0int,
{
    let stream = flat_marks_forest(s, off, e0) + rest;
    if s.len() == 0 {
        assert(stream =~= rest);
    } else {
        let head = flat_marks(s[0], off, e0);
        let tailmarks = flat_marks_forest(
            s.drop_first(),
            off + model_len(s[0]),
            e0 + error_count(s[0]),
        );
        assert(flat_marks_forest(s, off, e0) =~= head + tailmarks);
        assert(stream =~= head + (tailmarks + rest));
        lemma_flat_marks_head(s[0], off, e0);
        assert(stream[0] == (head + (tailmarks + rest))[0]);
        assert(stream[0] == head[0]);
        lemma_parse_flat_node(s[0], off, e0, tailmarks + rest);
        let c = head.len() as int;
        assert(stream.skip(c) =~= tailmarks + rest);
        lemma_parse_flat_forest(s.drop_first(), off + model_len(s[0]), e0 + error_count(s[0]), rest);
        assert(shape_forest(s) =~= seq![shape_of(s[0])] + shape_forest(s.drop_first()));
    }
}

/// Flattening is structurally invertible: for any tree, reconstructing
/// node boundaries from its mark stream yields a tree with exactly the
/// kinds and offsets of the original.
pub proof fn lemma_flatten_round_trip(m: TreeModel, off: int, e0: int)
    requires
        model_wf(m),
    ensures
        parse_node(flat_marks(m, off, e0)) == Some(
            (shape_of(m), flat_marks(m, off, e0).len() as int),
        ),
{
    assert(flat_marks(m, off, e0) + Seq::<(MarkModel, int)>::empty() =~= flat_marks(m, off, e0));
    lemma_parse_flat_node(m, off, e0, Seq::empty());
}

/// The model of an emitted mark list.
pub open spec fn marks_model(v: Seq<(SyntaxMark, i32)>) -> Seq<(MarkModel, int)> {
    v.map_values(|p: (SyntaxMark, i32)| pair_model(p))
}

/// The model of an error-start list.
pub open spec fn starts_model(v: Seq<i32>) -> Seq<int> {
    v.map_values(|x: i32| x as int)
}

/// A forest model lists one model per node.
proof fn lemma_forest_model_index(s: Seq<TreeNode>, i: int)
    requires
        0 <= i < s.len(),
    ensures
        forest_model(s).len() == s.len(),
        forest_model(s)[i] == tree_model(s[i]),
    decreases s.len(),
{
    lemma_forest_model_len(s);
    if i > 0 {
        lemma_forest_model_index(s.drop_first(), i - 1);
    }
}

/// A forest model has one entry per node.
proof fn lemma_forest_model_len(s: Seq<TreeNode>)
    ensures
        forest_model(s).len() == s.len(),
    decreases s.len(),
{
    if s.len() > 0 {
        lemma_forest_model_len(s.drop_first());
    }
}

/// The model of an executable tree has nonnegative lengths throughout.
pub proof fn lemma_tree_model_wf(t: TreeNode)
    ensures
        model_wf(tree_model(t)),
    decreases t, 1int,
{
    match t {
        TreeNode::Inner { children, .. } => {
            lemma_forest_model_wf(children@);
        },
        _ => {},
    }
}

/// The models of executable nodes have nonnegative lengths throughout.
proof fn lemma_forest_model_wf(s: Seq<TreeNode>)
    ensures
        forest_wf(forest_model(s)),
    decreases s, 0int,
{
    if s.len() > 0 {
        lemma_tree_model_wf(s[0]);
        lemma_forest_model_wf(s.drop_first());
        assert(forest_model(s).drop_first() =~= forest_model(s.drop_first()));
    }
}

/// A well-formed tree covers a nonnegative length.
pub proof fn lemma_model_len_nonneg(m: TreeModel)
    requires
        model_wf(m),
    ensures
        model_len(m) >= 0,
    decreases m, 1int,
{
    match m {
        TreeModel::Inner { children, .. } => {
            lemma_forest_len_nonneg(children);
        },
        _ => {},
    }
}

/// A well-formed forest covers a nonnegative length.
proof fn lemma_forest_len_nonneg(s: Seq<TreeModel>)
    requires
        forest_wf(s),
    ensures
        forest_len(s) >= 0,
    decreases s, 0int,
{
    if s.len() > 0 {
        lemma_model_len_nonneg(s[0]);
        lemma_forest_len_nonneg(s.drop_first());
    }
}

/// An error count is nonnegative, and so is a message buffer length.
proof fn lemma_forest_counts_nonneg(s: Seq<TreeModel>)
    ensures
        forest_error_count(s) >= 0,
        forest_errors(s).len() >= 0,
    decreases s, 0int,
{
    if s.len() > 0 {
        lemma_counts_nonneg(s[0]);
        lemma_forest_counts_nonneg(s.drop_first());
    }
}

/// An error count is nonnegative.
proof fn lemma_counts_nonneg(m: TreeModel)
    ensures
        error_count(m) >= 0,
    decreases m, 1int,
{
    match m {
        TreeModel::Inner { children, .. } => {
            lemma_forest_counts_nonneg(children);
        },
        _ => {},
    }
}

/// A tree contributes one start offset per error node.
proof fn lemma_flat_starts_len(m: TreeModel, b0: int)
    ensures
        flat_starts(m, b0).len() == error_count(m),
    decreases m, 1int,
{
    match m {
        TreeModel::Inner { children, .. } => {
            lemma_forest_starts_len(children, b0);
        },
        _ => {},
    }
}

/// A forest contributes one start offset per error node.
proof fn lemma_forest_starts_len(s: Seq<TreeModel>, b0: int)
    ensures
        forest_starts(s, b0).len() == forest_error_count(s),
    decreases s, 0int,
{
    if s.len() > 0 {
        lemma_flat_starts_len(s[0], b0);
        lemma_forest_starts_len(s.drop_first(), b0 + flat_errors(s[0]).len());
    }
}

/// The byte length of a subtree, summed over its children.
#[verifier::loop_isolation(false)]
pub fn subtree_len(t: &TreeNode) -> (r: u32)
    requires
        model_len(tree_model(*t)) <= u32::MAX as int,
    ensures
        r as int == model_len(tree_model(*t)),
    decreases *t,
{
    proof {
        lemma_tree_model_wf(*t);
    }
    match t {
        TreeNode::Leaf { len, .. } => *len,
        TreeNode::Error { len, .. } => *len,
        TreeNode::Inner { children, .. } => {
            let ghost s = forest_model(children@);
            proof {
                lemma_forest_model_len(children@);
                assert(s.skip(0) =~= s);
            }
            let mut acc: u32 = 0;
            let mut i: usize = 0;
            while i < children.len()
                invariant
                    i <= children@.len(),
                    s == forest_model(children@),
                    s.len() == children@.len(),
                    forest_wf(s.skip(i as int)),
                    acc as int + forest_len(s.skip(i as int)) == forest_len(s),
                    forest_len(s) <= u32::MAX as int,
                decreases children@.len() - i,
            {
                proof {
                    lemma_forest_model_index(children@, i as int);
                    assert(s.skip(i as int).drop_first() =~= s.skip(i as int + 1));
                    assert(s.skip(i as int)[0] == s[i as int]);
                    lemma_model_len_nonneg(s[i as int]);
                    lemma_forest_len_nonneg(s.skip(i as int + 1));
                }
                let l = subtree_len(&children[i]);
                acc = acc + l;
                i = i + 1;
            }
            proof {
                assert(s.skip(children@.len() as int) =~= Seq::empty());
            }
            acc
        },
    }
}

/// A tree-shaped parse result in flat, linear form: the mark stream
/// plus the side buffer of raw error-message bytes, indexed by
/// `errors_starts`.
#[derive(Default)]
pub struct FlattenedSyntaxTree {
    pub marks: Vec<(SyntaxMark, i32)>,
    pub errors: Vec<u8>,
    pub errors_starts: Vec<i32>,
}

/// Flattens one node into the stream by pre-order traversal: a start
/// mark at `idx`, the children at their running offsets, and the
/// matching end mark; an error node emits an error mark referencing the
/// message it appends to the side buffer.
#[verifier::loop_isolation(false)]
pub fn flatten_into(ast: &TreeNode, tree: &mut FlattenedSyntaxTree, idx: i32)
    requires
        idx >= 0,
        idx as int + model_len(tree_model(*ast)) <= i32::MAX as int,
        old(tree).errors_starts@.len() as int + error_count(tree_model(*ast)) <= i32::MAX as int,
        old(tree).errors@.len() as int + flat_errors(tree_model(*ast)).len() <= i32::MAX as int,
    ensures
        marks_model(final(tree).marks@) == marks_model(old(tree).marks@) + flat_marks(
            tree_model(*ast),
            idx as int,
            old(tree).errors_starts@.len() as int,
        ),
        final(tree).errors@ == old(tree).errors@ + flat_errors(tree_model(*ast)),
        starts_model(final(tree).errors_starts@) == starts_model(old(tree).errors_starts@)
            + flat_starts(tree_model(*ast), old(tree).errors@.len() as int),
    decreases *ast,
{
    proof {
        lemma_tree_model_wf(*ast);
    }
    match ast {
        TreeNode::Error { message, len } => {
            let e_index = tree.errors_starts.len() as i32;
            tree.marks.push((SyntaxMark::Error(e_index), idx));
            tree.errors_starts.push(tree.errors.len() as i32);
            crate::buffer::append_bytes(&mut tree.errors, message);
            tree.marks.push((SyntaxMark::NodeEnd, idx + (*len as i32)));
            proof {
                assert(marks_model(tree.marks@) =~= marks_model(old(tree).marks@) + flat_marks(
                    tree_model(*ast),
                    idx as int,
                    old(tree).errors_starts@.len() as int,
                ));
                assert(starts_model(tree.errors_starts@) =~= starts_model(
                    old(tree).errors_starts@,
                ) + flat_starts(tree_model(*ast), old(tree).errors@.len() as int));
            }
        },
        TreeNode::Leaf { kind, len } => {
            tree.marks.push((SyntaxMark::NodeStart(*kind), idx));
            tree.marks.push((SyntaxMark::NodeEnd, idx + (*len as i32)));
            proof {
                assert(marks_model(tree.marks@) =~= marks_model(old(tree).marks@) + flat_marks(
                    tree_model(*ast),
                    idx as int,
                    old(tree).errors_starts@.len() as int,
                ));
                assert(tree.errors@ =~= old(tree).errors@ + flat_errors(tree_model(*ast)));
                assert(starts_model(tree.errors_starts@) =~= starts_model(
                    old(tree).errors_starts@,
                ) + flat_starts(tree_model(*ast), old(tree).errors@.len() as int));
            }
        },
        TreeNode::Inner { kind, children } => {
            let ghost s = forest_model(children@);
            let ghost e0 = old(tree).errors_starts@.len() as int;
            let ghost b0 = old(tree).errors@.len() as int;
            tree.marks.push((SyntaxMark::NodeStart(*kind), idx));
            proof {
                lemma_forest_model_len(children@);
                lemma_forest_counts_nonneg(s);
                assert(s.skip(0) =~= s);
                assert(marks_model(tree.marks@) =~= marks_model(old(tree).marks@) + seq![
                    (MarkModel::Start { kind: *kind }, idx as int),
                ]);
            }
            let mut tmp = idx;
            let mut i: usize = 0;
            while i < children.len()
                invariant
                    i <= children@.len(),
                    s == forest_model(children@),
                    s.len() == children@.len(),
                    forest_wf(s.skip(i as int)),
                    idx >= 0,
                    tmp >= idx,
                    tmp as int + forest_len(s.skip(i as int)) == idx as int + forest_len(s),
                    idx as int + forest_len(s) <= i32::MAX as int,
                    tree.errors_starts@.len() as int + forest_error_count(s.skip(i as int)) == e0
                        + forest_error_count(s),
                    e0 + forest_error_count(s) <= i32::MAX as int,
                    tree.errors@.len() as int + forest_errors(s.skip(i as int)).len() == b0
                        + forest_errors(s).len(),
                    b0 + forest_errors(s).len() <= i32::MAX as int,
                    marks_model(tree.marks@) + flat_marks_forest(
                        s.skip(i as int),
                        tmp as int,
                        tree.errors_starts@.len() as int,
                    ) == marks_model(old(tree).marks@) + seq![
                        (MarkModel::Start { kind: *kind }, idx as int),
                    ] + flat_marks_forest(s, idx as int, e0),
                    tree.errors@ + forest_errors(s.skip(i as int)) == old(tree).errors@
                        + forest_errors(s),
                    starts_model(tree.errors_starts@) + forest_starts(
                        s.skip(i as int),
                        tree.errors@.len() as int,
                    ) == starts_model(old(tree).errors_starts@) + forest_starts(s, b0),
                decreases children@.len() - i,
            {
                proof {
                    lemma_forest_model_index(children@, i as int);
                    assert(s.skip(i as int).drop_first() =~= s.skip(i as int + 1));
                    assert(s.skip(i as int)[0] == s[i as int]);
                    lemma_model_len_nonneg(s[i as int]);
                    lemma_forest_len_nonneg(s.skip(i as int + 1));
                    lemma_counts_nonneg(s[i as int]);
                    lemma_forest_counts_nonneg(s.skip(i as int + 1));
                    lemma_forest_counts_nonneg(s.skip(i as int));
                }
                let ghost tmp_before: int = tmp as int;
                let ghost ec_before = tree.errors_starts@.len() as int;
                let ghost bl_before = tree.errors@.len() as int;
                let ghost starts_before = starts_model(tree.errors_starts@);
                proof {
                    assert(starts_before.len() == tree.errors_starts@.len());
                }
                flatten_into(&children[i], tree, tmp);
                let l = subtree_len(&children[i]);
                tmp = tmp + (l as i32);
                proof {
                    lemma_flat_starts_len(s[i as int], bl_before);
                    assert(tree_model(children@[i as int]) == s[i as int]);
                    assert(starts_model(tree.errors_starts@) == starts_before + flat_starts(
                        s[i as int],
                        bl_before,
                    ));
                    assert(starts_model(tree.errors_starts@).len()
                        == tree.errors_starts@.len());
                    assert(flat_marks_forest(s.skip(i as int), tmp_before, ec_before)
                        == flat_marks(s[i as int], tmp_before, ec_before) + flat_marks_forest(
                        s.skip(i as int + 1),
                        tmp_before + model_len(s[i as int]),
                        ec_before + error_count(s[i as int]),
                    ));
                    assert(tmp as int == tmp_before + model_len(s[i as int]));
                    assert(tree.errors_starts@.len() as int == ec_before + error_count(
                        s[i as int],
                    ));
                    assert(marks_model(tree.marks@) + flat_marks_forest(
                        s.skip(i as int + 1),
                        tmp as int,
                        tree.errors_starts@.len() as int,
                    ) =~= marks_model(old(tree).marks@) + seq![
                        (MarkModel::Start { kind: *kind }, idx as int),
                    ] + flat_marks_forest(s, idx as int, e0));
                    assert(tree.errors@ + forest_errors(s.skip(i as int + 1)) =~= old(
                        tree,
                    ).errors@ + forest_errors(s));
                    assert(forest_starts(s.skip(i as int), bl_before) == flat_starts(
                        s[i as int],
                        bl_before,
                    ) + forest_starts(s.skip(i as int + 1), bl_before + flat_errors(
                        s[i as int],
                    ).len()));
                    assert(tree.errors@.len() as int == bl_before + flat_errors(
                        s[i as int],
                    ).len());
                    assert(starts_model(tree.errors_starts@) + forest_starts(
                        s.skip(i as int + 1),
                        tree.errors@.len() as int,
                    ) =~= starts_model(old(tree).errors_starts@) + forest_starts(s, b0));
                }
                i = i + 1;
            }
            proof {
                assert(s.skip(children@.len() as int) =~= Seq::<TreeModel>::empty());
                assert(forest_len(Seq::<TreeModel>::empty()) == 0);
                assert(flat_marks_forest(
                    s.skip(children@.len() as int),
                    tmp as int,
                    tree.errors_starts@.len() as int,
                ) =~= Seq::<(MarkModel, int)>::empty());
                assert(marks_model(tree.marks@) =~= marks_model(old(tree).marks@) + seq![
                    (MarkModel::Start { kind: *kind }, idx as int),
                ] + flat_marks_forest(s, idx as int, e0));
                assert(tmp as int == idx as int + forest_len(s));
                assert(tree_model(*ast) == (TreeModel::Inner { kind: *kind, children: s }));
                assert(flat_marks(tree_model(*ast), idx as int, e0) == seq![
                    (MarkModel::Start { kind: *kind }, idx as int),
                ] + flat_marks_forest(s, idx as int, e0) + seq![
                    (MarkModel::End, idx as int + forest_len(s)),
                ]);
            }
            let ghost pre_push = marks_model(tree.marks@);
            tree.marks.push((SyntaxMark::NodeEnd, tmp));
            proof {
                assert(marks_model(tree.marks@) =~= pre_push.push(
                    (MarkModel::End, tmp as int),
                ));
                assert(marks_model(tree.marks@) =~= marks_model(old(tree).marks@) + flat_marks(
                    tree_model(*ast),
                    idx as int,
                    e0,
                ));
                assert(tree.errors@ =~= old(tree).errors@ + flat_errors(tree_model(*ast)));
                assert(starts_model(tree.errors_starts@) =~= starts_model(
                    old(tree).errors_starts@,
                ) + flat_starts(tree_model(*ast), b0));
            }
        },
    }
}

/// Flattens a whole parse tree, starting at offset zero with empty
/// buffers.
pub fn flattened_tree(ast: TreeNode) -> (tree: FlattenedSyntaxTree)
    requires
        model_len(tree_model(ast)) <= i32::MAX as int,
        error_count(tree_model(ast)) <= i32::MAX as int,
        flat_errors(tree_model(ast)).len() <= i32::MAX as int,
    ensures
        marks_model(tree.marks@) == flat_marks(tree_model(ast), 0, 0),
        tree.errors@ == flat_errors(tree_model(ast)),
        starts_model(tree.errors_starts@) == flat_starts(tree_model(ast), 0),
{
    let mut tree = FlattenedSyntaxTree {
        marks: Vec::new(),
        errors: Vec::new(),
        errors_starts: Vec::new(),
    };
    flatten_into(&ast, &mut tree, 0);
    proof {
        assert(marks_model(tree.marks@) =~= flat_marks(tree_model(ast), 0, 0));
        assert(starts_model(tree.errors_starts@) =~= flat_starts(tree_model(ast), 0));
    }
    tree
}

/// The message bytes of error entry `e`: the slice of the side buffer
/// between its start offset and the next one.
fn error_message(tree: &FlattenedSyntaxTree, e: i32) -> (r: Option<Vec<u8>>) {
    if e < 0 {
        return None;
    }
    let idx = e as usize;
    if idx >= tree.errors_starts.len() {
        return None;
    }
    let start_raw = tree.errors_starts[idx];
    if start_raw < 0 {
        return None;
    }
    let start = start_raw as usize;
    let end = if idx + 1 < tree.errors_starts.len() {
        let next = tree.errors_starts[idx + 1];
        if next < 0 {
            return None;
        }
        next as usize
    } else {
        tree.errors.len()
    };
    if start > end || end > tree.errors.len() {
        return None;
    }
    let mut out: Vec<u8> = Vec::new();
    let mut j = start;
    while j < end
        invariant
            j <= end,
            end <= tree.errors@.len(),
        decreases end - j,
    {
        out.push(tree.errors[j]);
        j = j + 1;
    }
    Some(out)
}

/// Rebuilds a tree from its flat form, as the receiving side does:
/// start and error marks open nodes, end marks close them against a
/// stack. Yields nothing when the stream is not well nested. A token
/// and a childless node share an encoding, so childless nodes come
/// back as tokens.
pub fn unflatten(tree: &FlattenedSyntaxTree) -> (r: Option<TreeNode>) {
    let mut stack: Vec<(SyntaxKind, i32, Vec<TreeNode>, Option<Vec<u8>>)> = Vec::new();
    let mut result: Option<TreeNode> = None;
    let mut i: usize = 0;
    while i < tree.marks.len()
        invariant
            i <= tree.marks@.len(),
        decreases tree.marks@.len() - i,
    {
        if result.is_some() {
            return None;
        }
        let (mark, off) = tree.marks[i];
        match mark {
            SyntaxMark::NodeStart(k) => {
                stack.push((k, off, Vec::new(), None));
            },
            SyntaxMark::Error(e) => {
                let msg = match error_message(tree, e) {
                    Some(m) => m,
                    None => {
                        return None;
                    },
                };
                stack.push((SyntaxKind::Error, off, Vec::new(), Some(msg)));
            },
            SyntaxMark::NodeEnd => {
                let frame = match stack.pop() {
                    Some(f) => f,
                    None => {
                        return None;
                    },
                };
                let (kind, start, children, err) = frame;
                if start < 0 || off < start {
                    return None;
                }
                let len = (off - start) as u32;
                let node = match err {
                    Some(message) => TreeNode::Error { message, len },
                    None => {
                        if children.len() == 0 {
                            TreeNode::Leaf { kind, len }
                        } else {
                            TreeNode::Inner { kind, children }
                        }
                    },
                };
                let n = stack.len();
                if n == 0 {
                    result = Some(node);
                } else {
                    let top = vstd::std_specs::vec::vec_index_mut(&mut stack, n - 1);
                    top.2.push(node);
                }
            },
        }
        i = i + 1;
    }
    if stack.len() == 0 {
        result
    } else {
        None
    }
}

/// A flat tree in transferable form: each mark and offset packed into
/// one 64-bit value, code above offset.
pub struct CFlattenedSyntaxTree {
    pub marks: CVec<i64>,
    pub errors: CVec<u8>,
    pub errors_starts: CVec<i32>,
}

/// A mark and its offset packed into one value.
pub open spec fn packed_mark(m: SyntaxMark, off: int) -> int {
    mark_code(m) * 0x100000000 + off
}

/// Every kind code lies below the end mark's code.
proof fn lemma_kind_code_range(k: SyntaxKind)
    ensures
        0 <= kind_code(k) < 134,
{
}

/// Packs a flat tree for transfer; each mark/offset pair becomes one
/// value, and the error buffers move over unchanged.
#[verifier::loop_isolation(false)]
pub fn cfy(tree: FlattenedSyntaxTree) -> (r: CFlattenedSyntaxTree)
    requires
        forall|i: int|
            0 <= i < tree.marks@.len() ==> {
                &&& ((#[trigger] tree.marks@[i]).0 matches SyntaxMark::Error(idx) ==> 0 <= idx
                    <= i32::MAX - 135)
                &&& tree.marks@[i].1 >= 0
            },
    ensures
        r.marks.items@.len() == tree.marks@.len(),
        forall|i: int|
            0 <= i < tree.marks@.len() ==> #[trigger] r.marks.items@[i] as int == packed_mark(
                tree.marks@[i].0,
                tree.marks@[i].1 as int,
            ),
        r.errors.items@ == tree.errors@,
        r.errors_starts.items@ == tree.errors_starts@,
{
    let mut marks: Vec<i64> = Vec::new();
    let mut i: usize = 0;
    while i < tree.marks.len()
        invariant
            i <= tree.marks@.len(),
            marks@.len() == i,
            forall|k: int|
                0 <= k < i ==> #[trigger] marks@[k] as int == packed_mark(
                    tree.marks@[k].0,
                    tree.marks@[k].1 as int,
                ),
        decreases tree.marks@.len() - i,
    {
        let (m, off) = tree.marks[i];
        proof {
            match m {
                SyntaxMark::NodeStart(k) => {
                    lemma_kind_code_range(k);
                },
                _ => {},
            }
        }
        let code = m.encode();
        let v = (code as i64) * 0x100000000i64 + (off as i64);
        marks.push(v);
        i = i + 1;
    }
    CFlattenedSyntaxTree {
        marks: CVec::wrap(marks),
        errors: CVec::wrap(tree.errors),
        errors_starts: CVec::wrap(tree.errors_starts),
    }
}

/// Packing loses nothing: pairs with the same packed value carry the
/// same code and the same offset.
pub proof fn lemma_packed_mark_invertible(m1: SyntaxMark, o1: int, m2: SyntaxMark, o2: int)
    requires
        0 <= o1 < 0x100000000,
        0 <= o2 < 0x100000000,
        mark_code(m1) >= 0,
        mark_code(m2) >= 0,
        packed_mark(m1, o1) == packed_mark(m2, o2),
    ensures
        mark_code(m1) == mark_code(m2),
        o1 == o2,
{
    let c1 = mark_code(m1);
    let c2 = mark_code(m2);
    assert(c1 == c2 && o1 == o2) by (nonlinear_arith)
        requires
            c1 * 0x100000000 + o1 == c2 * 0x100000000 + o2,
            0 <= o1 < 0x100000000,
            0 <= o2 < 0x100000000,
            c1 >= 0,
            c2 >= 0,
    ;
}

/// Disposes of a packed tree handed back across the boundary by moving
/// its buffers out and dropping them.
pub fn release_flattened_tree(tree: CFlattenedSyntaxTree) {
    let _marks = tree.marks.unwrap();
    let _errors = tree.errors.unwrap();
    let _errors_starts = tree.errors_starts.unwrap();
}

} // verus!
