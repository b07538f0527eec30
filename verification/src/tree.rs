//! Reading the shapes that binding needs off a parsed syntax tree.
use vstd::prelude::*;
use ra_ap_syntax::SyntaxKind;
use crate::expansion::{expansion_kind_behind, macro_file_kind_at, MacroFileKind};
use crate::range::TextRange;
use crate::syntax::{NodeInfo, NodeShape};

verus! {

/// `SyntaxKind` of the syntax tree: the kind of a node or token. Nothing
/// inside a value of it is visible here.
#[verifier::external_type_specification]
#[verifier::external_body]
pub struct ExSyntaxKind(SyntaxKind);

/// The shape that `declaration_shape` gives a kind.
pub uninterp spec fn declared_shape_of(kind: SyntaxKind) -> NodeShape;

/// The shape that `position_shape` gives a kind.
pub uninterp spec fn position_shape_of(kind: SyntaxKind) -> NodeShape;

/// Whether `ast::Expr::can_cast` of the syntax tree takes a kind for one of
/// expressions.
pub uninterp spec fn expr_kind(kind: SyntaxKind) -> bool;

/// The number that stands for a kind in the syntax tree.
pub uninterp spec fn number_of_kind(kind: SyntaxKind) -> u16;

/// Tells the kinds of declarations apart that anchor an environment; every
/// other kind comes out as `Other`. The result depends on the kind alone and
/// is named; nothing more is claimed of it.
#[verifier::external_body]
fn declaration_shape(kind: SyntaxKind) -> (r: NodeShape)
    ensures
        r == declared_shape_of(kind),
{
    match kind {
        SyntaxKind::MODULE => NodeShape::Module,
        SyntaxKind::SOURCE_FILE => NodeShape::SourceFile,
        SyntaxKind::STRUCT => NodeShape::StructDef,
        SyntaxKind::ENUM => NodeShape::EnumDef,
        SyntaxKind::FN => NodeShape::FnDef,
        SyntaxKind::CONST => NodeShape::ConstDef,
        SyntaxKind::STATIC => NodeShape::StaticDef,
        _ => NodeShape::Other,
    }
}

/// Tells the kinds apart that say where a path or a macro invocation
/// stands; every other kind comes out as `Other`. The result depends on the
/// kind alone and is named; nothing more is claimed of it.
#[verifier::external_body]
fn position_shape(kind: SyntaxKind) -> (r: NodeShape)
    ensures
        r == position_shape_of(kind),
{
    match kind {
        SyntaxKind::MACRO_ITEMS => NodeShape::MacroItems,
        SyntaxKind::LET_STMT => NodeShape::LetStmt,
        SyntaxKind::EXPR_STMT => NodeShape::ExprStmt,
        SyntaxKind::STMT_LIST => NodeShape::Block,
        SyntaxKind::ARG_LIST => NodeShape::ArgList,
        SyntaxKind::TRY_EXPR => NodeShape::TryExpr,
        SyntaxKind::PATH_EXPR => NodeShape::PathExpr,
        SyntaxKind::PATH_PAT => NodeShape::PathPat,
        SyntaxKind::MACRO_EXPR => NodeShape::MacroExpr,
        _ => NodeShape::Other,
    }
}

/// `ast::Expr::can_cast` of the syntax tree: whether nodes of this kind are
/// expressions. The result depends on the kind alone and is named; nothing
/// more is claimed of it.
#[verifier::external_body]
fn kind_is_expr(kind: SyntaxKind) -> (r: bool)
    ensures
        r == expr_kind(kind),
{
    <ra_ap_syntax::ast::Expr as ra_ap_syntax::AstNode>::can_cast(kind)
}

/// `u16::from` on a kind of the syntax tree: the number that stands for the
/// kind. The result depends on the kind alone and is named; nothing more is
/// claimed of it.
#[verifier::external_body]
fn kind_number(kind: SyntaxKind) -> (r: u16)
    ensures
        r == number_of_kind(kind),
{
    kind.into()
}

/// The shape of a node, from the shape listed for its kind and from whether
/// the kind is one of expressions: a kind with a listed shape keeps it, any
/// other kind of expression is an expression, and the rest is `Other`.
pub open spec fn refined_shape(listed: NodeShape, is_expr: bool) -> NodeShape {
    if listed == NodeShape::Other && is_expr {
        NodeShape::Expr
    } else {
        listed
    }
}

pub fn refine_shape(listed: NodeShape, is_expr: bool) -> (r: NodeShape)
    ensures
        r == refined_shape(listed, is_expr),
{
    match listed {
        NodeShape::Other => if is_expr {
            NodeShape::Expr
        } else {
            NodeShape::Other
        },
        _ => listed,
    }
}

/// The shape of the nodes of a kind: the shape of a declaration where the
/// kind is one, else the shape of a position, else that of an expression.
pub open spec fn shape_of(kind: SyntaxKind) -> NodeShape {
    refined_shape(
        if declared_shape_of(kind) == NodeShape::Other {
            position_shape_of(kind)
        } else {
            declared_shape_of(kind)
        },
        expr_kind(kind),
    )
}

/// The shape of an optional kind.
pub open spec fn shape_of_opt(kind: Option<SyntaxKind>) -> Option<NodeShape> {
    match kind {
        Some(k) => Some(shape_of(k)),
        None => None,
    }
}

/// The shape of the nodes of a kind.
pub fn shape_of_kind(kind: SyntaxKind) -> (r: NodeShape)
    ensures
        r == shape_of(kind),
{
    let listed = match declaration_shape(kind) {
        NodeShape::Other => position_shape(kind),
        declared => declared,
    };
    let is_expr = kind_is_expr(kind);
    refine_shape(listed, is_expr)
}

/// What binding reads off a node of a tree: its shape and number by its kind,
/// its span, and the declaration that the analysis knows for it, if any.
pub fn node_info(kind: SyntaxKind, range: TextRange, def: Option<u32>) -> (r: NodeInfo)
    ensures
        r == (NodeInfo { shape: shape_of(kind), range, kind: number_of_kind(kind), def }),
{
    NodeInfo { shape: shape_of_kind(kind), range, kind: kind_number(kind), def }
}

/// The kind of fragment that a macro invocation expands into, by the kinds of
/// its parent and of the node around the parent; `None` stands for a node
/// that is not there.
pub fn macro_file_kind_under(parent: Option<SyntaxKind>, grandparent: Option<SyntaxKind>) -> (r:
    MacroFileKind)
    ensures
        r == expansion_kind_behind(shape_of_opt(parent), shape_of_opt(grandparent)),
{
    let outer = match grandparent {
        Some(kind) => Some(shape_of_kind(kind)),
        None => None,
    };
    let inner = match parent {
        Some(kind) => Some(shape_of_kind(kind)),
        None => None,
    };
    macro_file_kind_at(inner, outer)
}

} // verus!
