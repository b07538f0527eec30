//! The few facts about syntax nodes that binding needs: what shape a node has,
//! where it stands, and which definition the analysis knows for it.
use vstd::prelude::*;
use crate::range::TextRange;
use crate::scopes::{FileId, SourcePtr};

verus! {

/// The shapes of syntax that binding tells apart. Every other kind of node is
/// `Other`.
#[derive(Clone, Copy, Debug, PartialEq, Eq, Structural)]
pub enum NodeShape {
    /// A module declared inline or by `mod name;`.
    Module,
    /// The root of a file that was written by hand.
    SourceFile,
    StructDef,
    EnumDef,
    FnDef,
    ConstDef,
    StaticDef,
    /// The items that a macro expanded into.
    MacroItems,
    LetStmt,
    ExprStmt,
    /// The statement list of a block.
    Block,
    ArgList,
    /// The operand position of `?`; also an expression.
    TryExpr,
    /// A path in expression position; also an expression.
    PathExpr,
    /// A path in pattern position.
    PathPat,
    /// The expression that wraps a macro invocation in expression position;
    /// also an expression.
    MacroExpr,
    /// Any expression that is not one of the above.
    Expr,
    Other,
}

/// The node is an expression.
pub open spec fn is_expr_shape(shape: NodeShape) -> bool {
    shape == NodeShape::Expr || shape == NodeShape::PathExpr || shape == NodeShape::TryExpr
        || shape == NodeShape::MacroExpr
}

/// The node declares something that owns a body.
pub open spec fn is_body_shape(shape: NodeShape) -> bool {
    shape == NodeShape::FnDef || shape == NodeShape::ConstDef || shape == NodeShape::StaticDef
}

/// A syntax node as binding sees it. `def` is the identity that the analysis
/// gives to the declaration at this node, where the node is a declaration and
/// the analysis knows it.
#[derive(Clone, Copy, Debug, PartialEq, Eq, Structural)]
pub struct NodeInfo {
    pub shape: NodeShape,
    pub range: TextRange,
    pub kind: u16,
    pub def: Option<u32>,
}

impl NodeInfo {
    /// The pointer to this node in the tree `file`.
    pub open spec fn ptr_in(self, file: FileId) -> SourcePtr {
        SourcePtr { file_id: file, range: self.range, kind: self.kind }
    }

    pub fn in_file(&self, file: FileId) -> (r: SourcePtr)
        ensures
            r == self.ptr_in(file),
    {
        SourcePtr { file_id: file, range: self.range, kind: self.kind }
    }

    pub fn is_expr(&self) -> (r: bool)
        ensures
            r == is_expr_shape(self.shape),
    {
        match self.shape {
            NodeShape::Expr | NodeShape::PathExpr | NodeShape::TryExpr | NodeShape::MacroExpr => true,
            _ => false,
        }
    }

    pub fn owns_body(&self) -> (r: bool)
        ensures
            r == is_body_shape(self.shape),
    {
        match self.shape {
            NodeShape::FnDef | NodeShape::ConstDef | NodeShape::StaticDef => true,
            _ => false,
        }
    }
}

} // verus!
