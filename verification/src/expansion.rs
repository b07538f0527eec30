//! Macro invocations: the kind of fragment one expands into, and the way from
//! a token of the invocation to its counterpart in the expansion.
use vstd::prelude::*;
use crate::defs::MacroDefId;
use crate::scopes::{FileId, SourcePtr};
use crate::syntax::NodeShape;

verus! {

pub type MacroCallId = u32;

/// The fragment of syntax that a macro invocation expands into.
#[derive(Clone, Copy, Debug, PartialEq, Eq, Structural)]
pub enum MacroFileKind {
    Items,
    Expr,
    Statements,
}

/// The identity of the tree that holds the expansion of one invocation.
#[derive(Clone, Copy, Debug, PartialEq, Eq, Structural)]
pub struct MacroFile {
    pub macro_call_id: MacroCallId,
    pub macro_file_kind: MacroFileKind,
}

/// The place of a macro invocation: the macro it names and the invocation's
/// own identity in its file.
#[derive(Clone, Copy, Debug, PartialEq, Eq, Structural)]
pub struct MacroCallLoc {
    pub def: MacroDefId,
    pub file_id: FileId,
    pub ast_id: u32,
}

/// What is known of a materialized expansion: for each token of the
/// invocation's argument that survives, the pair of that token and of its
/// counterpart in the expanded tree.
#[derive(Clone, Debug)]
pub struct ExpansionInfo {
    pub tokens: Vec<(SourcePtr, SourcePtr)>,
}

/// The expansion of one macro invocation.
#[derive(Clone, Copy, Debug, PartialEq, Eq, Structural)]
pub struct Expansion {
    pub macro_file_kind: MacroFileKind,
    pub macro_call_id: MacroCallId,
}

/// The kind of fragment expected where the invocation's parent has the given
/// shape; `None` stands for an invocation that is the root of its tree.
pub open spec fn expansion_kind(parent: Option<NodeShape>) -> MacroFileKind {
    match parent {
        None => MacroFileKind::Expr,
        Some(NodeShape::MacroItems) => MacroFileKind::Items,
        Some(NodeShape::SourceFile) => MacroFileKind::Items,
        Some(NodeShape::LetStmt) => MacroFileKind::Expr,
        Some(NodeShape::ExprStmt) => MacroFileKind::Statements,
        Some(NodeShape::Block) => MacroFileKind::Statements,
        Some(NodeShape::ArgList) => MacroFileKind::Expr,
        Some(NodeShape::TryExpr) => MacroFileKind::Expr,
        Some(_) => MacroFileKind::Items,
    }
}

/// The kind of fragment expected for an invocation under the given parent and
/// grandparent. An invocation in expression position is wrapped in an
/// expression of its own, and then the node around that wrapper decides.
pub open spec fn expansion_kind_behind(parent: Option<NodeShape>, grandparent: Option<NodeShape>) -> MacroFileKind {
    if parent == Some(NodeShape::MacroExpr) {
        expansion_kind(grandparent)
    } else {
        expansion_kind(parent)
    }
}

/// The token that `token` is the counterpart of, by the first pair at or after
/// `from` that ends with it.
pub open spec fn origin(pairs: Seq<(SourcePtr, SourcePtr)>, token: SourcePtr, from: int) -> Option<
    SourcePtr,
>
    decreases pairs.len() - from,
{
    if from < 0 || from >= pairs.len() {
        None
    } else if pairs[from].1 == token {
        Some(pairs[from].0)
    } else {
        origin(pairs, token, from + 1)
    }
}

/// No token of the expansion is the counterpart of two different tokens.
pub open spec fn one_to_one(pairs: Seq<(SourcePtr, SourcePtr)>) -> bool {
    forall|i: int, j: int|
        0 <= i < pairs.len() && 0 <= j < pairs.len() && (#[trigger] pairs[i]).1 == (
        #[trigger] pairs[j]).1 ==> pairs[i].0 == pairs[j].0
}

/// The counterpart of `token` by the first pair at or after `from` that
/// starts with it.
pub open spec fn counterpart(pairs: Seq<(SourcePtr, SourcePtr)>, token: SourcePtr, from: int) -> Option<
    SourcePtr,
>
    decreases pairs.len() - from,
{
    if from < 0 || from >= pairs.len() {
        None
    } else if pairs[from].0 == token {
        Some(pairs[from].1)
    } else {
        counterpart(pairs, token, from + 1)
    }
}

/// Classifies a macro invocation by the shape of its parent. An invocation
/// in a `let` is taken for an expression; one under a parent of no listed
/// shape is guessed to stand for items.
pub fn to_macro_file_kind(parent: Option<NodeShape>) -> (r: MacroFileKind)
    ensures
        r == expansion_kind(parent),
{
    let shape = match parent {
        Some(it) => it,
        None => {
            return MacroFileKind::Expr;
        },
    };
    match shape {
        NodeShape::MacroItems | NodeShape::SourceFile => MacroFileKind::Items,
        NodeShape::LetStmt => MacroFileKind::Expr,
        NodeShape::ExprStmt => MacroFileKind::Statements,
        NodeShape::Block => MacroFileKind::Statements,
        NodeShape::ArgList => MacroFileKind::Expr,
        NodeShape::TryExpr => MacroFileKind::Expr,
        _ => MacroFileKind::Items,
    }
}

/// Classifies a macro invocation by the shapes of its parent and of the node
/// around the parent, looking past the expression that wraps an invocation in
/// expression position.
pub fn macro_file_kind_at(parent: Option<NodeShape>, grandparent: Option<NodeShape>) -> (r:
    MacroFileKind)
    ensures
        r == expansion_kind_behind(parent, grandparent),
{
    match parent {
        Some(NodeShape::MacroExpr) => to_macro_file_kind(grandparent),
        _ => to_macro_file_kind(parent),
    }
}

impl Expansion {
    /// The tree that holds this expansion.
    pub fn file_id(&self) -> (r: MacroFile)
        ensures
            r.macro_call_id == self.macro_call_id,
            r.macro_file_kind == self.macro_file_kind,
    {
        MacroFile { macro_call_id: self.macro_call_id, macro_file_kind: self.macro_file_kind }
    }

    /// Maps a token of the invocation to its counterpart in the expansion.
    /// `expansion_info` is what is known of the expansion, `None` where it
    /// was never materialized. There is no answer then, nor for a token
    /// without a counterpart.
    pub fn map_token_down(&self, expansion_info: Option<&ExpansionInfo>, token: SourcePtr) -> (r:
        Option<SourcePtr>)
        ensures
            r == match expansion_info {
                Some(info) => counterpart(info.tokens@, token, 0),
                None => None,
            },
    {
        let info = match expansion_info {
            Some(info) => info,
            None => {
                return None;
            },
        };
        let mut i: usize = 0;
        while i < info.tokens.len()
            invariant
                i <= info.tokens.len(),
                expansion_info == Some(info),
                counterpart(info.tokens@, token, 0) == counterpart(info.tokens@, token, i as int),
            decreases info.tokens.len() - i,
        {
            if info.tokens[i].0 == token {
                return Some(info.tokens[i].1);
            }
            i = i + 1;
        }
        None
    }
}

/// A token that is mapped down is paired with its counterpart in the
/// expansion's table, so that looking the counterpart up in the other
/// direction leads back to a pair that starts with the token itself.
pub proof fn lemma_counterpart_is_paired(pairs: Seq<(SourcePtr, SourcePtr)>, token: SourcePtr, from: int)
    requires
        0 <= from,
    ensures
        match counterpart(pairs, token, from) {
            Some(t) => exists|i: int| from <= i < pairs.len() && pairs[i] == (token, t),
            None => forall|i: int| from <= i < pairs.len() ==> (#[trigger] pairs[i]).0 != token,
        },
    decreases pairs.len() - from,
{
    if from < pairs.len() {
        if pairs[from].0 == token {
            assert(pairs[from] == (token, pairs[from].1));
        } else {
            lemma_counterpart_is_paired(pairs, token, from + 1);
        }
    }
}

/// Mapping a token down and its counterpart back up leads to the token
/// itself, and so to the same text, provided no token of the expansion is the
/// counterpart of two different tokens.
pub proof fn lemma_round_trip(pairs: Seq<(SourcePtr, SourcePtr)>, token: SourcePtr)
    requires
        one_to_one(pairs),
    ensures
        match counterpart(pairs, token, 0) {
            Some(t) => origin(pairs, t, 0) == Some(token),
            None => true,
        },
{
    lemma_counterpart_is_paired(pairs, token, 0);
    match counterpart(pairs, token, 0) {
        Some(t) => {
            lemma_origin_is_paired(pairs, t, 0);
        },
        None => {},
    }
}

/// A counterpart that is mapped up is paired with its origin in the table.
pub proof fn lemma_origin_is_paired(pairs: Seq<(SourcePtr, SourcePtr)>, token: SourcePtr, from: int)
    requires
        0 <= from,
    ensures
        match origin(pairs, token, from) {
            Some(t) => exists|i: int| from <= i < pairs.len() && pairs[i] == (t, token),
            None => forall|i: int| from <= i < pairs.len() ==> (#[trigger] pairs[i]).1 != token,
        },
    decreases pairs.len() - from,
{
    if from < pairs.len() {
        if pairs[from].1 == token {
            assert(pairs[from] == (pairs[from].0, token));
        } else {
            lemma_origin_is_paired(pairs, token, from + 1);
        }
    }
}

} // verus!
