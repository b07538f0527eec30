//! From a node to the environment in which its names are resolved: the
//! declaration around the node that owns it, and the lexical scope inside.
use vstd::prelude::*;
use crate::defs::DefWithBody;
use crate::scopes::ScopeId;
use crate::syntax::{NodeInfo, NodeShape};

verus! {

/// The declaration that an environment starts from.
#[derive(Clone, Copy, Debug, PartialEq, Eq, Structural)]
pub enum ResolverAnchor {
    /// No declaration: nothing resolves in such an environment.
    Empty,
    Module(u32),
    Struct(u32),
    Enum(u32),
    /// A function, constant or static, with its generic parameters.
    Body(DefWithBody),
}

/// An environment for name resolution: the chain of scopes from the module of
/// the anchor, through the anchor's generic parameters, down to one lexical
/// scope of its body, if a scope was found.
#[derive(Clone, Copy, Debug, PartialEq, Eq, Structural)]
pub struct Resolver {
    pub anchor: ResolverAnchor,
    pub scope: Option<ScopeId>,
}

impl Resolver {
    pub open spec fn empty() -> Resolver {
        Resolver { anchor: ResolverAnchor::Empty, scope: None }
    }

    pub open spec fn spec_body_owner(self) -> Option<DefWithBody> {
        match self.anchor {
            ResolverAnchor::Body(def) => Some(def),
            _ => None,
        }
    }

    /// The body that the environment belongs to, if it belongs to one.
    pub fn body_owner(&self) -> (r: Option<DefWithBody>)
        ensures
            r == self.spec_body_owner(),
    {
        match self.anchor {
            ResolverAnchor::Body(def) => Some(def),
            _ => None,
        }
    }
}

impl Default for Resolver {
    fn default() -> (r: Resolver)
        ensures
            r == Resolver::empty(),
    {
        Resolver { anchor: ResolverAnchor::Empty, scope: None }
    }
}

/// The owner of a body that is declared at this very node, where the node
/// declares one and the analysis knows the declaration.
pub open spec fn body_def_at(node: NodeInfo) -> Option<DefWithBody> {
    match node.def {
        Some(id) => match node.shape {
            NodeShape::FnDef => Some(DefWithBody::Function(id)),
            NodeShape::ConstDef => Some(DefWithBody::Const(id)),
            NodeShape::StaticDef => Some(DefWithBody::Static(id)),
            _ => None,
        },
        None => None,
    }
}

/// The owner of the innermost body around a node, given the node and the
/// nodes around it from the inside out, starting at index `from`.
pub open spec fn body_owner_from(nodes: Seq<NodeInfo>, from: int) -> Option<DefWithBody>
    decreases nodes.len() - from,
{
    if from < 0 || from >= nodes.len() {
        None
    } else {
        match body_def_at(nodes[from]) {
            Some(def) => Some(def),
            None => body_owner_from(nodes, from + 1),
        }
    }
}

/// The anchor that the node at index `at` gives, if it has one of the shapes
/// that anchor an environment.
pub open spec fn anchor_at(nodes: Seq<NodeInfo>, at: int) -> Option<ResolverAnchor> {
    if at < 0 || at >= nodes.len() {
        None
    } else {
        match nodes[at].shape {
            NodeShape::Module | NodeShape::SourceFile => match nodes[at].def {
                Some(id) => Some(ResolverAnchor::Module(id)),
                None => None,
            },
            NodeShape::StructDef => match nodes[at].def {
                Some(id) => Some(ResolverAnchor::Struct(id)),
                None => None,
            },
            NodeShape::EnumDef => match nodes[at].def {
                Some(id) => Some(ResolverAnchor::Enum(id)),
                None => None,
            },
            NodeShape::FnDef | NodeShape::ConstDef | NodeShape::StaticDef => match body_owner_from(
                nodes,
                at,
            ) {
                Some(def) => Some(ResolverAnchor::Body(def)),
                None => None,
            },
            _ => None,
        }
    }
}

/// The anchor of the first node, from index `from` outwards, that gives one.
pub open spec fn first_anchor_from(nodes: Seq<NodeInfo>, from: int) -> Option<ResolverAnchor>
    decreases nodes.len() - from,
{
    if from < 0 || from >= nodes.len() {
        None
    } else {
        match anchor_at(nodes, from) {
            Some(a) => Some(a),
            None => first_anchor_from(nodes, from + 1),
        }
    }
}

fn body_def_of_node(node: &NodeInfo) -> (r: Option<DefWithBody>)
    ensures
        r == body_def_at(*node),
{
    match node.def {
        Some(id) => match node.shape {
            NodeShape::FnDef => Some(DefWithBody::Function(id)),
            NodeShape::ConstDef => Some(DefWithBody::Const(id)),
            NodeShape::StaticDef => Some(DefWithBody::Static(id)),
            _ => None,
        },
        None => None,
    }
}

fn body_owner_search(nodes: &Vec<NodeInfo>, start: usize) -> (r: Option<DefWithBody>)
    ensures
        r == body_owner_from(nodes@, start as int),
{
    let mut i: usize = start;
    while i < nodes.len()
        invariant
            start <= i,
            body_owner_from(nodes@, start as int) == body_owner_from(nodes@, i as int),
        decreases nodes.len() - i,
    {
        match body_def_of_node(&nodes[i]) {
            Some(def) => {
                return Some(def);
            },
            None => {},
        }
        i = i + 1;
    }
    None
}

/// Finds the owner of the innermost body around a node. `ancestors` holds the
/// node itself and then the nodes around it, from the inside out.
pub fn def_with_body_from_child_node(ancestors: &Vec<NodeInfo>) -> (r: Option<DefWithBody>)
    ensures
        r == body_owner_from(ancestors@, 0),
{
    body_owner_search(ancestors, 0)
}

/// The environment that the node at index `at` anchors, if it is a module, a
/// file, a struct, an enum, or a declaration with a body.
pub fn try_get_resolver_for_node(ancestors: &Vec<NodeInfo>, at: usize) -> (r: Option<Resolver>)
    ensures
        r == match anchor_at(ancestors@, at as int) {
            Some(anchor) => Some(Resolver { anchor, scope: None }),
            None => None,
        },
{
    if at >= ancestors.len() {
        return None;
    }
    let node = &ancestors[at];
    let anchor = match node.shape {
        NodeShape::Module | NodeShape::SourceFile => match node.def {
            Some(id) => Some(ResolverAnchor::Module(id)),
            None => None,
        },
        NodeShape::StructDef => match node.def {
            Some(id) => Some(ResolverAnchor::Struct(id)),
            None => None,
        },
        NodeShape::EnumDef => match node.def {
            Some(id) => Some(ResolverAnchor::Enum(id)),
            None => None,
        },
        NodeShape::FnDef | NodeShape::ConstDef | NodeShape::StaticDef => {
            match body_owner_search(ancestors, at) {
                Some(def) => Some(ResolverAnchor::Body(def)),
                None => None,
            }
        },
        _ => None,
    };
    match anchor {
        Some(anchor) => Some(Resolver { anchor, scope: None }),
        None => None,
    }
}

/// The anchor of the environment of a node: that of the first node, from the
/// node itself outwards, that anchors one. The first such node decides,
/// however many others stand around it.
pub fn owner_anchor(ancestors: &Vec<NodeInfo>) -> (r: Option<ResolverAnchor>)
    ensures
        r == first_anchor_from(ancestors@, 0),
{
    let mut i: usize = 0;
    while i < ancestors.len()
        invariant
            i <= ancestors.len(),
            first_anchor_from(ancestors@, 0) == first_anchor_from(ancestors@, i as int),
        decreases ancestors.len() - i,
    {
        match try_get_resolver_for_node(ancestors, i) {
            Some(r) => {
                return Some(r.anchor);
            },
            None => {},
        }
        i = i + 1;
    }
    None
}

/// No node ever anchors an environment as empty: an anchor that is found is
/// a module, a struct, an enum or a body.
pub proof fn lemma_anchor_is_an_owner(nodes: Seq<NodeInfo>, from: int)
    requires
        0 <= from,
    ensures
        first_anchor_from(nodes, from) != Some(ResolverAnchor::Empty),
    decreases nodes.len() - from,
{
    if from < nodes.len() {
        lemma_anchor_is_an_owner(nodes, from + 1);
    }
}

/// Where no node around a position declares a body that the analysis knows,
/// no anchor around it is a body.
pub proof fn lemma_no_body_no_body_anchor(nodes: Seq<NodeInfo>, from: int)
    requires
        0 <= from,
        body_owner_from(nodes, from).is_none(),
    ensures
        !(first_anchor_from(nodes, from) matches Some(ResolverAnchor::Body(_))),
    decreases nodes.len() - from,
{
    if from < nodes.len() {
        lemma_no_body_no_body_anchor(nodes, from + 1);
    }
}

} // verus!
