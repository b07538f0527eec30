//! The analyzer of one position: built once for a node or an offset, it
//! answers what the syntax around that position means.
use vstd::prelude::*;
use crate::candidates::{all_candidates, collect_candidates, name_view, LookupMode, TypeCandidates};
use crate::context::{first_anchor_from, owner_anchor, Resolver, ResolverAnchor};
use crate::defs::{
    convert_scope_def, merge_path_lookup, merged_outcome, lookup_consistent, scope_def_of,
    AssocItem, CrateId, DefWithBody, FunctionId, GenericDefId, MacroDefId, PathLookup,
    PathResolution, ResolverScopeDef, ScopeDef, StructFieldId, TraitId, Ty, VariantDef,
};
use crate::expansion::{
    expansion_kind_behind, macro_file_kind_at, Expansion, MacroCallId, MacroCallLoc,
};
use crate::locator::{
    all_ranged_scopes, enclosing_scope, located_scope, scope_for, scope_for_offset,
};
use crate::range::TextRange;
use crate::scopes::{BodySourceMap, ExprId, ExprScopes, FileId, PatId, SourcePtr};
use crate::syntax::{NodeShape, NodeInfo};

verus! {

/// What inference found for one body. The two type tables are indexed by
/// identifier; the others pair an identifier with what it resolves to, and of
/// two pairs for one identifier the first counts.
#[derive(Clone, Debug)]
pub struct InferenceResult {
    pub type_of_expr: Vec<Ty>,
    pub type_of_pat: Vec<Ty>,
    pub method_resolutions: Vec<(ExprId, FunctionId)>,
    pub field_resolutions: Vec<(ExprId, StructFieldId)>,
    pub record_field_resolutions: Vec<(ExprId, StructFieldId)>,
    pub variant_resolutions_for_expr: Vec<(ExprId, VariantDef)>,
    pub variant_resolutions_for_pat: Vec<(PatId, VariantDef)>,
    pub assoc_resolutions_for_expr: Vec<(ExprId, AssocItem)>,
    pub assoc_resolutions_for_pat: Vec<(PatId, AssocItem)>,
}

/// The facts that the analysis holds for one body.
#[derive(Clone, Debug)]
pub struct BodyFacts {
    pub source_map: BodySourceMap,
    pub scopes: ExprScopes,
    pub infer: InferenceResult,
}

/// The value paired with `key` by the first pair at or after `from`.
pub open spec fn first_value<T>(pairs: Seq<(u32, T)>, key: u32, from: int) -> Option<T>
    decreases pairs.len() - from,
{
    if from < 0 || from >= pairs.len() {
        None
    } else if pairs[from].0 == key {
        Some(pairs[from].1)
    } else {
        first_value(pairs, key, from + 1)
    }
}

/// The type under `id`, unknown where the table has none.
pub open spec fn type_at(table: Seq<Ty>, id: u32) -> Ty {
    if id < table.len() {
        table[id as int]
    } else {
        Ty::Unknown
    }
}

fn lookup_first<T: Copy>(pairs: &Vec<(u32, T)>, key: u32) -> (r: Option<T>)
    ensures
        r == first_value(pairs@, key, 0),
{
    let mut i: usize = 0;
    while i < pairs.len()
        invariant
            i <= pairs.len(),
            first_value(pairs@, key, 0) == first_value(pairs@, key, i as int),
        decreases pairs.len() - i,
    {
        if pairs[i].0 == key {
            return Some(pairs[i].1);
        }
        i = i + 1;
    }
    None
}

fn lookup_type(table: &Vec<Ty>, id: u32) -> (r: Ty)
    ensures
        r == type_at(table@, id),
{
    if (id as usize) < table.len() {
        table[id as usize]
    } else {
        Ty::Unknown
    }
}

/// A name in a scope together with the syntax of the pattern that binds it.
#[derive(Clone, Debug)]
pub struct ScopeEntryWithSyntax {
    pub name: String,
    pub ptr: SourcePtr,
}

impl ScopeEntryWithSyntax {
    pub fn name(&self) -> (r: &String)
        ensures
            r == &self.name,
    {
        &self.name
    }

    pub fn ptr(&self) -> (r: SourcePtr)
        ensures
            r == self.ptr,
    {
        self.ptr
    }
}

/// A use of a name in source text.
#[derive(Clone, Debug)]
pub struct NameRef {
    pub name: String,
    pub range: TextRange,
    /// The node of the use and the nodes around it, from the inside out.
    pub ancestors: Vec<NodeInfo>,
}

/// A reference to a binding: where it stands and what it says.
#[derive(Clone, Debug)]
pub struct ReferenceDescriptor {
    pub range: TextRange,
    pub name: String,
}

/// Answers questions about one position in source text.
#[derive(Clone, Debug)]
pub struct SourceAnalyzer {
    pub file_id: FileId,
    pub resolver: Resolver,
    pub body_owner: Option<DefWithBody>,
    pub body_source_map: Option<BodySourceMap>,
    pub infer: Option<InferenceResult>,
    pub scopes: Option<ExprScopes>,
}

impl SourceAnalyzer {
    /// The analyzer holds the facts of a body exactly when a body owns the
    /// position, and its environment then starts from that body.
    pub open spec fn wf(self) -> bool {
        &&& self.body_owner.is_some() == self.body_source_map.is_some()
        &&& self.body_owner.is_some() == self.infer.is_some()
        &&& self.body_owner.is_some() == self.scopes.is_some()
        &&& self.body_owner.is_some() ==> self.resolver.anchor == ResolverAnchor::Body(
            self.body_owner.unwrap(),
        )
        &&& self.body_owner.is_none() ==> self.resolver.scope.is_none()
    }

    pub open spec fn spec_expr_id(self, expr: NodeInfo) -> Option<ExprId> {
        match self.body_source_map {
            Some(map) => map.spec_node_expr(expr.ptr_in(self.file_id)),
            None => None,
        }
    }

    pub open spec fn spec_pat_id(self, pat: NodeInfo) -> Option<PatId> {
        match self.body_source_map {
            Some(map) => map.spec_node_pat(pat.ptr_in(self.file_id)),
            None => None,
        }
    }

    /// The binding that a use of `name` at the given node refers to: its name
    /// and the syntax of its pattern.
    pub open spec fn spec_resolve_local_name(self, ancestors: Seq<NodeInfo>, name: Seq<char>) -> Option<
        (Seq<char>, SourcePtr),
    > {
        if self.body_source_map.is_none() || self.scopes.is_none() {
            None
        } else {
            let map = self.body_source_map.unwrap();
            let scopes = self.scopes.unwrap();
            match enclosing_scope(scopes, map, self.file_id, ancestors, 0) {
                None => None,
                Some(scope) => match scopes.spec_resolve_name(scope, name) {
                    None => None,
                    Some((s, i)) => {
                        let entry = scopes.scopes@[s as int].entries@[i];
                        match map.spec_pat_syntax(entry.pat) {
                            Some(ptr) => Some((entry.name@, ptr)),
                            None => None,
                        }
                    },
                },
            }
        }
    }

    /// The use refers to the binding whose pattern stands at `ptr`.
    pub open spec fn refers_to(self, name_ref: NameRef, ptr: SourcePtr) -> bool {
        match self.spec_resolve_local_name(name_ref.ancestors@, name_ref.name@) {
            Some((_, p)) => p == ptr,
            None => false,
        }
    }

    /// The uses among the first `n` of `name_refs` that refer to the binding
    /// at `ptr`, each as its span and text, in the order of `name_refs`.
    pub open spec fn refs_upto(self, ptr: SourcePtr, name_refs: Seq<NameRef>, n: nat) -> Seq<
        (TextRange, Seq<char>),
    >
        decreases n,
    {
        if n == 0 || n > name_refs.len() {
            Seq::empty()
        } else {
            let rest = self.refs_upto(ptr, name_refs, (n - 1) as nat);
            if self.refers_to(name_refs[n - 1], ptr) {
                rest.push((name_refs[n - 1].range, name_refs[n - 1].name@))
            } else {
                rest
            }
        }
    }

    /// The outcome for a path whose parent node is `parent`: the associated
    /// item that inference resolved for that very path expression or pattern,
    /// where it resolved one; in every other case the merged answer of the
    /// namespaces.
    pub open spec fn spec_resolve_path(self, parent: Option<NodeInfo>, lookup: Option<PathLookup>) -> Option<
        PathResolution,
    > {
        let general = match lookup {
            Some(l) => merged_outcome(l, self.body_owner),
            None => None,
        };
        match parent {
            Some(p) => if p.shape == NodeShape::PathExpr {
                match (self.spec_expr_id(p), self.infer) {
                    (Some(id), Some(infer)) => match first_value(
                        infer.assoc_resolutions_for_expr@,
                        id,
                        0,
                    ) {
                        Some(assoc) => Some(PathResolution::AssocItem(assoc)),
                        None => general,
                    },
                    _ => general,
                }
            } else if p.shape == NodeShape::PathPat {
                match (self.spec_pat_id(p), self.infer) {
                    (Some(id), Some(infer)) => match first_value(
                        infer.assoc_resolutions_for_pat@,
                        id,
                        0,
                    ) {
                        Some(assoc) => Some(PathResolution::AssocItem(assoc)),
                        None => general,
                    },
                    _ => general,
                }
            } else {
                general
            },
            None => general,
        }
    }

    /// Builds the analyzer for a node. `ancestors` holds the node and then
    /// the nodes around it, from the inside out. The first of them that
    /// anchors an environment decides. Where it declares a body, `body` holds
    /// the facts of that body, and the environment reaches down to a lexical
    /// scope: the scope at `offset` if one is given, else the scope of the
    /// node. Where it is a module, a file, a struct or an enum, the
    /// environment is that of the declaration, no body owns the position, and
    /// `body` is not looked at. Where no node anchors one, the environment is
    /// empty.
    pub fn new(file_id: FileId, ancestors: &Vec<NodeInfo>, offset: Option<u32>, body: BodyFacts) -> (r:
        SourceAnalyzer)
        ensures
            r.wf(),
            r.file_id == file_id,
            match first_anchor_from(ancestors@, 0) {
                Some(ResolverAnchor::Body(def)) => {
                    &&& r.body_owner == Some(def)
                    &&& r.body_source_map == Some(body.source_map)
                    &&& r.scopes == Some(body.scopes)
                    &&& r.infer == Some(body.infer)
                    &&& r.resolver.anchor == ResolverAnchor::Body(def)
                    &&& r.resolver.scope == match offset {
                        None => enclosing_scope(
                            body.scopes,
                            body.source_map,
                            file_id,
                            ancestors@,
                            0,
                        ),
                        Some(o) => located_scope(
                            all_ranged_scopes(body.scopes, body.source_map, file_id),
                            o,
                        ),
                    }
                },
                Some(anchor) => {
                    &&& r.resolver == (Resolver { anchor, scope: None })
                    &&& r.body_owner.is_none()
                    &&& r.body_source_map.is_none()
                    &&& r.scopes.is_none()
                    &&& r.infer.is_none()
                },
                None => {
                    &&& r.resolver == Resolver::empty()
                    &&& r.body_owner.is_none()
                    &&& r.body_source_map.is_none()
                    &&& r.scopes.is_none()
                    &&& r.infer.is_none()
                },
            },
    {
        let anchor = match owner_anchor(ancestors) {
            Some(anchor) => anchor,
            None => ResolverAnchor::Empty,
        };
        proof {
            crate::context::lemma_anchor_is_an_owner(ancestors@, 0);
        }
        match anchor {
            ResolverAnchor::Body(def) => {
                let scope = match offset {
                    None => scope_for(&body.scopes, &body.source_map, file_id, ancestors),
                    Some(offset) => scope_for_offset(
                        &body.scopes,
                        &body.source_map,
                        file_id,
                        offset,
                    ),
                };
                SourceAnalyzer {
                    resolver: Resolver { anchor, scope },
                    body_owner: Some(def),
                    body_source_map: Some(body.source_map),
                    infer: Some(body.infer),
                    scopes: Some(body.scopes),
                    file_id,
                }
            },
            _ => SourceAnalyzer {
                resolver: Resolver { anchor, scope: None },
                body_owner: None,
                body_source_map: None,
                infer: None,
                scopes: None,
                file_id,
            },
        }
    }

    pub fn expr_id(&self, expr: &NodeInfo) -> (r: Option<ExprId>)
        ensures
            r == self.spec_expr_id(*expr),
    {
        match &self.body_source_map {
            Some(map) => map.node_expr(expr.in_file(self.file_id)),
            None => None,
        }
    }

    pub fn pat_id(&self, pat: &NodeInfo) -> (r: Option<PatId>)
        ensures
            r == self.spec_pat_id(*pat),
    {
        match &self.body_source_map {
            Some(map) => map.node_pat(pat.in_file(self.file_id)),
            None => None,
        }
    }

    /// The type of an expression: an answer exactly when the position lies in
    /// a body that knows the expression.
    pub fn type_of(&self, expr: &NodeInfo) -> (r: Option<Ty>)
        ensures
            r == match (self.spec_expr_id(*expr), self.infer) {
                (Some(id), Some(infer)) => Some(type_at(infer.type_of_expr@, id)),
                _ => None,
            },
    {
        let expr_id = match self.expr_id(expr) {
            Some(id) => id,
            None => {
                return None;
            },
        };
        match &self.infer {
            Some(infer) => Some(lookup_type(&infer.type_of_expr, expr_id)),
            None => None,
        }
    }

    /// The type of a pattern.
    pub fn type_of_pat(&self, pat: &NodeInfo) -> (r: Option<Ty>)
        ensures
            r == match (self.spec_pat_id(*pat), self.infer) {
                (Some(id), Some(infer)) => Some(type_at(infer.type_of_pat@, id)),
                _ => None,
            },
    {
        let pat_id = match self.pat_id(pat) {
            Some(id) => id,
            None => {
                return None;
            },
        };
        match &self.infer {
            Some(infer) => Some(lookup_type(&infer.type_of_pat, pat_id)),
            None => None,
        }
    }

    /// The function that a method call was resolved to.
    pub fn resolve_method_call(&self, call: &NodeInfo) -> (r: Option<FunctionId>)
        ensures
            r == match (self.spec_expr_id(*call), self.infer) {
                (Some(id), Some(infer)) => first_value(infer.method_resolutions@, id, 0),
                _ => None,
            },
    {
        let expr_id = match self.expr_id(call) {
            Some(id) => id,
            None => {
                return None;
            },
        };
        match &self.infer {
            Some(infer) => lookup_first(&infer.method_resolutions, expr_id),
            None => None,
        }
    }

    /// The field that a field access was resolved to.
    pub fn resolve_field(&self, field: &NodeInfo) -> (r: Option<StructFieldId>)
        ensures
            r == match (self.spec_expr_id(*field), self.infer) {
                (Some(id), Some(infer)) => first_value(infer.field_resolutions@, id, 0),
                _ => None,
            },
    {
        let expr_id = match self.expr_id(field) {
            Some(id) => id,
            None => {
                return None;
            },
        };
        match &self.infer {
            Some(infer) => lookup_first(&infer.field_resolutions, expr_id),
            None => None,
        }
    }

    /// The field that a field of a record literal was resolved to, given the
    /// expression that initializes it, if it has one.
    pub fn resolve_record_field(&self, field_expr: Option<&NodeInfo>) -> (r: Option<StructFieldId>)
        ensures
            r == match field_expr {
                Some(e) => match (self.spec_expr_id(*e), self.infer) {
                    (Some(id), Some(infer)) => first_value(infer.record_field_resolutions@, id, 0),
                    _ => None,
                },
                None => None,
            },
    {
        let expr = match field_expr {
            Some(e) => e,
            None => {
                return None;
            },
        };
        let expr_id = match self.expr_id(expr) {
            Some(id) => id,
            None => {
                return None;
            },
        };
        match &self.infer {
            Some(infer) => lookup_first(&infer.record_field_resolutions, expr_id),
            None => None,
        }
    }

    /// The struct or variant that a record literal was resolved to.
    pub fn resolve_record_literal(&self, record_lit: &NodeInfo) -> (r: Option<VariantDef>)
        ensures
            r == match (self.spec_expr_id(*record_lit), self.infer) {
                (Some(id), Some(infer)) => first_value(infer.variant_resolutions_for_expr@, id, 0),
                _ => None,
            },
    {
        let expr_id = match self.expr_id(record_lit) {
            Some(id) => id,
            None => {
                return None;
            },
        };
        match &self.infer {
            Some(infer) => lookup_first(&infer.variant_resolutions_for_expr, expr_id),
            None => None,
        }
    }

    /// The struct or variant that a record pattern was resolved to.
    pub fn resolve_record_pattern(&self, record_pat: &NodeInfo) -> (r: Option<VariantDef>)
        ensures
            r == match (self.spec_pat_id(*record_pat), self.infer) {
                (Some(id), Some(infer)) => first_value(infer.variant_resolutions_for_pat@, id, 0),
                _ => None,
            },
    {
        let pat_id = match self.pat_id(record_pat) {
            Some(id) => id,
            None => {
                return None;
            },
        };
        match &self.infer {
            Some(infer) => lookup_first(&infer.variant_resolutions_for_pat, pat_id),
            None => None,
        }
    }

    /// The macro that an invocation names. `lookup` holds the answers for the
    /// invocation's path, `None` where it has no path that can be looked up.
    pub fn resolve_macro_call(&self, lookup: Option<&PathLookup>) -> (r: Option<MacroDefId>)
        ensures
            r == match lookup {
                Some(l) => l.macros,
                None => None,
            },
    {
        match lookup {
            Some(l) => l.macros,
            None => None,
        }
    }

    /// The one outcome for a path, from the answers of the four namespaces:
    /// types before values before items before macros.
    pub fn resolve_hir_path(&self, lookup: &PathLookup) -> (r: Option<PathResolution>)
        requires
            lookup_consistent(*lookup),
        ensures
            r == merged_outcome(*lookup, self.body_owner),
            lookup.types.is_some() ==> r.is_some() && !(r matches Some(PathResolution::Local(_))),
    {
        merge_path_lookup(lookup, self.body_owner)
    }

    /// The outcome for a path in source text. `parent` is the node directly
    /// around the path, `lookup` the answers for the path, `None` where the
    /// path cannot be looked up. A path that is all of a path expression or
    /// path pattern is first asked of inference, which may know an associated
    /// item for it; where it knows none, also because no body knows that
    /// expression or pattern, the namespaces decide.
    pub fn resolve_path(&self, parent: Option<&NodeInfo>, lookup: Option<&PathLookup>) -> (r:
        Option<PathResolution>)
        requires
            lookup matches Some(l) ==> lookup_consistent(*l),
        ensures
            r == self.spec_resolve_path(
                match parent {
                    Some(p) => Some(*p),
                    None => None,
                },
                match lookup {
                    Some(l) => Some(*l),
                    None => None,
                },
            ),
    {
        if let Some(p) = parent {
            match p.shape {
                NodeShape::PathExpr => {
                    match (self.expr_id(p), &self.infer) {
                        (Some(expr_id), Some(infer)) => {
                            match lookup_first(&infer.assoc_resolutions_for_expr, expr_id) {
                                Some(assoc) => {
                                    return Some(PathResolution::AssocItem(assoc));
                                },
                                None => {},
                            }
                        },
                        _ => {},
                    }
                },
                NodeShape::PathPat => {
                    match (self.pat_id(p), &self.infer) {
                        (Some(pat_id), Some(infer)) => {
                            match lookup_first(&infer.assoc_resolutions_for_pat, pat_id) {
                                Some(assoc) => {
                                    return Some(PathResolution::AssocItem(assoc));
                                },
                                None => {},
                            }
                        },
                        _ => {},
                    }
                },
                _ => {},
            }
        }
        match lookup {
            Some(l) => self.resolve_hir_path(l),
            None => None,
        }
    }

    /// The binding that a use of `name` refers to. `ancestors` holds the node
    /// of the use and the nodes around it, from the inside out.
    pub fn resolve_local_name(&self, ancestors: &Vec<NodeInfo>, name: &String) -> (r: Option<
        ScopeEntryWithSyntax,
    >)
        ensures
            match r {
                Some(e) => self.spec_resolve_local_name(ancestors@, name@) == Some((e.name@, e.ptr)),
                None => self.spec_resolve_local_name(ancestors@, name@).is_none(),
            },
    {
        let source_map = match &self.body_source_map {
            Some(m) => m,
            None => {
                return None;
            },
        };
        let scopes = match &self.scopes {
            Some(s) => s,
            None => {
                return None;
            },
        };
        let scope = match scope_for(scopes, source_map, self.file_id, ancestors) {
            Some(s) => s,
            None => {
                return None;
            },
        };
        let (s, i) = match scopes.resolve_name_in_scope(scope, name) {
            Some(found) => found,
            None => {
                return None;
            },
        };
        proof {
            crate::scopes::lemma_resolved_name_in_bounds(*scopes, scope, name@);
        }
        let entry = &scopes.scopes[s as usize].entries[i];
        match source_map.pat_syntax(entry.pat) {
            Some(ptr) => Some(ScopeEntryWithSyntax { name: entry.name.clone(), ptr }),
            None => None,
        }
    }

    /// Converts the names that the environment has in scope, in their order.
    /// `generic_def` is the definition whose generic parameters the
    /// environment has in scope.
    pub fn process_all_names(
        &self,
        names: &Vec<(String, ResolverScopeDef)>,
        generic_def: Option<GenericDefId>,
    ) -> (r: Vec<(String, ScopeDef)>)
        requires
            forall|i: int|
                0 <= i < names@.len() ==> ((#[trigger] names@[i]).1 is GenericParam
                    ==> generic_def.is_some()) && (names@[i].1 is Local
                    ==> self.resolver.spec_body_owner().is_some()),
        ensures
            r@.len() == names@.len(),
            forall|i: int|
                0 <= i < names@.len() ==> (#[trigger] r@[i]).0@ == names@[i].0@ && r@[i].1
                    == scope_def_of(names@[i].1, generic_def, self.resolver.spec_body_owner()),
    {
        let owner = self.resolver.body_owner();
        let mut out: Vec<(String, ScopeDef)> = Vec::new();
        let mut i: usize = 0;
        while i < names.len()
            invariant
                i <= names.len(),
                out@.len() == i,
                owner == self.resolver.spec_body_owner(),
                forall|k: int|
                    0 <= k < names@.len() ==> ((#[trigger] names@[k]).1 is GenericParam
                        ==> generic_def.is_some()) && (names@[k].1 is Local ==> owner.is_some()),
                forall|k: int|
                    0 <= k < i ==> (#[trigger] out@[k]).0@ == names@[k].0@ && out@[k].1
                        == scope_def_of(names@[k].1, generic_def, owner),
            decreases names.len() - i,
        {
            let def = convert_scope_def(names[i].1, generic_def, owner);
            out.push((names[i].0.clone(), def));
            i = i + 1;
        }
        out
    }

    /// The uses among `name_refs` that refer to the binding whose pattern
    /// stands at `pat`, in the order of `name_refs`.
    pub fn find_all_refs(&self, pat: SourcePtr, name_refs: &Vec<NameRef>) -> (r: Vec<
        ReferenceDescriptor,
    >)
        ensures
            r@.len() == self.refs_upto(pat, name_refs@, name_refs@.len()).len(),
            forall|i: int|
                0 <= i < r@.len() ==> (#[trigger] r@[i]).range == self.refs_upto(
                    pat,
                    name_refs@,
                    name_refs@.len(),
                )[i].0 && r@[i].name@ == self.refs_upto(pat, name_refs@, name_refs@.len())[i].1,
    {
        let mut out: Vec<ReferenceDescriptor> = Vec::new();
        let mut k: usize = 0;
        while k < name_refs.len()
            invariant
                k <= name_refs.len(),
                out@.len() == self.refs_upto(pat, name_refs@, k as nat).len(),
                forall|i: int|
                    0 <= i < out@.len() ==> (#[trigger] out@[i]).range == self.refs_upto(
                        pat,
                        name_refs@,
                        k as nat,
                    )[i].0 && out@[i].name@ == self.refs_upto(pat, name_refs@, k as nat)[i].1,
            decreases name_refs.len() - k,
        {
            let name_ref = &name_refs[k];
            let hit = match self.resolve_local_name(&name_ref.ancestors, &name_ref.name) {
                None => false,
                Some(entry) => entry.ptr() == pat,
            };
            if hit {
                out.push(ReferenceDescriptor { name: name_ref.name.clone(), range: name_ref.range });
            }
            k = k + 1;
        }
        out
    }

    /// Walks the functions that are candidates for a method call on the first
    /// type of `chain`, in the order of the chain, and returns what the first
    /// one yields that `callback` has an answer for.
    pub fn iterate_method_candidates<T, F: Fn(Ty, FunctionId) -> Option<T>>(
        &self,
        chain: &Vec<TypeCandidates>,
        name: Option<&String>,
        callback: F,
    ) -> (r: Option<T>)
        requires
            forall|ty: Ty, f: FunctionId| callback.requires((ty, f)),
        ensures
            ({
                let c = all_candidates(chain@, name_view(name), LookupMode::MethodCall);
                match r {
                    Some(v) => exists|k: int|
                        0 <= k < c.len() && (#[trigger] c[k]).1 is Function && callback.ensures(
                            (c[k].0, c[k].1->Function_0),
                            Some(v),
                        ) && forall|j: int|
                            0 <= j < k && (#[trigger] c[j]).1 is Function ==> callback.ensures(
                                (c[j].0, c[j].1->Function_0),
                                None,
                            ),
                    None => forall|j: int|
                        0 <= j < c.len() && (#[trigger] c[j]).1 is Function ==> callback.ensures(
                            (c[j].0, c[j].1->Function_0),
                            None,
                        ),
                }
            }),
    {
        let cands = collect_candidates(chain, name, LookupMode::MethodCall);
        let mut k: usize = 0;
        while k < cands.len()
            invariant
                k <= cands.len(),
                forall|ty: Ty, f: FunctionId| callback.requires((ty, f)),
                cands@ == all_candidates(chain@, name_view(name), LookupMode::MethodCall),
                forall|j: int|
                    0 <= j < k && (#[trigger] cands@[j]).1 is Function ==> callback.ensures(
                        (cands@[j].0, cands@[j].1->Function_0),
                        None,
                    ),
            decreases cands.len() - k,
        {
            match cands[k].1 {
                AssocItem::Function(f) => {
                    let res = callback(cands[k].0, f);
                    if res.is_some() {
                        return res;
                    }
                },
                _ => {},
            }
            k = k + 1;
        }
        None
    }

    /// Walks every associated item that is a candidate for a path on the
    /// first type of `chain`, in the order of the chain, and returns what the
    /// first one yields that `callback` has an answer for.
    pub fn iterate_path_candidates<T, F: Fn(Ty, AssocItem) -> Option<T>>(
        &self,
        chain: &Vec<TypeCandidates>,
        name: Option<&String>,
        callback: F,
    ) -> (r: Option<T>)
        requires
            forall|ty: Ty, it: AssocItem| callback.requires((ty, it)),
        ensures
            ({
                let c = all_candidates(chain@, name_view(name), LookupMode::Path);
                match r {
                    Some(v) => exists|k: int|
                        0 <= k < c.len() && callback.ensures(#[trigger] c[k], Some(v)) && forall|
                            j: int,
                        |
                            0 <= j < k ==> callback.ensures(#[trigger] c[j], None),
                    None => forall|j: int|
                        0 <= j < c.len() ==> callback.ensures(#[trigger] c[j], None),
                }
            }),
    {
        let cands = collect_candidates(chain, name, LookupMode::Path);
        let mut k: usize = 0;
        while k < cands.len()
            invariant
                k <= cands.len(),
                forall|ty: Ty, it: AssocItem| callback.requires((ty, it)),
                cands@ == all_candidates(chain@, name_view(name), LookupMode::Path),
                forall|j: int| 0 <= j < k ==> callback.ensures(#[trigger] cands@[j], None),
            decreases cands.len() - k,
        {
            let res = callback(cands[k].0, cands[k].1);
            if res.is_some() {
                return res;
            }
            k = k + 1;
        }
        None
    }

    /// The types of a dereference chain, the receiver's own type first.
    pub fn autoderef(&self, chain: &Vec<TypeCandidates>) -> (r: Vec<Ty>)
        ensures
            r@.len() == chain@.len(),
            forall|i: int| 0 <= i < chain@.len() ==> r@[i] == chain@[i].ty,
    {
        let mut out: Vec<Ty> = Vec::new();
        let mut i: usize = 0;
        while i < chain.len()
            invariant
                i <= chain.len(),
                out@.len() == i,
                forall|k: int| 0 <= k < i ==> out@[k] == chain@[k].ty,
            decreases chain.len() - i,
        {
            out.push(chain[i].ty);
            i = i + 1;
        }
        out
    }

    /// Whether a type can be awaited. `std_future_trait` is the trait that
    /// the environment knows as the standard future, `krate` the crate of the
    /// environment, and `implemented` the answer of the analysis to whether
    /// the type implements that trait in that crate; the answer counts only
    /// where both are known.
    pub fn impls_future(&self, std_future_trait: Option<TraitId>, krate: Option<CrateId>, implemented: bool) -> (r:
        bool)
        ensures
            r == (std_future_trait.is_some() && krate.is_some() && implemented),
    {
        match std_future_trait {
            Some(_) => {},
            None => {
                return false;
            },
        }
        match krate {
            Some(_) => {},
            None => {
                return false;
            },
        }
        implemented
    }

    /// The place of a macro invocation, where the invocation's macro
    /// resolves: the macro, the file of the invocation and the invocation's
    /// identity in that file. The analysis gives each place an identity of
    /// its own, which `expand` takes.
    pub fn macro_call_loc(&self, lookup: Option<&PathLookup>, file_id: FileId, ast_id: u32) -> (r:
        Option<MacroCallLoc>)
        ensures
            r == match lookup {
                Some(l) => match l.macros {
                    Some(def) => Some(MacroCallLoc { def, file_id, ast_id }),
                    None => None,
                },
                None => None,
            },
    {
        match self.resolve_macro_call(lookup) {
            Some(def) => Some(MacroCallLoc { def, file_id, ast_id }),
            None => None,
        }
    }

    /// The expansion of a macro invocation, where the invocation's macro
    /// resolves. `lookup` holds the answers for the invocation's path,
    /// `macro_call_id` the identity that the analysis gives the invocation's
    /// place, `parent` the shape of the node around the invocation and
    /// `grandparent` that of the node around the parent, each `None` where
    /// there is no such node.
    pub fn expand(
        &self,
        lookup: Option<&PathLookup>,
        macro_call_id: MacroCallId,
        parent: Option<NodeShape>,
        grandparent: Option<NodeShape>,
    ) -> (r: Option<Expansion>)
        ensures
            r == match lookup {
                Some(l) => match l.macros {
                    Some(_) => Some(
                        Expansion {
                            macro_file_kind: expansion_kind_behind(parent, grandparent),
                            macro_call_id,
                        },
                    ),
                    None => None,
                },
                None => None,
            },
    {
        match self.resolve_macro_call(lookup) {
            Some(_) => Some(
                Expansion { macro_call_id, macro_file_kind: macro_file_kind_at(parent, grandparent) },
            ),
            None => None,
        }
    }

    /// The source map of the body around the position.
    pub fn body_source_map(&self) -> (r: &BodySourceMap)
        requires
            self.body_source_map.is_some(),
        ensures
            *r == self.body_source_map.unwrap(),
    {
        self.body_source_map.as_ref().unwrap()
    }

    /// What inference found for the body around the position.
    pub fn inference_result(&self) -> (r: &InferenceResult)
        requires
            self.infer.is_some(),
        ensures
            *r == self.infer.unwrap(),
    {
        self.infer.as_ref().unwrap()
    }

    /// The owner of the body around the position, if a body owns it.
    pub fn analyzed_declaration(&self) -> (r: Option<DefWithBody>)
        ensures
            r == self.body_owner,
    {
        self.body_owner
    }
}

/// Outside every body nothing has a type: an analyzer without a body owner
/// knows no expression.
pub proof fn lemma_no_body_no_expr(a: SourceAnalyzer, expr: NodeInfo)
    requires
        a.wf(),
        a.body_owner.is_none(),
    ensures
        a.spec_expr_id(expr).is_none(),
        a.spec_pat_id(expr).is_none(),
{
}

} // verus!
