use position_binder::analyzer::{BodyFacts, InferenceResult, NameRef, SourceAnalyzer};
use position_binder::candidates::{collect_candidates, LookupMode, NamedItem, TypeCandidates};
use position_binder::context::{
    def_with_body_from_child_node, owner_anchor, try_get_resolver_for_node, Resolver,
    ResolverAnchor,
};
use position_binder::defs::{
    convert_scope_def, merge_path_lookup, Adt, AssocItem, DefWithBody, GenericParam, Local,
    ModuleDef, PathLookup, PathResolution, PerNs, ResolverScopeDef, ScopeDef, Ty, TypeNs, ValueNs,
    VariantDef,
};
use position_binder::expansion::{
    macro_file_kind_at, to_macro_file_kind, Expansion, ExpansionInfo, MacroCallLoc, MacroFileKind,
};
use position_binder::range::TextRange;
use position_binder::scopes::{BodySourceMap, ExprScopes, ScopeData, ScopeEntry, SourcePtr};
use position_binder::syntax::{NodeInfo, NodeShape};
use position_binder::tree::{macro_file_kind_under, node_info, refine_shape, shape_of_kind};
use ra_ap_syntax::{AstNode, Edition, SourceFile, SyntaxKind};

fn range(start: u32, end: u32) -> TextRange {
    TextRange::from_to(start, end)
}

fn sp(file: u32, start: u32, end: u32, kind: u16) -> SourcePtr {
    SourcePtr { file_id: file, range: range(start, end), kind }
}

fn node(shape: NodeShape, start: u32, end: u32, kind: u16, def: Option<u32>) -> NodeInfo {
    NodeInfo { shape, range: range(start, end), kind, def }
}

fn no_items() -> PerNs {
    PerNs { types: None, values: None, macros: None }
}

fn silent() -> PathLookup {
    PathLookup { types: None, values: None, items: no_items(), macros: None, generic_def: None }
}

fn empty_facts() -> BodyFacts {
    BodyFacts {
        source_map: BodySourceMap { exprs: vec![], pats: vec![] },
        scopes: ExprScopes { scopes: vec![], scope_by_expr: vec![] },
        infer: empty_infer(),
    }
}

fn empty_infer() -> InferenceResult {
    InferenceResult {
        type_of_expr: vec![],
        type_of_pat: vec![],
        method_resolutions: vec![],
        field_resolutions: vec![],
        record_field_resolutions: vec![],
        variant_resolutions_for_expr: vec![],
        variant_resolutions_for_pat: vec![],
        assoc_resolutions_for_expr: vec![],
        assoc_resolutions_for_pat: vec![],
    }
}

// fn f() { let x = 1; x; S::new; }
//  0     7     11  15 19 22     30
fn body_facts() -> BodyFacts {
    let mut infer = empty_infer();
    infer.type_of_expr = vec![Ty::Known(0), Ty::Known(5), Ty::Known(5)];
    infer.type_of_pat = vec![Ty::Known(5)];
    infer.method_resolutions = vec![(2, 77)];
    infer.field_resolutions = vec![(1, 8)];
    infer.record_field_resolutions = vec![(1, 9)];
    infer.variant_resolutions_for_expr = vec![(3, VariantDef::Struct(4))];
    infer.variant_resolutions_for_pat = vec![(0, VariantDef::EnumVariant(6))];
    infer.assoc_resolutions_for_expr = vec![(3, AssocItem::Function(70))];
    infer.assoc_resolutions_for_pat = vec![(0, AssocItem::Const(71))];
    BodyFacts {
        source_map: BodySourceMap {
            exprs: vec![
                Some(sp(0, 7, 32, 10)),
                Some(sp(0, 17, 18, 11)),
                Some(sp(0, 20, 21, 12)),
                Some(sp(0, 23, 29, 12)),
            ],
            pats: vec![Some(sp(0, 13, 14, 20))],
        },
        scopes: ExprScopes {
            scopes: vec![
                ScopeData { parent: None, entries: vec![] },
                ScopeData {
                    parent: Some(0),
                    entries: vec![ScopeEntry { name: "x".to_string(), pat: 0 }],
                },
            ],
            scope_by_expr: vec![(0, 0), (1, 0), (2, 1), (3, 1)],
        },
        infer,
    }
}

fn in_fn(inner: Vec<NodeInfo>) -> Vec<NodeInfo> {
    let mut v = inner;
    v.push(node(NodeShape::Expr, 7, 32, 10, None));
    v.push(node(NodeShape::FnDef, 0, 32, 30, Some(42)));
    v.push(node(NodeShape::SourceFile, 0, 32, 31, Some(1)));
    v
}

fn analyzer_in_fn() -> SourceAnalyzer {
    let chain = in_fn(vec![node(NodeShape::PathExpr, 20, 21, 12, None)]);
    SourceAnalyzer::new(0, &chain, None, body_facts())
}

fn analyzer_in_module() -> SourceAnalyzer {
    let chain = vec![
        node(NodeShape::Other, 5, 6, 3, None),
        node(NodeShape::Module, 0, 40, 32, Some(9)),
        node(NodeShape::SourceFile, 0, 90, 31, Some(1)),
    ];
    SourceAnalyzer::new(0, &chain, None, body_facts())
}

#[test]
fn type_namespace_wins_over_value_namespace() {
    let a = analyzer_in_fn();
    let mut l = silent();
    l.types = Some(TypeNs::AdtId(Adt::Struct(3)));
    l.values = Some(ValueNs::ConstId(4));
    l.items = PerNs { types: Some(ModuleDef::Module(1)), values: None, macros: None };
    l.macros = Some(8);
    assert_eq!(a.resolve_hir_path(&l), Some(PathResolution::Def(ModuleDef::Adt(Adt::Struct(3)))));
}

#[test]
fn namespaces_are_tried_in_order() {
    let a = analyzer_in_fn();
    let mut l = silent();
    l.macros = Some(8);
    assert_eq!(a.resolve_hir_path(&l), Some(PathResolution::Macro(8)));
    l.items = PerNs { types: Some(ModuleDef::Module(1)), values: Some(ModuleDef::Const(2)), macros: None };
    assert_eq!(a.resolve_hir_path(&l), Some(PathResolution::Def(ModuleDef::Module(1))));
    l.values = Some(ValueNs::StaticId(4));
    assert_eq!(a.resolve_hir_path(&l), Some(PathResolution::Def(ModuleDef::Static(4))));
    assert_eq!(a.resolve_hir_path(&silent()), None);
    // items that are no types do not count
    let mut l = silent();
    l.items = PerNs { types: None, values: Some(ModuleDef::Const(2)), macros: Some(3) };
    assert_eq!(a.resolve_hir_path(&l), None);
}

#[test]
fn each_type_answer_has_its_outcome() {
    let body = Some(DefWithBody::Function(1));
    let mut l = silent();
    l.generic_def = Some(50);
    let cases = vec![
        (TypeNs::SelfType(2), PathResolution::SelfType(2)),
        (TypeNs::GenericParam(3), PathResolution::GenericParam(GenericParam { parent: 50, idx: 3 })),
        (TypeNs::AdtSelfType(Adt::Enum(4)), PathResolution::Def(ModuleDef::Adt(Adt::Enum(4)))),
        (TypeNs::AdtId(Adt::Union(5)), PathResolution::Def(ModuleDef::Adt(Adt::Union(5)))),
        (TypeNs::EnumVariantId(6), PathResolution::Def(ModuleDef::EnumVariant(6))),
        (TypeNs::TypeAliasId(7), PathResolution::Def(ModuleDef::TypeAlias(7))),
        (TypeNs::BuiltinType(8), PathResolution::Def(ModuleDef::BuiltinType(8))),
        (TypeNs::TraitId(9), PathResolution::Def(ModuleDef::Trait(9))),
    ];
    for (ty, want) in cases {
        l.types = Some(ty);
        assert_eq!(merge_path_lookup(&l, body), Some(want));
    }
}

#[test]
fn each_value_answer_has_its_outcome() {
    let body = Some(DefWithBody::Const(1));
    let mut l = silent();
    let cases = vec![
        (
            ValueNs::LocalBinding(2),
            PathResolution::Local(Local { parent: DefWithBody::Const(1), pat_id: 2 }),
        ),
        (ValueNs::FunctionId(3), PathResolution::Def(ModuleDef::Function(3))),
        (ValueNs::ConstId(4), PathResolution::Def(ModuleDef::Const(4))),
        (ValueNs::StaticId(5), PathResolution::Def(ModuleDef::Static(5))),
        (ValueNs::StructId(6), PathResolution::Def(ModuleDef::Adt(Adt::Struct(6)))),
        (ValueNs::EnumVariantId(7), PathResolution::Def(ModuleDef::EnumVariant(7))),
    ];
    for (v, want) in cases {
        l.values = Some(v);
        assert_eq!(merge_path_lookup(&l, body), Some(want));
    }
}

#[test]
fn local_binding_outside_a_body_falls_through() {
    let mut l = silent();
    l.values = Some(ValueNs::LocalBinding(2));
    assert_eq!(merge_path_lookup(&l, None), None);
    l.macros = Some(5);
    assert_eq!(merge_path_lookup(&l, None), Some(PathResolution::Macro(5)));
}

#[test]
fn position_in_module_has_no_body_owner_and_no_types() {
    let a = analyzer_in_module();
    assert_eq!(a.analyzed_declaration(), None);
    assert!(a.body_source_map.is_none());
    assert!(a.infer.is_none());
    assert!(a.scopes.is_none());
    assert_eq!(a.resolver, Resolver { anchor: ResolverAnchor::Module(9), scope: None });
    assert_eq!(a.type_of(&node(NodeShape::Expr, 17, 18, 11, None)), None);
    assert_eq!(a.type_of(&node(NodeShape::Expr, 7, 32, 10, None)), None);
    assert_eq!(a.type_of_pat(&node(NodeShape::Other, 13, 14, 20, None)), None);
    assert_eq!(a.resolve_local_name(&vec![], &"x".to_string()).map(|e| e.ptr), None);
}

#[test]
fn position_in_body_gets_body_environment() {
    let a = analyzer_in_fn();
    assert_eq!(a.analyzed_declaration(), Some(DefWithBody::Function(42)));
    assert_eq!(
        a.resolver,
        Resolver { anchor: ResolverAnchor::Body(DefWithBody::Function(42)), scope: Some(1) }
    );
    assert_eq!(a.resolver.body_owner(), Some(DefWithBody::Function(42)));
    let chain = in_fn(vec![]);
    let at_offset = SourceAnalyzer::new(0, &chain, Some(17), body_facts());
    assert_eq!(at_offset.resolver.scope, Some(0));
    let at_end = SourceAnalyzer::new(0, &chain, Some(31), body_facts());
    assert_eq!(at_end.resolver.scope, Some(1));
}

#[test]
fn owners_are_found_by_shape() {
    let chain = vec![
        node(NodeShape::Other, 5, 6, 3, None),
        node(NodeShape::FnDef, 4, 8, 30, None),
        node(NodeShape::StructDef, 3, 9, 33, Some(7)),
        node(NodeShape::ConstDef, 2, 10, 34, Some(8)),
        node(NodeShape::EnumDef, 1, 11, 35, Some(6)),
        node(NodeShape::StaticDef, 0, 12, 36, Some(5)),
    ];
    // a declaration that the analysis does not know is passed over
    assert_eq!(def_with_body_from_child_node(&chain), Some(DefWithBody::Const(8)));
    assert_eq!(try_get_resolver_for_node(&chain, 0), None);
    assert_eq!(
        try_get_resolver_for_node(&chain, 1),
        Some(Resolver { anchor: ResolverAnchor::Body(DefWithBody::Const(8)), scope: None })
    );
    assert_eq!(
        try_get_resolver_for_node(&chain, 2),
        Some(Resolver { anchor: ResolverAnchor::Struct(7), scope: None })
    );
    assert_eq!(
        try_get_resolver_for_node(&chain, 4),
        Some(Resolver { anchor: ResolverAnchor::Enum(6), scope: None })
    );
    assert_eq!(
        try_get_resolver_for_node(&chain, 5),
        Some(Resolver { anchor: ResolverAnchor::Body(DefWithBody::Static(5)), scope: None })
    );
    assert_eq!(try_get_resolver_for_node(&chain, 6), None);
    assert_eq!(def_with_body_from_child_node(&vec![]), None);
}

#[test]
fn no_owner_gives_empty_environment() {
    let chain = vec![node(NodeShape::Other, 5, 6, 3, None), node(NodeShape::SourceFile, 0, 9, 31, None)];
    assert_eq!(owner_anchor(&chain), None);
    assert_eq!(Resolver::default(), Resolver { anchor: ResolverAnchor::Empty, scope: None });
    let a = SourceAnalyzer::new(3, &chain, Some(5), empty_facts());
    assert_eq!(a.resolver, Resolver::default());
    assert_eq!(a.file_id, 3);
    assert_eq!(a.resolve_hir_path(&silent()), None);
    let in_struct = vec![
        node(NodeShape::Other, 5, 6, 3, None),
        node(NodeShape::StructDef, 0, 9, 33, Some(4)),
        node(NodeShape::SourceFile, 0, 9, 31, Some(1)),
    ];
    assert_eq!(owner_anchor(&in_struct), Some(ResolverAnchor::Struct(4)));
    assert_eq!(owner_anchor(&Vec::new()), None);
}

#[test]
fn first_owner_on_the_way_up_decides() {
    // a node in a struct that is declared inside a function
    let chain = vec![
        node(NodeShape::Other, 12, 13, 3, None),
        node(NodeShape::StructDef, 10, 20, 33, Some(7)),
        node(NodeShape::Expr, 7, 32, 10, None),
        node(NodeShape::FnDef, 0, 32, 30, Some(42)),
        node(NodeShape::SourceFile, 0, 32, 31, Some(1)),
    ];
    assert_eq!(owner_anchor(&chain), Some(ResolverAnchor::Struct(7)));
    let a = SourceAnalyzer::new(0, &chain, Some(12), body_facts());
    assert_eq!(a.resolver, Resolver { anchor: ResolverAnchor::Struct(7), scope: None });
    assert_eq!(a.analyzed_declaration(), None);
    assert!(a.body_source_map.is_none());
    assert!(a.scopes.is_none());
    assert!(a.infer.is_none());
    assert_eq!(a.type_of(&node(NodeShape::Expr, 17, 18, 11, None)), None);
    // a function declared in a module: the function is met first
    let chain = vec![
        node(NodeShape::Expr, 7, 32, 10, None),
        node(NodeShape::FnDef, 0, 32, 30, Some(42)),
        node(NodeShape::Module, 0, 40, 32, Some(9)),
    ];
    let a = SourceAnalyzer::new(0, &chain, None, body_facts());
    assert_eq!(a.analyzed_declaration(), Some(DefWithBody::Function(42)));
    assert_eq!(a.resolver.scope, Some(0));
    // a struct that the analysis does not know is passed over
    let chain = vec![
        node(NodeShape::StructDef, 10, 20, 33, None),
        node(NodeShape::FnDef, 0, 32, 30, Some(42)),
    ];
    assert_eq!(owner_anchor(&chain), Some(ResolverAnchor::Body(DefWithBody::Function(42))));
}

#[test]
fn inference_lookups() {
    let a = analyzer_in_fn();
    assert_eq!(a.type_of(&node(NodeShape::Expr, 17, 18, 11, None)), Some(Ty::Known(5)));
    // known to the body, unknown to inference
    assert_eq!(a.type_of(&node(NodeShape::PathExpr, 23, 29, 12, None)), Some(Ty::Unknown));
    assert_eq!(a.type_of(&node(NodeShape::Expr, 18, 19, 11, None)), None);
    assert_eq!(a.type_of_pat(&node(NodeShape::Other, 13, 14, 20, None)), Some(Ty::Known(5)));
    assert_eq!(a.resolve_method_call(&node(NodeShape::Expr, 20, 21, 12, None)), Some(77));
    assert_eq!(a.resolve_method_call(&node(NodeShape::Expr, 17, 18, 11, None)), None);
    assert_eq!(a.resolve_field(&node(NodeShape::Expr, 17, 18, 11, None)), Some(8));
    assert_eq!(a.resolve_record_field(Some(&node(NodeShape::Expr, 17, 18, 11, None))), Some(9));
    assert_eq!(a.resolve_record_field(None), None);
    assert_eq!(
        a.resolve_record_literal(&node(NodeShape::Expr, 23, 29, 12, None)),
        Some(VariantDef::Struct(4))
    );
    assert_eq!(
        a.resolve_record_pattern(&node(NodeShape::Other, 13, 14, 20, None)),
        Some(VariantDef::EnumVariant(6))
    );
    assert_eq!(a.expr_id(&node(NodeShape::Expr, 7, 32, 10, None)), Some(0));
    assert_eq!(a.pat_id(&node(NodeShape::Other, 13, 14, 20, None)), Some(0));
}

#[test]
fn path_expression_prefers_associated_item() {
    let a = analyzer_in_fn();
    let mut l = silent();
    l.values = Some(ValueNs::FunctionId(3));
    let assoc_parent = node(NodeShape::PathExpr, 23, 29, 12, None);
    assert_eq!(
        a.resolve_path(Some(&assoc_parent), Some(&l)),
        Some(PathResolution::AssocItem(AssocItem::Function(70)))
    );
    let plain_parent = node(NodeShape::PathExpr, 20, 21, 12, None);
    assert_eq!(
        a.resolve_path(Some(&plain_parent), Some(&l)),
        Some(PathResolution::Def(ModuleDef::Function(3)))
    );
    // a path expression that the body does not know is left to the namespaces
    let unknown_parent = node(NodeShape::PathExpr, 1, 2, 12, None);
    assert_eq!(
        a.resolve_path(Some(&unknown_parent), Some(&l)),
        Some(PathResolution::Def(ModuleDef::Function(3)))
    );
    let unknown_pat = node(NodeShape::PathPat, 1, 2, 20, None);
    assert_eq!(
        a.resolve_path(Some(&unknown_pat), Some(&l)),
        Some(PathResolution::Def(ModuleDef::Function(3)))
    );
    assert_eq!(a.resolve_path(Some(&unknown_parent), None), None);
    let pat_parent = node(NodeShape::PathPat, 13, 14, 20, None);
    assert_eq!(
        a.resolve_path(Some(&pat_parent), Some(&l)),
        Some(PathResolution::AssocItem(AssocItem::Const(71)))
    );
    let other = node(NodeShape::Other, 1, 2, 12, None);
    assert_eq!(a.resolve_path(Some(&other), Some(&l)), Some(PathResolution::Def(ModuleDef::Function(3))));
    assert_eq!(a.resolve_path(None, Some(&l)), Some(PathResolution::Def(ModuleDef::Function(3))));
    assert_eq!(a.resolve_path(None, None), None);
    // outside every body the namespaces decide as well
    assert_eq!(
        analyzer_in_module().resolve_path(Some(&plain_parent), Some(&l)),
        Some(PathResolution::Def(ModuleDef::Function(3)))
    );
    assert_eq!(
        analyzer_in_module().resolve_path(Some(&assoc_parent), Some(&l)),
        Some(PathResolution::Def(ModuleDef::Function(3)))
    );
}

#[test]
fn local_names_and_references() {
    let a = analyzer_in_fn();
    let x_use = in_fn(vec![node(NodeShape::Other, 20, 21, 40, None), node(NodeShape::PathExpr, 20, 21, 12, None)]);
    let entry = a.resolve_local_name(&x_use, &"x".to_string()).unwrap();
    assert_eq!(entry.name(), "x");
    assert_eq!(entry.ptr(), sp(0, 13, 14, 20));
    assert!(a.resolve_local_name(&x_use, &"y".to_string()).is_none());
    // before the binding the name is not in scope
    let early = in_fn(vec![node(NodeShape::Expr, 17, 18, 11, None)]);
    assert!(a.resolve_local_name(&early, &"x".to_string()).is_none());
    let refs = vec![
        NameRef { name: "x".to_string(), range: range(17, 18), ancestors: early },
        NameRef { name: "x".to_string(), range: range(20, 21), ancestors: x_use.clone() },
        NameRef { name: "S".to_string(), range: range(23, 24), ancestors: x_use.clone() },
        NameRef { name: "x".to_string(), range: range(26, 27), ancestors: x_use },
    ];
    let found = a.find_all_refs(sp(0, 13, 14, 20), &refs);
    let got: Vec<(u32, u32, String)> =
        found.iter().map(|r| (r.range.start, r.range.end, r.name.clone())).collect();
    assert_eq!(got, vec![(20, 21, "x".to_string()), (26, 27, "x".to_string())]);
    assert!(a.find_all_refs(sp(0, 13, 14, 21), &refs).is_empty());
    assert!(analyzer_in_module().find_all_refs(sp(0, 13, 14, 20), &refs).is_empty());
}

#[test]
fn names_in_scope_are_converted() {
    let a = analyzer_in_fn();
    let names = vec![
        ("T".to_string(), ResolverScopeDef::GenericParam(1)),
        ("x".to_string(), ResolverScopeDef::Local(0)),
        ("Self".to_string(), ResolverScopeDef::ImplSelfType(3)),
        ("This".to_string(), ResolverScopeDef::AdtSelfType(Adt::Enum(4))),
        (
            "m".to_string(),
            ResolverScopeDef::PerNs(PerNs {
                types: Some(ModuleDef::Module(5)),
                values: Some(ModuleDef::Const(6)),
                macros: Some(7),
            }),
        ),
        (
            "c".to_string(),
            ResolverScopeDef::PerNs(PerNs { types: None, values: Some(ModuleDef::Const(6)), macros: Some(7) }),
        ),
        ("mac".to_string(), ResolverScopeDef::PerNs(PerNs { types: None, values: None, macros: Some(7) })),
        ("none".to_string(), ResolverScopeDef::PerNs(no_items())),
    ];
    let got = a.process_all_names(&names, Some(60));
    let want = vec![
        ("T".to_string(), ScopeDef::GenericParam(GenericParam { parent: 60, idx: 1 })),
        ("x".to_string(), ScopeDef::Local(Local { parent: DefWithBody::Function(42), pat_id: 0 })),
        ("Self".to_string(), ScopeDef::ImplSelfType(3)),
        ("This".to_string(), ScopeDef::AdtSelfType(Adt::Enum(4))),
        ("m".to_string(), ScopeDef::ModuleDef(ModuleDef::Module(5))),
        ("c".to_string(), ScopeDef::ModuleDef(ModuleDef::Const(6))),
        ("mac".to_string(), ScopeDef::MacroDef(7)),
        ("none".to_string(), ScopeDef::Unknown),
    ];
    assert_eq!(got, want);
    assert_eq!(convert_scope_def(ResolverScopeDef::ImplSelfType(3), None, None), ScopeDef::ImplSelfType(3));
}

fn item(name: &str, item: AssocItem) -> NamedItem {
    NamedItem { name: name.to_string(), item }
}

// &&S -> &S -> S, the method `get` living on S
fn deref_chain() -> Vec<TypeCandidates> {
    vec![
        TypeCandidates { ty: Ty::Known(2), items: vec![item("clone", AssocItem::Function(1))] },
        TypeCandidates {
            ty: Ty::Known(1),
            items: vec![item("clone", AssocItem::Function(2)), item("LEN", AssocItem::Const(3))],
        },
        TypeCandidates {
            ty: Ty::Known(0),
            items: vec![
                item("Out", AssocItem::TypeAlias(4)),
                item("get", AssocItem::Function(5)),
                item("clone", AssocItem::Function(6)),
            ],
        },
    ]
}

#[test]
fn candidates_come_in_chain_order() {
    let chain = deref_chain();
    let all = collect_candidates(&chain, None, LookupMode::MethodCall);
    assert_eq!(
        all,
        vec![
            (Ty::Known(2), AssocItem::Function(1)),
            (Ty::Known(1), AssocItem::Function(2)),
            (Ty::Known(0), AssocItem::Function(5)),
            (Ty::Known(0), AssocItem::Function(6)),
        ]
    );
    let paths = collect_candidates(&chain, None, LookupMode::Path);
    assert_eq!(paths.len(), 6);
    assert_eq!(paths[2], (Ty::Known(1), AssocItem::Const(3)));
    assert_eq!(paths[3], (Ty::Known(0), AssocItem::TypeAlias(4)));
    let name = "clone".to_string();
    let clones = collect_candidates(&chain, Some(&name), LookupMode::Path);
    assert_eq!(
        clones,
        vec![
            (Ty::Known(2), AssocItem::Function(1)),
            (Ty::Known(1), AssocItem::Function(2)),
            (Ty::Known(0), AssocItem::Function(6)),
        ]
    );
}

#[test]
fn method_candidates_are_visited_least_dereferenced_first() {
    let a = analyzer_in_fn();
    let chain = deref_chain();
    let seen = std::cell::RefCell::new(Vec::new());
    let hit = a.iterate_method_candidates(&chain, None, |ty, f| {
        seen.borrow_mut().push((ty, f));
        if f == 5 {
            Some(ty)
        } else {
            None
        }
    });
    assert_eq!(hit, Some(Ty::Known(0)));
    assert_eq!(*seen.borrow(), vec![(Ty::Known(2), 1), (Ty::Known(1), 2), (Ty::Known(0), 5)]);
    let name = "clone".to_string();
    let first = a.iterate_method_candidates(&chain, Some(&name), |ty, f| Some((ty, f)));
    assert_eq!(first, Some((Ty::Known(2), 1)));
    let none: Option<u32> = a.iterate_method_candidates(&chain, None, |_, _| None);
    assert_eq!(none, None);
    let len = "LEN".to_string();
    let no_method: Option<u32> = a.iterate_method_candidates(&chain, Some(&len), |_, f| Some(f));
    assert_eq!(no_method, None);
    let as_path = a.iterate_path_candidates(&chain, Some(&len), |ty, it| Some((ty, it)));
    assert_eq!(as_path, Some((Ty::Known(1), AssocItem::Const(3))));
    assert_eq!(a.autoderef(&chain), vec![Ty::Known(2), Ty::Known(1), Ty::Known(0)]);
}

#[test]
fn future_probe_needs_trait_and_crate() {
    let a = analyzer_in_fn();
    assert!(a.impls_future(Some(1), Some(2), true));
    assert!(!a.impls_future(Some(1), Some(2), false));
    assert!(!a.impls_future(None, Some(2), true));
    assert!(!a.impls_future(Some(1), None, true));
}

#[test]
fn macro_without_parent_expands_to_expression() {
    assert_eq!(to_macro_file_kind(None), MacroFileKind::Expr);
    assert_eq!(macro_file_kind_under(None, None), MacroFileKind::Expr);
    assert_eq!(macro_file_kind_at(None, None), MacroFileKind::Expr);
    assert_eq!(macro_file_kind_at(None, Some(NodeShape::Block)), MacroFileKind::Expr);
    // the wrapper of an invocation that is all of its tree
    assert_eq!(macro_file_kind_at(Some(NodeShape::MacroExpr), None), MacroFileKind::Expr);
}

#[test]
fn macro_kind_by_parent_shape() {
    assert_eq!(to_macro_file_kind(Some(NodeShape::MacroItems)), MacroFileKind::Items);
    assert_eq!(to_macro_file_kind(Some(NodeShape::SourceFile)), MacroFileKind::Items);
    assert_eq!(to_macro_file_kind(Some(NodeShape::LetStmt)), MacroFileKind::Expr);
    assert_eq!(to_macro_file_kind(Some(NodeShape::ExprStmt)), MacroFileKind::Statements);
    assert_eq!(to_macro_file_kind(Some(NodeShape::Block)), MacroFileKind::Statements);
    assert_eq!(to_macro_file_kind(Some(NodeShape::ArgList)), MacroFileKind::Expr);
    assert_eq!(to_macro_file_kind(Some(NodeShape::TryExpr)), MacroFileKind::Expr);
    assert_eq!(to_macro_file_kind(Some(NodeShape::Module)), MacroFileKind::Items);
    assert_eq!(to_macro_file_kind(Some(NodeShape::Expr)), MacroFileKind::Items);
    assert_eq!(to_macro_file_kind(Some(NodeShape::Other)), MacroFileKind::Items);
}

#[test]
fn expansion_resolves_and_maps_tokens() {
    let a = analyzer_in_fn();
    let mut l = silent();
    assert_eq!(a.expand(Some(&l), 4, Some(NodeShape::ArgList), None), None);
    assert_eq!(a.expand(None, 4, Some(NodeShape::ArgList), None), None);
    assert_eq!(a.macro_call_loc(Some(&l), 2, 9), None);
    assert_eq!(a.macro_call_loc(None, 2, 9), None);
    assert_eq!(a.resolve_macro_call(Some(&l)), None);
    l.macros = Some(12);
    l.types = Some(TypeNs::TraitId(1));
    assert_eq!(a.resolve_macro_call(Some(&l)), Some(12));
    assert_eq!(
        a.macro_call_loc(Some(&l), 2, 9),
        Some(MacroCallLoc { def: 12, file_id: 2, ast_id: 9 })
    );
    let wrapped =
        a.expand(Some(&l), 5, Some(NodeShape::MacroExpr), Some(NodeShape::LetStmt)).unwrap();
    assert_eq!(wrapped, Expansion { macro_file_kind: MacroFileKind::Expr, macro_call_id: 5 });
    let e = a.expand(Some(&l), 4, Some(NodeShape::ExprStmt), Some(NodeShape::Block)).unwrap();
    assert_eq!(e, Expansion { macro_file_kind: MacroFileKind::Statements, macro_call_id: 4 });
    assert_eq!(e.file_id().macro_call_id, 4);
    assert_eq!(e.file_id().macro_file_kind, MacroFileKind::Statements);
    let info = ExpansionInfo {
        tokens: vec![(sp(0, 10, 11, 1), sp(9, 0, 1, 1)), (sp(0, 12, 15, 2), sp(9, 4, 7, 2))],
    };
    assert_eq!(e.map_token_down(Some(&info), sp(0, 12, 15, 2)), Some(sp(9, 4, 7, 2)));
    // outside the argument there is no counterpart
    assert_eq!(e.map_token_down(Some(&info), sp(0, 2, 3, 2)), None);
    assert_eq!(e.map_token_down(None, sp(0, 12, 15, 2)), None);
    // the counterpart leads back to the token
    let down = e.map_token_down(Some(&info), sp(0, 10, 11, 1)).unwrap();
    let back = info.tokens.iter().find(|(_, d)| *d == down).map(|(s, _)| *s);
    assert_eq!(back, Some(sp(0, 10, 11, 1)));
}

#[test]
fn shapes_of_real_kinds() {
    assert_eq!(shape_of_kind(SyntaxKind::FN), NodeShape::FnDef);
    assert_eq!(shape_of_kind(SyntaxKind::CONST), NodeShape::ConstDef);
    assert_eq!(shape_of_kind(SyntaxKind::STATIC), NodeShape::StaticDef);
    assert_eq!(shape_of_kind(SyntaxKind::MODULE), NodeShape::Module);
    assert_eq!(shape_of_kind(SyntaxKind::SOURCE_FILE), NodeShape::SourceFile);
    assert_eq!(shape_of_kind(SyntaxKind::STRUCT), NodeShape::StructDef);
    assert_eq!(shape_of_kind(SyntaxKind::ENUM), NodeShape::EnumDef);
    assert_eq!(shape_of_kind(SyntaxKind::PATH_EXPR), NodeShape::PathExpr);
    assert_eq!(shape_of_kind(SyntaxKind::PATH_PAT), NodeShape::PathPat);
    assert_eq!(shape_of_kind(SyntaxKind::TRY_EXPR), NodeShape::TryExpr);
    assert_eq!(shape_of_kind(SyntaxKind::MACRO_EXPR), NodeShape::MacroExpr);
    assert_eq!(shape_of_kind(SyntaxKind::MACRO_ITEMS), NodeShape::MacroItems);
    assert_eq!(shape_of_kind(SyntaxKind::LET_STMT), NodeShape::LetStmt);
    assert_eq!(shape_of_kind(SyntaxKind::EXPR_STMT), NodeShape::ExprStmt);
    assert_eq!(shape_of_kind(SyntaxKind::STMT_LIST), NodeShape::Block);
    assert_eq!(shape_of_kind(SyntaxKind::ARG_LIST), NodeShape::ArgList);
    assert_eq!(shape_of_kind(SyntaxKind::CALL_EXPR), NodeShape::Expr);
    assert_eq!(shape_of_kind(SyntaxKind::BLOCK_EXPR), NodeShape::Expr);
    assert_eq!(shape_of_kind(SyntaxKind::NAME_REF), NodeShape::Other);
    assert_eq!(refine_shape(NodeShape::Other, true), NodeShape::Expr);
    assert_eq!(refine_shape(NodeShape::Other, false), NodeShape::Other);
    assert_eq!(refine_shape(NodeShape::FnDef, true), NodeShape::FnDef);
    let info = node_info(SyntaxKind::FN, range(2, 9), Some(4));
    assert_eq!(info.shape, NodeShape::FnDef);
    assert_eq!(info.range, range(2, 9));
    assert_eq!(info.def, Some(4));
    assert_eq!(info.kind, u16::from(SyntaxKind::FN));
    assert!(info.owns_body());
    assert!(!info.is_expr());
    assert_ne!(node_info(SyntaxKind::ENUM, range(2, 9), None).kind, info.kind);
}

#[test]
fn macro_kinds_in_a_parsed_file() {
    let text = "m!(); fn f() { let a = m!(); g(m!()); m!(); }";
    let file = SourceFile::parse(text, Edition::CURRENT).tree();
    let kinds: Vec<MacroFileKind> = file
        .syntax()
        .descendants()
        .filter(|n| n.kind() == SyntaxKind::MACRO_CALL)
        .map(|n| {
            let parent = n.parent();
            let grandparent = parent.as_ref().and_then(|p| p.parent());
            macro_file_kind_under(parent.map(|p| p.kind()), grandparent.map(|p| p.kind()))
        })
        .collect();
    assert_eq!(
        kinds,
        vec![
            MacroFileKind::Items,
            MacroFileKind::Expr,
            MacroFileKind::Expr,
            MacroFileKind::Statements,
        ]
    );
    assert_eq!(
        macro_file_kind_under(file.syntax().parent().map(|p| p.kind()), None),
        MacroFileKind::Expr
    );
    let in_try = SourceFile::parse("fn f() { m!()?; }", Edition::CURRENT).tree();
    let call = in_try.syntax().descendants().find(|n| n.kind() == SyntaxKind::MACRO_CALL).unwrap();
    let parent = call.parent().unwrap();
    let grandparent = parent.parent().unwrap();
    assert_eq!(parent.kind(), SyntaxKind::MACRO_EXPR);
    assert_eq!(
        macro_file_kind_under(Some(parent.kind()), Some(grandparent.kind())),
        MacroFileKind::Expr
    );
}
