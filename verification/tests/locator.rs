use position_binder::locator::{
    adjust, collect_ranged_scopes, scope_for, scope_for_offset, tightest, RangedScope,
};
use position_binder::range::TextRange;
use position_binder::scopes::{BodySourceMap, ExprScopes, ScopeData, ScopeEntry, SourcePtr};
use position_binder::syntax::{NodeInfo, NodeShape};

fn range(start: u32, end: u32) -> TextRange {
    TextRange::from_to(start, end)
}

fn ptr(file: u32, start: u32, end: u32) -> Option<SourcePtr> {
    Some(SourcePtr { file_id: file, range: range(start, end), kind: 1 })
}

fn scope(parent: Option<u32>, names: &[(&str, u32)]) -> ScopeData {
    ScopeData {
        parent,
        entries: names.iter().map(|(n, p)| ScopeEntry { name: n.to_string(), pat: *p }).collect(),
    }
}

fn rs(start: u32, end: u32, scope: u32) -> RangedScope {
    RangedScope { range: range(start, end), scope }
}

// fn f() { { let x = 1; a; b; } }
//        7 9           20 23  27 29
fn nested_body() -> (ExprScopes, BodySourceMap) {
    let map = BodySourceMap {
        exprs: vec![
            ptr(0, 7, 30),  // outer block
            ptr(0, 9, 28),  // inner block
            ptr(0, 19, 20), // 1
            ptr(0, 22, 23), // a
            ptr(0, 25, 26), // b
        ],
        pats: vec![ptr(0, 15, 16)],
    };
    let scopes = ExprScopes {
        scopes: vec![scope(None, &[]), scope(Some(0), &[]), scope(Some(1), &[("x", 0)])],
        scope_by_expr: vec![(0, 0), (1, 0), (2, 1), (3, 2), (4, 2)],
    };
    (scopes, map)
}

#[test]
fn offset_before_closing_brace_gets_innermost_scope() {
    let (scopes, map) = nested_body();
    assert_eq!(scope_for_offset(&scopes, &map, 0, 27), Some(2));
}

#[test]
fn offset_inside_expression_gets_its_scope() {
    let (scopes, map) = nested_body();
    assert_eq!(scope_for_offset(&scopes, &map, 0, 19), Some(1));
    assert_eq!(scope_for_offset(&scopes, &map, 0, 22), Some(2));
}

#[test]
fn offset_in_nested_block_never_gets_scope_above_it() {
    let (scopes, map) = nested_body();
    for offset in 10..28u32 {
        let found = scope_for_offset(&scopes, &map, 0, offset).unwrap();
        let mut cur = Some(found);
        let mut below_block = false;
        while let Some(s) = cur {
            if s == 0 {
                below_block = true;
            }
            cur = scopes.parent(s);
        }
        assert!(below_block);
    }
}

#[test]
fn no_expression_in_the_file_gives_no_scope() {
    let (scopes, map) = nested_body();
    assert_eq!(scope_for_offset(&scopes, &map, 7, 12), None);
    let empty = ExprScopes { scopes: vec![], scope_by_expr: vec![] };
    assert_eq!(scope_for_offset(&empty, &map, 0, 12), None);
}

#[test]
fn expressions_of_other_files_are_skipped() {
    let map = BodySourceMap {
        exprs: vec![ptr(0, 0, 50), ptr(3, 10, 12), None, ptr(0, 5, 40)],
        pats: vec![],
    };
    let scopes = ExprScopes {
        scopes: vec![scope(None, &[]), scope(Some(0), &[]), scope(Some(0), &[])],
        scope_by_expr: vec![(0, 0), (1, 1), (2, 1), (3, 2), (9, 1)],
    };
    let got = collect_ranged_scopes(&scopes, &map, 0);
    assert_eq!(got, vec![rs(0, 50, 0), rs(5, 40, 2)]);
    assert_eq!(scope_for_offset(&scopes, &map, 0, 11), Some(2));
}

#[test]
fn tightest_prefers_containing_then_shortest_then_first() {
    let c = vec![rs(0, 4, 0), rs(10, 30, 1), rs(12, 20, 2), rs(14, 22, 3), rs(40, 41, 4)];
    assert_eq!(tightest(&c, 15), Some(2));
    assert_eq!(tightest(&c, 25), Some(1));
    // nothing contains 35: the shortest span wins
    assert_eq!(tightest(&c, 35), Some(4));
    // both ends count as inside
    assert_eq!(tightest(&c, 4), Some(0));
    assert_eq!(tightest(&c, 41), Some(4));
    assert_eq!(tightest(&Vec::new(), 3), None);
    let ties = vec![rs(0, 5, 7), rs(1, 6, 8)];
    assert_eq!(tightest(&ties, 3), Some(0));
}

#[test]
fn adjust_picks_latest_start_and_innermost() {
    let c = vec![rs(0, 100, 0), rs(10, 20, 1), rs(30, 60, 2), rs(30, 40, 3), rs(70, 80, 4)];
    // candidates starting at or before 65 inside [0,100): three of them; the
    // latest start wins, and of the two that start at 30 the nested one
    assert_eq!(adjust(&c, range(0, 100), 65), Some(3));
    assert_eq!(adjust(&c, range(0, 100), 75), Some(4));
    assert_eq!(adjust(&c, range(0, 100), 15), Some(1));
    // nothing starts at or before 5 but the span itself
    assert_eq!(adjust(&c, range(0, 100), 5), None);
    // equal spans: the first is kept
    let twice = vec![rs(0, 9, 0), rs(2, 4, 5), rs(2, 4, 6)];
    assert_eq!(adjust(&twice, range(0, 9), 8), Some(1));
}

#[test]
fn adjust_on_its_own_choice_finds_nothing() {
    let c = vec![rs(0, 100, 0), rs(10, 20, 1), rs(30, 60, 2), rs(30, 40, 3), rs(70, 80, 4)];
    for offset in 0..110u32 {
        if let Some(j) = adjust(&c, range(0, 100), offset) {
            assert_eq!(adjust(&c, c[j].range, offset), None);
        }
    }
}

#[test]
fn unrefined_first_guess_is_returned() {
    let map = BodySourceMap { exprs: vec![ptr(0, 3, 9)], pats: vec![] };
    let scopes = ExprScopes { scopes: vec![scope(None, &[])], scope_by_expr: vec![(0, 0)] };
    assert_eq!(scope_for_offset(&scopes, &map, 0, 5), Some(0));
    assert_eq!(scope_for_offset(&scopes, &map, 0, 500), Some(0));
}

fn node(shape: NodeShape, start: u32, end: u32) -> NodeInfo {
    NodeInfo { shape, range: range(start, end), kind: 1, def: None }
}

#[test]
fn scope_for_walks_outwards_through_expressions() {
    let (scopes, map) = nested_body();
    // a name inside `a`, then the statement, the inner block, the outer block
    let chain = vec![
        node(NodeShape::Other, 22, 23),
        node(NodeShape::PathExpr, 22, 23),
        node(NodeShape::ExprStmt, 22, 24),
        node(NodeShape::Expr, 9, 28),
        node(NodeShape::Expr, 7, 30),
    ];
    assert_eq!(scope_for(&scopes, &map, 0, &chain), Some(2));
    // a node the body does not know is passed over
    let chain = vec![node(NodeShape::Expr, 23, 24), node(NodeShape::Expr, 9, 28)];
    assert_eq!(scope_for(&scopes, &map, 0, &chain), Some(0));
    // a node that is no expression is passed over even if its span is known
    let chain = vec![node(NodeShape::Block, 9, 28), node(NodeShape::Expr, 7, 30)];
    assert_eq!(scope_for(&scopes, &map, 0, &chain), Some(0));
    // in another file nothing is known
    assert_eq!(scope_for(&scopes, &map, 1, &chain), None);
    assert_eq!(scope_for(&scopes, &map, 0, &Vec::new()), None);
}

#[test]
fn text_range_basics() {
    let r = range(3, 9);
    assert_eq!(r.start(), 3);
    assert_eq!(r.end(), 9);
    assert_eq!(r.len(), 6);
    assert!(r.contains_inclusive(3));
    assert!(r.contains_inclusive(9));
    assert!(!r.contains_inclusive(10));
    assert!(range(4, 5).is_subrange(&r));
    assert!(r.is_subrange(&r));
    assert!(!r.is_subrange(&range(4, 5)));
    assert_eq!(TextRange { start: 9, end: 3 }.len(), 0);
}

#[test]
fn names_resolve_outwards_and_later_bindings_shadow() {
    let scopes = ExprScopes {
        scopes: vec![
            scope(None, &[("a", 0), ("b", 1)]),
            scope(Some(0), &[("c", 2), ("a", 3), ("c", 4)]),
            scope(Some(5), &[("z", 9)]),
        ],
        scope_by_expr: vec![(4, 1), (4, 0)],
    };
    assert_eq!(scopes.resolve_name_in_scope(1, &"a".to_string()), Some((1, 1)));
    assert_eq!(scopes.resolve_name_in_scope(1, &"c".to_string()), Some((1, 2)));
    assert_eq!(scopes.resolve_name_in_scope(1, &"b".to_string()), Some((0, 1)));
    assert_eq!(scopes.resolve_name_in_scope(1, &"q".to_string()), None);
    assert_eq!(scopes.resolve_name_in_scope(7, &"a".to_string()), None);
    // a parent that does not come before its child is none
    assert_eq!(scopes.parent(2), None);
    assert_eq!(scopes.parent(1), Some(0));
    assert_eq!(scopes.resolve_name_in_scope(2, &"a".to_string()), None);
    assert_eq!(scopes.scope_for(4), Some(1));
    assert_eq!(scopes.scope_for(5), None);
}

#[test]
fn source_map_lookups() {
    let (_, map) = nested_body();
    let p = SourcePtr { file_id: 0, range: range(22, 23), kind: 1 };
    assert_eq!(map.node_expr(p), Some(3));
    assert_eq!(map.expr_syntax(3), Some(p));
    assert_eq!(map.expr_syntax(30), None);
    assert_eq!(map.node_expr(SourcePtr { file_id: 0, range: range(22, 23), kind: 2 }), None);
    assert_eq!(map.node_pat(SourcePtr { file_id: 0, range: range(15, 16), kind: 1 }), Some(0));
    assert_eq!(map.pat_syntax(0), ptr(0, 15, 16));
    assert_eq!(map.pat_syntax(1), None);
}
