//! Finds the innermost lexical scope at a position in a body.
//!
//! Two searches are offered. One starts from a node and walks outwards through
//! the expressions around it. The other starts from a byte offset, which may
//! fall between expressions: it first picks the tightest expression around the
//! offset and then moves into the latest nested expression that starts before
//! the offset.
use vstd::prelude::*;
use crate::range::TextRange;
use crate::scopes::{BodySourceMap, ExprId, ExprScopes, FileId, ScopeId};
use crate::syntax::{is_expr_shape, NodeInfo};

verus! {

/// The span of an expression together with the scope it is evaluated in.
#[derive(Clone, Copy, Debug, PartialEq, Eq, Structural)]
pub struct RangedScope {
    pub range: TextRange,
    pub scope: ScopeId,
}

/// What one pair of the scope table contributes to a search in `file`: the
/// span and scope of its expression, provided the expression has syntax in
/// that very tree.
pub open spec fn ranged_scope_of(
    map: BodySourceMap,
    file: FileId,
    pair: (ExprId, ScopeId),
) -> Option<RangedScope> {
    match map.spec_expr_syntax(pair.0) {
        Some(src) => if src.file_id == file {
            Some(RangedScope { range: src.range, scope: pair.1 })
        } else {
            None
        },
        None => None,
    }
}

/// The spans and scopes contributed by the first `n` pairs of the scope
/// table, in the table's order.
pub open spec fn ranged_scopes(
    scopes: ExprScopes,
    map: BodySourceMap,
    file: FileId,
    n: nat,
) -> Seq<RangedScope>
    decreases n,
{
    if n == 0 || n > scopes.scope_by_expr@.len() {
        Seq::empty()
    } else {
        let rest = ranged_scopes(scopes, map, file, (n - 1) as nat);
        match ranged_scope_of(map, file, scopes.scope_by_expr@[n - 1]) {
            Some(c) => rest.push(c),
            None => rest,
        }
    }
}

/// All spans and scopes that a search in `file` considers.
pub open spec fn all_ranged_scopes(scopes: ExprScopes, map: BodySourceMap, file: FileId) -> Seq<
    RangedScope,
> {
    ranged_scopes(scopes, map, file, scopes.scope_by_expr@.len())
}

/// `a` is a strictly better first guess than `b` for `offset`: a span around
/// the offset is better than one that is not, and of two alike in that, the
/// shorter is better.
pub open spec fn tighter(a: TextRange, b: TextRange, offset: u32) -> bool {
    (a.covers(offset) && !b.covers(offset)) || (a.covers(offset) == b.covers(offset)
        && a.spec_len() < b.spec_len())
}

/// Index of the first guess among the first `n` candidates: the earliest one
/// than which none is tighter. Meaningful for `n >= 1`.
pub open spec fn tightest_upto(c: Seq<RangedScope>, offset: u32, n: nat) -> int
    decreases n,
{
    if n <= 1 {
        0
    } else {
        let p = tightest_upto(c, offset, (n - 1) as nat);
        if tighter(c[n - 1].range, c[p].range, offset) {
            n - 1
        } else {
            p
        }
    }
}

/// A candidate may refine a first guess with span `r`: it starts at or before
/// the offset and lies inside `r` without being all of it.
pub open spec fn refines(x: TextRange, r: TextRange, offset: u32) -> bool {
    x.start <= offset && x.strictly_within(r)
}

/// `y` takes the place of `x` as the refinement: unless `x` is nested in `y`,
/// a `y` nested in `x` wins, and of two that are not nested the one that
/// starts later.
pub open spec fn supersedes(y: TextRange, x: TextRange) -> bool {
    !x.within(y) && (y.within(x) || x.start <= y.start)
}

/// Index of the refinement of `r` among the first `n` candidates, if any
/// candidate refines it.
pub open spec fn refinement_upto(c: Seq<RangedScope>, r: TextRange, offset: u32, n: nat) -> Option<
    int,
>
    decreases n,
{
    if n == 0 {
        None
    } else {
        let prev = refinement_upto(c, r, offset, (n - 1) as nat);
        if !refines(c[n - 1].range, r, offset) {
            prev
        } else {
            match prev {
                None => Some(n - 1),
                Some(p) => if supersedes(c[n - 1].range, c[p].range) {
                    Some(n - 1)
                } else {
                    Some(p)
                },
            }
        }
    }
}

/// The scope at `offset` among the candidates `c`: that of the refinement of
/// the first guess, or of the first guess itself where nothing refines it.
pub open spec fn located_scope(c: Seq<RangedScope>, offset: u32) -> Option<ScopeId> {
    if c.len() == 0 {
        None
    } else {
        let best = tightest_upto(c, offset, c.len());
        match refinement_upto(c, c[best].range, offset, c.len()) {
            Some(j) => Some(c[j].scope),
            None => Some(c[best].scope),
        }
    }
}

/// The scope of the first of `nodes`, from index `from` on, that is an
/// expression known to the source map and to the scope table.
pub open spec fn enclosing_scope(
    scopes: ExprScopes,
    map: BodySourceMap,
    file: FileId,
    nodes: Seq<NodeInfo>,
    from: int,
) -> Option<ScopeId>
    decreases nodes.len() - from,
{
    if from < 0 || from >= nodes.len() {
        None
    } else {
        let here = if is_expr_shape(nodes[from].shape) {
            match map.spec_node_expr(nodes[from].ptr_in(file)) {
                Some(e) => scopes.spec_scope_for(e),
                None => None,
            }
        } else {
            None
        };
        match here {
            Some(s) => Some(s),
            None => enclosing_scope(scopes, map, file, nodes, from + 1),
        }
    }
}

/// Collects what the scope table contributes to a search in `file`.
pub fn collect_ranged_scopes(scopes: &ExprScopes, source_map: &BodySourceMap, file: FileId) -> (r:
    Vec<RangedScope>)
    ensures
        r@ == all_ranged_scopes(*scopes, *source_map, file),
{
    let mut out: Vec<RangedScope> = Vec::new();
    let mut i: usize = 0;
    while i < scopes.scope_by_expr.len()
        invariant
            i <= scopes.scope_by_expr.len(),
            out@ == ranged_scopes(*scopes, *source_map, file, i as nat),
        decreases scopes.scope_by_expr.len() - i,
    {
        let pair = scopes.scope_by_expr[i];
        match source_map.expr_syntax(pair.0) {
            Some(src) => {
                if src.file_id == file {
                    out.push(RangedScope { range: src.range, scope: pair.1 });
                }
            },
            None => {},
        }
        i = i + 1;
    }
    out
}

/// Picks the first guess for `offset`: the earliest candidate than which none
/// is tighter.
pub fn tightest(candidates: &Vec<RangedScope>, offset: u32) -> (r: Option<usize>)
    ensures
        match r {
            Some(i) => candidates@.len() > 0 && i < candidates@.len() && i as int == tightest_upto(
                candidates@,
                offset,
                candidates@.len(),
            ),
            None => candidates@.len() == 0,
        },
{
    if candidates.len() == 0 {
        return None;
    }
    let mut best: usize = 0;
    let mut i: usize = 1;
    while i < candidates.len()
        invariant
            1 <= i <= candidates.len(),
            best < i,
            best == tightest_upto(candidates@, offset, i as nat),
        decreases candidates.len() - i,
    {
        let a = candidates[i].range;
        let b = candidates[best].range;
        let a_in = a.contains_inclusive(offset);
        let b_in = b.contains_inclusive(offset);
        if (a_in && !b_in) || (a_in == b_in && a.len() < b.len()) {
            best = i;
        }
        i = i + 1;
    }
    Some(best)
}

/// The refinement step: among the candidates that start at or before `offset`
/// and lie strictly inside `r`, picks the one that no other supersedes. Returns
/// its index, or `None` where no candidate refines `r`.
pub fn adjust(candidates: &Vec<RangedScope>, r: TextRange, offset: u32) -> (res: Option<usize>)
    ensures
        match res {
            Some(j) => refinement_upto(candidates@, r, offset, candidates@.len()) == Some(j as int)
                && j < candidates@.len(),
            None => refinement_upto(candidates@, r, offset, candidates@.len()).is_none(),
        },
{
    let mut acc: Option<usize> = None;
    let mut i: usize = 0;
    while i < candidates.len()
        invariant
            i <= candidates.len(),
            match acc {
                Some(j) => refinement_upto(candidates@, r, offset, i as nat) == Some(j as int) && j
                    < i,
                None => refinement_upto(candidates@, r, offset, i as nat).is_none(),
            },
        decreases candidates.len() - i,
    {
        let y = candidates[i].range;
        if y.start <= offset && y.is_subrange(&r) && y != r {
            match acc {
                None => {
                    acc = Some(i);
                },
                Some(p) => {
                    let x = candidates[p].range;
                    if !x.is_subrange(&y) && (y.is_subrange(&x) || x.start <= y.start) {
                        acc = Some(i);
                    }
                },
            }
        }
        i = i + 1;
    }
    acc
}

/// The scope that applies at `offset` in `file`: the scope of the tightest
/// expression around the offset, refined by `adjust`. `None` exactly when the
/// scope table has no expression with syntax in `file`.
pub fn scope_for_offset(
    scopes: &ExprScopes,
    source_map: &BodySourceMap,
    file: FileId,
    offset: u32,
) -> (r: Option<ScopeId>)
    ensures
        r == located_scope(all_ranged_scopes(*scopes, *source_map, file), offset),
{
    let candidates = collect_ranged_scopes(scopes, source_map, file);
    match tightest(&candidates, offset) {
        None => None,
        Some(best) => {
            match adjust(&candidates, candidates[best].range, offset) {
                Some(j) => Some(candidates[j].scope),
                None => Some(candidates[best].scope),
            }
        },
    }
}

/// The scope that applies to a node, given the node and the nodes around it
/// from the inside out: the scope of the smallest expression around it that
/// the body knows.
pub fn scope_for(
    scopes: &ExprScopes,
    source_map: &BodySourceMap,
    file: FileId,
    ancestors: &Vec<NodeInfo>,
) -> (r: Option<ScopeId>)
    ensures
        r == enclosing_scope(*scopes, *source_map, file, ancestors@, 0),
{
    let mut i: usize = 0;
    while i < ancestors.len()
        invariant
            i <= ancestors.len(),
            enclosing_scope(*scopes, *source_map, file, ancestors@, 0) == enclosing_scope(
                *scopes,
                *source_map,
                file,
                ancestors@,
                i as int,
            ),
        decreases ancestors.len() - i,
    {
        if ancestors[i].is_expr() {
            match source_map.node_expr(ancestors[i].in_file(file)) {
                Some(e) => {
                    match scopes.scope_for(e) {
                        Some(s) => {
                            return Some(s);
                        },
                        None => {},
                    }
                },
                None => {},
            }
        }
        i = i + 1;
    }
    None
}

} // verus!
