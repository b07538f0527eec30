//! What the two steps of the offset search guarantee about the candidate they
//! return, and what follows for the scope tree.
use vstd::prelude::*;
use crate::range::TextRange;
use crate::scopes::{BodySourceMap, ExprScopes, FileId};
use crate::locator::{
    all_ranged_scopes, located_scope, refinement_upto, refines, supersedes, tighter, tightest_upto, RangedScope,
};

verus! {

/// Any two candidate spans are nested in one another or share no interior, as
/// the spans of the nodes of one syntax tree are.
pub open spec fn well_nested(c: Seq<RangedScope>) -> bool {
    forall|i: int, j: int|
        0 <= i < c.len() && 0 <= j < c.len() ==> (#[trigger] c[i].range).within(
            #[trigger] c[j].range,
        ) || c[j].range.within(c[i].range) || c[i].range.end <= c[j].range.start
            || c[j].range.end <= c[i].range.start
}

/// An expression nested in another is evaluated in the scope of the other or
/// in a scope below it.
pub open spec fn scopes_follow_nesting(scopes: ExprScopes, c: Seq<RangedScope>) -> bool {
    forall|i: int, j: int|
        0 <= i < c.len() && 0 <= j < c.len() && (#[trigger] c[i].range).within(
            #[trigger] c[j].range,
        ) ==> scopes.descends_from(c[i].scope, c[j].scope)
}

/// The first guess is a candidate than which none is tighter, and the
/// earliest such.
pub proof fn lemma_tightest_is_minimal(c: Seq<RangedScope>, offset: u32, n: nat)
    requires
        1 <= n <= c.len(),
    ensures
        0 <= tightest_upto(c, offset, n) < n,
        forall|j: int|
            0 <= j < n ==> !tighter(
                (#[trigger] c[j]).range,
                c[tightest_upto(c, offset, n)].range,
                offset,
            ),
        forall|j: int|
            0 <= j < tightest_upto(c, offset, n) ==> tighter(
                c[tightest_upto(c, offset, n)].range,
                (#[trigger] c[j]).range,
                offset,
            ),
    decreases n,
{
    if n > 1 {
        lemma_tightest_is_minimal(c, offset, (n - 1) as nat);
    }
}

/// The refinement step returns a candidate that refines the first guess and
/// that no other such candidate supersedes; it returns nothing exactly when no
/// candidate refines the first guess.
pub proof fn lemma_refinement_is_maximal(c: Seq<RangedScope>, r: TextRange, offset: u32, n: nat)
    requires
        n <= c.len(),
    ensures
        match refinement_upto(c, r, offset, n) {
            Some(p) => 0 <= p < n && refines(c[p].range, r, offset) && forall|j: int|
                0 <= j < n && refines((#[trigger] c[j]).range, r, offset) ==> !supersedes(
                    c[j].range,
                    c[p].range,
                ),
            None => forall|j: int| 0 <= j < n ==> !refines((#[trigger] c[j]).range, r, offset),
        },
    decreases n,
{
    if n > 0 {
        lemma_refinement_is_maximal(c, r, offset, (n - 1) as nat);
    }
}

/// Refining twice changes nothing: no candidate refines the span that the
/// refinement step has chosen.
pub proof fn lemma_refinement_is_final(c: Seq<RangedScope>, r: TextRange, offset: u32)
    ensures
        match refinement_upto(c, r, offset, c.len()) {
            Some(p) => 0 <= p < c.len() && refinement_upto(c, c[p].range, offset, c.len())
                == None::<int>,
            None => true,
        },
{
    lemma_refinement_is_maximal(c, r, offset, c.len());
    match refinement_upto(c, r, offset, c.len()) {
        Some(p) => {
            lemma_refinement_is_maximal(c, c[p].range, offset, c.len());
            match refinement_upto(c, c[p].range, offset, c.len()) {
                Some(q) => {
                    assert(refines(c[q].range, r, offset));
                    assert(!supersedes(c[q].range, c[p].range));
                    assert(false);
                },
                None => {},
            }
        },
        None => {},
    }
}

/// Where nothing refines the first guess, the search returns the scope of the
/// first guess itself.
pub proof fn lemma_unrefined_guess_is_kept(c: Seq<RangedScope>, offset: u32)
    requires
        c.len() > 0,
        forall|j: int|
            0 <= j < c.len() ==> !refines(
                (#[trigger] c[j]).range,
                c[tightest_upto(c, offset, c.len())].range,
                offset,
            ),
    ensures
        located_scope(c, offset) == Some(c[tightest_upto(c, offset, c.len())].scope),
{
    let best = tightest_upto(c, offset, c.len());
    lemma_tightest_is_minimal(c, offset, c.len());
    lemma_refinement_is_maximal(c, c[best].range, offset, c.len());
}

/// An offset strictly inside the span of candidate `b` is given a scope that
/// is the scope of `b` or lies below it, never one above it.
pub proof fn lemma_scope_containment(scopes: ExprScopes, c: Seq<RangedScope>, offset: u32, b: int)
    requires
        0 <= b < c.len(),
        c[b].range.start < offset < c[b].range.end,
        well_nested(c),
        scopes_follow_nesting(scopes, c),
    ensures
        located_scope(c, offset).is_some(),
        scopes.descends_from(located_scope(c, offset).unwrap(), c[b].scope),
{
    let best = tightest_upto(c, offset, c.len());
    lemma_tightest_is_minimal(c, offset, c.len());
    assert(!tighter(c[b].range, c[best].range, offset));
    assert(c[best].range.covers(offset));
    assert(c[best].range.within(c[b].range));
    lemma_refinement_is_maximal(c, c[best].range, offset, c.len());
    match refinement_upto(c, c[best].range, offset, c.len()) {
        Some(j) => {
            assert(c[j].range.within(c[b].range));
        },
        None => {},
    }
}

/// The scope table and the source map of a body describe one syntax tree:
/// the spans of the body's expressions in `file` nest or share no interior,
/// and an expression nested in another is evaluated in the scope of the
/// other or in a scope below it.
pub open spec fn body_well_formed(scopes: ExprScopes, map: BodySourceMap, file: FileId) -> bool {
    well_nested(all_ranged_scopes(scopes, map, file)) && scopes_follow_nesting(
        scopes,
        all_ranged_scopes(scopes, map, file),
    )
}

/// For a well-formed body, an offset strictly inside an expression with span
/// `block` and scope `scope` is given that scope or one below it, never one
/// above it.
pub proof fn lemma_offset_in_block(
    scopes: ExprScopes,
    map: BodySourceMap,
    file: FileId,
    offset: u32,
    block: RangedScope,
)
    requires
        body_well_formed(scopes, map, file),
        all_ranged_scopes(scopes, map, file).contains(block),
        block.range.start < offset < block.range.end,
    ensures
        located_scope(all_ranged_scopes(scopes, map, file), offset).is_some(),
        scopes.descends_from(
            located_scope(all_ranged_scopes(scopes, map, file), offset).unwrap(),
            block.scope,
        ),
{
    let c = all_ranged_scopes(scopes, map, file);
    let b = choose|b: int| 0 <= b < c.len() && c[b] == block;
    lemma_scope_containment(scopes, c, offset, b);
}

} // verus!
