//! The lexical scopes of one body, the map from its expressions back to source
//! text, and the search for the scope that applies at a position.
use vstd::prelude::*;
use crate::range::TextRange;

verus! {

pub type FileId = u32;

pub type ExprId = u32;

pub type PatId = u32;

pub type ScopeId = u32;

/// Where a piece of syntax stands: the tree it belongs to, its span, and the
/// raw kind of the node. Two pointers are equal when all three agree.
#[derive(Clone, Copy, Debug, PartialEq, Eq, Structural)]
pub struct SourcePtr {
    pub file_id: FileId,
    pub range: TextRange,
    pub kind: u16,
}

/// The association between the expressions and patterns of one body and the
/// syntax they were lowered from. Identifiers index the two tables; an entry
/// is `None` where the expression or pattern has no syntax of its own.
#[derive(Clone, Debug)]
pub struct BodySourceMap {
    pub exprs: Vec<Option<SourcePtr>>,
    pub pats: Vec<Option<SourcePtr>>,
}

/// First index at or after `from` whose entry is `ptr`, among the indices that
/// fit an identifier.
pub open spec fn first_with_ptr(table: Seq<Option<SourcePtr>>, ptr: SourcePtr, from: int) -> Option<u32>
    decreases table.len() - from,
{
    if from < 0 || from >= table.len() || from > u32::MAX {
        None
    } else if table[from] == Some(ptr) {
        Some(from as u32)
    } else {
        first_with_ptr(table, ptr, from + 1)
    }
}

/// The entry of `table` under `id`, if there is one.
pub open spec fn syntax_at(table: Seq<Option<SourcePtr>>, id: u32) -> Option<SourcePtr> {
    if id < table.len() {
        table[id as int]
    } else {
        None
    }
}

fn lookup_syntax(table: &Vec<Option<SourcePtr>>, id: u32) -> (r: Option<SourcePtr>)
    ensures
        r == syntax_at(table@, id),
{
    if (id as usize) < table.len() {
        table[id as usize]
    } else {
        None
    }
}

fn lookup_ptr(table: &Vec<Option<SourcePtr>>, ptr: SourcePtr) -> (r: Option<u32>)
    ensures
        r == first_with_ptr(table@, ptr, 0),
{
    let mut i: usize = 0;
    while i < table.len() && i <= u32::MAX as usize
        invariant
            i <= table.len(),
            first_with_ptr(table@, ptr, 0) == first_with_ptr(table@, ptr, i as int),
        decreases table.len() - i,
    {
        match table[i] {
            Some(p) => {
                if p == ptr {
                    return Some(i as u32);
                }
            },
            None => {},
        }
        i = i + 1;
    }
    None
}

impl BodySourceMap {
    pub open spec fn spec_expr_syntax(self, expr: ExprId) -> Option<SourcePtr> {
        syntax_at(self.exprs@, expr)
    }

    pub open spec fn spec_pat_syntax(self, pat: PatId) -> Option<SourcePtr> {
        syntax_at(self.pats@, pat)
    }

    pub open spec fn spec_node_expr(self, ptr: SourcePtr) -> Option<ExprId> {
        first_with_ptr(self.exprs@, ptr, 0)
    }

    pub open spec fn spec_node_pat(self, ptr: SourcePtr) -> Option<PatId> {
        first_with_ptr(self.pats@, ptr, 0)
    }

    /// The syntax an expression was lowered from.
    pub fn expr_syntax(&self, expr: ExprId) -> (r: Option<SourcePtr>)
        ensures
            r == self.spec_expr_syntax(expr),
    {
        lookup_syntax(&self.exprs, expr)
    }

    /// The syntax a pattern was lowered from.
    pub fn pat_syntax(&self, pat: PatId) -> (r: Option<SourcePtr>)
        ensures
            r == self.spec_pat_syntax(pat),
    {
        lookup_syntax(&self.pats, pat)
    }

    /// The expression that was lowered from the given syntax: the one with the
    /// smallest identifier, should several share it.
    pub fn node_expr(&self, ptr: SourcePtr) -> (r: Option<ExprId>)
        ensures
            r == self.spec_node_expr(ptr),
    {
        lookup_ptr(&self.exprs, ptr)
    }

    /// The pattern that was lowered from the given syntax.
    pub fn node_pat(&self, ptr: SourcePtr) -> (r: Option<PatId>)
        ensures
            r == self.spec_node_pat(ptr),
    {
        lookup_ptr(&self.pats, ptr)
    }
}

/// A name bound in a scope, with the pattern that binds it.
#[derive(Clone, Debug)]
pub struct ScopeEntry {
    pub name: String,
    pub pat: PatId,
}

/// One lexical scope: its bindings in declaration order and the scope around
/// it, if any.
#[derive(Clone, Debug)]
pub struct ScopeData {
    pub parent: Option<ScopeId>,
    pub entries: Vec<ScopeEntry>,
}

/// The scope tree of one body. `scope_by_expr` lists, for each expression
/// that has one, the scope it is evaluated in; of two pairs for the same
/// expression the first counts.
#[derive(Clone, Debug)]
pub struct ExprScopes {
    pub scopes: Vec<ScopeData>,
    pub scope_by_expr: Vec<(ExprId, ScopeId)>,
}

/// The scope paired with `expr` by the first pair at or after `from`.
pub open spec fn first_scope_of(pairs: Seq<(ExprId, ScopeId)>, expr: ExprId, from: int) -> Option<ScopeId>
    decreases pairs.len() - from,
{
    if from < 0 || from >= pairs.len() {
        None
    } else if pairs[from].0 == expr {
        Some(pairs[from].1)
    } else {
        first_scope_of(pairs, expr, from + 1)
    }
}

/// Index of the last entry among the first `n` whose name is `name`: a later
/// binding in a scope shadows an earlier one.
pub open spec fn last_entry_named(entries: Seq<ScopeEntry>, name: Seq<char>, n: int) -> Option<int>
    decreases n,
{
    if n <= 0 || n > entries.len() {
        None
    } else if entries[n - 1].name@ == name {
        Some(n - 1)
    } else {
        last_entry_named(entries, name, n - 1)
    }
}

fn find_last_named(entries: &Vec<ScopeEntry>, name: &String) -> (r: Option<usize>)
    ensures
        match r {
            Some(i) => last_entry_named(entries@, name@, entries@.len() as int) == Some(i as int),
            None => last_entry_named(entries@, name@, entries@.len() as int).is_none(),
        },
{
    let mut n: usize = entries.len();
    while n > 0
        invariant
            n <= entries.len(),
            last_entry_named(entries@, name@, entries@.len() as int) == last_entry_named(
                entries@,
                name@,
                n as int,
            ),
        decreases n,
    {
        if entries[n - 1].name == *name {
            return Some(n - 1);
        }
        n = n - 1;
    }
    None
}

impl ExprScopes {
    /// The parent of a scope. A scope is created after the scope around it, so
    /// a parent that does not come before its child is not one.
    pub open spec fn spec_parent(self, scope: ScopeId) -> Option<ScopeId> {
        if scope < self.scopes@.len() {
            match self.scopes@[scope as int].parent {
                Some(p) => if p < scope {
                    Some(p)
                } else {
                    None
                },
                None => None,
            }
        } else {
            None
        }
    }

    /// The scope reached from `scope` by `steps` steps towards the root.
    pub open spec fn ancestor_at(self, scope: ScopeId, steps: nat) -> Option<ScopeId>
        decreases steps,
    {
        if steps == 0 {
            Some(scope)
        } else {
            match self.spec_parent(scope) {
                Some(p) => self.ancestor_at(p, (steps - 1) as nat),
                None => None,
            }
        }
    }

    /// `inner` is `outer` or lies below it in the tree.
    pub open spec fn descends_from(self, inner: ScopeId, outer: ScopeId) -> bool {
        exists|steps: nat| self.ancestor_at(inner, steps) == Some(outer)
    }

    pub open spec fn spec_scope_for(self, expr: ExprId) -> Option<ScopeId> {
        first_scope_of(self.scope_by_expr@, expr, 0)
    }

    /// The binding that `name` refers to when looked up from `scope`: the last
    /// one of that name in the nearest scope, walking outwards, that has one.
    pub open spec fn spec_resolve_name(self, scope: ScopeId, name: Seq<char>) -> Option<(ScopeId, int)>
        decreases scope,
    {
        if scope >= self.scopes@.len() {
            None
        } else {
            let entries = self.scopes@[scope as int].entries@;
            match last_entry_named(entries, name, entries.len() as int) {
                Some(i) => Some((scope, i)),
                None => match self.spec_parent(scope) {
                    Some(p) => self.spec_resolve_name(p, name),
                    None => None,
                },
            }
        }
    }

    pub fn parent(&self, scope: ScopeId) -> (r: Option<ScopeId>)
        ensures
            r == self.spec_parent(scope),
    {
        if (scope as usize) < self.scopes.len() {
            match self.scopes[scope as usize].parent {
                Some(p) => if p < scope {
                    Some(p)
                } else {
                    None
                },
                None => None,
            }
        } else {
            None
        }
    }

    /// The scope an expression is evaluated in.
    pub fn scope_for(&self, expr: ExprId) -> (r: Option<ScopeId>)
        ensures
            r == self.spec_scope_for(expr),
    {
        let mut i: usize = 0;
        while i < self.scope_by_expr.len()
            invariant
                i <= self.scope_by_expr.len(),
                first_scope_of(self.scope_by_expr@, expr, 0) == first_scope_of(
                    self.scope_by_expr@,
                    expr,
                    i as int,
                ),
            decreases self.scope_by_expr.len() - i,
        {
            if self.scope_by_expr[i].0 == expr {
                return Some(self.scope_by_expr[i].1);
            }
            i = i + 1;
        }
        None
    }

    /// Looks `name` up from `scope` outwards and returns the scope that binds
    /// it together with the index of the binding among that scope's entries.
    pub fn resolve_name_in_scope(&self, scope: ScopeId, name: &String) -> (r: Option<(ScopeId, usize)>)
        ensures
            match r {
                Some((s, i)) => self.spec_resolve_name(scope, name@) == Some((s, i as int)),
                None => self.spec_resolve_name(scope, name@).is_none(),
            },
    {
        let mut cur: ScopeId = scope;
        loop
            invariant
                self.spec_resolve_name(scope, name@) == self.spec_resolve_name(cur, name@),
            decreases cur,
        {
            if (cur as usize) >= self.scopes.len() {
                return None;
            }
            match find_last_named(&self.scopes[cur as usize].entries, name) {
                Some(i) => {
                    return Some((cur, i));
                },
                None => {},
            }
            match self.parent(cur) {
                Some(p) => {
                    cur = p;
                },
                None => {
                    return None;
                },
            }
        }
    }
}

/// A binding that a lookup finds is an entry of a scope of the tree.
pub proof fn lemma_resolved_name_in_bounds(scopes: ExprScopes, scope: ScopeId, name: Seq<char>)
    ensures
        match scopes.spec_resolve_name(scope, name) {
            Some((s, i)) => s < scopes.scopes@.len() && 0 <= i < scopes.scopes@[s as int].entries@.len()
                && scopes.scopes@[s as int].entries@[i].name@ == name && scopes.descends_from(
                scope,
                s,
            ),
            None => true,
        },
    decreases scope,
{
    if scope < scopes.scopes@.len() {
        let entries = scopes.scopes@[scope as int].entries@;
        lemma_last_entry_named(entries, name, entries.len() as int);
        match last_entry_named(entries, name, entries.len() as int) {
            Some(i) => {
                assert(scopes.ancestor_at(scope, 0) == Some(scope));
            },
            None => match scopes.spec_parent(scope) {
                Some(p) => {
                    lemma_resolved_name_in_bounds(scopes, p, name);
                    match scopes.spec_resolve_name(p, name) {
                        Some((s, i)) => {
                            let steps = choose|steps: nat| scopes.ancestor_at(p, steps) == Some(s);
                            assert(scopes.ancestor_at(scope, steps + 1) == Some(s));
                        },
                        None => {},
                    }
                },
                None => {},
            },
        }
    }
}

/// The entry that `last_entry_named` finds has the name asked for.
pub proof fn lemma_last_entry_named(entries: Seq<ScopeEntry>, name: Seq<char>, n: int)
    ensures
        match last_entry_named(entries, name, n) {
            Some(i) => 0 <= i < n && i < entries.len() && entries[i].name@ == name,
            None => true,
        },
    decreases n,
{
    if n > 0 && n <= entries.len() && entries[n - 1].name@ != name {
        lemma_last_entry_named(entries, name, n - 1);
    }
}

} // verus!
