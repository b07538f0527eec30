//! Candidates for a method call or an associated path, walked along the
//! chain of types that dereferencing the receiver leads through.
use vstd::prelude::*;
use crate::defs::{AssocItem, Ty};

verus! {

/// An associated item under its name.
#[derive(Clone, Debug)]
pub struct NamedItem {
    pub name: String,
    pub item: AssocItem,
}

/// One type of a dereference chain with the associated items visible for it,
/// in a fixed order.
#[derive(Clone, Debug)]
pub struct TypeCandidates {
    pub ty: Ty,
    pub items: Vec<NamedItem>,
}

/// Which items are candidates.
#[derive(Clone, Copy, Debug, PartialEq, Eq, Structural)]
pub enum LookupMode {
    /// Functions only, as for `receiver.name(..)`.
    MethodCall,
    /// Every associated item, as for `Type::name`.
    Path,
}

/// The item is a candidate under the given name filter and mode.
pub open spec fn admits(item: NamedItem, name: Option<Seq<char>>, mode: LookupMode) -> bool {
    (match name {
        Some(n) => item.name@ == n,
        None => true,
    }) && (mode == LookupMode::MethodCall ==> item.item is Function)
}

/// The candidates among the first `n` items of one type, in the items' order.
pub open spec fn step_candidates(
    ty: Ty,
    items: Seq<NamedItem>,
    name: Option<Seq<char>>,
    mode: LookupMode,
    n: nat,
) -> Seq<(Ty, AssocItem)>
    decreases n,
{
    if n == 0 || n > items.len() {
        Seq::empty()
    } else {
        let rest = step_candidates(ty, items, name, mode, (n - 1) as nat);
        if admits(items[n - 1], name, mode) {
            rest.push((ty, items[n - 1].item))
        } else {
            rest
        }
    }
}

/// The candidates of the first `n` types of the chain: those of the first
/// type, then those of the second, and so on.
pub open spec fn chain_candidates(
    chain: Seq<TypeCandidates>,
    name: Option<Seq<char>>,
    mode: LookupMode,
    n: nat,
) -> Seq<(Ty, AssocItem)>
    decreases n,
{
    if n == 0 || n > chain.len() {
        Seq::empty()
    } else {
        chain_candidates(chain, name, mode, (n - 1) as nat) + step_candidates(
            chain[n - 1].ty,
            chain[n - 1].items@,
            name,
            mode,
            chain[n - 1].items@.len(),
        )
    }
}

/// All candidates of the chain, in the order in which they are visited.
pub open spec fn all_candidates(chain: Seq<TypeCandidates>, name: Option<Seq<char>>, mode: LookupMode) -> Seq<
    (Ty, AssocItem),
> {
    chain_candidates(chain, name, mode, chain.len())
}

/// The name filter as contracts see it.
pub open spec fn name_view(name: Option<&String>) -> Option<Seq<char>> {
    match name {
        Some(n) => Some(n@),
        None => None,
    }
}

/// Lists the candidates of a chain in the order in which they are visited.
pub fn collect_candidates(chain: &Vec<TypeCandidates>, name: Option<&String>, mode: LookupMode) -> (r:
    Vec<(Ty, AssocItem)>)
    ensures
        r@ == all_candidates(chain@, name_view(name), mode),
{
    let mut out: Vec<(Ty, AssocItem)> = Vec::new();
    let mut k: usize = 0;
    while k < chain.len()
        invariant
            k <= chain.len(),
            out@ == chain_candidates(chain@, name_view(name), mode, k as nat),
        decreases chain.len() - k,
    {
        let step = &chain[k];
        let ghost before = out@;
        let mut i: usize = 0;
        while i < step.items.len()
            invariant
                i <= step.items.len(),
                out@ == before + step_candidates(
                    step.ty,
                    step.items@,
                    name_view(name),
                    mode,
                    i as nat,
                ),
            decreases step.items.len() - i,
        {
            let item = &step.items[i];
            let named = match name {
                Some(n) => item.name == *n,
                None => true,
            };
            let fits = match mode {
                LookupMode::MethodCall => match item.item {
                    AssocItem::Function(_) => true,
                    _ => false,
                },
                LookupMode::Path => true,
            };
            if named && fits {
                out.push((step.ty, item.item));
            }
            i = i + 1;
        }
        k = k + 1;
    }
    out
}

/// Every candidate of the first `k` types of the chain is visited, in the
/// same order, before any candidate of a later type: the candidates of the
/// first `k` types open the list of all candidates.
pub proof fn lemma_chain_order(
    chain: Seq<TypeCandidates>,
    name: Option<Seq<char>>,
    mode: LookupMode,
    k: nat,
    n: nat,
)
    requires
        k <= n <= chain.len(),
    ensures
        chain_candidates(chain, name, mode, k).len() <= chain_candidates(chain, name, mode, n).len(),
        forall|i: int|
            0 <= i < chain_candidates(chain, name, mode, k).len() ==> chain_candidates(
                chain,
                name,
                mode,
                n,
            )[i] == chain_candidates(chain, name, mode, k)[i],
    decreases n,
{
    if k < n {
        lemma_chain_order(chain, name, mode, k, (n - 1) as nat);
    }
}

/// Every candidate listed for one type carries that type.
pub proof fn lemma_step_carries_type(
    ty: Ty,
    items: Seq<NamedItem>,
    name: Option<Seq<char>>,
    mode: LookupMode,
    n: nat,
)
    ensures
        forall|i: int|
            0 <= i < step_candidates(ty, items, name, mode, n).len() ==> (#[trigger] step_candidates(
                ty,
                items,
                name,
                mode,
                n,
            )[i]).0 == ty,
    decreases n,
{
    if n > 0 && n <= items.len() {
        lemma_step_carries_type(ty, items, name, mode, (n - 1) as nat);
    }
}

/// The candidates of the type reached by `k` dereferences stand together in
/// the list of all candidates, in their own order, directly behind all the
/// candidates of the types reached by fewer dereferences.
pub proof fn lemma_candidates_of_step(
    chain: Seq<TypeCandidates>,
    name: Option<Seq<char>>,
    mode: LookupMode,
    k: nat,
)
    requires
        k < chain.len(),
    ensures
        ({
            let before = chain_candidates(chain, name, mode, k);
            let own = step_candidates(chain[k as int].ty, chain[k as int].items@, name, mode, chain[k as int].items@.len());
            let all = all_candidates(chain, name, mode);
            &&& before.len() + own.len() <= all.len()
            &&& forall|i: int| 0 <= i < before.len() ==> all[i] == before[i]
            &&& forall|i: int| 0 <= i < own.len() ==> all[before.len() + i] == #[trigger] own[i]
            &&& forall|i: int| 0 <= i < own.len() ==> (#[trigger] own[i]).0 == chain[k as int].ty
        }),
{
    let own = step_candidates(chain[k as int].ty, chain[k as int].items@, name, mode, chain[k as int].items@.len());
    lemma_chain_order(chain, name, mode, k + 1, chain.len());
    lemma_chain_order(chain, name, mode, k, chain.len());
    lemma_step_carries_type(chain[k as int].ty, chain[k as int].items@, name, mode, chain[k as int].items@.len());
    assert(chain_candidates(chain, name, mode, k + 1) == chain_candidates(chain, name, mode, k) + own);
}

} // verus!
