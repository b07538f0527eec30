//! Identities of semantic entities, and the answers that the four namespaces
//! give for a path.
use vstd::prelude::*;
use crate::scopes::PatId;

verus! {

pub type FunctionId = u32;

pub type MacroDefId = u32;

pub type ImplId = u32;

pub type GenericDefId = u32;

pub type StructFieldId = u32;

pub type TraitId = u32;

pub type CrateId = u32;

/// A struct, union or enum.
#[derive(Clone, Copy, Debug, PartialEq, Eq, Structural)]
pub enum Adt {
    Struct(u32),
    Union(u32),
    Enum(u32),
}

/// Something that owns a body of expressions.
#[derive(Clone, Copy, Debug, PartialEq, Eq, Structural)]
pub enum DefWithBody {
    Function(FunctionId),
    Const(u32),
    Static(u32),
}

/// A definition at module level.
#[derive(Clone, Copy, Debug, PartialEq, Eq, Structural)]
pub enum ModuleDef {
    Module(u32),
    Function(FunctionId),
    Adt(Adt),
    EnumVariant(u32),
    Const(u32),
    Static(u32),
    Trait(TraitId),
    TypeAlias(u32),
    BuiltinType(u32),
}

/// A struct-like thing that has fields: a struct or one variant of an enum.
#[derive(Clone, Copy, Debug, PartialEq, Eq, Structural)]
pub enum VariantDef {
    Struct(u32),
    EnumVariant(u32),
}

/// An item that belongs to an impl or a trait.
#[derive(Clone, Copy, Debug, PartialEq, Eq, Structural)]
pub enum AssocItem {
    Function(FunctionId),
    Const(u32),
    TypeAlias(u32),
}

/// A generic parameter: the definition that declares it and its position.
#[derive(Clone, Copy, Debug, PartialEq, Eq, Structural)]
pub struct GenericParam {
    pub parent: GenericDefId,
    pub idx: u32,
}

/// A local binding: the body that holds it and the pattern that binds it.
#[derive(Clone, Copy, Debug, PartialEq, Eq, Structural)]
pub struct Local {
    pub parent: DefWithBody,
    pub pat_id: PatId,
}

/// The type of an expression or pattern, as far as inference got.
#[derive(Clone, Copy, Debug, PartialEq, Eq, Structural)]
pub enum Ty {
    Unknown,
    Known(u32),
}

/// What a path means in the namespace of types.
#[derive(Clone, Copy, Debug, PartialEq, Eq, Structural)]
pub enum TypeNs {
    SelfType(ImplId),
    GenericParam(u32),
    AdtId(Adt),
    AdtSelfType(Adt),
    EnumVariantId(u32),
    TypeAliasId(u32),
    BuiltinType(u32),
    TraitId(TraitId),
}

/// What a path means in the namespace of values.
#[derive(Clone, Copy, Debug, PartialEq, Eq, Structural)]
pub enum ValueNs {
    LocalBinding(PatId),
    FunctionId(FunctionId),
    ConstId(u32),
    StaticId(u32),
    StructId(u32),
    EnumVariantId(u32),
}

/// What a path means when looked up as a plain module path, per namespace.
#[derive(Clone, Copy, Debug, PartialEq, Eq, Structural)]
pub struct PerNs {
    pub types: Option<ModuleDef>,
    pub values: Option<ModuleDef>,
    pub macros: Option<MacroDefId>,
}

impl PerNs {
    pub fn take_types(&self) -> (r: Option<ModuleDef>)
        ensures
            r == self.types,
    {
        self.types
    }
}

/// The answers of the analysis for one path under one environment. Each
/// namespace is asked on its own, and any number of them may answer.
#[derive(Clone, Copy, Debug, PartialEq, Eq, Structural)]
pub struct PathLookup {
    pub types: Option<TypeNs>,
    pub values: Option<ValueNs>,
    pub items: PerNs,
    pub macros: Option<MacroDefId>,
    /// The definition whose generic parameters the environment has in scope.
    pub generic_def: Option<GenericDefId>,
}

/// The one meaning that a path is given.
#[derive(Clone, Copy, Debug, PartialEq, Eq, Structural)]
pub enum PathResolution {
    /// An item.
    Def(ModuleDef),
    /// A local binding.
    Local(Local),
    /// A generic parameter.
    GenericParam(GenericParam),
    /// The `Self` type of an impl.
    SelfType(ImplId),
    Macro(MacroDefId),
    AssocItem(AssocItem),
}

/// A name in scope as the environment reports it.
#[derive(Clone, Copy, Debug, PartialEq, Eq, Structural)]
pub enum ResolverScopeDef {
    PerNs(PerNs),
    ImplSelfType(ImplId),
    AdtSelfType(Adt),
    GenericParam(u32),
    Local(PatId),
}

/// A name in scope as callers see it.
#[derive(Clone, Copy, Debug, PartialEq, Eq, Structural)]
pub enum ScopeDef {
    ModuleDef(ModuleDef),
    MacroDef(MacroDefId),
    GenericParam(GenericParam),
    ImplSelfType(ImplId),
    AdtSelfType(Adt),
    Local(Local),
    Unknown,
}

/// The meaning of a path in the namespace of types, as an outcome.
pub open spec fn type_outcome(ty: TypeNs, generic_def: Option<GenericDefId>) -> PathResolution
    recommends
        ty is GenericParam ==> generic_def.is_some(),
{
    match ty {
        TypeNs::SelfType(it) => PathResolution::SelfType(it),
        TypeNs::GenericParam(idx) => PathResolution::GenericParam(
            GenericParam { parent: generic_def.unwrap(), idx },
        ),
        TypeNs::AdtSelfType(it) => PathResolution::Def(ModuleDef::Adt(it)),
        TypeNs::AdtId(it) => PathResolution::Def(ModuleDef::Adt(it)),
        TypeNs::EnumVariantId(it) => PathResolution::Def(ModuleDef::EnumVariant(it)),
        TypeNs::TypeAliasId(it) => PathResolution::Def(ModuleDef::TypeAlias(it)),
        TypeNs::BuiltinType(it) => PathResolution::Def(ModuleDef::BuiltinType(it)),
        TypeNs::TraitId(it) => PathResolution::Def(ModuleDef::Trait(it)),
    }
}

/// The meaning of a path in the namespace of values, as an outcome. A local
/// binding means nothing outside a body.
pub open spec fn value_outcome(val: ValueNs, body_owner: Option<DefWithBody>) -> Option<
    PathResolution,
> {
    match val {
        ValueNs::LocalBinding(pat_id) => match body_owner {
            Some(parent) => Some(PathResolution::Local(Local { parent, pat_id })),
            None => None,
        },
        ValueNs::FunctionId(it) => Some(PathResolution::Def(ModuleDef::Function(it))),
        ValueNs::ConstId(it) => Some(PathResolution::Def(ModuleDef::Const(it))),
        ValueNs::StaticId(it) => Some(PathResolution::Def(ModuleDef::Static(it))),
        ValueNs::StructId(it) => Some(PathResolution::Def(ModuleDef::Adt(Adt::Struct(it)))),
        ValueNs::EnumVariantId(it) => Some(PathResolution::Def(ModuleDef::EnumVariant(it))),
    }
}

/// The outcome for a path: the first of types, values, items and macros that
/// has one.
pub open spec fn merged_outcome(lookup: PathLookup, body_owner: Option<DefWithBody>) -> Option<
    PathResolution,
> {
    if let Some(ty) = lookup.types {
        Some(type_outcome(ty, lookup.generic_def))
    } else if let Some(v) = value_channel(lookup, body_owner) {
        Some(v)
    } else if let Some(item) = lookup.items.types {
        Some(PathResolution::Def(item))
    } else if let Some(m) = lookup.macros {
        Some(PathResolution::Macro(m))
    } else {
        None
    }
}

/// The outcome that the namespace of values alone gives.
pub open spec fn value_channel(lookup: PathLookup, body_owner: Option<DefWithBody>) -> Option<
    PathResolution,
> {
    match lookup.values {
        Some(v) => value_outcome(v, body_owner),
        None => None,
    }
}

/// The lookup can be merged: where the path names a generic parameter, the
/// environment knows the definition that declares it.
pub open spec fn lookup_consistent(lookup: PathLookup) -> bool {
    lookup.types matches Some(TypeNs::GenericParam(_)) ==> lookup.generic_def.is_some()
}

/// A name in scope, converted for callers.
pub open spec fn scope_def_of(
    def: ResolverScopeDef,
    generic_def: Option<GenericDefId>,
    body_owner: Option<DefWithBody>,
) -> ScopeDef
    recommends
        def is GenericParam ==> generic_def.is_some(),
        def is Local ==> body_owner.is_some(),
{
    match def {
        ResolverScopeDef::PerNs(it) => match it.types {
            Some(t) => ScopeDef::ModuleDef(t),
            None => match it.values {
                Some(v) => ScopeDef::ModuleDef(v),
                None => match it.macros {
                    Some(m) => ScopeDef::MacroDef(m),
                    None => ScopeDef::Unknown,
                },
            },
        },
        ResolverScopeDef::ImplSelfType(it) => ScopeDef::ImplSelfType(it),
        ResolverScopeDef::AdtSelfType(it) => ScopeDef::AdtSelfType(it),
        ResolverScopeDef::GenericParam(idx) => ScopeDef::GenericParam(
            GenericParam { parent: generic_def.unwrap(), idx },
        ),
        ResolverScopeDef::Local(pat_id) => ScopeDef::Local(
            Local { parent: body_owner.unwrap(), pat_id },
        ),
    }
}

/// Merges the answers of the namespaces into one outcome, types before values
/// before items before macros.
pub fn merge_path_lookup(lookup: &PathLookup, body_owner: Option<DefWithBody>) -> (r: Option<
    PathResolution,
>)
    requires
        lookup_consistent(*lookup),
    ensures
        r == merged_outcome(*lookup, body_owner),
{
    let types = match lookup.types {
        Some(ty) => Some(
            match ty {
                TypeNs::SelfType(it) => PathResolution::SelfType(it),
                TypeNs::GenericParam(idx) => PathResolution::GenericParam(
                    GenericParam { parent: lookup.generic_def.unwrap(), idx },
                ),
                TypeNs::AdtSelfType(it) => PathResolution::Def(ModuleDef::Adt(it)),
                TypeNs::AdtId(it) => PathResolution::Def(ModuleDef::Adt(it)),
                TypeNs::EnumVariantId(it) => PathResolution::Def(ModuleDef::EnumVariant(it)),
                TypeNs::TypeAliasId(it) => PathResolution::Def(ModuleDef::TypeAlias(it)),
                TypeNs::BuiltinType(it) => PathResolution::Def(ModuleDef::BuiltinType(it)),
                TypeNs::TraitId(it) => PathResolution::Def(ModuleDef::Trait(it)),
            },
        ),
        None => None,
    };
    let values = match lookup.values {
        Some(val) => match val {
            ValueNs::LocalBinding(pat_id) => match body_owner {
                Some(parent) => Some(PathResolution::Local(Local { parent, pat_id })),
                None => None,
            },
            ValueNs::FunctionId(it) => Some(PathResolution::Def(ModuleDef::Function(it))),
            ValueNs::ConstId(it) => Some(PathResolution::Def(ModuleDef::Const(it))),
            ValueNs::StaticId(it) => Some(PathResolution::Def(ModuleDef::Static(it))),
            ValueNs::StructId(it) => Some(PathResolution::Def(ModuleDef::Adt(Adt::Struct(it)))),
            ValueNs::EnumVariantId(it) => Some(PathResolution::Def(ModuleDef::EnumVariant(it))),
        },
        None => None,
    };
    let items = match lookup.items.take_types() {
        Some(it) => Some(PathResolution::Def(it)),
        None => None,
    };
    if types.is_some() {
        types
    } else if values.is_some() {
        values
    } else if items.is_some() {
        items
    } else {
        match lookup.macros {
            Some(def) => Some(PathResolution::Macro(def)),
            None => None,
        }
    }
}

/// Converts a name in scope for callers.
pub fn convert_scope_def(
    def: ResolverScopeDef,
    generic_def: Option<GenericDefId>,
    body_owner: Option<DefWithBody>,
) -> (r: ScopeDef)
    requires
        def is GenericParam ==> generic_def.is_some(),
        def is Local ==> body_owner.is_some(),
    ensures
        r == scope_def_of(def, generic_def, body_owner),
{
    match def {
        ResolverScopeDef::PerNs(it) => match it.types {
            Some(t) => ScopeDef::ModuleDef(t),
            None => match it.values {
                Some(v) => ScopeDef::ModuleDef(v),
                None => match it.macros {
                    Some(m) => ScopeDef::MacroDef(m),
                    None => ScopeDef::Unknown,
                },
            },
        },
        ResolverScopeDef::ImplSelfType(it) => ScopeDef::ImplSelfType(it),
        ResolverScopeDef::AdtSelfType(it) => ScopeDef::AdtSelfType(it),
        ResolverScopeDef::GenericParam(idx) => ScopeDef::GenericParam(
            GenericParam { parent: generic_def.unwrap(), idx },
        ),
        ResolverScopeDef::Local(pat_id) => ScopeDef::Local(
            Local { parent: body_owner.unwrap(), pat_id },
        ),
    }
}

/// A path that means something as a type is given that meaning, whatever it
/// means as a value, an item or a macro.
pub proof fn lemma_type_namespace_wins(lookup: PathLookup, body_owner: Option<DefWithBody>)
    requires
        lookup.types.is_some(),
    ensures
        merged_outcome(lookup, body_owner) == Some(
            type_outcome(lookup.types.unwrap(), lookup.generic_def),
        ),
{
}

/// The namespaces are tried in a fixed order, and a namespace is heard only
/// where all before it are silent.
pub proof fn lemma_merge_precedence(lookup: PathLookup, body_owner: Option<DefWithBody>)
    requires
        lookup.types.is_none(),
    ensures
        value_channel(lookup, body_owner).is_some() ==> merged_outcome(lookup, body_owner)
            == value_channel(lookup, body_owner),
        value_channel(lookup, body_owner).is_none() && lookup.items.types.is_some()
            ==> merged_outcome(lookup, body_owner) == Some(
            PathResolution::Def(lookup.items.types.unwrap()),
        ),
        value_channel(lookup, body_owner).is_none() && lookup.items.types.is_none()
            ==> merged_outcome(lookup, body_owner) == match lookup.macros {
            Some(m) => Some(PathResolution::Macro(m)),
            None => None,
        },
{
}

/// An outcome is never a local binding and an item at once: a local binding is
/// reported only where the namespace of types is silent, that of values names
/// the binding, and a body owns it.
pub proof fn lemma_local_outcome(lookup: PathLookup, body_owner: Option<DefWithBody>, l: Local)
    requires
        merged_outcome(lookup, body_owner) == Some(PathResolution::Local(l)),
    ensures
        lookup.types.is_none(),
        lookup.values == Some(ValueNs::LocalBinding(l.pat_id)),
        body_owner == Some(l.parent),
{
}

} // verus!
