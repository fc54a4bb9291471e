//! A plain-data view of the semantic model, as one completion request sees it.
//!
//! The engine is a pure function of this data: name resolution, trait solving
//! and type inference have already happened elsewhere, and their answers are
//! laid out in the tables below.  Every index field points into one of the
//! tables of [`Model`]; the well-formedness predicate [`Model::wf`] says that
//! all of them are in bounds.  All of this data is created for one request and
//! discarded when the request is done.

use vstd::prelude::*;

verus! {

/// Which kind of associated item a trait or an implementation declares.
#[derive(Clone, Copy, Debug, PartialEq, Eq, Structural)]
pub enum AssocKind {
    Constant,
    Function,
    TypeAlias,
}

/// An associated item as the semantic model hands it out.
///
/// `id` is the item's definition identity: stable for the whole request, and
/// the key under which duplicate sightings of one item are recognised.
#[derive(Clone, Copy, Debug, PartialEq, Eq, Structural)]
pub struct AssocItem {
    pub id: u64,
    pub kind: AssocKind,
}

/// One entry of a name scope.  The index payloads point into the tables of
/// [`Model`]; entries whose payload the engine never follows carry none.
#[derive(Clone, Copy, Debug, PartialEq, Eq, Structural)]
pub enum ScopeEntry {
    /// A lifetime generic parameter.
    LifetimeParam,
    /// A type generic parameter; the index names its [`TypeParamData`].
    TypeParam(usize),
    /// A const generic parameter.
    ConstParam,
    /// A loop or block label.
    Label,
    /// A local binding.
    Local,
    /// A function definition.
    Function,
    /// An enum variant.
    Variant,
    /// A static definition.
    Static,
    /// A constant definition.
    Constant,
    /// A macro definition; only function-like macros are legal in type position.
    Macro { fn_like: bool },
    /// A builtin type; the index names its [`BuiltinData`].
    BuiltinType(usize),
    /// An algebraic data type; the index names its [`AdtData`].
    Adt(usize),
    /// A module; the index names its [`ModuleData`].
    Module(usize),
    /// A trait; the index names its [`TraitData`].
    Trait(usize),
    /// A type alias; the index names its [`TypeAliasData`].
    TypeAlias(usize),
    /// The implicit `Self` type of an enclosing `impl` block.
    ImplSelfType(usize),
    /// The implicit `Self` type on an algebraic data type's own scope.
    AdtSelfType(usize),
    /// An entry the semantic model could not classify.
    Unknown,
}

/// What a path qualifier resolved to.  Variants the engine treats alike and
/// never reads into are folded into `Other`, which also stands for a path the
/// semantic model resolved to nothing useful.
#[derive(Clone, Copy, Debug, PartialEq, Eq, Structural)]
pub enum Resolution {
    Module(usize),
    Adt(usize),
    TypeAlias(usize),
    BuiltinType(usize),
    Trait(usize),
    TypeParam(usize),
    SelfType(usize),
    Other,
}

/// A name together with what it resolves to, as a scope enumerates it.
/// The name itself is an opaque handle: rendering is not this engine's job.
#[derive(Clone, Copy, Debug, PartialEq, Eq, Structural)]
pub struct ScopedName {
    pub name: u32,
    pub entry: ScopeEntry,
}

/// What the semantic model knows of one type.
#[derive(Debug)]
pub struct TypeData {
    /// The type after standard adjustment (redundant reference and deref
    /// layers stripped), given as an index into the type table.
    pub adjusted: usize,
    /// The algebraic data type this type denotes, where it denotes one.
    pub as_adt: Option<usize>,
    /// Associated items reachable on the type through inherent
    /// implementations and currently-in-scope trait implementations.  The
    /// semantic model omits associated types reachable only through a trait
    /// bound with no matching inherent implementation; the engine surfaces
    /// exactly what stands here.
    pub path_candidates: Vec<AssocItem>,
    /// The type's own associated items, enumerated directly; the engine reads
    /// only the type aliases out of this list.
    pub assoc_items: Vec<AssocItem>,
}

/// What the semantic model knows of one module.
#[derive(Debug)]
pub struct ModuleData {
    /// The module's exported names, as visible from the current module.
    pub scope: Vec<ScopedName>,
    /// Associated-type shorthand candidates available on this module when it
    /// stands as a path qualifier.
    pub shorthand: Vec<AssocItem>,
}

/// What the semantic model knows of one trait.
#[derive(Debug)]
pub struct TraitData {
    /// The trait's own associated items, supertraits excluded.
    pub items: Vec<AssocItem>,
    /// The trait's associated items including those of its supertraits.
    pub items_with_supertraits: Vec<AssocItem>,
}

/// An algebraic data type: the type it denotes and the module that owns it.
#[derive(Clone, Copy, Debug, PartialEq, Eq, Structural)]
pub struct AdtData {
    pub ty: usize,
    pub module: usize,
}

/// A type alias and the type it denotes.
#[derive(Clone, Copy, Debug, PartialEq, Eq, Structural)]
pub struct TypeAliasData {
    pub ty: usize,
}

/// A builtin type and the type it denotes.
#[derive(Clone, Copy, Debug, PartialEq, Eq, Structural)]
pub struct BuiltinData {
    pub ty: usize,
}

/// A type generic parameter and the type it stands for.
#[derive(Clone, Copy, Debug, PartialEq, Eq, Structural)]
pub struct TypeParamData {
    pub ty: usize,
}

/// An `impl` block and its self type.
#[derive(Clone, Copy, Debug, PartialEq, Eq, Structural)]
pub struct ImplData {
    pub self_ty: usize,
}

/// One answer of the source renderer: the type `ty`, spelled relative to
/// `module`, renders as the opaque text handle `text`.  A pair absent from
/// the table cannot be rendered as syntactically valid source text.
#[derive(Clone, Copy, Debug, PartialEq, Eq, Structural)]
pub struct RenderEntry {
    pub ty: usize,
    pub module: usize,
    pub text: u32,
}

/// The read-only semantic model, laid out as tables.
#[derive(Debug)]
pub struct Model {
    pub types: Vec<TypeData>,
    pub modules: Vec<ModuleData>,
    pub adts: Vec<AdtData>,
    pub type_aliases: Vec<TypeAliasData>,
    pub builtins: Vec<BuiltinData>,
    pub traits: Vec<TraitData>,
    pub type_params: Vec<TypeParamData>,
    pub impls: Vec<ImplData>,
    /// The traits currently in scope at the completion site.
    pub traits_in_scope: Vec<usize>,
    /// Every name in scope at the completion site.
    pub scope_names: Vec<ScopedName>,
    /// The inferred type of each pattern, where the model has one.
    pub pat_types: Vec<Option<usize>>,
    /// The inferred type of each expression, where the model has one.
    pub expr_types: Vec<Option<usize>>,
    /// What each recorded path resolves to, where the model resolved it.
    pub path_resolutions: Vec<Option<Resolution>>,
    /// The source renderer's answers, searched front to back.
    pub renders: Vec<RenderEntry>,
}

impl Model {
    /// A resolution's index payload points into the table it names.
    pub open spec fn res_wf(self, r: Resolution) -> bool {
        match r {
            Resolution::Module(i) => i < self.modules@.len(),
            Resolution::Adt(i) => i < self.adts@.len(),
            Resolution::TypeAlias(i) => i < self.type_aliases@.len(),
            Resolution::BuiltinType(i) => i < self.builtins@.len(),
            Resolution::Trait(i) => i < self.traits@.len(),
            Resolution::TypeParam(i) => i < self.type_params@.len(),
            Resolution::SelfType(i) => i < self.impls@.len(),
            Resolution::Other => true,
        }
    }

    /// A type row's indices point into the tables they name.
    pub open spec fn type_row_wf(self, t: TypeData) -> bool {
        &&& t.adjusted < self.types@.len()
        &&& (t.as_adt matches Some(a) ==> a < self.adts@.len())
    }

    /// Every index stored in any table is in bounds.
    pub open spec fn wf(self) -> bool {
        &&& forall|i: int| 0 <= i < self.types@.len() ==> self.type_row_wf(#[trigger] self.types@[i])
        &&& forall|i: int| 0 <= i < self.adts@.len()
                ==> (#[trigger] self.adts@[i]).ty < self.types@.len()
                    && self.adts@[i].module < self.modules@.len()
        &&& forall|i: int| 0 <= i < self.type_aliases@.len()
                ==> (#[trigger] self.type_aliases@[i]).ty < self.types@.len()
        &&& forall|i: int| 0 <= i < self.builtins@.len()
                ==> (#[trigger] self.builtins@[i]).ty < self.types@.len()
        &&& forall|i: int| 0 <= i < self.type_params@.len()
                ==> (#[trigger] self.type_params@[i]).ty < self.types@.len()
        &&& forall|i: int| 0 <= i < self.impls@.len()
                ==> (#[trigger] self.impls@[i]).self_ty < self.types@.len()
        &&& forall|i: int| 0 <= i < self.traits_in_scope@.len()
                ==> (#[trigger] self.traits_in_scope@[i]) < self.traits@.len()
        &&& forall|i: int| 0 <= i < self.pat_types@.len()
                ==> ((#[trigger] self.pat_types@[i]) matches Some(t) ==> t < self.types@.len())
        &&& forall|i: int| 0 <= i < self.expr_types@.len()
                ==> ((#[trigger] self.expr_types@[i]) matches Some(t) ==> t < self.types@.len())
        &&& forall|i: int| 0 <= i < self.path_resolutions@.len()
                ==> ((#[trigger] self.path_resolutions@[i]) matches Some(r) ==> self.res_wf(r))
    }
}

} // verus!
