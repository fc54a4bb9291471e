//! The per-request completion context: the parsed shape of the path under the
//! cursor, the syntactic location, and the semantic model, bundled into one
//! immutable value that every component receives by reference.

use vstd::prelude::*;

use crate::model::{Model, Resolution};

verus! {

/// The token immediately before the completion site, as far as the engine
/// cares: `impl`, `for`, or anything else.
#[derive(Clone, Copy, Debug, PartialEq, Eq, Structural)]
pub enum PrevToken {
    Impl,
    For,
    Other,
}

/// What kind of position the path under the cursor sits in.  The engine only
/// works on type positions; any other kind makes it contribute nothing.
#[derive(Clone, Copy, Debug, PartialEq, Eq, Structural)]
pub enum PathKind {
    Type,
    Other,
}

/// The qualifier of the path under the cursor, when it has one.
#[derive(Clone, Copy, Debug, PartialEq, Eq, Structural)]
pub struct QualifierCtx {
    /// The qualifier was literally an elided self-type marker, as when
    /// completing after `<_>::`.
    pub is_infer: bool,
    /// What the qualifier resolved to, where the semantic model resolved it.
    pub resolution: Option<Resolution>,
}

/// The parsed shape of the path under the cursor.
#[derive(Clone, Copy, Debug, PartialEq, Eq, Structural)]
pub struct PathCtx {
    pub kind: PathKind,
    /// The path starts with a leading path separator and has no qualifier.
    pub is_absolute: bool,
    pub qualifier: Option<QualifierCtx>,
}

/// The path segment enclosing a generic-argument list.
#[derive(Clone, Copy, Debug, PartialEq, Eq, Structural)]
pub struct SegmentCtx {
    /// The segment lies inside a trait-bound clause.
    pub in_type_bound: bool,
    /// The segment's parent path, as an index into the model's resolved paths.
    pub path: usize,
}

/// A generic-argument-list location and what syntactically encloses it.
#[derive(Clone, Copy, Debug, PartialEq, Eq, Structural)]
pub struct GenericArgsCtx {
    /// The enclosing path segment of the argument list, where there is one.
    pub segment: Option<SegmentCtx>,
}

/// The site of an omitted type annotation: the pattern or expression whose
/// inferred type could be suggested, where the syntax tree has one.
#[derive(Clone, Copy, Debug, PartialEq, Eq, Structural)]
pub enum TypeAnnotation {
    /// A `let` pattern without a written type.
    Let(Option<usize>),
    /// A function parameter pattern without a written type.
    FnParam(Option<usize>),
    /// A `const` whose initializer fixes the expected type.
    Const(Option<usize>),
    /// A function return type matching the returned expression.
    RetType(Option<usize>),
}

/// The classified syntactic location of the cursor.
#[derive(Clone, Copy, Debug, PartialEq, Eq, Structural)]
pub enum ImmediateLocation {
    /// No location the engine treats specially.
    Other,
    /// Inside a `: Bound` clause.
    TypeBound,
    /// Inside a generic-argument list.
    GenericArgList(GenericArgsCtx),
    /// At an omitted type annotation.
    TypeAnnotation(TypeAnnotation),
}

/// Everything one completion request reads: the semantic model, the current
/// module, and the parsed shape of the site under the cursor.  Created at the
/// start of a request, never mutated, discarded at its end.
#[derive(Debug)]
pub struct CompletionCtx {
    pub model: Model,
    /// The module the completion site lies in.
    pub module: usize,
    pub prev_token: PrevToken,
    pub location: ImmediateLocation,
    /// The path under the cursor, where the cursor sits in one.
    pub path: Option<PathCtx>,
}

impl CompletionCtx {
    /// The current position is inside a generic-argument list.
    pub open spec fn spec_expects_generic_arg(self) -> bool {
        self.location is GenericArgList
    }

    pub fn expects_generic_arg(&self) -> (b: bool)
        ensures
            b == self.spec_expects_generic_arg(),
    {
        matches!(self.location, ImmediateLocation::GenericArgList(_))
    }

    /// The model's indices are in bounds, and so is the index carried by the
    /// qualifier's resolution, if the path has one.
    pub open spec fn wf(self) -> bool {
        &&& self.model.wf()
        &&& (self.path matches Some(p)
                ==> (p.qualifier matches Some(q)
                    ==> (q.resolution matches Some(r) ==> self.model.res_wf(r))))
    }
}

} // verus!
