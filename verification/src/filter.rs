//! The applicability filter: is a given scope entry meaningful in type
//! position?  A pure predicate; the rules are tried in order and the first
//! match wins.

use vstd::prelude::*;

use crate::context::{CompletionCtx, PrevToken};
use crate::model::ScopeEntry;

verus! {

/// The filter's verdict on one scope entry.
///
/// Lifetime parameters and labels never fit a type position, and neither do
/// values (functions, enum variants, statics, locals).  Constant definitions
/// and const generic parameters fit exactly inside a generic-argument list,
/// where values are legal as const generic arguments.  The implicit `Self`
/// of an enclosing `impl` block is suppressed while the writer is still
/// declaring what `Self` is, that is right after `impl` or `for`.  Macros fit
/// only when function-like.  Everything type-shaped fits always.
pub open spec fn spec_applicable(entry: ScopeEntry, expects_generic_arg: bool, prev: PrevToken) -> bool {
    match entry {
        ScopeEntry::LifetimeParam | ScopeEntry::Label => false,
        ScopeEntry::Function | ScopeEntry::Variant | ScopeEntry::Static | ScopeEntry::Local => false,
        ScopeEntry::Constant | ScopeEntry::ConstParam => expects_generic_arg,
        ScopeEntry::ImplSelfType(_) => prev != PrevToken::Impl && prev != PrevToken::For,
        ScopeEntry::Macro { fn_like } => fn_like,
        ScopeEntry::BuiltinType(_)
        | ScopeEntry::Adt(_)
        | ScopeEntry::Module(_)
        | ScopeEntry::Trait(_)
        | ScopeEntry::TypeAlias(_)
        | ScopeEntry::AdtSelfType(_)
        | ScopeEntry::TypeParam(_)
        | ScopeEntry::Unknown => true,
    }
}

/// Whether `entry` is meaningful in the type position `ctx` describes.
pub fn applicable(ctx: &CompletionCtx, entry: ScopeEntry) -> (b: bool)
    ensures
        b == spec_applicable(entry, ctx.spec_expects_generic_arg(), ctx.prev_token),
{
    match entry {
        ScopeEntry::LifetimeParam | ScopeEntry::Label => false,
        ScopeEntry::Function | ScopeEntry::Variant | ScopeEntry::Static | ScopeEntry::Local => false,
        ScopeEntry::Constant | ScopeEntry::ConstParam => ctx.expects_generic_arg(),
        ScopeEntry::ImplSelfType(_) => {
            !matches!(ctx.prev_token, PrevToken::Impl) && !matches!(ctx.prev_token, PrevToken::For)
        },
        ScopeEntry::Macro { fn_like } => fn_like,
        ScopeEntry::BuiltinType(_)
        | ScopeEntry::Adt(_)
        | ScopeEntry::Module(_)
        | ScopeEntry::Trait(_)
        | ScopeEntry::TypeAlias(_)
        | ScopeEntry::AdtSelfType(_)
        | ScopeEntry::TypeParam(_)
        | ScopeEntry::Unknown => true,
    }
}

/// Value entries never pass the filter: a function, enum variant, static or
/// local binding is inapplicable at every position, and a constant definition
/// or const generic parameter is applicable exactly inside a
/// generic-argument list.
pub proof fn lemma_values_not_applicable(entry: ScopeEntry, expects_generic_arg: bool, prev: PrevToken)
    ensures
        entry == ScopeEntry::Function || entry == ScopeEntry::Variant || entry == ScopeEntry::Static
            || entry == ScopeEntry::Local ==> !spec_applicable(entry, expects_generic_arg, prev),
        entry == ScopeEntry::Constant || entry == ScopeEntry::ConstParam
            ==> spec_applicable(entry, expects_generic_arg, prev) == expects_generic_arg,
{
}

/// A macro passes the filter exactly when it is function-like.
pub proof fn lemma_macro_applicable_iff_fn_like(fn_like: bool, expects_generic_arg: bool, prev: PrevToken)
    ensures
        spec_applicable(ScopeEntry::Macro { fn_like }, expects_generic_arg, prev) == fn_like,
{
}

/// The implicit self type of an `impl` block is excluded exactly when the
/// immediately preceding token is `impl` or `for`.
pub proof fn lemma_impl_self_excluded_iff_impl_or_for(i: usize, expects_generic_arg: bool, prev: PrevToken)
    ensures
        spec_applicable(ScopeEntry::ImplSelfType(i), expects_generic_arg, prev)
            == (prev != PrevToken::Impl && prev != PrevToken::For),
{
}

} // verus!
