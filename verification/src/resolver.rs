//! The qualifier resolver: the state machine over the parsed path shape.
//!
//! Exactly one branch runs per request.  An inferred-self qualifier walks
//! every trait in scope; a module qualifier surfaces shorthand candidates and
//! the module's filtered scope; a concrete-type qualifier traverses the
//! type's reachable associated items; a trait qualifier its own items; a
//! type-parameter or `Self` qualifier traverses with identity-keyed
//! deduplication; anything else contributes nothing.  Without a qualifier,
//! an absolute path surfaces crate roots only, and otherwise keywords plus
//! location-specific candidates plus the filtered scope.
//!
//! The intended output of every branch is written down as a spec function,
//! and the executable engine is proved to emit exactly that sequence unless
//! a cancellation signal aborts the request first.

use vstd::prelude::*;

use crate::context::{CompletionCtx, ImmediateLocation, PathKind, PrevToken, QualifierCtx};
use crate::filter::{applicable, spec_applicable};
use crate::model::{AssocItem, AssocKind, Model, Resolution, ScopeEntry, ScopedName};
use crate::sink::{Candidate, Completions};

verus! {

// ---------------------------------------------------------------------------
// What each traversal is meant to emit, as functions of the model.
// ---------------------------------------------------------------------------

/// What the terminal "trait item" rule emits for one associated item: a
/// constant only inside a generic-argument list, a function never, a type
/// alias always.
pub open spec fn spec_assoc_one(item: AssocItem, expects_generic_arg: bool) -> Seq<Candidate> {
    match item.kind {
        AssocKind::Constant => if expects_generic_arg {
            seq![(Candidate::Constant { id: item.id })]
        } else {
            Seq::empty()
        },
        AssocKind::Function => Seq::empty(),
        AssocKind::TypeAlias => seq![(Candidate::TypeAlias { id: item.id })],
    }
}

/// The trait-item rule applied to the first `n` items of a list, in order.
pub open spec fn spec_assoc_upto(items: Seq<AssocItem>, n: int, expects_generic_arg: bool) -> Seq<Candidate>
    decreases n,
{
    if n <= 0 {
        Seq::empty()
    } else {
        spec_assoc_upto(items, n - 1, expects_generic_arg) + spec_assoc_one(items[n - 1], expects_generic_arg)
    }
}

/// The trait-item rule applied to a whole list.
pub open spec fn spec_assoc_list(items: Seq<AssocItem>, expects_generic_arg: bool) -> Seq<Candidate> {
    spec_assoc_upto(items, items.len() as int, expects_generic_arg)
}

/// Shorthand candidates are surfaced unconditionally, each as a type alias.
pub open spec fn spec_shorthand_upto(items: Seq<AssocItem>, n: int) -> Seq<Candidate>
    decreases n,
{
    if n <= 0 {
        Seq::empty()
    } else {
        spec_shorthand_upto(items, n - 1).push(Candidate::TypeAlias { id: items[n - 1].id })
    }
}

/// A direct enumeration of associated items surfaces the type aliases alone.
pub open spec fn spec_alias_upto(items: Seq<AssocItem>, n: int) -> Seq<Candidate>
    decreases n,
{
    if n <= 0 {
        Seq::empty()
    } else if items[n - 1].kind == AssocKind::TypeAlias {
        spec_alias_upto(items, n - 1).push(Candidate::TypeAlias { id: items[n - 1].id })
    } else {
        spec_alias_upto(items, n - 1)
    }
}

/// Associated type aliases surfaced with a trailing `=`, for a position that
/// expects an associated-type binding.
pub open spec fn spec_eq_alias_upto(items: Seq<AssocItem>, n: int) -> Seq<Candidate>
    decreases n,
{
    if n <= 0 {
        Seq::empty()
    } else if items[n - 1].kind == AssocKind::TypeAlias {
        spec_eq_alias_upto(items, n - 1).push(Candidate::TypeAliasWithEq { id: items[n - 1].id })
    } else {
        spec_eq_alias_upto(items, n - 1)
    }
}

/// A scope enumerated through the applicability filter.
pub open spec fn spec_scope_upto(names: Seq<ScopedName>, n: int, expects_generic_arg: bool, prev: PrevToken) -> Seq<Candidate>
    decreases n,
{
    if n <= 0 {
        Seq::empty()
    } else if spec_applicable(names[n - 1].entry, expects_generic_arg, prev) {
        spec_scope_upto(names, n - 1, expects_generic_arg, prev).push(
            Candidate::Resolution { name: names[n - 1].name, entry: names[n - 1].entry },
        )
    } else {
        spec_scope_upto(names, n - 1, expects_generic_arg, prev)
    }
}

/// In trait-bound position only function-like macros, traits and modules are
/// surfaced; every other filtering rule is ignored.
pub open spec fn spec_bound_allowed(entry: ScopeEntry) -> bool {
    match entry {
        ScopeEntry::Macro { fn_like } => fn_like,
        ScopeEntry::Trait(_) | ScopeEntry::Module(_) => true,
        _ => false,
    }
}

/// A scope enumerated under the trait-bound restriction.
pub open spec fn spec_bound_upto(names: Seq<ScopedName>, n: int) -> Seq<Candidate>
    decreases n,
{
    if n <= 0 {
        Seq::empty()
    } else if spec_bound_allowed(names[n - 1].entry) {
        spec_bound_upto(names, n - 1).push(
            Candidate::Resolution { name: names[n - 1].name, entry: names[n - 1].entry },
        )
    } else {
        spec_bound_upto(names, n - 1)
    }
}

/// The inferred-self branch: every trait in scope contributes its own
/// associated items in turn, without deduplication.
pub open spec fn spec_infer_upto(m: Model, ts: Seq<usize>, n: int, expects_generic_arg: bool) -> Seq<Candidate>
    decreases n,
{
    if n <= 0 {
        Seq::empty()
    } else {
        spec_infer_upto(m, ts, n - 1, expects_generic_arg)
            + spec_assoc_list(m.traits@[ts[n - 1] as int].items@, expects_generic_arg)
    }
}

/// Position `i` holds the first sighting of its item's identity.
pub open spec fn spec_first_sighting(items: Seq<AssocItem>, i: int) -> bool {
    forall|j: int| 0 <= j < i ==> items[j].id != items[i].id
}

/// The trait-item rule applied to the first `n` items, skipping every item
/// whose identity was already seen earlier in the list.
pub open spec fn spec_dedup_upto(items: Seq<AssocItem>, n: int, expects_generic_arg: bool) -> Seq<Candidate>
    decreases n,
{
    if n <= 0 {
        Seq::empty()
    } else if spec_first_sighting(items, n - 1) {
        spec_dedup_upto(items, n - 1, expects_generic_arg) + spec_assoc_one(items[n - 1], expects_generic_arg)
    } else {
        spec_dedup_upto(items, n - 1, expects_generic_arg)
    }
}

/// The deduplicated traversal of a whole list.
pub open spec fn spec_dedup_candidates(items: Seq<AssocItem>, expects_generic_arg: bool) -> Seq<Candidate> {
    spec_dedup_upto(items, items.len() as int, expects_generic_arg)
}

/// The concrete-type rule: the type's reachable path candidates through the
/// trait-item rule, then its directly enumerated associated type aliases.
pub open spec fn spec_concrete_type(m: Model, ty: usize, expects_generic_arg: bool) -> Seq<Candidate> {
    spec_assoc_upto(
        m.types@[ty as int].path_candidates@,
        m.types@[ty as int].path_candidates@.len() as int,
        expects_generic_arg,
    ) + spec_alias_upto(m.types@[ty as int].assoc_items@, m.types@[ty as int].assoc_items@.len() as int)
}

/// The module-qualifier branch: shorthand candidates first, unconditionally,
/// then the module's scope through the applicability filter.
pub open spec fn spec_module_branch(m: Model, md: usize, expects_generic_arg: bool, prev: PrevToken) -> Seq<Candidate> {
    spec_shorthand_upto(m.modules@[md as int].shorthand@, m.modules@[md as int].shorthand@.len() as int)
        + spec_scope_upto(
            m.modules@[md as int].scope@,
            m.modules@[md as int].scope@.len() as int,
            expects_generic_arg,
            prev,
        )
}

/// What a recorded path resolves to; an unrecorded path resolves to nothing.
pub open spec fn spec_resolve_path(m: Model, p: usize) -> Option<Resolution> {
    if p < m.path_resolutions@.len() {
        m.path_resolutions@[p as int]
    } else {
        Option::None
    }
}

/// The extra candidates of a generic-argument list whose enclosing segment
/// sits inside a trait bound and resolves to a trait: that trait's associated
/// type aliases, supertraits included, each with a trailing `=`.
pub open spec fn spec_genarg_extra(ctx: CompletionCtx) -> Seq<Candidate> {
    match ctx.location {
        ImmediateLocation::GenericArgList(g) => match g.segment {
            Option::Some(s) => if s.in_type_bound {
                match spec_resolve_path(ctx.model, s.path) {
                    Option::Some(Resolution::Trait(t)) => spec_eq_alias_upto(
                        ctx.model.traits@[t as int].items_with_supertraits@,
                        ctx.model.traits@[t as int].items_with_supertraits@.len() as int,
                    ),
                    _ => Seq::empty(),
                }
            } else {
                Seq::empty()
            },
            Option::None => Seq::empty(),
        },
        _ => Seq::empty(),
    }
}

/// The unqualified branch: keywords always; in trait-bound position the
/// restricted scope and nothing else; otherwise the generic-argument-list
/// extras, where they apply, and then the whole scope through the filter.
pub open spec fn spec_unqualified(ctx: CompletionCtx) -> Seq<Candidate> {
    seq![Candidate::Keywords] + if ctx.location is TypeBound {
        spec_bound_upto(ctx.model.scope_names@, ctx.model.scope_names@.len() as int)
    } else {
        spec_genarg_extra(ctx) + spec_scope_upto(
            ctx.model.scope_names@,
            ctx.model.scope_names@.len() as int,
            ctx.spec_expects_generic_arg(),
            ctx.prev_token,
        )
    }
}

/// One branch of the qualified dispatch, keyed by the qualifier.
pub open spec fn spec_qualified(ctx: CompletionCtx, q: QualifierCtx) -> Seq<Candidate> {
    let ega = ctx.spec_expects_generic_arg();
    if q.is_infer {
        spec_infer_upto(ctx.model, ctx.model.traits_in_scope@, ctx.model.traits_in_scope@.len() as int, ega)
    } else {
        match q.resolution {
            Option::None => Seq::empty(),
            Option::Some(r) => match r {
                Resolution::Module(md) => spec_module_branch(ctx.model, md, ega, ctx.prev_token),
                Resolution::Adt(a) => spec_concrete_type(ctx.model, ctx.model.adts@[a as int].ty, ega),
                Resolution::TypeAlias(t) => spec_concrete_type(ctx.model, ctx.model.type_aliases@[t as int].ty, ega),
                Resolution::BuiltinType(b) => spec_concrete_type(ctx.model, ctx.model.builtins@[b as int].ty, ega),
                Resolution::Trait(t) => spec_assoc_list(ctx.model.traits@[t as int].items@, ega),
                Resolution::TypeParam(p) => spec_dedup_candidates(
                    ctx.model.types@[ctx.model.type_params@[p as int].ty as int].path_candidates@,
                    ega,
                ),
                Resolution::SelfType(i) => spec_dedup_candidates(
                    ctx.model.types@[ctx.model.impls@[i as int].self_ty as int].path_candidates@,
                    ega,
                ),
                Resolution::Other => Seq::empty(),
            },
        }
    }
}

/// Everything the path branch of a request is meant to deliver, unless it is
/// cancelled: nothing when the cursor is not in a type-position path; the
/// qualified dispatch when a qualifier is present; crate roots alone for an
/// absolute path; the unqualified branch otherwise.
pub open spec fn spec_type_path_candidates(ctx: CompletionCtx) -> Seq<Candidate> {
    match ctx.path {
        Option::None => Seq::empty(),
        Option::Some(p) => if p.kind != PathKind::Type {
            Seq::empty()
        } else {
            match p.qualifier {
                Option::Some(q) => spec_qualified(ctx, q),
                Option::None => if p.is_absolute {
                    seq![Candidate::CrateRoots]
                } else {
                    spec_unqualified(ctx)
                },
            }
        },
    }
}

// ---------------------------------------------------------------------------
// The executable engine.
// ---------------------------------------------------------------------------

/// The terminal filter every associated-item traversal shares: forward a
/// constant only inside a generic-argument list, a function never, a type
/// alias always.
pub fn add_assoc_item(acc: &mut Completions, expects_generic_arg: bool, item: AssocItem)
    ensures
        final(acc).items@ == old(acc).items@ + spec_assoc_one(item, expects_generic_arg),
        final(acc).cancel_in == old(acc).cancel_in,
        final(acc).cancelled == old(acc).cancelled,
{
    match item.kind {
        AssocKind::Constant => {
            if expects_generic_arg {
                acc.add_const(item.id);
            }
        },
        AssocKind::Function => {},
        AssocKind::TypeAlias => {
            acc.add_type_alias(item.id);
        },
    }
    proof {
        assert(acc.items@ =~= old(acc).items@ + spec_assoc_one(item, expects_generic_arg));
    }
}

/// Whether `x` is among the identities already seen.
fn contains_id(seen: &Vec<u64>, x: u64) -> (b: bool)
    ensures
        b == seen@.contains(x),
{
    let n = seen.len();
    let mut i: usize = 0;
    while i < n
        invariant
            i <= n,
            n == seen@.len(),
            forall|j: int| 0 <= j < i ==> seen@[j] != x,
        decreases n - i,
    {
        if seen[i] == x {
            proof {
                assert(seen@[i as int] == x);
            }
            return true;
        }
        i += 1;
    }
    false
}

/// The inferred-self branch: every trait in scope, every item of each, each
/// through the trait-item rule; a cancellation check precedes each trait's
/// enumeration.
fn complete_infer_marker(ctx: &CompletionCtx, acc: &mut Completions)
    requires
        ctx.wf(),
        !old(acc).cancelled,
    ensures
        !final(acc).cancelled ==> final(acc).items@ == old(acc).items@ + spec_infer_upto(
            ctx.model,
            ctx.model.traits_in_scope@,
            ctx.model.traits_in_scope@.len() as int,
            ctx.spec_expects_generic_arg(),
        ),
        old(acc).cancel_in is None ==> !final(acc).cancelled,
{
    let ega = ctx.expects_generic_arg();
    let ghost base = acc.items@;
    let ts = &ctx.model.traits_in_scope;
    let n = ts.len();
    let mut i: usize = 0;
    while i < n
        invariant
            ctx.wf(),
            i <= n,
            n == ts@.len(),
            ts@ == ctx.model.traits_in_scope@,
            ega == ctx.spec_expects_generic_arg(),
            !acc.cancelled,
            old(acc).cancel_in is None ==> acc.cancel_in is None,
            acc.items@ == base + spec_infer_upto(ctx.model, ts@, i as int, ega),
        decreases n - i,
    {
        if acc.check_cancelled() {
            return;
        }
        let t = ts[i];
        proof {
            assert(ts@[i as int] < ctx.model.traits@.len());
        }
        let items = &ctx.model.traits[t].items;
        let m = items.len();
        let mut j: usize = 0;
        while j < m
            invariant
                j <= m,
                m == items@.len(),
                items@ == ctx.model.traits@[ts@[i as int] as int].items@,
                i < n,
                n == ts@.len(),
                ts@ == ctx.model.traits_in_scope@,
                ega == ctx.spec_expects_generic_arg(),
                !acc.cancelled,
                old(acc).cancel_in is None ==> acc.cancel_in is None,
                acc.items@ == base + spec_infer_upto(ctx.model, ts@, i as int, ega)
                    + spec_assoc_upto(items@, j as int, ega),
            decreases m - j,
        {
            add_assoc_item(acc, ega, items[j]);
            proof {
                assert((base + spec_infer_upto(ctx.model, ts@, i as int, ega)
                    + spec_assoc_upto(items@, j as int, ega)) + spec_assoc_one(items@[j as int], ega)
                    =~= base + spec_infer_upto(ctx.model, ts@, i as int, ega)
                        + spec_assoc_upto(items@, j as int + 1, ega));
            }
            j += 1;
        }
        proof {
            assert(base + spec_infer_upto(ctx.model, ts@, i as int, ega)
                + spec_assoc_upto(items@, m as int, ega)
                =~= base + spec_infer_upto(ctx.model, ts@, i as int + 1, ega));
        }
        i += 1;
    }
}

/// The module-qualifier branch: shorthand candidates, then the module's
/// scope through the applicability filter, each behind a cancellation check.
fn complete_module_qualifier(ctx: &CompletionCtx, md: usize, acc: &mut Completions)
    requires
        ctx.wf(),
        md < ctx.model.modules@.len(),
        !old(acc).cancelled,
    ensures
        !final(acc).cancelled ==> final(acc).items@ == old(acc).items@ + spec_module_branch(
            ctx.model,
            md,
            ctx.spec_expects_generic_arg(),
            ctx.prev_token,
        ),
        old(acc).cancel_in is None ==> !final(acc).cancelled,
{
    if acc.check_cancelled() {
        return;
    }
    let ghost base = acc.items@;
    let shorthand = &ctx.model.modules[md].shorthand;
    let n = shorthand.len();
    let mut i: usize = 0;
    while i < n
        invariant
            i <= n,
            n == shorthand@.len(),
            shorthand@ == ctx.model.modules@[md as int].shorthand@,
            !acc.cancelled,
            old(acc).cancel_in is None ==> acc.cancel_in is None,
            acc.items@ == base + spec_shorthand_upto(shorthand@, i as int),
        decreases n - i,
    {
        acc.add_type_alias(shorthand[i].id);
        proof {
            assert((base + spec_shorthand_upto(shorthand@, i as int)).push(
                Candidate::TypeAlias { id: shorthand@[i as int].id },
            ) =~= base + spec_shorthand_upto(shorthand@, i as int + 1));
        }
        i += 1;
    }
    if acc.check_cancelled() {
        return;
    }
    let ega = ctx.expects_generic_arg();
    let scope = &ctx.model.modules[md].scope;
    let m = scope.len();
    let mut j: usize = 0;
    while j < m
        invariant
            j <= m,
            m == scope@.len(),
            scope@ == ctx.model.modules@[md as int].scope@,
            ega == ctx.spec_expects_generic_arg(),
            !acc.cancelled,
            old(acc).cancel_in is None ==> acc.cancel_in is None,
            acc.items@ == base + spec_shorthand_upto(
                ctx.model.modules@[md as int].shorthand@,
                ctx.model.modules@[md as int].shorthand@.len() as int,
            ) + spec_scope_upto(scope@, j as int, ega, ctx.prev_token),
        decreases m - j,
    {
        let entry = scope[j];
        if applicable(ctx, entry.entry) {
            acc.add_resolution(entry.name, entry.entry);
        }
        proof {
            let sh = spec_shorthand_upto(
                ctx.model.modules@[md as int].shorthand@,
                ctx.model.modules@[md as int].shorthand@.len() as int,
            );
            if spec_applicable(scope@[j as int].entry, ega, ctx.prev_token) {
                assert((base + sh + spec_scope_upto(scope@, j as int, ega, ctx.prev_token)).push(
                    Candidate::Resolution { name: scope@[j as int].name, entry: scope@[j as int].entry },
                ) =~= base + sh + spec_scope_upto(scope@, j as int + 1, ega, ctx.prev_token));
            }
        }
        j += 1;
    }
}

/// The concrete-type branch: the type's reachable path candidates through
/// the trait-item rule, then its associated type aliases enumerated
/// directly, each traversal behind a cancellation check.
fn complete_concrete_type(ctx: &CompletionCtx, ty: usize, acc: &mut Completions)
    requires
        ctx.wf(),
        ty < ctx.model.types@.len(),
        !old(acc).cancelled,
    ensures
        !final(acc).cancelled ==> final(acc).items@ == old(acc).items@ + spec_concrete_type(
            ctx.model,
            ty,
            ctx.spec_expects_generic_arg(),
        ),
        old(acc).cancel_in is None ==> !final(acc).cancelled,
{
    if acc.check_cancelled() {
        return;
    }
    let ghost base = acc.items@;
    let ega = ctx.expects_generic_arg();
    let cands = &ctx.model.types[ty].path_candidates;
    let n = cands.len();
    let mut i: usize = 0;
    while i < n
        invariant
            i <= n,
            n == cands@.len(),
            cands@ == ctx.model.types@[ty as int].path_candidates@,
            ega == ctx.spec_expects_generic_arg(),
            !acc.cancelled,
            old(acc).cancel_in is None ==> acc.cancel_in is None,
            acc.items@ == base + spec_assoc_upto(cands@, i as int, ega),
        decreases n - i,
    {
        add_assoc_item(acc, ega, cands[i]);
        proof {
            assert((base + spec_assoc_upto(cands@, i as int, ega)) + spec_assoc_one(cands@[i as int], ega)
                =~= base + spec_assoc_upto(cands@, i as int + 1, ega));
        }
        i += 1;
    }
    if acc.check_cancelled() {
        return;
    }
    let aliases = &ctx.model.types[ty].assoc_items;
    let m = aliases.len();
    let mut j: usize = 0;
    while j < m
        invariant
            j <= m,
            m == aliases@.len(),
            aliases@ == ctx.model.types@[ty as int].assoc_items@,
            !acc.cancelled,
            old(acc).cancel_in is None ==> acc.cancel_in is None,
            acc.items@ == base + spec_assoc_upto(
                ctx.model.types@[ty as int].path_candidates@,
                ctx.model.types@[ty as int].path_candidates@.len() as int,
                ega,
            ) + spec_alias_upto(aliases@, j as int),
            ega == ctx.spec_expects_generic_arg(),
        decreases m - j,
    {
        let item = aliases[j];
        if matches!(item.kind, AssocKind::TypeAlias) {
            acc.add_type_alias(item.id);
        }
        proof {
            let pc = spec_assoc_upto(
                ctx.model.types@[ty as int].path_candidates@,
                ctx.model.types@[ty as int].path_candidates@.len() as int,
                ega,
            );
            if aliases@[j as int].kind == AssocKind::TypeAlias {
                assert((base + pc + spec_alias_upto(aliases@, j as int)).push(
                    Candidate::TypeAlias { id: aliases@[j as int].id },
                ) =~= base + pc + spec_alias_upto(aliases@, j as int + 1));
            }
        }
        j += 1;
    }
}

/// The trait-qualifier branch: the trait's own associated items, supertraits
/// excluded, each through the trait-item rule, behind one cancellation check.
fn complete_trait_qualifier(ctx: &CompletionCtx, t: usize, acc: &mut Completions)
    requires
        ctx.wf(),
        t < ctx.model.traits@.len(),
        !old(acc).cancelled,
    ensures
        !final(acc).cancelled ==> final(acc).items@ == old(acc).items@ + spec_assoc_list(
            ctx.model.traits@[t as int].items@,
            ctx.spec_expects_generic_arg(),
        ),
        old(acc).cancel_in is None ==> !final(acc).cancelled,
{
    if acc.check_cancelled() {
        return;
    }
    let ghost base = acc.items@;
    let ega = ctx.expects_generic_arg();
    let items = &ctx.model.traits[t].items;
    let n = items.len();
    let mut i: usize = 0;
    while i < n
        invariant
            i <= n,
            n == items@.len(),
            items@ == ctx.model.traits@[t as int].items@,
            ega == ctx.spec_expects_generic_arg(),
            !acc.cancelled,
            old(acc).cancel_in is None ==> acc.cancel_in is None,
            acc.items@ == base + spec_assoc_upto(items@, i as int, ega),
        decreases n - i,
    {
        add_assoc_item(acc, ega, items[i]);
        proof {
            assert((base + spec_assoc_upto(items@, i as int, ega)) + spec_assoc_one(items@[i as int], ega)
                =~= base + spec_assoc_upto(items@, i as int + 1, ega));
        }
        i += 1;
    }
}

/// The type-parameter and `Self` branch: the bound type's reachable path
/// candidates, deduplicated by item identity, since several trait bounds can
/// reach the same item; one cancellation check precedes the traversal.
fn complete_bound_type(ctx: &CompletionCtx, ty: usize, acc: &mut Completions)
    requires
        ctx.wf(),
        ty < ctx.model.types@.len(),
        !old(acc).cancelled,
    ensures
        !final(acc).cancelled ==> final(acc).items@ == old(acc).items@ + spec_dedup_candidates(
            ctx.model.types@[ty as int].path_candidates@,
            ctx.spec_expects_generic_arg(),
        ),
        old(acc).cancel_in is None ==> !final(acc).cancelled,
{
    if acc.check_cancelled() {
        return;
    }
    let ghost base = acc.items@;
    let ega = ctx.expects_generic_arg();
    let items = &ctx.model.types[ty].path_candidates;
    let mut seen: Vec<u64> = Vec::new();
    let n = items.len();
    let mut i: usize = 0;
    while i < n
        invariant
            i <= n,
            n == items@.len(),
            items@ == ctx.model.types@[ty as int].path_candidates@,
            ega == ctx.spec_expects_generic_arg(),
            !acc.cancelled,
            old(acc).cancel_in is None ==> acc.cancel_in is None,
            acc.items@ == base + spec_dedup_upto(items@, i as int, ega),
            forall|x: u64| #[trigger] seen@.contains(x) <==> exists|j: int| 0 <= j < i && items@[j].id == x,
        decreases n - i,
    {
        let it = items[i];
        let ghost seen_before = seen@;
        if !contains_id(&seen, it.id) {
            seen.push(it.id);
            add_assoc_item(acc, ega, it);
            proof {
                assert(spec_first_sighting(items@, i as int));
                assert((base + spec_dedup_upto(items@, i as int, ega)) + spec_assoc_one(items@[i as int], ega)
                    =~= base + spec_dedup_upto(items@, i as int + 1, ega));
                assert forall|x: u64| #[trigger] seen@.contains(x)
                    <==> exists|j: int| 0 <= j < i + 1 && items@[j].id == x by {
                    assert(seen@ == seen_before.push(it.id));
                    if seen@.contains(x) {
                        let k = choose|k: int| 0 <= k < seen@.len() && seen@[k] == x;
                        if k < seen_before.len() {
                            assert(seen_before[k] == x);
                            assert(seen_before.contains(x));
                        } else {
                            assert(x == it.id);
                            assert(items@[i as int].id == x);
                        }
                    }
                    if exists|j: int| 0 <= j < i + 1 && items@[j].id == x {
                        let j = choose|j: int| 0 <= j < i + 1 && items@[j].id == x;
                        if j < i {
                            assert(seen_before.contains(x));
                            let k = choose|k: int| 0 <= k < seen_before.len() && seen_before[k] == x;
                            assert(seen@[k] == x);
                            assert(seen@.contains(x));
                        } else {
                            assert(seen@[seen_before.len() as int] == it.id);
                            assert(seen@.contains(x));
                        }
                    }
                }
            }
        } else {
            proof {
                assert(!spec_first_sighting(items@, i as int));
                assert forall|x: u64| #[trigger] seen@.contains(x)
                    <==> exists|j: int| 0 <= j < i + 1 && items@[j].id == x by {
                    if exists|j: int| 0 <= j < i + 1 && items@[j].id == x {
                        let j = choose|j: int| 0 <= j < i + 1 && items@[j].id == x;
                        if j == i {
                            assert(seen@.contains(items@[i as int].id));
                        }
                    }
                }
            }
        }
        i += 1;
    }
}

/// The unqualified branch: keyword suggestions always; in trait-bound
/// position the restricted scope and nothing further; otherwise the
/// generic-argument-list extras where they apply, then the whole scope
/// through the applicability filter.
fn complete_unqualified(ctx: &CompletionCtx, acc: &mut Completions)
    requires
        ctx.wf(),
        !old(acc).cancelled,
    ensures
        !final(acc).cancelled ==> final(acc).items@ == old(acc).items@ + spec_unqualified(*ctx),
        old(acc).cancel_in is None ==> !final(acc).cancelled,
{
    acc.add_keywords_with_colon();
    let ghost base = acc.items@;
    proof {
        assert(base =~= old(acc).items@ + seq![Candidate::Keywords]);
    }
    if matches!(ctx.location, ImmediateLocation::TypeBound) {
        if acc.check_cancelled() {
            return;
        }
        let names = &ctx.model.scope_names;
        let n = names.len();
        let mut i: usize = 0;
        while i < n
            invariant
                i <= n,
                n == names@.len(),
                names@ == ctx.model.scope_names@,
                !acc.cancelled,
                old(acc).cancel_in is None ==> acc.cancel_in is None,
                acc.items@ == base + spec_bound_upto(names@, i as int),
            decreases n - i,
        {
            let entry = names[i];
            let keep = match entry.entry {
                ScopeEntry::Macro { fn_like } => fn_like,
                ScopeEntry::Trait(_) | ScopeEntry::Module(_) => true,
                _ => false,
            };
            if keep {
                acc.add_resolution(entry.name, entry.entry);
            }
            proof {
                if spec_bound_allowed(names@[i as int].entry) {
                    assert((base + spec_bound_upto(names@, i as int)).push(
                        Candidate::Resolution { name: names@[i as int].name, entry: names@[i as int].entry },
                    ) =~= base + spec_bound_upto(names@, i as int + 1));
                }
            }
            i += 1;
        }
        proof {
            assert(acc.items@ =~= old(acc).items@ + spec_unqualified(*ctx));
        }
        return;
    }
    if let ImmediateLocation::GenericArgList(g) = ctx.location {
        if let Option::Some(s) = g.segment {
            if s.in_type_bound {
                let res = resolve_path(ctx, s.path);
                if let Option::Some(Resolution::Trait(t)) = res {
                    proof {
                        if (s.path as int) < ctx.model.path_resolutions@.len() {
                            assert(ctx.model.path_resolutions@[s.path as int] matches Some(r)
                                ==> ctx.model.res_wf(r));
                        }
                    }
                    if acc.check_cancelled() {
                        return;
                    }
                    let aliases = &ctx.model.traits[t].items_with_supertraits;
                    let n = aliases.len();
                    let mut i: usize = 0;
                    while i < n
                        invariant
                            i <= n,
                            n == aliases@.len(),
                            ctx.location matches ImmediateLocation::GenericArgList(g2) && g2 == g,
                            g.segment matches Some(s2) && s2 == s,
                            s.in_type_bound,
                            spec_resolve_path(ctx.model, s.path) == Option::Some(Resolution::Trait(t)),
                            aliases@ == ctx.model.traits@[t as int].items_with_supertraits@,
                            !acc.cancelled,
                            old(acc).cancel_in is None ==> acc.cancel_in is None,
                            acc.items@ == base + spec_eq_alias_upto(aliases@, i as int),
                        decreases n - i,
                    {
                        let item = aliases[i];
                        if matches!(item.kind, AssocKind::TypeAlias) {
                            acc.add_type_alias_with_eq(item.id);
                        }
                        proof {
                            if aliases@[i as int].kind == AssocKind::TypeAlias {
                                assert((base + spec_eq_alias_upto(aliases@, i as int)).push(
                                    Candidate::TypeAliasWithEq { id: aliases@[i as int].id },
                                ) =~= base + spec_eq_alias_upto(aliases@, i as int + 1));
                            }
                        }
                        i += 1;
                    }
                }
            }
        }
    }
    let ghost mid = acc.items@;
    proof {
        assert(mid =~= base + spec_genarg_extra(*ctx));
    }
    if acc.check_cancelled() {
        return;
    }
    let ega = ctx.expects_generic_arg();
    let names = &ctx.model.scope_names;
    let n = names.len();
    let mut i: usize = 0;
    while i < n
        invariant
            i <= n,
            n == names@.len(),
            names@ == ctx.model.scope_names@,
            ega == ctx.spec_expects_generic_arg(),
            !acc.cancelled,
            old(acc).cancel_in is None ==> acc.cancel_in is None,
            acc.items@ == mid + spec_scope_upto(names@, i as int, ega, ctx.prev_token),
        decreases n - i,
    {
        let entry = names[i];
        if applicable(ctx, entry.entry) {
            acc.add_resolution(entry.name, entry.entry);
        }
        proof {
            if spec_applicable(names@[i as int].entry, ega, ctx.prev_token) {
                assert((mid + spec_scope_upto(names@, i as int, ega, ctx.prev_token)).push(
                    Candidate::Resolution { name: names@[i as int].name, entry: names@[i as int].entry },
                ) =~= mid + spec_scope_upto(names@, i as int + 1, ega, ctx.prev_token));
            }
        }
        i += 1;
    }
    proof {
        assert(acc.items@ =~= old(acc).items@ + spec_unqualified(*ctx));
    }
}

/// What a recorded path resolves to; an unrecorded path resolves to nothing.
fn resolve_path(ctx: &CompletionCtx, p: usize) -> (r: Option<Resolution>)
    ensures
        r == spec_resolve_path(ctx.model, p),
        ctx.wf() ==> (r matches Some(res) ==> ctx.model.res_wf(res)),
{
    if p < ctx.model.path_resolutions.len() {
        ctx.model.path_resolutions[p]
    } else {
        Option::None
    }
}

/// The dispatcher: selects and runs exactly one branch for the path under
/// the cursor, and delivers either the branch's full candidate sequence or,
/// when a cancellation signal arrived at a boundary check, nothing at all.
pub fn complete_type_path(ctx: &CompletionCtx, acc: &mut Completions)
    requires
        ctx.wf(),
        !old(acc).cancelled,
    ensures
        final(acc).cancelled ==> final(acc).items@ == Seq::<Candidate>::empty(),
        !final(acc).cancelled ==> final(acc).items@ == old(acc).items@ + spec_type_path_candidates(*ctx),
        old(acc).cancel_in is None ==> !final(acc).cancelled,
{
    let p = match ctx.path {
        Option::Some(p) => p,
        Option::None => {
            proof {
                assert(acc.items@ =~= acc.items@ + Seq::<Candidate>::empty());
            }
            return;
        },
    };
    if !matches!(p.kind, PathKind::Type) {
        proof {
            assert(acc.items@ =~= acc.items@ + Seq::<Candidate>::empty());
        }
        return;
    }
    match p.qualifier {
        Option::Some(q) => {
            if q.is_infer {
                complete_infer_marker(ctx, acc);
            } else {
                match q.resolution {
                    Option::None => {
                        proof {
                            assert(acc.items@ =~= acc.items@ + Seq::<Candidate>::empty());
                        }
                    },
                    Option::Some(Resolution::Module(md)) => {
                        complete_module_qualifier(ctx, md, acc);
                    },
                    Option::Some(Resolution::Adt(a)) => {
                        let ty = ctx.model.adts[a].ty;
                        complete_concrete_type(ctx, ty, acc);
                    },
                    Option::Some(Resolution::TypeAlias(t)) => {
                        let ty = ctx.model.type_aliases[t].ty;
                        complete_concrete_type(ctx, ty, acc);
                    },
                    Option::Some(Resolution::BuiltinType(b)) => {
                        let ty = ctx.model.builtins[b].ty;
                        complete_concrete_type(ctx, ty, acc);
                    },
                    Option::Some(Resolution::Trait(t)) => {
                        complete_trait_qualifier(ctx, t, acc);
                    },
                    Option::Some(Resolution::TypeParam(tp)) => {
                        let ty = ctx.model.type_params[tp].ty;
                        complete_bound_type(ctx, ty, acc);
                    },
                    Option::Some(Resolution::SelfType(im)) => {
                        let ty = ctx.model.impls[im].self_ty;
                        complete_bound_type(ctx, ty, acc);
                    },
                    Option::Some(Resolution::Other) => {
                        proof {
                            assert(acc.items@ =~= acc.items@ + Seq::<Candidate>::empty());
                        }
                    },
                }
            }
        },
        Option::None => {
            if p.is_absolute {
                acc.add_crate_roots();
                proof {
                    assert(acc.items@ =~= old(acc).items@ + seq![Candidate::CrateRoots]);
                }
            } else {
                complete_unqualified(ctx, acc);
            }
        },
    }
    if acc.cancelled {
        acc.items = Vec::new();
        proof {
            assert(acc.items@ =~= Seq::<Candidate>::empty());
        }
    }
}

// ---------------------------------------------------------------------------
// Laws of the traversals.
// ---------------------------------------------------------------------------

/// The item identity a candidate carries, where it carries one.
pub open spec fn spec_cand_item_id(c: Candidate) -> Option<u64> {
    match c {
        Candidate::TypeAlias { id } => Option::Some(id),
        Candidate::TypeAliasWithEq { id } => Option::Some(id),
        Candidate::Constant { id } => Option::Some(id),
        _ => Option::None,
    }
}

/// Item identity determines the item: two sightings of one identity in the
/// list are sightings of one and the same item.
pub open spec fn spec_id_coherent(items: Seq<AssocItem>) -> bool {
    forall|a: int, b: int|
        0 <= a < items.len() && 0 <= b < items.len() && items[a].id == items[b].id
            ==> items[a] == items[b]
}

proof fn lemma_bound_upto_allowed(names: Seq<ScopedName>, n: int, i: int)
    requires
        0 <= i < spec_bound_upto(names, n).len(),
    ensures
        spec_bound_upto(names, n)[i] matches Candidate::Resolution { entry, .. }
            && spec_bound_allowed(entry),
    decreases n,
{
    if n <= 0 {
    } else if spec_bound_allowed(names[n - 1].entry) {
        if i < spec_bound_upto(names, n - 1).len() {
            lemma_bound_upto_allowed(names, n - 1, i);
        }
    } else {
        lemma_bound_upto_allowed(names, n - 1, i);
    }
}

/// In trait-bound position no entry other than a function-like macro, a
/// trait or a module is surfaced, whatever the applicability filter would
/// say of it elsewhere.
pub proof fn lemma_trait_bound_position_restricts(ctx: CompletionCtx, i: int)
    requires
        ctx.path matches Some(p) && p.kind == PathKind::Type && p.qualifier is None
            && !p.is_absolute,
        ctx.location is TypeBound,
        0 <= i < spec_type_path_candidates(ctx).len(),
        spec_type_path_candidates(ctx)[i] is Resolution,
    ensures
        spec_type_path_candidates(ctx)[i] matches Candidate::Resolution { entry, .. }
            && ((entry matches ScopeEntry::Macro { fn_like } && fn_like)
                || entry is Trait || entry is Module),
{
    let names = ctx.model.scope_names@;
    let s = spec_type_path_candidates(ctx);
    assert(s == seq![Candidate::Keywords] + spec_bound_upto(names, names.len() as int));
    if i == 0 {
        assert(s[0] == Candidate::Keywords);
    } else {
        assert(s[i] == spec_bound_upto(names, names.len() as int)[i - 1]);
        lemma_bound_upto_allowed(names, names.len() as int, i - 1);
    }
}

proof fn lemma_dedup_upto_ids(items: Seq<AssocItem>, n: int, ega: bool)
    requires
        0 <= n <= items.len(),
    ensures
        forall|k: int| 0 <= k < spec_dedup_upto(items, n, ega).len()
            ==> spec_cand_item_id(#[trigger] spec_dedup_upto(items, n, ega)[k]) is Some,
        forall|k: int| 0 <= k < spec_dedup_upto(items, n, ega).len()
            ==> exists|j: int| 0 <= j < n
                && spec_cand_item_id(#[trigger] spec_dedup_upto(items, n, ega)[k])
                    == Option::Some(items[j].id),
        forall|k1: int, k2: int|
            0 <= k1 < spec_dedup_upto(items, n, ega).len()
                && 0 <= k2 < spec_dedup_upto(items, n, ega).len() && k1 != k2
                ==> spec_cand_item_id(#[trigger] spec_dedup_upto(items, n, ega)[k1])
                    != spec_cand_item_id(#[trigger] spec_dedup_upto(items, n, ega)[k2]),
    decreases n,
{
    if n <= 0 {
    } else {
        lemma_dedup_upto_ids(items, n - 1, ega);
        let prev = spec_dedup_upto(items, n - 1, ega);
        let cur = spec_dedup_upto(items, n, ega);
        if spec_first_sighting(items, n - 1) {
            let one = spec_assoc_one(items[n - 1], ega);
            assert(cur == prev + one);
            assert forall|k: int| 0 <= k < cur.len() implies
                spec_cand_item_id(#[trigger] cur[k]) is Some
                && exists|j: int| 0 <= j < n && spec_cand_item_id(cur[k]) == Option::Some(items[j].id) by {
                if k < prev.len() {
                    assert(cur[k] == prev[k]);
                    let j = choose|j: int| 0 <= j < n - 1
                        && spec_cand_item_id(prev[k]) == Option::Some(items[j].id);
                    assert(0 <= j < n && spec_cand_item_id(cur[k]) == Option::Some(items[j].id));
                } else {
                    assert(cur[k] == one[k - prev.len()]);
                    assert(spec_cand_item_id(cur[k]) == Option::Some(items[n - 1].id));
                    assert(0 <= n - 1 < n && spec_cand_item_id(cur[k]) == Option::Some(items[n - 1].id));
                }
            }
            assert forall|k1: int, k2: int|
                0 <= k1 < cur.len() && 0 <= k2 < cur.len() && k1 != k2 implies
                spec_cand_item_id(#[trigger] cur[k1]) != spec_cand_item_id(#[trigger] cur[k2]) by {
                if k1 < prev.len() && k2 < prev.len() {
                    assert(cur[k1] == prev[k1] && cur[k2] == prev[k2]);
                } else {
                    let ko = if k1 < prev.len() { k1 } else { k2 };
                    let kn = if k1 < prev.len() { k2 } else { k1 };
                    assert(kn >= prev.len());
                    assert(ko < prev.len());
                    assert(spec_cand_item_id(cur[kn]) == Option::Some(items[n - 1].id));
                    let j = choose|j: int| 0 <= j < n - 1
                        && spec_cand_item_id(prev[ko]) == Option::Some(items[j].id);
                    assert(items[j].id != items[n - 1].id);
                }
            }
        } else {
            assert(cur == prev);
            assert forall|k: int| 0 <= k < cur.len() implies
                exists|j: int| 0 <= j < n && spec_cand_item_id(#[trigger] cur[k]) == Option::Some(items[j].id) by {
                let j = choose|j: int| 0 <= j < n - 1
                    && spec_cand_item_id(cur[k]) == Option::Some(items[j].id);
                assert(0 <= j < n && spec_cand_item_id(cur[k]) == Option::Some(items[j].id));
            }
        }
    }
}

/// A deduplicated traversal surfaces each associated item at most once: two
/// distinct positions of its output never carry the same item identity.
pub proof fn lemma_dedup_traversal_unique(items: Seq<AssocItem>, expects_generic_arg: bool, k1: int, k2: int)
    requires
        0 <= k1 < spec_dedup_candidates(items, expects_generic_arg).len(),
        0 <= k2 < spec_dedup_candidates(items, expects_generic_arg).len(),
        k1 != k2,
    ensures
        spec_cand_item_id(spec_dedup_candidates(items, expects_generic_arg)[k1])
            != spec_cand_item_id(spec_dedup_candidates(items, expects_generic_arg)[k2]),
{
    lemma_dedup_upto_ids(items, items.len() as int, expects_generic_arg);
}

proof fn lemma_dedup_upto_surfaces_alias(items: Seq<AssocItem>, n: int, ega: bool, x: u64)
    requires
        0 <= n <= items.len(),
        spec_id_coherent(items),
        exists|j: int| 0 <= j < n && items[j].id == x && items[j].kind == AssocKind::TypeAlias,
    ensures
        spec_dedup_upto(items, n, ega).contains(Candidate::TypeAlias { id: x }),
    decreases n,
{
    let prev = spec_dedup_upto(items, n - 1, ega);
    let cur = spec_dedup_upto(items, n, ega);
    if items[n - 1].id == x {
        if spec_first_sighting(items, n - 1) {
            assert(items[n - 1].kind == AssocKind::TypeAlias) by {
                let j = choose|j: int| 0 <= j < n && items[j].id == x
                    && items[j].kind == AssocKind::TypeAlias;
                assert(items[j] == items[n - 1]);
            }
            let one = spec_assoc_one(items[n - 1], ega);
            assert(cur == prev + one);
            assert(cur[prev.len() as int] == Candidate::TypeAlias { id: x });
            assert(cur.contains(Candidate::TypeAlias { id: x }));
        } else {
            let j0 = choose|j: int| 0 <= j < n - 1 && (#[trigger] items[j].id) == items[n - 1].id;
            assert(items[j0] == items[n - 1]);
            assert(0 <= j0 < n - 1 && items[j0].id == x && items[j0].kind == AssocKind::TypeAlias);
            lemma_dedup_upto_surfaces_alias(items, n - 1, ega, x);
            lemma_dedup_contains_step(items, n, ega, Candidate::TypeAlias { id: x });
        }
    } else {
        let j = choose|j: int| 0 <= j < n && items[j].id == x && items[j].kind == AssocKind::TypeAlias;
        assert(0 <= j < n - 1 && items[j].id == x && items[j].kind == AssocKind::TypeAlias);
        lemma_dedup_upto_surfaces_alias(items, n - 1, ega, x);
        lemma_dedup_contains_step(items, n, ega, Candidate::TypeAlias { id: x });
    }
}

proof fn lemma_dedup_contains_step(items: Seq<AssocItem>, n: int, ega: bool, c: Candidate)
    requires
        0 < n,
        spec_dedup_upto(items, n - 1, ega).contains(c),
    ensures
        spec_dedup_upto(items, n, ega).contains(c),
{
    let prev = spec_dedup_upto(items, n - 1, ega);
    let cur = spec_dedup_upto(items, n, ega);
    let k = choose|k: int| 0 <= k < prev.len() && prev[k] == c;
    if spec_first_sighting(items, n - 1) {
        assert(cur[k] == c);
    } else {
        assert(cur[k] == c);
    }
    assert(cur.contains(c));
}

/// A deduplicated traversal surfaces an associated type alias at least once:
/// wherever the list sights it, one `TypeAlias` candidate with its identity
/// comes out, provided identity determines the item.  Together with
/// [`lemma_dedup_traversal_unique`] this makes it exactly once, even when two
/// trait bounds reach the same item through a shared supertrait and the list
/// sights it twice.
pub proof fn lemma_dedup_traversal_surfaces_alias(items: Seq<AssocItem>, expects_generic_arg: bool, k: int)
    requires
        spec_id_coherent(items),
        0 <= k < items.len(),
        items[k].kind == AssocKind::TypeAlias,
    ensures
        spec_dedup_candidates(items, expects_generic_arg).contains(
            Candidate::TypeAlias { id: items[k].id },
        ),
{
    lemma_dedup_upto_surfaces_alias(items, items.len() as int, expects_generic_arg, items[k].id);
}

/// The type-parameter branch is exactly the deduplicated traversal of the
/// parameter's bound type, so the two lemmas above speak of its output.
pub proof fn lemma_type_param_branch_is_dedup(ctx: CompletionCtx, q: QualifierCtx, p: usize)
    requires
        ctx.path matches Some(pc) && pc.kind == PathKind::Type && pc.qualifier == Some(q),
        !q.is_infer,
        q.resolution == Some(Resolution::TypeParam(p)),
    ensures
        spec_type_path_candidates(ctx) == spec_dedup_candidates(
            ctx.model.types@[ctx.model.type_params@[p as int].ty as int].path_candidates@,
            ctx.spec_expects_generic_arg(),
        ),
{
}

} // verus!
