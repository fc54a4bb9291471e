//! The qualifier resolver, branch by branch: associated-item traversal,
//! deduplication, the trait-bound restriction, and cancellation.

use type_completion::context::{
    CompletionCtx, GenericArgsCtx, ImmediateLocation, PathCtx, PathKind, PrevToken, QualifierCtx,
    SegmentCtx,
};
use type_completion::model::{
    AdtData, AssocItem, AssocKind, BuiltinData, ImplData, Model, ModuleData, Resolution,
    ScopeEntry, ScopedName, TraitData, TypeAliasData, TypeData, TypeParamData,
};
use type_completion::resolver::complete_type_path;
use type_completion::sink::{Candidate, Completions};

fn blank_model() -> Model {
    Model {
        types: vec![],
        modules: vec![],
        adts: vec![],
        type_aliases: vec![],
        builtins: vec![],
        traits: vec![],
        type_params: vec![],
        impls: vec![],
        traits_in_scope: vec![],
        scope_names: vec![],
        pat_types: vec![],
        expr_types: vec![],
        path_resolutions: vec![],
        renders: vec![],
    }
}

fn alias(id: u64) -> AssocItem {
    AssocItem { id, kind: AssocKind::TypeAlias }
}

fn constant(id: u64) -> AssocItem {
    AssocItem { id, kind: AssocKind::Constant }
}

fn function(id: u64) -> AssocItem {
    AssocItem { id, kind: AssocKind::Function }
}

fn type_path_ctx(model: Model, qualifier: Option<QualifierCtx>) -> CompletionCtx {
    CompletionCtx {
        model,
        module: 0,
        prev_token: PrevToken::Other,
        location: ImmediateLocation::Other,
        path: Some(PathCtx { kind: PathKind::Type, is_absolute: false, qualifier }),
    }
}

fn resolved(r: Resolution) -> Option<QualifierCtx> {
    Some(QualifierCtx { is_infer: false, resolution: Some(r) })
}

fn run(ctx: &CompletionCtx) -> Vec<Candidate> {
    let mut acc = Completions::new(None);
    complete_type_path(ctx, &mut acc);
    assert!(!acc.cancelled);
    acc.items
}

#[test]
fn no_path_context_emits_nothing() {
    let mut ctx = type_path_ctx(blank_model(), None);
    ctx.path = None;
    assert_eq!(run(&ctx), vec![]);
}

#[test]
fn non_type_path_emits_nothing() {
    let mut ctx = type_path_ctx(blank_model(), None);
    ctx.path = Some(PathCtx { kind: PathKind::Other, is_absolute: false, qualifier: None });
    assert_eq!(run(&ctx), vec![]);
}

#[test]
fn unresolved_qualifier_emits_nothing() {
    let ctx = type_path_ctx(
        blank_model(),
        Some(QualifierCtx { is_infer: false, resolution: None }),
    );
    assert_eq!(run(&ctx), vec![]);
}

#[test]
fn other_resolution_emits_nothing() {
    let ctx = type_path_ctx(blank_model(), resolved(Resolution::Other));
    assert_eq!(run(&ctx), vec![]);
}

#[test]
fn absolute_path_surfaces_crate_roots_only() {
    let mut ctx = type_path_ctx(blank_model(), None);
    ctx.path = Some(PathCtx { kind: PathKind::Type, is_absolute: true, qualifier: None });
    assert_eq!(run(&ctx), vec![Candidate::CrateRoots]);
}

#[test]
fn infer_marker_walks_all_traits_without_dedup() {
    // Two traits in scope declare the same alias: the inferred-self branch
    // keeps both sightings, as it runs without deduplication.
    let mut model = blank_model();
    model.traits = vec![
        TraitData {
            items: vec![alias(1), function(2), constant(3)],
            items_with_supertraits: vec![],
        },
        TraitData { items: vec![alias(1)], items_with_supertraits: vec![] },
    ];
    model.traits_in_scope = vec![0, 1];
    let ctx = type_path_ctx(
        model,
        Some(QualifierCtx { is_infer: true, resolution: None }),
    );
    assert_eq!(
        run(&ctx),
        vec![Candidate::TypeAlias { id: 1 }, Candidate::TypeAlias { id: 1 }]
    );
}

#[test]
fn trait_qualifier_filters_items() {
    let mut model = blank_model();
    model.traits = vec![TraitData {
        items: vec![alias(1), function(2), constant(3)],
        items_with_supertraits: vec![],
    }];
    let ctx = type_path_ctx(model, resolved(Resolution::Trait(0)));
    // Outside a generic-argument list the constant is withheld.
    assert_eq!(run(&ctx), vec![Candidate::TypeAlias { id: 1 }]);
}

#[test]
fn trait_qualifier_surfaces_constants_in_generic_args() {
    let mut model = blank_model();
    model.traits = vec![TraitData {
        items: vec![alias(1), function(2), constant(3)],
        items_with_supertraits: vec![],
    }];
    let mut ctx = type_path_ctx(model, resolved(Resolution::Trait(0)));
    ctx.location = ImmediateLocation::GenericArgList(GenericArgsCtx { segment: None });
    assert_eq!(
        run(&ctx),
        vec![Candidate::TypeAlias { id: 1 }, Candidate::Constant { id: 3 }]
    );
}

#[test]
fn adt_qualifier_runs_both_passes() {
    // First the path candidates through the trait-item rule, then the
    // directly enumerated associated type aliases.
    let mut model = blank_model();
    model.types = vec![TypeData {
        adjusted: 0,
        as_adt: Some(0),
        path_candidates: vec![alias(5), constant(6), function(7)],
        assoc_items: vec![alias(8), constant(9)],
    }];
    model.adts = vec![AdtData { ty: 0, module: 0 }];
    model.modules = vec![ModuleData { scope: vec![], shorthand: vec![] }];
    let ctx = type_path_ctx(model, resolved(Resolution::Adt(0)));
    assert_eq!(
        run(&ctx),
        vec![Candidate::TypeAlias { id: 5 }, Candidate::TypeAlias { id: 8 }]
    );
}

#[test]
fn builtin_qualifier_uses_the_denoted_type() {
    let mut model = blank_model();
    model.types = vec![TypeData {
        adjusted: 0,
        as_adt: None,
        path_candidates: vec![alias(5)],
        assoc_items: vec![],
    }];
    model.builtins = vec![BuiltinData { ty: 0 }];
    let ctx = type_path_ctx(model, resolved(Resolution::BuiltinType(0)));
    assert_eq!(run(&ctx), vec![Candidate::TypeAlias { id: 5 }]);
}

#[test]
fn module_qualifier_surfaces_shorthand_then_scope() {
    let mut model = blank_model();
    model.modules = vec![ModuleData {
        scope: vec![
            ScopedName { name: 1, entry: ScopeEntry::Adt(0) },
            ScopedName { name: 2, entry: ScopeEntry::Function },
        ],
        shorthand: vec![alias(9)],
    }];
    model.adts = vec![AdtData { ty: 0, module: 0 }];
    model.types = vec![TypeData {
        adjusted: 0,
        as_adt: Some(0),
        path_candidates: vec![],
        assoc_items: vec![],
    }];
    let ctx = type_path_ctx(model, resolved(Resolution::Module(0)));
    assert_eq!(
        run(&ctx),
        vec![
            Candidate::TypeAlias { id: 9 },
            Candidate::Resolution { name: 1, entry: ScopeEntry::Adt(0) },
        ]
    );
}

#[test]
fn type_param_traversal_deduplicates_by_identity() {
    // Two trait bounds reach the same alias through a shared supertrait: the
    // list sights identity 5 three times, the traversal yields it once.
    let mut model = blank_model();
    model.types = vec![TypeData {
        adjusted: 0,
        as_adt: None,
        path_candidates: vec![alias(5), alias(5), constant(6), alias(5), alias(7)],
        assoc_items: vec![],
    }];
    model.type_params = vec![TypeParamData { ty: 0 }];
    let ctx = type_path_ctx(model, resolved(Resolution::TypeParam(0)));
    assert_eq!(
        run(&ctx),
        vec![Candidate::TypeAlias { id: 5 }, Candidate::TypeAlias { id: 7 }]
    );
}

#[test]
fn self_type_traversal_deduplicates_by_identity() {
    let mut model = blank_model();
    model.types = vec![TypeData {
        adjusted: 0,
        as_adt: None,
        path_candidates: vec![alias(5), alias(5)],
        assoc_items: vec![],
    }];
    model.impls = vec![ImplData { self_ty: 0 }];
    let ctx = type_path_ctx(model, resolved(Resolution::SelfType(0)));
    assert_eq!(run(&ctx), vec![Candidate::TypeAlias { id: 5 }]);
}

#[test]
fn trait_bound_position_restricts_to_macros_traits_modules() {
    // Inside `: Bound`, every filtering rule but the restriction is ignored,
    // and nothing further runs after the restricted enumeration.
    let mut model = blank_model();
    model.scope_names = vec![
        ScopedName { name: 1, entry: ScopeEntry::Macro { fn_like: true } },
        ScopedName { name: 2, entry: ScopeEntry::Macro { fn_like: false } },
        ScopedName { name: 3, entry: ScopeEntry::Trait(0) },
        ScopedName { name: 4, entry: ScopeEntry::Module(0) },
        ScopedName { name: 5, entry: ScopeEntry::Adt(0) },
        ScopedName { name: 6, entry: ScopeEntry::Local },
    ];
    let mut ctx = type_path_ctx(model, None);
    ctx.location = ImmediateLocation::TypeBound;
    assert_eq!(
        run(&ctx),
        vec![
            Candidate::Keywords,
            Candidate::Resolution { name: 1, entry: ScopeEntry::Macro { fn_like: true } },
            Candidate::Resolution { name: 3, entry: ScopeEntry::Trait(0) },
            Candidate::Resolution { name: 4, entry: ScopeEntry::Module(0) },
        ]
    );
}

#[test]
fn generic_args_of_a_bound_trait_offer_aliases_with_eq() {
    // Completing inside `T: Trait<...>`: the bound's trait contributes its
    // associated type aliases, supertraits included, each expecting `=`;
    // then the ordinary scope pass runs additively.
    let mut model = blank_model();
    model.traits = vec![TraitData {
        items: vec![],
        items_with_supertraits: vec![alias(5), function(6), alias(7)],
    }];
    model.path_resolutions = vec![Some(Resolution::Trait(0))];
    model.scope_names = vec![ScopedName { name: 9, entry: ScopeEntry::Constant }];
    let mut ctx = type_path_ctx(model, None);
    ctx.location = ImmediateLocation::GenericArgList(GenericArgsCtx {
        segment: Some(SegmentCtx { in_type_bound: true, path: 0 }),
    });
    assert_eq!(
        run(&ctx),
        vec![
            Candidate::Keywords,
            Candidate::TypeAliasWithEq { id: 5 },
            Candidate::TypeAliasWithEq { id: 7 },
            // inside a generic-argument list the constant passes the filter
            Candidate::Resolution { name: 9, entry: ScopeEntry::Constant },
        ]
    );
}

#[test]
fn generic_args_outside_a_bound_skip_the_eq_aliases() {
    let mut model = blank_model();
    model.traits = vec![TraitData {
        items: vec![],
        items_with_supertraits: vec![alias(5)],
    }];
    model.path_resolutions = vec![Some(Resolution::Trait(0))];
    let mut ctx = type_path_ctx(model, None);
    ctx.location = ImmediateLocation::GenericArgList(GenericArgsCtx {
        segment: Some(SegmentCtx { in_type_bound: false, path: 0 }),
    });
    assert_eq!(run(&ctx), vec![Candidate::Keywords]);
}

#[test]
fn unqualified_scope_passes_the_filter() {
    let mut model = blank_model();
    model.scope_names = vec![
        ScopedName { name: 1, entry: ScopeEntry::Adt(0) },
        ScopedName { name: 2, entry: ScopeEntry::Local },
        ScopedName { name: 3, entry: ScopeEntry::Unknown },
    ];
    let ctx = type_path_ctx(model, None);
    assert_eq!(
        run(&ctx),
        vec![
            Candidate::Keywords,
            Candidate::Resolution { name: 1, entry: ScopeEntry::Adt(0) },
            Candidate::Resolution { name: 3, entry: ScopeEntry::Unknown },
        ]
    );
}

#[test]
fn cancellation_at_the_first_boundary_delivers_nothing() {
    let mut model = blank_model();
    model.modules = vec![ModuleData {
        scope: vec![ScopedName { name: 1, entry: ScopeEntry::Unknown }],
        shorthand: vec![alias(9)],
    }];
    let ctx = type_path_ctx(model, resolved(Resolution::Module(0)));
    let mut acc = Completions::new(Some(0));
    complete_type_path(&ctx, &mut acc);
    assert!(acc.cancelled);
    assert_eq!(acc.items, vec![]);
}

#[test]
fn cancellation_between_traversals_discards_partial_results() {
    // The signal arrives at the second boundary check: the shorthand pass
    // has already emitted, and everything is discarded.
    let mut model = blank_model();
    model.modules = vec![ModuleData {
        scope: vec![ScopedName { name: 1, entry: ScopeEntry::Unknown }],
        shorthand: vec![alias(9)],
    }];
    let ctx = type_path_ctx(model, resolved(Resolution::Module(0)));
    let mut acc = Completions::new(Some(1));
    complete_type_path(&ctx, &mut acc);
    assert!(acc.cancelled);
    assert_eq!(acc.items, vec![]);
}

#[test]
fn a_late_signal_never_fires() {
    let mut model = blank_model();
    model.modules = vec![ModuleData {
        scope: vec![ScopedName { name: 1, entry: ScopeEntry::Unknown }],
        shorthand: vec![],
    }];
    let ctx = type_path_ctx(model, resolved(Resolution::Module(0)));
    let mut acc = Completions::new(Some(7));
    complete_type_path(&ctx, &mut acc);
    assert!(!acc.cancelled);
    assert_eq!(
        acc.items,
        vec![Candidate::Resolution { name: 1, entry: ScopeEntry::Unknown }]
    );
}

#[test]
fn cancellation_mid_trait_walk_discards_the_first_trait() {
    // Two traits in scope; the signal arrives at the second trait's boundary
    // check, after the first trait already contributed.
    let mut model = blank_model();
    model.traits = vec![
        TraitData { items: vec![alias(1)], items_with_supertraits: vec![] },
        TraitData { items: vec![alias(2)], items_with_supertraits: vec![] },
    ];
    model.traits_in_scope = vec![0, 1];
    let ctx = type_path_ctx(
        model,
        Some(QualifierCtx { is_infer: true, resolution: None }),
    );
    let mut acc = Completions::new(Some(1));
    complete_type_path(&ctx, &mut acc);
    assert!(acc.cancelled);
    assert_eq!(acc.items, vec![]);
}

#[test]
fn type_alias_qualifier_uses_the_denoted_type() {
    let mut model = blank_model();
    model.types = vec![TypeData {
        adjusted: 0,
        as_adt: None,
        path_candidates: vec![constant(4), alias(5)],
        assoc_items: vec![constant(6)],
    }];
    model.type_aliases = vec![TypeAliasData { ty: 0 }];
    let ctx = type_path_ctx(model, resolved(Resolution::TypeAlias(0)));
    assert_eq!(run(&ctx), vec![Candidate::TypeAlias { id: 5 }]);
}
