//! End-to-end requests over small semantic models: the inferred-type
//! suggestion and its interplay with path qualifiers.

use type_completion::context::{
    CompletionCtx, ImmediateLocation, PathCtx, PathKind, PrevToken, QualifierCtx, TypeAnnotation,
};
use type_completion::model::{
    AdtData, BuiltinData, Model, ModuleData, RenderEntry, Resolution, ScopeEntry, ScopedName,
    TypeData,
};
use type_completion::inference::complete_inferred_type;
use type_completion::resolver::complete_type_path;
use type_completion::sink::{Candidate, Completions};

fn bare_model() -> Model {
    Model {
        types: vec![],
        modules: vec![],
        adts: vec![],
        type_aliases: vec![],
        builtins: vec![],
        traits: vec![],
        type_params: vec![],
        impls: vec![],
        traits_in_scope: vec![],
        scope_names: vec![],
        pat_types: vec![],
        expr_types: vec![],
        path_resolutions: vec![],
        renders: vec![],
    }
}

// A model for: a root module (0) holding a module `m` (1), which owns a
// struct `MyStruct` (adt 0, type 0).  Name handles: 0 = m, 1 = MyStruct,
// 2 = u32, 3 = f; render handle 10 = the text `MyStruct`.
fn my_struct_model() -> Model {
    let mut m = bare_model();
    m.types = vec![
        TypeData { adjusted: 0, as_adt: Some(0), path_candidates: vec![], assoc_items: vec![] },
        // the builtin u32
        TypeData { adjusted: 1, as_adt: None, path_candidates: vec![], assoc_items: vec![] },
        // the integer type of a body that does not build MyStruct
        TypeData { adjusted: 2, as_adt: None, path_candidates: vec![], assoc_items: vec![] },
    ];
    m.modules = vec![
        ModuleData { scope: vec![], shorthand: vec![] },
        ModuleData {
            scope: vec![ScopedName { name: 1, entry: ScopeEntry::Adt(0) }],
            shorthand: vec![],
        },
    ];
    m.adts = vec![AdtData { ty: 0, module: 1 }];
    m.builtins = vec![BuiltinData { ty: 1 }];
    m.renders = vec![
        RenderEntry { ty: 0, module: 0, text: 10 },
        RenderEntry { ty: 0, module: 1, text: 10 },
    ];
    m
}

#[test]
fn does_not_infer_type_in_absolute_path() {
    // fn f() -> ::$0 { }
    let model = bare_model();
    let ctx = CompletionCtx {
        model,
        module: 0,
        prev_token: PrevToken::Other,
        location: ImmediateLocation::TypeAnnotation(TypeAnnotation::RetType(None)),
        path: Some(PathCtx { kind: PathKind::Type, is_absolute: true, qualifier: None }),
    };
    let mut acc = Completions::new(None);
    complete_type_path(&ctx, &mut acc);
    complete_inferred_type(&ctx, &mut acc);
    assert!(!acc.items.iter().any(|c| matches!(c, Candidate::InferredType { .. })));
    assert_eq!(acc.items, vec![Candidate::CrateRoots]);
}

#[test]
fn completes_inferred_type() {
    // mod m { pub struct MyStruct {} }
    // use m::MyStruct;
    // fn f() -> My$0 { MyStruct {} }
    let mut model = my_struct_model();
    model.scope_names = vec![
        ScopedName { name: 0, entry: ScopeEntry::Module(1) },
        ScopedName { name: 1, entry: ScopeEntry::Adt(0) },
        ScopedName { name: 2, entry: ScopeEntry::BuiltinType(0) },
        ScopedName { name: 3, entry: ScopeEntry::Function },
    ];
    model.expr_types = vec![Some(0)];
    let ctx = CompletionCtx {
        model,
        module: 0,
        prev_token: PrevToken::Other,
        location: ImmediateLocation::TypeAnnotation(TypeAnnotation::RetType(Some(0))),
        path: Some(PathCtx { kind: PathKind::Type, is_absolute: false, qualifier: None }),
    };
    let mut acc = Completions::new(None);
    complete_type_path(&ctx, &mut acc);
    complete_inferred_type(&ctx, &mut acc);
    assert_eq!(
        acc.items,
        vec![
            Candidate::Keywords,
            Candidate::Resolution { name: 0, entry: ScopeEntry::Module(1) },
            Candidate::Resolution { name: 1, entry: ScopeEntry::Adt(0) },
            Candidate::Resolution { name: 2, entry: ScopeEntry::BuiltinType(0) },
            Candidate::InferredType { text: 10 },
        ]
    );
}

#[test]
fn does_not_complete_inferred_type_in_different_qualified_path() {
    // mod m { pub struct MyStruct {} }
    // fn f() -> m::My$0 { 1 }
    let mut model = my_struct_model();
    model.expr_types = vec![Some(2)];
    let ctx = CompletionCtx {
        model,
        module: 0,
        prev_token: PrevToken::Other,
        location: ImmediateLocation::TypeAnnotation(TypeAnnotation::RetType(Some(0))),
        path: Some(PathCtx {
            kind: PathKind::Type,
            is_absolute: false,
            qualifier: Some(QualifierCtx {
                is_infer: false,
                resolution: Some(Resolution::Module(1)),
            }),
        }),
    };
    let mut acc = Completions::new(None);
    complete_type_path(&ctx, &mut acc);
    complete_inferred_type(&ctx, &mut acc);
    assert_eq!(
        acc.items,
        vec![Candidate::Resolution { name: 1, entry: ScopeEntry::Adt(0) }]
    );
}

#[test]
fn completes_inferred_type_in_same_qualified_path() {
    // mod m { pub struct MyStruct {} }
    // fn f() -> m::My$0 { m::MyStruct {} }
    let mut model = my_struct_model();
    model.expr_types = vec![Some(0)];
    let ctx = CompletionCtx {
        model,
        module: 0,
        prev_token: PrevToken::Other,
        location: ImmediateLocation::TypeAnnotation(TypeAnnotation::RetType(Some(0))),
        path: Some(PathCtx {
            kind: PathKind::Type,
            is_absolute: false,
            qualifier: Some(QualifierCtx {
                is_infer: false,
                resolution: Some(Resolution::Module(1)),
            }),
        }),
    };
    let mut acc = Completions::new(None);
    complete_type_path(&ctx, &mut acc);
    complete_inferred_type(&ctx, &mut acc);
    assert_eq!(
        acc.items,
        vec![
            Candidate::Resolution { name: 1, entry: ScopeEntry::Adt(0) },
            Candidate::InferredType { text: 10 },
        ]
    );
}

#[test]
fn no_inference_without_an_inferred_type() {
    // A return-type annotation whose body expression the model has no type
    // for contributes nothing.
    let mut model = my_struct_model();
    model.expr_types = vec![None];
    let ctx = CompletionCtx {
        model,
        module: 0,
        prev_token: PrevToken::Other,
        location: ImmediateLocation::TypeAnnotation(TypeAnnotation::RetType(Some(0))),
        path: None,
    };
    let mut acc = Completions::new(None);
    complete_inferred_type(&ctx, &mut acc);
    assert_eq!(acc.items, vec![]);
}

#[test]
fn no_inference_when_type_cannot_be_rendered() {
    // The inferred type misses from the render table: soft failure, nothing
    // emitted.
    let mut model = my_struct_model();
    model.expr_types = vec![Some(0)];
    model.renders = vec![];
    let ctx = CompletionCtx {
        model,
        module: 0,
        prev_token: PrevToken::Other,
        location: ImmediateLocation::TypeAnnotation(TypeAnnotation::RetType(Some(0))),
        path: None,
    };
    let mut acc = Completions::new(None);
    complete_inferred_type(&ctx, &mut acc);
    assert_eq!(acc.items, vec![]);
}

#[test]
fn inference_works_at_const_and_param_annotations() {
    // A const initializer's expected type and a parameter pattern's type
    // reach the same suggestion as the other annotation shapes.
    let mut model = my_struct_model();
    model.expr_types = vec![Some(0)];
    model.pat_types = vec![Some(0)];
    let mut ctx = CompletionCtx {
        model,
        module: 0,
        prev_token: PrevToken::Other,
        location: ImmediateLocation::TypeAnnotation(TypeAnnotation::Const(Some(0))),
        path: None,
    };
    let mut acc = Completions::new(None);
    complete_inferred_type(&ctx, &mut acc);
    assert_eq!(acc.items, vec![Candidate::InferredType { text: 10 }]);

    ctx.location = ImmediateLocation::TypeAnnotation(TypeAnnotation::FnParam(Some(0)));
    let mut acc = Completions::new(None);
    complete_inferred_type(&ctx, &mut acc);
    assert_eq!(acc.items, vec![Candidate::InferredType { text: 10 }]);
}

#[test]
fn no_inference_outside_a_type_annotation() {
    let mut model = my_struct_model();
    model.expr_types = vec![Some(0)];
    let ctx = CompletionCtx {
        model,
        module: 0,
        prev_token: PrevToken::Other,
        location: ImmediateLocation::Other,
        path: None,
    };
    let mut acc = Completions::new(None);
    complete_inferred_type(&ctx, &mut acc);
    assert_eq!(acc.items, vec![]);
}

#[test]
fn inference_adjusts_the_looked_up_type() {
    // The pattern's type 2 adjusts to type 0; the suggestion spells the
    // adjusted type.
    let mut model = my_struct_model();
    model.types[2].adjusted = 0;
    model.pat_types = vec![Some(2)];
    let ctx = CompletionCtx {
        model,
        module: 0,
        prev_token: PrevToken::Other,
        location: ImmediateLocation::TypeAnnotation(TypeAnnotation::Let(Some(0))),
        path: None,
    };
    let mut acc = Completions::new(None);
    complete_inferred_type(&ctx, &mut acc);
    assert_eq!(acc.items, vec![Candidate::InferredType { text: 10 }]);
}
