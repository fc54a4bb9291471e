//! The inferred-type suggester: an independent flow that, at an omitted type
//! annotation, asks the semantic model for the inferred type of the annotated
//! pattern or expression and, if that type renders as source text, emits one
//! suggestion spelling it out.
//!
//! Every failure along the way is soft: an absolute path, a missing type, a
//! qualifier naming a different module than the type's owner, or a type that
//! cannot be rendered each end the flow with no suggestion and no error.

use vstd::prelude::*;

use crate::context::{CompletionCtx, ImmediateLocation, TypeAnnotation};
use crate::model::{Model, RenderEntry, Resolution};
use crate::sink::{Candidate, Completions};

verus! {

/// The inferred type recorded for the annotation site, before adjustment:
/// for a pattern-based annotation the pattern's type, for an
/// expression-based one the expression's type.
pub open spec fn spec_annotation_type(ctx: CompletionCtx) -> Option<usize> {
    match ctx.location {
        ImmediateLocation::TypeAnnotation(ann) => match ann {
            TypeAnnotation::Let(op) | TypeAnnotation::FnParam(op) => match op {
                Option::Some(p) => if p < ctx.model.pat_types@.len() {
                    ctx.model.pat_types@[p as int]
                } else {
                    Option::None
                },
                Option::None => Option::None,
            },
            TypeAnnotation::Const(oe) | TypeAnnotation::RetType(oe) => match oe {
                Option::Some(e) => if e < ctx.model.expr_types@.len() {
                    ctx.model.expr_types@[e as int]
                } else {
                    Option::None
                },
                Option::None => Option::None,
            },
        },
        _ => Option::None,
    }
}

/// The module the suggestion is rendered relative to.  A qualifier resolved
/// to a module demands that the inferred type be an algebraic data type owned
/// by exactly that module; any other qualifier shape falls back to the
/// current module.
pub open spec fn spec_qualified_module(ctx: CompletionCtx, ty: usize) -> Option<usize> {
    match ctx.path {
        Option::Some(p) => match p.qualifier {
            Option::Some(q) => match q.resolution {
                Option::Some(Resolution::Module(md)) => match ctx.model.types@[ty as int].as_adt {
                    Option::Some(a) => if ctx.model.adts@[a as int].module == md {
                        Option::Some(md)
                    } else {
                        Option::None
                    },
                    Option::None => Option::None,
                },
                _ => Option::Some(ctx.module),
            },
            Option::None => Option::Some(ctx.module),
        },
        Option::None => Option::Some(ctx.module),
    }
}

/// The renderer's answer for a type spelled relative to a module: the first
/// matching entry of the render table, or nothing when the type cannot be
/// rendered as syntactically valid source text there.
pub open spec fn spec_render(renders: Seq<RenderEntry>, ty: usize, md: usize, i: int) -> Option<u32>
    decreases renders.len() - i,
{
    if i < 0 || i >= renders.len() {
        Option::None
    } else if renders[i].ty == ty && renders[i].module == md {
        Option::Some(renders[i].text)
    } else {
        spec_render(renders, ty, md, i + 1)
    }
}

/// The single inferred-type suggestion of a request, where one is owed: none
/// for an absolute path, none without an inferred type, none when a module
/// qualifier does not own the inferred algebraic type, none when rendering
/// fails; otherwise exactly the rendered adjusted type.
pub open spec fn spec_inferred_candidate(ctx: CompletionCtx) -> Option<Candidate> {
    if ctx.path matches Some(p) && p.is_absolute {
        Option::None
    } else {
        match spec_annotation_type(ctx) {
            Option::None => Option::None,
            Option::Some(t) => {
                let ty = ctx.model.types@[t as int].adjusted;
                match spec_qualified_module(ctx, ty) {
                    Option::None => Option::None,
                    Option::Some(md) => match spec_render(ctx.model.renders@, ty, md, 0) {
                        Option::None => Option::None,
                        Option::Some(text) => Option::Some(Candidate::InferredType { text }),
                    },
                }
            },
        }
    }
}

/// The inferred-type suggestion as the sequence it appends: one candidate or
/// none.
pub open spec fn spec_inferred_seq(ctx: CompletionCtx) -> Seq<Candidate> {
    match spec_inferred_candidate(ctx) {
        Option::Some(c) => seq![c],
        Option::None => Seq::empty(),
    }
}

/// Looks a type up in the render table, front to back.
fn render_lookup(m: &Model, ty: usize, md: usize) -> (r: Option<u32>)
    ensures
        r == spec_render(m.renders@, ty, md, 0),
{
    let n = m.renders.len();
    let mut i: usize = 0;
    while i < n
        invariant
            i <= n,
            n == m.renders@.len(),
            spec_render(m.renders@, ty, md, 0) == spec_render(m.renders@, ty, md, i as int),
        decreases n - i,
    {
        let e = m.renders[i];
        if e.ty == ty && e.module == md {
            return Option::Some(e.text);
        }
        i += 1;
    }
    Option::None
}

/// Emits the single inferred-type suggestion, where one is owed, into the
/// sink.  A request already cancelled contributes nothing; this flow itself
/// runs no enumeration, so it checks no cancellation boundary.
pub fn complete_inferred_type(ctx: &CompletionCtx, acc: &mut Completions)
    requires
        ctx.wf(),
    ensures
        final(acc).cancelled == old(acc).cancelled,
        final(acc).cancel_in == old(acc).cancel_in,
        old(acc).cancelled ==> final(acc).items == old(acc).items,
        !old(acc).cancelled ==> final(acc).items@ == old(acc).items@ + spec_inferred_seq(*ctx),
{
    if acc.cancelled {
        return;
    }
    let absolute = match ctx.path {
        Option::Some(p) => p.is_absolute,
        Option::None => false,
    };
    if absolute {
        proof {
            assert(acc.items@ =~= acc.items@ + spec_inferred_seq(*ctx));
        }
        return;
    }
    let site = match ctx.location {
        ImmediateLocation::TypeAnnotation(ann) => ann,
        _ => {
            proof {
                assert(acc.items@ =~= acc.items@ + spec_inferred_seq(*ctx));
            }
            return;
        },
    };
    let looked_up: Option<usize> = match site {
        TypeAnnotation::Let(op) | TypeAnnotation::FnParam(op) => match op {
            Option::Some(p) => if p < ctx.model.pat_types.len() {
                ctx.model.pat_types[p]
            } else {
                Option::None
            },
            Option::None => Option::None,
        },
        TypeAnnotation::Const(oe) | TypeAnnotation::RetType(oe) => match oe {
            Option::Some(e) => if e < ctx.model.expr_types.len() {
                ctx.model.expr_types[e]
            } else {
                Option::None
            },
            Option::None => Option::None,
        },
    };
    let t = match looked_up {
        Option::Some(t) => t,
        Option::None => {
            proof {
                assert(acc.items@ =~= acc.items@ + spec_inferred_seq(*ctx));
            }
            return;
        },
    };
    proof {
        assert(spec_annotation_type(*ctx) == Option::Some(t));
        assert(t < ctx.model.types@.len());
    }
    let ty = ctx.model.types[t].adjusted;
    let qualified: Option<usize> = match ctx.path {
        Option::Some(p) => match p.qualifier {
            Option::Some(q) => match q.resolution {
                Option::Some(Resolution::Module(md)) => match ctx.model.types[ty].as_adt {
                    Option::Some(a) => {
                        proof {
                            assert(a < ctx.model.adts@.len());
                        }
                        if ctx.model.adts[a].module == md {
                            Option::Some(md)
                        } else {
                            Option::None
                        }
                    },
                    Option::None => Option::None,
                },
                _ => Option::Some(ctx.module),
            },
            Option::None => Option::Some(ctx.module),
        },
        Option::None => Option::Some(ctx.module),
    };
    let md = match qualified {
        Option::Some(md) => md,
        Option::None => {
            proof {
                assert(acc.items@ =~= acc.items@ + spec_inferred_seq(*ctx));
            }
            return;
        },
    };
    let text = match render_lookup(&ctx.model, ty, md) {
        Option::Some(text) => text,
        Option::None => {
            proof {
                assert(acc.items@ =~= acc.items@ + spec_inferred_seq(*ctx));
            }
            return;
        },
    };
    acc.add_inferred(text);
    proof {
        assert(acc.items@ =~= old(acc).items@ + spec_inferred_seq(*ctx));
    }
}

/// An absolute path never yields an inferred-type suggestion, whatever the
/// rest of the request looks like.
pub proof fn lemma_absolute_path_never_infers(ctx: CompletionCtx)
    requires
        ctx.path matches Some(p) && p.is_absolute,
    ensures
        spec_inferred_candidate(ctx) is None,
{
}

/// Module-qualified inference respects module equality.  With a qualifier
/// resolved to a module and an inferred type at the annotation site, no
/// suggestion is produced unless the adjusted type is an algebraic data type
/// owned by exactly the named module; and when it is, the suggestion is
/// exactly the type rendered relative to that module, present exactly when
/// the renderer has an answer.
pub proof fn lemma_qualified_inference_module_equality(ctx: CompletionCtx, t: usize, md: usize)
    requires
        !(ctx.path matches Some(p) && p.is_absolute),
        ctx.path matches Some(p) && p.qualifier matches Some(q)
            && q.resolution == Some(Resolution::Module(md)),
        spec_annotation_type(ctx) == Some(t),
    ensures
        ({
            let ty = ctx.model.types@[t as int].adjusted;
            &&& (match ctx.model.types@[ty as int].as_adt {
                Option::Some(a) => ctx.model.adts@[a as int].module != md,
                Option::None => true,
            }) ==> spec_inferred_candidate(ctx) is None
            &&& (match ctx.model.types@[ty as int].as_adt {
                Option::Some(a) => ctx.model.adts@[a as int].module == md,
                Option::None => false,
            }) ==> spec_inferred_candidate(ctx) == (match spec_render(ctx.model.renders@, ty, md, 0) {
                Option::Some(text) => Option::Some(Candidate::InferredType { text }),
                Option::None => Option::<Candidate>::None,
            })
        }),
{
}

} // verus!
