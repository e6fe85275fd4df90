//! The semantic model builder.
//!
//! Consumes the source declaration plus its merged metadata and produces
//! a validated `Definition`, or fails with the first semantic error:
//! parameters are classified (at most one context and one executor per
//! method), ignored methods are skipped, methods marked `downcast` feed
//! implementer downcast resolution instead of field generation, the
//! implementer set is validated against the chosen backend, and the
//! backend representation is selected — the dynamic-dispatch alias when
//! one was requested, the tagged union otherwise.
//!
//! Downcast strategy selection per implementer, first match wins: an
//! externally registered downcast function; else the single method
//! marked `downcast` whose result narrows to the implementer; else none,
//! which only the tagged-union backend accepts. A method marked
//! `downcast` whose result is not an optional reference to a named type
//! narrows to nothing and contributes no strategy.

use vstd::prelude::*;

use crate::annot::{SpecSpanned, Spanned};
use crate::ast::{
    ParamModel, SpecGenericParam, SpecGenericsModel, SpecMethodModel, SpecParamModel,
    SpecTraitDecl, SpecTyExpr, TraitDecl, TyExpr, spec_downcast_target, spec_unreferenced,
};
use crate::definition::{
    ImplementerDefinition, ImplementerDowncastDefinition, InterfaceFieldArgumentDefinition,
    InterfaceFieldDefinition, MethodArgument, ScalarTy, SpecImplementerDefinition,
    SpecImplementerDowncastDefinition, SpecInterfaceFieldArgumentDefinition,
    SpecInterfaceFieldDefinition, SpecMethodArgument, SpecScalarTy,
};
use crate::errors::{BuildError, ErrorKind, SpecBuildError, SpecErrorKind};
use crate::field_meta::{
    SpecArgumentMeta, SpecTraitMethodMeta, TraitMethodMeta, spec_argument_from_attrs,
    spec_method_from_attrs,
};
use crate::field_meta::ArgumentMeta;
use crate::meta::{
    InterfaceMeta, SpecDowncastHint, SpecInterfaceMeta, res_view, spec_interface_from_attrs,
};
use crate::repr::{
    EnumType, Representation, SpecEnumType, SpecRepresentation, SpecTraitObjectType,
    TraitObjectType, spec_enum_ident, spec_sigs_of_methods,
};
use crate::strutil::str_eq;

verus! {

/// A method marked `downcast`, keyed by the implementer type its result
/// narrows to.
#[derive(Debug)]
pub struct DowncastCandidate {
    pub target: String,
    pub method: String,
    pub with_context: bool,
    pub context_ty: Option<TyExpr>,
    /// Span of the `downcast` marker.
    pub span: u64,
}

/// Ghost mirror of [`DowncastCandidate`].
#[verifier::ext_equal]
pub struct SpecDowncastCandidate {
    pub target: Seq<char>,
    pub method: Seq<char>,
    pub with_context: bool,
    pub context_ty: Option<SpecTyExpr>,
    pub span: u64,
}

impl DeepView for DowncastCandidate {
    type V = SpecDowncastCandidate;

    open spec fn deep_view(&self) -> SpecDowncastCandidate {
        SpecDowncastCandidate {
            target: self.target.deep_view(),
            method: self.method.deep_view(),
            with_context: self.with_context,
            context_ty: self.context_ty.deep_view(),
            span: self.span,
        }
    }
}

/// Classifying the parameters of one method, left to right: each one
/// becomes an exposed argument, the context, or the executor; a second
/// context or executor parameter is a semantic error.
pub open spec fn spec_fold_params(
    params: Seq<SpecParamModel>,
    i: int,
    args: Seq<SpecMethodArgument>,
    ctx: Option<SpecTyExpr>,
    has_exec: bool,
) -> Result<(Seq<SpecMethodArgument>, Option<SpecTyExpr>), SpecBuildError>
    decreases params.len() - i,
{
    if i < 0 || i >= params.len() {
        Ok((args, ctx))
    } else {
        match spec_argument_from_attrs(params[i].attrs) {
            Err(e) => Err(e),
            Ok(am) => if am.context is Some {
                if ctx is Some {
                    Err(
                        SpecBuildError {
                            kind: SpecErrorKind::ExtraContextParameter,
                            span: am.context->Some_0,
                        },
                    )
                } else {
                    spec_fold_params(
                        params,
                        i + 1,
                        args.push(SpecMethodArgument::Context(spec_unreferenced(params[i].ty))),
                        Some(spec_unreferenced(params[i].ty)),
                        has_exec,
                    )
                }
            } else if am.executor is Some {
                if has_exec {
                    Err(
                        SpecBuildError {
                            kind: SpecErrorKind::ExtraExecutorParameter,
                            span: am.executor->Some_0,
                        },
                    )
                } else {
                    spec_fold_params(params, i + 1, args.push(SpecMethodArgument::Executor), ctx, true)
                }
            } else {
                spec_fold_params(
                    params,
                    i + 1,
                    args.push(
                        SpecMethodArgument::Regular(
                            SpecInterfaceFieldArgumentDefinition {
                                name: match am.name {
                                    Some(sp) => sp.item,
                                    None => params[i].name,
                                },
                                ty: params[i].ty,
                                description: match am.description {
                                    Some(sp) => Some(sp.item),
                                    None => None,
                                },
                                default: match am.default {
                                    Some(sp) => Some(sp.item),
                                    None => None,
                                },
                            },
                        ),
                    ),
                    ctx,
                    has_exec,
                )
            },
        }
    }
}

/// What classifying a whole parameter list yields.
pub open spec fn spec_classify_params(params: Seq<SpecParamModel>) -> Result<
    (Seq<SpecMethodArgument>, Option<SpecTyExpr>),
    SpecBuildError,
> {
    spec_fold_params(params, 0, Seq::empty(), None, false)
}

/// The schema field one non-ignored method yields.
pub open spec fn spec_build_field(
    m: SpecMethodModel,
    mm: SpecTraitMethodMeta,
    iface_async: bool,
) -> Result<SpecInterfaceFieldDefinition, SpecBuildError> {
    match spec_classify_params(m.params) {
        Err(e) => Err(e),
        Ok((args, ctx)) => Ok(
            SpecInterfaceFieldDefinition {
                name: match mm.name {
                    Some(sp) => sp.item,
                    None => m.ident,
                },
                ty: m.ret,
                description: match mm.description {
                    Some(sp) => Some(sp.item),
                    None => None,
                },
                deprecated: match mm.deprecated {
                    Some(sp) => Some(sp.item),
                    None => None,
                },
                method: m.ident,
                arguments: args,
                is_async: m.is_async || iface_async,
            },
        ),
    }
}

/// Walking the declaration's methods in order: ignored methods are
/// skipped, methods marked `downcast` become downcast candidates (two
/// candidates for one implementer type are an error), the rest become
/// fields, in declaration order.
pub open spec fn spec_build_items(
    methods: Seq<SpecMethodModel>,
    i: int,
    iface_async: bool,
    fields: Seq<SpecInterfaceFieldDefinition>,
    cands: Seq<SpecDowncastCandidate>,
) -> Result<(Seq<SpecInterfaceFieldDefinition>, Seq<SpecDowncastCandidate>), SpecBuildError>
    decreases methods.len() - i,
{
    if i < 0 || i >= methods.len() {
        Ok((fields, cands))
    } else {
        match spec_method_from_attrs(methods[i].attrs, methods[i].doc, methods[i].deprecation) {
            Err(e) => Err(e),
            Ok(mm) => if mm.ignore is Some {
                spec_build_items(methods, i + 1, iface_async, fields, cands)
            } else if mm.downcast is Some {
                match spec_classify_params(methods[i].params) {
                    Err(e) => Err(e),
                    Ok((args, ctx)) => match spec_downcast_target(methods[i].ret) {
                        None => spec_build_items(methods, i + 1, iface_async, fields, cands),
                        Some(t) => if exists|j: int| 0 <= j < cands.len() && cands[j].target == t {
                            Err(
                                SpecBuildError {
                                    kind: SpecErrorKind::DuplicateDowncast { ty: t },
                                    span: mm.downcast->Some_0,
                                },
                            )
                        } else {
                            spec_build_items(
                                methods,
                                i + 1,
                                iface_async,
                                fields,
                                cands.push(
                                    SpecDowncastCandidate {
                                        target: t,
                                        method: methods[i].ident,
                                        with_context: ctx is Some,
                                        context_ty: ctx,
                                        span: mm.downcast->Some_0,
                                    },
                                ),
                            )
                        },
                    },
                }
            } else {
                match spec_build_field(methods[i], mm, iface_async) {
                    Err(e) => Err(e),
                    Ok(f) => spec_build_items(methods, i + 1, iface_async, fields.push(f), cands),
                }
            },
        }
    }
}

/// The first externally registered downcast for a type, if any.
pub open spec fn spec_find_hint(
    hints: Seq<SpecDowncastHint>,
    ty: Seq<char>,
    i: int,
) -> Option<Seq<char>>
    decreases hints.len() - i,
{
    if i < 0 || i >= hints.len() {
        None
    } else if hints[i].ty == ty {
        Some(hints[i].path)
    } else {
        spec_find_hint(hints, ty, i + 1)
    }
}

/// The first downcast candidate narrowing to a type, if any.
pub open spec fn spec_find_cand(
    cands: Seq<SpecDowncastCandidate>,
    ty: Seq<char>,
    i: int,
) -> Option<SpecDowncastCandidate>
    decreases cands.len() - i,
{
    if i < 0 || i >= cands.len() {
        None
    } else if cands[i].target == ty {
        Some(cands[i])
    } else {
        spec_find_cand(cands, ty, i + 1)
    }
}

/// Strategy selection for one implementer, first match wins: the
/// external registration, else the method marked `downcast`, else none.
pub open spec fn spec_resolve_downcast(
    ty: Seq<char>,
    hints: Seq<SpecDowncastHint>,
    cands: Seq<SpecDowncastCandidate>,
) -> (Option<SpecImplementerDowncastDefinition>, Option<SpecTyExpr>) {
    match spec_find_hint(hints, ty, 0) {
        Some(path) => (Some(SpecImplementerDowncastDefinition::External { path }), None),
        None => match spec_find_cand(cands, ty, 0) {
            Some(c) => (
                Some(
                    SpecImplementerDowncastDefinition::Method {
                        name: c.method,
                        with_context: c.with_context,
                    },
                ),
                c.context_ty,
            ),
            None => (None, None),
        },
    }
}

/// Building the implementer definitions, in declaration order. Under the
/// dynamic-dispatch backend an implementer without a strategy cannot be
/// resolved; the tagged union identifies the variant structurally and
/// needs none.
pub open spec fn spec_build_implers(
    tys: Seq<SpecSpanned<Seq<char>>>,
    i: int,
    hints: Seq<SpecDowncastHint>,
    cands: Seq<SpecDowncastCandidate>,
    dyn_backend: bool,
    scalar: SpecScalarTy,
    acc: Seq<SpecImplementerDefinition>,
) -> Result<Seq<SpecImplementerDefinition>, SpecBuildError>
    decreases tys.len() - i,
{
    if i < 0 || i >= tys.len() {
        Ok(acc)
    } else {
        let (dc, ctx) = spec_resolve_downcast(tys[i].item, hints, cands);
        if dyn_backend && dc is None {
            Err(
                SpecBuildError {
                    kind: SpecErrorKind::UnresolvableImplementer { ty: tys[i].item },
                    span: tys[i].span,
                },
            )
        } else {
            spec_build_implers(
                tys,
                i + 1,
                hints,
                cands,
                dyn_backend,
                scalar,
                acc.push(
                    SpecImplementerDefinition {
                        ty: tys[i].item,
                        downcast: dc,
                        context_ty: ctx,
                        scalar,
                    },
                ),
            )
        }
    }
}

/// The scalar type the emitted code resolves with: the named type —
/// taken as one of the declaration's own parameters when it names one —
/// or left generic when unspecified.
pub open spec fn spec_scalar_of(
    named: Option<SpecSpanned<Seq<char>>>,
    generics: SpecGenericsModel,
) -> SpecScalarTy {
    match named {
        None => SpecScalarTy::ImplicitGeneric,
        Some(sp) => if exists|j: int|
            0 <= j < generics.params.len() && (#[trigger] generics.params[j]
                matches SpecGenericParam::TyParam { ident, .. } && ident == sp.item) {
            SpecScalarTy::ExplicitGeneric(sp.item)
        } else {
            SpecScalarTy::Concrete(sp.item)
        },
    }
}

/// The implementer list the definition validates: the one named in the
/// metadata, else the declaration's known implementation sites, handed
/// in by the caller, without spans of their own.
pub open spec fn spec_impler_tys(
    meta: SpecInterfaceMeta,
    known: Seq<Seq<char>>,
) -> Seq<SpecSpanned<Seq<char>>> {
    if meta.implementers.len() > 0 {
        meta.implementers
    } else {
        Seq::new(known.len(), |i: int| SpecSpanned { span: 0u64, item: known[i] })
    }
}

/// Classifies the parameters of one method.
fn classify_params(params: &Vec<ParamModel>) -> (r: Result<
    (Vec<MethodArgument>, Option<TyExpr>),
    BuildError,
>)
    ensures
        res_view(r) == spec_classify_params(params.deep_view()),
{
    let ghost paramsd = params.deep_view();
    let mut args: Vec<MethodArgument> = Vec::new();
    let mut ctx: Option<TyExpr> = None;
    let mut has_exec: bool = false;
    let n = params.len();
    let mut i: usize = 0;
    proof {
        assert(args.deep_view() =~= Seq::<SpecMethodArgument>::empty());
    }
    while i < n
        invariant
            n == params.len(),
            paramsd == params.deep_view(),
            i <= n,
            spec_fold_params(paramsd, 0, Seq::empty(), None, false) == spec_fold_params(
                paramsd,
                i as int,
                args.deep_view(),
                ctx.deep_view(),
                has_exec,
            ),
        decreases n - i,
    {
        assert(paramsd[i as int] == params[i as int].deep_view());
        let p = &params[i];
        let am = match ArgumentMeta::from_attrs(&p.attrs) {
            Ok(am) => am,
            Err(e) => {
                return Err(e);
            },
        };
        let ghost args_before = args.deep_view();
        if let Some(sp) = am.context {
            if ctx.is_some() {
                return Err(BuildError { kind: ErrorKind::ExtraContextParameter, span: sp });
            }
            let cty = p.ty.unreferenced().duplicate();
            let cty2 = cty.duplicate();
            args.push(MethodArgument::Context(cty));
            ctx = Some(cty2);
            proof {
                assert(args.deep_view() =~= args_before.push(
                    SpecMethodArgument::Context(spec_unreferenced(paramsd[i as int].ty)),
                ));
            }
        } else if let Some(sp) = am.executor {
            if has_exec {
                return Err(BuildError { kind: ErrorKind::ExtraExecutorParameter, span: sp });
            }
            args.push(MethodArgument::Executor);
            has_exec = true;
            proof {
                assert(args.deep_view() =~= args_before.push(SpecMethodArgument::Executor));
            }
        } else {
            let arg = InterfaceFieldArgumentDefinition {
                name: match &am.name {
                    Some(sp2) => sp2.item.clone(),
                    None => p.name.clone(),
                },
                ty: p.ty.duplicate(),
                description: match &am.description {
                    Some(sp2) => Some(sp2.item.clone()),
                    None => None,
                },
                default: match &am.default {
                    Some(sp2) => match &sp2.item {
                        Some(e) => Some(Some(e.clone())),
                        None => Some(None),
                    },
                    None => None,
                },
            };
            proof {
                assert(arg.deep_view() =~= SpecInterfaceFieldArgumentDefinition {
                    name: match am.deep_view().name {
                        Some(sp2) => sp2.item,
                        None => paramsd[i as int].name,
                    },
                    ty: paramsd[i as int].ty,
                    description: match am.deep_view().description {
                        Some(sp2) => Some(sp2.item),
                        None => None,
                    },
                    default: match am.deep_view().default {
                        Some(sp2) => Some(sp2.item),
                        None => None,
                    },
                });
            }
            let ghost argd = arg.deep_view();
            args.push(MethodArgument::Regular(arg));
            proof {
                assert(args.deep_view() =~= args_before.push(SpecMethodArgument::Regular(argd)));
            }
        }
        i += 1;
    }
    Ok((args, ctx))
}

/// An optional spanned value without its span.
pub open spec fn spec_opt_item(o: Option<SpecSpanned<Seq<char>>>) -> Option<Seq<char>> {
    match o {
        Some(sp) => Some(sp.item),
        None => None,
    }
}

/// The implementer types of a built list, in order.
pub open spec fn spec_variant_tys(implers: Seq<SpecImplementerDefinition>) -> Seq<Seq<char>> {
    Seq::new(implers.len(), |i: int| implers[i].ty)
}

/// What building a whole interface yields: the validated `Definition`,
/// or the first semantic error. Success is owed exactly when every
/// annotation site parses and merges cleanly, every method's parameters
/// classify cleanly, no two downcast methods share a target, the
/// tagged-union backend has at least one implementer, and — under the
/// dynamic-dispatch backend — every implementer has a downcast strategy.
pub open spec fn spec_build(decl: SpecTraitDecl, known: Seq<Seq<char>>) -> Result<
    crate::definition::SpecDefinition,
    SpecBuildError,
> {
    match spec_interface_from_attrs(decl.attrs, decl.doc) {
        Err(e) => Err(e),
        Ok(meta) => match spec_build_items(
            decl.methods,
            0,
            meta.asyncness is Some,
            Seq::empty(),
            Seq::empty(),
        ) {
            Err(e) => Err(e),
            Ok(r) => {
                let fields = r.0;
                let cands = r.1;
                let tys = spec_impler_tys(meta, known);
                let dyn_backend = meta.as_dyn is Some;
                if !dyn_backend && tys.len() == 0 {
                    Err(SpecBuildError { kind: SpecErrorKind::NoImplementers, span: 0 })
                } else {
                    let scalar = spec_scalar_of(meta.scalar, decl.generics);
                    match spec_build_implers(
                        tys,
                        0,
                        meta.external_downcasts,
                        cands,
                        dyn_backend,
                        scalar,
                        Seq::empty(),
                    ) {
                        Err(e) => Err(e),
                        Ok(implers) => Ok(
                            crate::definition::SpecDefinition {
                                repr: if dyn_backend {
                                    SpecRepresentation::TraitObject(
                                        SpecTraitObjectType {
                                            ident: meta.as_dyn->Some_0.item,
                                            visibility: decl.vis,
                                            trait_ident: decl.ident,
                                            trait_generics: decl.generics,
                                            context: spec_opt_item(meta.context),
                                        },
                                    )
                                } else {
                                    SpecRepresentation::Enum(
                                        SpecEnumType {
                                            ident: spec_enum_ident(
                                                decl.ident,
                                                spec_opt_item(meta.as_enum),
                                            ),
                                            visibility: decl.vis,
                                            variants: spec_variant_tys(implers),
                                            trait_ident: decl.ident,
                                            trait_generics: decl.generics,
                                            trait_types: decl.assoc_types,
                                            trait_consts: decl.assoc_consts,
                                            trait_methods: spec_sigs_of_methods(decl.methods),
                                        },
                                    )
                                },
                                trait_ident: decl.ident,
                                trait_generics: decl.generics,
                                name: match meta.name {
                                    Some(sp) => sp.item,
                                    None => decl.ident,
                                },
                                description: spec_opt_item(meta.description),
                                context: spec_opt_item(meta.context),
                                scalar,
                                fields,
                                implementers: implers,
                            },
                        ),
                    }
                }
            },
        },
    }
}

/// Builds the schema field of one non-ignored, non-downcast method.
fn build_field(
    m: &crate::ast::MethodModel,
    mm: &TraitMethodMeta,
    iface_async: bool,
) -> (r: Result<InterfaceFieldDefinition, BuildError>)
    ensures
        res_view(r) == spec_build_field(m.deep_view(), mm.deep_view(), iface_async),
{
    let (args, ctx) = match classify_params(&m.params) {
        Ok(p) => p,
        Err(e) => {
            return Err(e);
        },
    };
    let f = InterfaceFieldDefinition {
        name: match &mm.name {
            Some(sp) => sp.item.clone(),
            None => m.ident.clone(),
        },
        ty: m.ret.duplicate(),
        description: match &mm.description {
            Some(sp) => Some(sp.item.clone()),
            None => None,
        },
        deprecated: match &mm.deprecated {
            Some(sp) => match &sp.item {
                Some(s) => Some(Some(s.clone())),
                None => Some(None),
            },
            None => None,
        },
        method: m.ident.clone(),
        arguments: args,
        is_async: m.is_async || iface_async,
    };
    proof {
        assert(Ok::<crate::definition::SpecInterfaceFieldDefinition, SpecBuildError>(
            f.deep_view(),
        ) =~= spec_build_field(m.deep_view(), mm.deep_view(), iface_async));
    }
    Ok(f)
}

/// Checks whether a downcast candidate for this target is present.
fn cands_contain(cands: &Vec<DowncastCandidate>, ty: &str) -> (r: bool)
    ensures
        r == exists|j: int| 0 <= j < cands.deep_view().len() && cands.deep_view()[j].target == ty@,
{
    let n = cands.len();
    let mut i: usize = 0;
    while i < n
        invariant
            n == cands.len(),
            i <= n,
            forall|j: int| 0 <= j < i ==> cands.deep_view()[j].target != ty@,
        decreases n - i,
    {
        assert(cands.deep_view()[i as int].target == cands[i as int].target.deep_view());
        if str_eq(cands[i].target.as_str(), ty) {
            return true;
        }
        i += 1;
    }
    false
}

/// Finds the externally registered downcast for a type, if any.
fn find_hint(hints: &Vec<crate::meta::DowncastHint>, ty: &str) -> (r: Option<String>)
    ensures
        match r {
            Some(p) => spec_find_hint(hints.deep_view(), ty@, 0) == Some(p.deep_view()),
            None => spec_find_hint(hints.deep_view(), ty@, 0) is None,
        },
{
    let ghost hintsd = hints.deep_view();
    let n = hints.len();
    let mut i: usize = 0;
    while i < n
        invariant
            n == hints.len(),
            hintsd == hints.deep_view(),
            i <= n,
            spec_find_hint(hintsd, ty@, 0) == spec_find_hint(hintsd, ty@, i as int),
        decreases n - i,
    {
        assert(hintsd[i as int] == hints[i as int].deep_view());
        if str_eq(hints[i].ty.as_str(), ty) {
            return Some(hints[i].path.clone());
        }
        i += 1;
    }
    None
}

/// Finds the downcast candidate narrowing to a type, if any.
fn find_cand(cands: &Vec<DowncastCandidate>, ty: &str) -> (r: Option<usize>)
    ensures
        match r {
            Some(k) => k < cands.deep_view().len() && spec_find_cand(cands.deep_view(), ty@, 0)
                == Some(cands.deep_view()[k as int]),
            None => spec_find_cand(cands.deep_view(), ty@, 0) is None,
        },
{
    let ghost candsd = cands.deep_view();
    let n = cands.len();
    let mut i: usize = 0;
    while i < n
        invariant
            n == cands.len(),
            candsd == cands.deep_view(),
            i <= n,
            spec_find_cand(candsd, ty@, 0) == spec_find_cand(candsd, ty@, i as int),
        decreases n - i,
    {
        assert(candsd[i as int] == cands[i as int].deep_view());
        if str_eq(cands[i].target.as_str(), ty) {
            return Some(i);
        }
        i += 1;
    }
    None
}

/// Resolves the value-domain type against the declaration's own
/// parameters.
#[verifier::loop_isolation(false)]
fn scalar_of(named: &Option<Spanned<String>>, generics: &crate::ast::GenericsModel) -> (r:
    ScalarTy)
    ensures
        r.deep_view() == spec_scalar_of(named.deep_view(), generics.deep_view()),
{
    match named {
        None => ScalarTy::ImplicitGeneric,
        Some(sp) => {
            let n = generics.params.len();
            let mut i: usize = 0;
            while i < n
                invariant
                    n == generics.params.len(),
                    i <= n,
                    forall|j: int|
                        0 <= j < i ==> !(#[trigger] generics.params.deep_view()[j]
                            matches SpecGenericParam::TyParam { ident, .. } && ident
                            == sp.item.deep_view()),
                decreases n - i,
            {
                assert(generics.params.deep_view()[i as int]
                    == generics.params[i as int].deep_view());
                if let crate::ast::GenericParam::TyParam { ident, .. } = &generics.params[i] {
                    if str_eq(ident.as_str(), sp.item.as_str()) {
                        return ScalarTy::ExplicitGeneric(sp.item.clone());
                    }
                }
                i += 1;
            }
            ScalarTy::Concrete(sp.item.clone())
        },
    }
}

/// Builds the validated `Definition` of one interface declaration, or
/// fails with the first semantic error. `known_implementers` are the
/// declaration's known implementation sites, externally supplied; they
/// stand in when the metadata names no implementer list.
#[verifier::loop_isolation(false)]
pub fn build(decl: &TraitDecl, known_implementers: &Vec<String>) -> (r: Result<
    crate::definition::Definition,
    BuildError,
>)
    ensures
        res_view(r) == spec_build(decl.deep_view(), known_implementers.deep_view()),
{
    let ghost decld = decl.deep_view();
    let ghost knownd = known_implementers.deep_view();
    let meta = match InterfaceMeta::from_attrs(&decl.attrs, &decl.doc) {
        Ok(m) => m,
        Err(e) => {
            return Err(e);
        },
    };
    let ghost metad = meta.deep_view();
    let iface_async = meta.asyncness.is_some();

    let nm = decl.methods.len();
    let mut fields: Vec<InterfaceFieldDefinition> = Vec::new();
    let mut cands: Vec<DowncastCandidate> = Vec::new();
    let mut i: usize = 0;
    proof {
        assert(fields.deep_view() =~= Seq::<SpecInterfaceFieldDefinition>::empty());
        assert(cands.deep_view() =~= Seq::<SpecDowncastCandidate>::empty());
    }
    while i < nm
        invariant
            nm == decl.methods.len(),
            decld == decl.deep_view(),
            i <= nm,
            spec_build_items(decld.methods, 0, iface_async, Seq::empty(), Seq::empty())
                == spec_build_items(
                decld.methods,
                i as int,
                iface_async,
                fields.deep_view(),
                cands.deep_view(),
            ),
        decreases nm - i,
    {
        assert(decld.methods[i as int] == decl.methods[i as int].deep_view());
        let m = &decl.methods[i];
        let mm = match TraitMethodMeta::from_attrs(&m.attrs, &m.doc, &m.deprecation) {
            Ok(mm) => mm,
            Err(e) => {
                return Err(e);
            },
        };
        if mm.ignore.is_some() {
        } else if let Some(dc_span) = mm.downcast {
            let (args, ctx) = match classify_params(&m.params) {
                Ok(p) => p,
                Err(e) => {
                    return Err(e);
                },
            };
            match m.ret.downcast_target() {
                None => {
                },
                Some(tgt) => {
                    if cands_contain(&cands, tgt.as_str()) {
                        return Err(
                            BuildError {
                                kind: ErrorKind::DuplicateDowncast { ty: tgt.clone() },
                                span: dc_span,
                            },
                        );
                    }
                    let cand = DowncastCandidate {
                        target: tgt.clone(),
                        method: m.ident.clone(),
                        with_context: ctx.is_some(),
                        context_ty: ctx,
                        span: dc_span,
                    };
                    let ghost candd = cand.deep_view();
                    let ghost cands_before = cands.deep_view();
                    cands.push(cand);
                    proof {
                        assert(cands.deep_view() =~= cands_before.push(candd));
                    }
                },
            }
        } else {
            let f = match build_field(m, &mm, iface_async) {
                Ok(f) => f,
                Err(e) => {
                    return Err(e);
                },
            };
            let ghost fd = f.deep_view();
            let ghost fields_before = fields.deep_view();
            fields.push(f);
            proof {
                assert(fields.deep_view() =~= fields_before.push(fd));
            }
        }
        i += 1;
    }

    let impler_tys: Vec<Spanned<String>> = if meta.implementers.len() > 0 {
        crate::meta::copy_str_list(&meta.implementers)
    } else {
        let nk = known_implementers.len();
        let mut tys: Vec<Spanned<String>> = Vec::new();
        let mut k: usize = 0;
        while k < nk
            invariant
                nk == known_implementers.len(),
                knownd == known_implementers.deep_view(),
                k <= nk,
                tys.deep_view().len() == k,
                forall|j: int|
                    0 <= j < k ==> tys.deep_view()[j] == (SpecSpanned {
                        span: 0u64,
                        item: knownd[j],
                    }),
            decreases nk - k,
        {
            let ghost before = tys.deep_view();
            tys.push(Spanned { span: 0, item: known_implementers[k].clone() });
            proof {
                assert(knownd[k as int] == known_implementers[k as int].deep_view());
                assert(tys.deep_view() =~= before.push(
                    SpecSpanned { span: 0u64, item: knownd[k as int] },
                ));
            }
            k += 1;
        }
        tys
    };
    proof {
        assert(impler_tys.deep_view() =~= spec_impler_tys(metad, knownd));
    }

    let dyn_backend = meta.as_dyn.is_some();
    if !dyn_backend && impler_tys.len() == 0 {
        return Err(BuildError { kind: ErrorKind::NoImplementers, span: 0 });
    }
    let scalar = scalar_of(&meta.scalar, &decl.generics);

    let ghost tysd = impler_tys.deep_view();
    let ni = impler_tys.len();
    let mut implers: Vec<ImplementerDefinition> = Vec::new();
    let mut k: usize = 0;
    proof {
        assert(implers.deep_view() =~= Seq::<SpecImplementerDefinition>::empty());
    }
    while k < ni
        invariant
            ni == impler_tys.len(),
            tysd == impler_tys.deep_view(),
            metad == meta.deep_view(),
            k <= ni,
            scalar.deep_view() == spec_scalar_of(metad.scalar, decld.generics),
            dyn_backend == (metad.as_dyn is Some),
            spec_build_implers(
                tysd,
                0,
                metad.external_downcasts,
                cands.deep_view(),
                dyn_backend,
                scalar.deep_view(),
                Seq::empty(),
            ) == spec_build_implers(
                tysd,
                k as int,
                metad.external_downcasts,
                cands.deep_view(),
                dyn_backend,
                scalar.deep_view(),
                implers.deep_view(),
            ),
        decreases ni - k,
    {
        assert(tysd[k as int] == impler_tys[k as int].deep_view());
        let ty = &impler_tys[k];
        let (dc, ctx): (Option<ImplementerDowncastDefinition>, Option<TyExpr>) = match find_hint(
            &meta.external_downcasts,
            ty.item.as_str(),
        ) {
            Some(path) => (Some(ImplementerDowncastDefinition::External { path }), None),
            None => match find_cand(&cands, ty.item.as_str()) {
                Some(idx) => (
                    Some(
                        ImplementerDowncastDefinition::Method {
                            name: cands[idx].method.clone(),
                            with_context: cands[idx].with_context,
                        },
                    ),
                    match &cands[idx].context_ty {
                        Some(t) => Some(t.duplicate()),
                        None => None,
                    },
                ),
                None => (None, None),
            },
        };
        proof {
            let rd = spec_resolve_downcast(tysd[k as int].item, metad.external_downcasts,
                cands.deep_view());
            assert(dc.deep_view() =~= rd.0);
            assert(ctx.deep_view() =~= rd.1);
        }
        if dyn_backend && dc.is_none() {
            return Err(
                BuildError {
                    kind: ErrorKind::UnresolvableImplementer { ty: ty.item.clone() },
                    span: ty.span,
                },
            );
        }
        let impler = ImplementerDefinition {
            ty: ty.item.clone(),
            downcast: dc,
            context_ty: ctx,
            scalar: scalar.duplicate(),
        };
        let ghost implerd = impler.deep_view();
        let ghost implers_before = implers.deep_view();
        implers.push(impler);
        proof {
            assert(implers.deep_view() =~= implers_before.push(implerd));
        }
        k += 1;
    }

    let repr: Representation = if dyn_backend {
        let alias = match &meta.as_dyn {
            Some(sp) => sp.item.clone(),
            None => String::new(),
        };
        let context: Option<String> = match &meta.context {
            Some(sp) => Some(sp.item.clone()),
            None => None,
        };
        Representation::TraitObject(TraitObjectType::new(decl, &alias, &context))
    } else {
        let as_enum: Option<String> = match &meta.as_enum {
            Some(sp) => Some(sp.item.clone()),
            None => None,
        };
        Representation::Enum(EnumType::new(decl, &as_enum, &implers))
    };
    proof {
        if dyn_backend {
            assert(repr.deep_view() =~= SpecRepresentation::TraitObject(
                SpecTraitObjectType {
                    ident: metad.as_dyn->Some_0.item,
                    visibility: decld.vis,
                    trait_ident: decld.ident,
                    trait_generics: decld.generics,
                    context: spec_opt_item(metad.context),
                },
            ));
        } else {
            assert(repr.deep_view() =~= SpecRepresentation::Enum(
                SpecEnumType {
                    ident: spec_enum_ident(decld.ident, spec_opt_item(metad.as_enum)),
                    visibility: decld.vis,
                    variants: spec_variant_tys(implers.deep_view()),
                    trait_ident: decld.ident,
                    trait_generics: decld.generics,
                    trait_types: decld.assoc_types,
                    trait_consts: decld.assoc_consts,
                    trait_methods: spec_sigs_of_methods(decld.methods),
                },
            ));
        }
    }

    let d = crate::definition::Definition {
        repr,
        trait_ident: decl.ident.clone(),
        trait_generics: decl.generics.duplicate(),
        name: match &meta.name {
            Some(sp) => sp.item.clone(),
            None => decl.ident.clone(),
        },
        description: match &meta.description {
            Some(sp) => Some(sp.item.clone()),
            None => None,
        },
        context: match &meta.context {
            Some(sp) => Some(sp.item.clone()),
            None => None,
        },
        scalar,
        fields,
        implementers: implers,
    };
    proof {
        assert(Ok::<crate::definition::SpecDefinition, SpecBuildError>(d.deep_view())
            =~= spec_build(decld, knownd));
    }
    Ok(d)
}

} // verus!
