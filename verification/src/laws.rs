//! Laws the compiler core obeys, stated and proved over the same spec
//! functions its contracts use.

use vstd::prelude::*;

use crate::annot::SpecSpanned;
use crate::builder::{
    SpecDowncastCandidate, spec_build, spec_build_implers, spec_find_cand, spec_find_hint,
    spec_impler_tys, spec_resolve_downcast, spec_variant_tys,
};
use crate::definition::{SpecDefinition, SpecImplementerDefinition, SpecInterfaceFieldDefinition,
    SpecScalarTy};
use crate::emit::{
    SpecAsyncFieldArm, SyncOutcome, SyncValuePlan, spec_async_arm, spec_sync_arm,
    spec_sync_resolve,
};
use crate::errors::{SpecBuildError, SpecErrorKind};
use crate::meta::{
    SpecDowncastHint, SpecInterfaceMeta, spec_insert_hints, spec_insert_implementers,
    spec_merge_interface,
};
use crate::repr::SpecRepresentation;

verus! {

/// Whatever the implementer order, a successful walk keeps every
/// implementer, in order, under its listed type.
proof fn lemma_build_implers_shape(
    tys: Seq<SpecSpanned<Seq<char>>>,
    i: int,
    hints: Seq<SpecDowncastHint>,
    cands: Seq<SpecDowncastCandidate>,
    dyn_backend: bool,
    scalar: SpecScalarTy,
    acc: Seq<SpecImplementerDefinition>,
    r: Seq<SpecImplementerDefinition>,
)
    requires
        0 <= i <= tys.len(),
        spec_build_implers(tys, i, hints, cands, dyn_backend, scalar, acc) == Ok::<
            Seq<SpecImplementerDefinition>,
            SpecBuildError,
        >(r),
    ensures
        r.len() == acc.len() + tys.len() - i,
        forall|k: int| 0 <= k < acc.len() ==> r[k] == acc[k],
        forall|k: int|
            acc.len() <= k < r.len() ==> (#[trigger] r[k]).ty == tys[i + k - acc.len()].item,
    decreases tys.len() - i,
{
    if i == tys.len() {
    } else {
        let (dc, ctx) = spec_resolve_downcast(tys[i].item, hints, cands);
        let acc2 = acc.push(
            SpecImplementerDefinition { ty: tys[i].item, downcast: dc, context_ty: ctx, scalar },
        );
        lemma_build_implers_shape(tys, i + 1, hints, cands, dyn_backend, scalar, acc2, r);
    }
}

/// For every interface built onto the tagged-union backend, the number
/// of dispatch variants equals the number of implementers — which is
/// never zero there — and variant order is the declaration order of the
/// implementer list.
pub proof fn lemma_tagged_union_variants(
    decl: crate::ast::SpecTraitDecl,
    known: Seq<Seq<char>>,
    d: SpecDefinition,
)
    requires
        spec_build(decl, known) == Ok::<SpecDefinition, SpecBuildError>(d),
        d.repr is Enum,
    ensures
        d.repr->Enum_0.variants.len() == d.implementers.len(),
        d.implementers.len() > 0,
        forall|i: int|
            0 <= i < d.implementers.len() ==> d.repr->Enum_0.variants[i] == (
            #[trigger] d.implementers[i]).ty,
{
    let meta_r = crate::meta::spec_interface_from_attrs(decl.attrs, decl.doc);
    let meta = meta_r->Ok_0;
    let items = crate::builder::spec_build_items(
        decl.methods,
        0,
        meta.asyncness is Some,
        Seq::empty(),
        Seq::empty(),
    );
    let cands = items->Ok_0.1;
    let tys = spec_impler_tys(meta, known);
    let dyn_backend = meta.as_dyn is Some;
    let scalar = crate::builder::spec_scalar_of(meta.scalar, decl.generics);
    let implers_r = spec_build_implers(
        tys,
        0,
        meta.external_downcasts,
        cands,
        dyn_backend,
        scalar,
        Seq::empty(),
    );
    assert(meta_r is Ok);
    assert(items is Ok);
    assert(!(dyn_backend && tys.len() == 0) ==> implers_r is Ok || spec_build(decl, known)
        is Err);
    assert(implers_r is Ok);
    let implers = implers_r->Ok_0;
    assert(!dyn_backend);
    assert(tys.len() > 0);
    lemma_build_implers_shape(
        tys,
        0,
        meta.external_downcasts,
        cands,
        dyn_backend,
        scalar,
        Seq::empty(),
        implers,
    );
    assert(d.implementers == implers);
    assert(d.repr->Enum_0.variants == spec_variant_tys(implers));
}

/// At the emission level too: the tagged union's definition artifact
/// holds exactly one dispatch variant per implementer, in declaration
/// order of the implementer list.
pub proof fn lemma_emitted_variant_count(
    decl: crate::ast::SpecTraitDecl,
    known: Seq<Seq<char>>,
    d: SpecDefinition,
    plan: crate::emit::EnumDefPlan,
)
    requires
        spec_build(decl, known) == Ok::<SpecDefinition, SpecBuildError>(d),
        d.repr is Enum,
        crate::emit::enum_def_plan_ok(plan, d.repr->Enum_0),
    ensures
        plan.variants@.len() == d.implementers.len(),
        d.implementers.len() > 0,
        forall|i: int|
            0 <= i < d.implementers.len() ==> plan.variants@[i].ty.deep_view() == (
            #[trigger] d.implementers[i]).ty,
{
    lemma_tagged_union_variants(decl, known, d);
    let e = d.repr->Enum_0;
    assert(plan.variants.deep_view() == crate::emit::spec_variant_arms(e.variants));
    assert(plan.variants.deep_view().len() == e.variants.len());
    assert(plan.variants@.len() == plan.variants.deep_view().len());
    assert forall|i: int| 0 <= i < d.implementers.len() implies plan.variants@[i].ty.deep_view()
        == (#[trigger] d.implementers[i]).ty by {
        assert(i < plan.variants@.len());
        assert(plan.variants.deep_view()[i] == plan.variants@[i].deep_view());
        assert(plan.variants.deep_view()[i].ty == e.variants[i]);
    }
}

/// Whether two merged records set at least one option in common.
pub open spec fn spec_metas_share_option(a: SpecInterfaceMeta, b: SpecInterfaceMeta) -> bool {
    ||| a.name is Some && b.name is Some
    ||| a.description is Some && b.description is Some
    ||| a.context is Some && b.context is Some
    ||| a.scalar is Some && b.scalar is Some
    ||| a.as_dyn is Some && b.as_dyn is Some
    ||| a.as_enum is Some && b.as_enum is Some
    ||| a.asyncness is Some && b.asyncness is Some
    ||| exists|j: int, k: int|
        0 <= j < a.implementers.len() && 0 <= k < b.implementers.len() && (
        #[trigger] a.implementers[j]).item == (#[trigger] b.implementers[k]).item
    ||| exists|j: int, k: int|
        0 <= j < a.external_downcasts.len() && 0 <= k < b.external_downcasts.len() && (
        #[trigger] a.external_downcasts[j]).ty == (#[trigger] b.external_downcasts[k]).ty
}

/// A value already present, anywhere ahead, makes the implementer walk
/// fail with a duplicate.
proof fn lemma_insert_implementers_dup(
    cur: Seq<SpecSpanned<Seq<char>>>,
    vs: Seq<SpecSpanned<Seq<char>>>,
    i: int,
)
    requires
        0 <= i <= vs.len(),
        exists|j: int, k: int|
            0 <= j < cur.len() && i <= k < vs.len() && (#[trigger] cur[j]).item == (
            #[trigger] vs[k]).item,
    ensures
        spec_insert_implementers(cur, vs, i) is Err,
        spec_insert_implementers(cur, vs, i)->Err_0.kind is DuplicateOption,
    decreases vs.len() - i,
{
    let (j, k) = choose|j: int, k: int|
        0 <= j < cur.len() && i <= k < vs.len() && (#[trigger] cur[j]).item == (
        #[trigger] vs[k]).item;
    if exists|j2: int| 0 <= j2 < cur.len() && (#[trigger] cur[j2]).item == vs[i].item {
    } else {
        assert(k != i);
        let cur2 = cur.push(vs[i]);
        assert(cur2[j].item == vs[k].item);
        lemma_insert_implementers_dup(cur2, vs, i + 1);
    }
}

/// A type already keyed, anywhere ahead, makes the downcast-hint walk
/// fail with a duplicate.
proof fn lemma_insert_hints_dup(cur: Seq<SpecDowncastHint>, vs: Seq<SpecDowncastHint>, i: int)
    requires
        0 <= i <= vs.len(),
        exists|j: int, k: int|
            0 <= j < cur.len() && i <= k < vs.len() && (#[trigger] cur[j]).ty == (
            #[trigger] vs[k]).ty,
    ensures
        spec_insert_hints(cur, vs, i) is Err,
        spec_insert_hints(cur, vs, i)->Err_0.kind is DuplicateOption,
    decreases vs.len() - i,
{
    let (j, k) = choose|j: int, k: int|
        0 <= j < cur.len() && i <= k < vs.len() && (#[trigger] cur[j]).ty == (#[trigger] vs[k]).ty;
    if exists|j2: int| 0 <= j2 < cur.len() && (#[trigger] cur[j2]).ty == vs[i].ty {
    } else {
        assert(k != i);
        let cur2 = cur.push(vs[i]);
        assert(cur2[j].ty == vs[k].ty);
        lemma_insert_hints_dup(cur2, vs, i + 1);
    }
}

/// Every fault the implementer walk reports is a duplicate.
proof fn lemma_insert_implementers_err_kind(
    cur: Seq<SpecSpanned<Seq<char>>>,
    vs: Seq<SpecSpanned<Seq<char>>>,
    i: int,
)
    requires
        spec_insert_implementers(cur, vs, i) is Err,
    ensures
        spec_insert_implementers(cur, vs, i)->Err_0.kind is DuplicateOption,
    decreases vs.len() - i,
{
    if i < 0 || i >= vs.len() {
    } else if exists|j: int| 0 <= j < cur.len() && (#[trigger] cur[j]).item == vs[i].item {
    } else {
        lemma_insert_implementers_err_kind(cur.push(vs[i]), vs, i + 1);
    }
}

/// Every fault the downcast-hint walk reports is a duplicate.
proof fn lemma_insert_hints_err_kind(cur: Seq<SpecDowncastHint>, vs: Seq<SpecDowncastHint>, i: int)
    requires
        spec_insert_hints(cur, vs, i) is Err,
    ensures
        spec_insert_hints(cur, vs, i)->Err_0.kind is DuplicateOption,
    decreases vs.len() - i,
{
    if i < 0 || i >= vs.len() {
    } else if exists|j: int| 0 <= j < cur.len() && (#[trigger] cur[j]).ty == vs[i].ty {
    } else {
        lemma_insert_hints_err_kind(cur.push(vs[i]), vs, i + 1);
    }
}

/// Merging reports nothing but duplicates.
pub proof fn lemma_merge_errors_are_duplicates(a: SpecInterfaceMeta, b: SpecInterfaceMeta)
    requires
        spec_merge_interface(a, b) is Err,
    ensures
        spec_merge_interface(a, b)->Err_0.kind is DuplicateOption,
{
    if a.name is Some && b.name is Some {
    } else if a.description is Some && b.description is Some {
    } else if a.context is Some && b.context is Some {
    } else if a.scalar is Some && b.scalar is Some {
    } else if spec_insert_implementers(a.implementers, b.implementers, 0) is Err {
        lemma_insert_implementers_err_kind(a.implementers, b.implementers, 0);
    } else if a.as_dyn is Some && b.as_dyn is Some {
    } else if a.as_enum is Some && b.as_enum is Some {
    } else if a.asyncness is Some && b.asyncness is Some {
    } else {
        lemma_insert_hints_err_kind(a.external_downcasts, b.external_downcasts, 0);
    }
}

/// Setting the same merge-sensitive option at two annotation sites
/// yields a duplicate-option error whichever site is merged first.
pub proof fn lemma_merge_duplicate_order_independent(a: SpecInterfaceMeta, b: SpecInterfaceMeta)
    requires
        spec_metas_share_option(a, b),
    ensures
        spec_merge_interface(a, b) is Err,
        spec_merge_interface(b, a) is Err,
        spec_merge_interface(a, b)->Err_0.kind is DuplicateOption,
        spec_merge_interface(b, a)->Err_0.kind is DuplicateOption,
{
    lemma_merge_share_err(a, b);
    lemma_merge_share_err(b, a);
    lemma_merge_errors_are_duplicates(a, b);
    lemma_merge_errors_are_duplicates(b, a);
}

proof fn lemma_merge_share_err(a: SpecInterfaceMeta, b: SpecInterfaceMeta)
    requires
        spec_metas_share_option(a, b) || spec_metas_share_option(b, a),
    ensures
        spec_merge_interface(a, b) is Err,
{
    if a.name is Some && b.name is Some {
    } else if a.description is Some && b.description is Some {
    } else if a.context is Some && b.context is Some {
    } else if a.scalar is Some && b.scalar is Some {
    } else if spec_insert_implementers(a.implementers, b.implementers, 0) is Err {
    } else if a.as_dyn is Some && b.as_dyn is Some {
    } else if a.as_enum is Some && b.as_enum is Some {
    } else if a.asyncness is Some && b.asyncness is Some {
    } else if spec_insert_hints(a.external_downcasts, b.external_downcasts, 0) is Err {
    } else {
        // none of the scalar-valued options is shared, so the shared
        // option is a listed implementer or a downcast key
        if exists|j: int, k: int|
            0 <= j < a.implementers.len() && 0 <= k < b.implementers.len() && (
            #[trigger] a.implementers[j]).item == (#[trigger] b.implementers[k]).item {
            lemma_insert_implementers_dup(a.implementers, b.implementers, 0);
        } else if exists|j: int, k: int|
            0 <= j < b.implementers.len() && 0 <= k < a.implementers.len() && (
            #[trigger] b.implementers[j]).item == (#[trigger] a.implementers[k]).item {
            lemma_insert_implementers_dup(a.implementers, b.implementers, 0);
        } else if exists|j: int, k: int|
            0 <= j < a.external_downcasts.len() && 0 <= k < b.external_downcasts.len() && (
            #[trigger] a.external_downcasts[j]).ty == (#[trigger] b.external_downcasts[k]).ty {
            lemma_insert_hints_dup(a.external_downcasts, b.external_downcasts, 0);
        } else {
            lemma_insert_hints_dup(a.external_downcasts, b.external_downcasts, 0);
        }
    }
}

/// No registration ahead means no hit.
proof fn lemma_find_hint_none(hints: Seq<SpecDowncastHint>, ty: Seq<char>, i: int)
    requires
        forall|j: int| i <= j < hints.len() ==> (#[trigger] hints[j]).ty != ty,
    ensures
        spec_find_hint(hints, ty, i) is None,
    decreases hints.len() - i,
{
    if i < 0 || i >= hints.len() {
    } else {
        lemma_find_hint_none(hints, ty, i + 1);
    }
}

/// No candidate ahead means no hit.
proof fn lemma_find_cand_none(cands: Seq<SpecDowncastCandidate>, ty: Seq<char>, i: int)
    requires
        forall|j: int| i <= j < cands.len() ==> (#[trigger] cands[j]).target != ty,
    ensures
        spec_find_cand(cands, ty, i) is None,
    decreases cands.len() - i,
{
    if i < 0 || i >= cands.len() {
    } else {
        lemma_find_cand_none(cands, ty, i + 1);
    }
}

/// An implementer with no registered external downcast and no method
/// marked for downcasting fails the builder's validation under the
/// dynamic-dispatch backend, and passes under the tagged union, which
/// identifies the variant structurally.
pub proof fn lemma_unresolvable_only_under_dyn(
    tys: Seq<SpecSpanned<Seq<char>>>,
    idx: int,
    hints: Seq<SpecDowncastHint>,
    cands: Seq<SpecDowncastCandidate>,
    scalar: SpecScalarTy,
)
    requires
        0 <= idx < tys.len(),
        forall|j: int| 0 <= j < hints.len() ==> (#[trigger] hints[j]).ty != tys[idx].item,
        forall|j: int| 0 <= j < cands.len() ==> (#[trigger] cands[j]).target != tys[idx].item,
    ensures
        spec_build_implers(tys, 0, hints, cands, true, scalar, Seq::empty()) is Err,
        spec_build_implers(tys, 0, hints, cands, false, scalar, Seq::empty()) is Ok,
        spec_resolve_downcast(tys[idx].item, hints, cands).0 is None,
{
    lemma_find_hint_none(hints, tys[idx].item, 0);
    lemma_find_cand_none(cands, tys[idx].item, 0);
    lemma_build_implers_dyn_err(tys, 0, idx, hints, cands, scalar, Seq::empty());
    lemma_build_implers_enum_ok(tys, 0, hints, cands, scalar, Seq::empty());
}

proof fn lemma_build_implers_dyn_err(
    tys: Seq<SpecSpanned<Seq<char>>>,
    i: int,
    idx: int,
    hints: Seq<SpecDowncastHint>,
    cands: Seq<SpecDowncastCandidate>,
    scalar: SpecScalarTy,
    acc: Seq<SpecImplementerDefinition>,
)
    requires
        0 <= i <= idx < tys.len(),
        spec_resolve_downcast(tys[idx].item, hints, cands).0 is None,
    ensures
        spec_build_implers(tys, i, hints, cands, true, scalar, acc) is Err,
    decreases tys.len() - i,
{
    let (dc, ctx) = spec_resolve_downcast(tys[i].item, hints, cands);
    if i == idx {
    } else if dc is None {
    } else {
        let acc2 = acc.push(
            SpecImplementerDefinition { ty: tys[i].item, downcast: dc, context_ty: ctx, scalar },
        );
        lemma_build_implers_dyn_err(tys, i + 1, idx, hints, cands, scalar, acc2);
    }
}

/// The tagged-union backend accepts every implementer, strategy or not.
proof fn lemma_build_implers_enum_ok(
    tys: Seq<SpecSpanned<Seq<char>>>,
    i: int,
    hints: Seq<SpecDowncastHint>,
    cands: Seq<SpecDowncastCandidate>,
    scalar: SpecScalarTy,
    acc: Seq<SpecImplementerDefinition>,
)
    requires
        0 <= i <= tys.len(),
    ensures
        spec_build_implers(tys, i, hints, cands, false, scalar, acc) is Ok,
    decreases tys.len() - i,
{
    if i == tys.len() {
    } else {
        let (dc, ctx) = spec_resolve_downcast(tys[i].item, hints, cands);
        let acc2 = acc.push(
            SpecImplementerDefinition { ty: tys[i].item, downcast: dc, context_ty: ctx, scalar },
        );
        lemma_build_implers_enum_ok(tys, i + 1, hints, cands, scalar, acc2);
    }
}

/// The synchronous dispatch is exhaustive over the fields: every
/// synchronous field stands in the dispatch arms, every asynchronous
/// one among the distinct rejections, and together they cover the
/// field list exactly.
pub proof fn lemma_field_dispatch_exhaustive(fields: Seq<SpecInterfaceFieldDefinition>, i: int)
    requires
        0 <= i <= fields.len(),
    ensures
        crate::emit::spec_sync_arms(fields, i).len() + crate::emit::spec_async_reject_names(
            fields,
            i,
        ).len() == fields.len() - i,
        forall|k: int|
            i <= k < fields.len() && !(#[trigger] fields[k]).is_async
                ==> crate::emit::spec_sync_arms(fields, i).contains(spec_sync_arm(fields[k])),
        forall|k: int|
            i <= k < fields.len() && (#[trigger] fields[k]).is_async
                ==> crate::emit::spec_async_reject_names(fields, i).contains(fields[k].name),
    decreases fields.len() - i,
{
    if i == fields.len() {
    } else {
        lemma_field_dispatch_exhaustive(fields, i + 1);
        let arms_tail = crate::emit::spec_sync_arms(fields, i + 1);
        let rejects_tail = crate::emit::spec_async_reject_names(fields, i + 1);
        if fields[i].is_async {
            let whole = seq![fields[i].name] + rejects_tail;
            assert(whole[0] == fields[i].name);
            assert forall|k: int|
                i <= k < fields.len() && (#[trigger] fields[k]).is_async implies whole.contains(
                fields[k].name,
            ) by {
                if k == i {
                    assert(whole[0] == fields[k].name);
                } else {
                    let idx = choose|idx: int|
                        0 <= idx < rejects_tail.len() && rejects_tail[idx] == fields[k].name;
                    assert(whole[1 + idx] == fields[k].name);
                }
            }
        } else {
            let whole = seq![spec_sync_arm(fields[i])] + arms_tail;
            assert(whole[0] == spec_sync_arm(fields[i]));
            assert forall|k: int|
                i <= k < fields.len() && !(#[trigger] fields[k]).is_async implies whole.contains(
                spec_sync_arm(fields[k]),
            ) by {
                if k == i {
                    assert(whole[0] == spec_sync_arm(fields[k]));
                } else {
                    let idx = choose|idx: int|
                        0 <= idx < arms_tail.len() && arms_tail[idx] == spec_sync_arm(fields[k]);
                    assert(whole[1 + idx] == spec_sync_arm(fields[k]));
                }
            }
        }
    }
}

/// Resolving the same field name against the same dispatch plan twice
/// yields the same outcome: the plan is read, never changed.
pub proof fn lemma_sync_resolution_idempotent(
    p: SyncValuePlan,
    field: Seq<char>,
    r1: SyncOutcome,
    r2: SyncOutcome,
)
    requires
        r1 == spec_sync_resolve(p, field),
        r2 == spec_sync_resolve(p, field),
    ensures
        r1 == r2,
{
}

/// The asynchronous arm of a field whose method is synchronous carries
/// the very invocation of the synchronous arm, wrapped into an
/// immediately ready suspension.
pub proof fn lemma_async_of_sync_field(f: SpecInterfaceFieldDefinition)
    requires
        !f.is_async,
    ensures
        spec_async_arm(f) == (SpecAsyncFieldArm {
            name: spec_sync_arm(f).name,
            method: spec_sync_arm(f).method,
            args: spec_sync_arm(f).args,
            wrap_ready: true,
        }),
{
}

} // verus!
