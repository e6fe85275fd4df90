//! Parsing and merging of structured annotation metadata.
//!
//! Each annotation site is parsed into a typed option record; the records
//! of all sites on one declaration are then merged. Setting the same
//! option twice — within one site or across sites — is a duplicate-option
//! error; an unrecognized key is an unknown-option error; a recognized key
//! with the wrong token shape is a shape error. Implementer lists use set
//! semantics: re-listing a type is a duplicate, never silently dropped.

use vstd::prelude::*;

use crate::annot::{OptionValue, RawOption, SpecOptionValue, SpecRawOption, SpecSpanned, Spanned};
use crate::errors::{BuildError, ErrorKind, SpecBuildError, SpecErrorKind};
use crate::strutil::str_eq;

verus! {

/// `Result` seen through the ghost mirrors of its payloads.
pub open spec fn res_view<T: DeepView, E: DeepView>(r: Result<T, E>) -> Result<
    <T as DeepView>::V,
    <E as DeepView>::V,
> {
    match r {
        Ok(t) => Ok(t.deep_view()),
        Err(e) => Err(e.deep_view()),
    }
}

pub open spec fn spec_dup_err(key: Seq<char>, span: u64) -> SpecBuildError {
    SpecBuildError { kind: SpecErrorKind::DuplicateOption { key }, span }
}

pub open spec fn spec_unknown_err(key: Seq<char>, span: u64) -> SpecBuildError {
    SpecBuildError { kind: SpecErrorKind::UnknownOption { key }, span }
}

pub open spec fn spec_shape_err(key: Seq<char>, span: u64) -> SpecBuildError {
    SpecBuildError { kind: SpecErrorKind::BadOptionShape { key }, span }
}

/// An externally supplied downcast function reference, keyed to the
/// implementer type it narrows to.
#[derive(Clone, Debug, PartialEq, Eq)]
pub struct DowncastHint {
    pub ty: String,
    pub path: String,
    pub span: u64,
}

/// Ghost mirror of [`DowncastHint`].
#[verifier::ext_equal]
pub struct SpecDowncastHint {
    pub ty: Seq<char>,
    pub path: Seq<char>,
    pub span: u64,
}

impl DeepView for DowncastHint {
    type V = SpecDowncastHint;

    open spec fn deep_view(&self) -> SpecDowncastHint {
        SpecDowncastHint {
            ty: self.ty.deep_view(),
            path: self.path.deep_view(),
            span: self.span,
        }
    }
}

/// Copies an optional spanned string.
pub fn copy_opt_str(o: &Option<Spanned<String>>) -> (r: Option<Spanned<String>>)
    ensures
        r.deep_view() == o.deep_view(),
{
    match o {
        Some(sp) => Some(Spanned { span: sp.span, item: sp.item.clone() }),
        None => None,
    }
}

/// Copies a list of spanned strings.
pub fn copy_str_list(v: &Vec<Spanned<String>>) -> (r: Vec<Spanned<String>>)
    ensures
        r.deep_view() == v.deep_view(),
{
    let n = v.len();
    let mut r: Vec<Spanned<String>> = Vec::new();
    let mut i: usize = 0;
    while i < n
        invariant
            n == v.len(),
            i <= n,
            r.deep_view() =~= v.deep_view().subrange(0, i as int),
        decreases n - i,
    {
        let ghost before = r.deep_view();
        r.push(Spanned { span: v[i].span, item: v[i].item.clone() });
        proof {
            assert(r.deep_view() =~= before.push(v.deep_view()[i as int]));
            assert(r.deep_view() =~= v.deep_view().subrange(0, i + 1 as int));
        }
        i += 1;
    }
    proof {
        assert(r.deep_view() =~= v.deep_view());
    }
    r
}

/// Copies a list of downcast hints.
pub fn copy_hint_list(v: &Vec<DowncastHint>) -> (r: Vec<DowncastHint>)
    ensures
        r.deep_view() == v.deep_view(),
{
    let n = v.len();
    let mut r: Vec<DowncastHint> = Vec::new();
    let mut i: usize = 0;
    while i < n
        invariant
            n == v.len(),
            i <= n,
            r.deep_view() =~= v.deep_view().subrange(0, i as int),
        decreases n - i,
    {
        let ghost before = r.deep_view();
        r.push(DowncastHint { ty: v[i].ty.clone(), path: v[i].path.clone(), span: v[i].span });
        proof {
            assert(r.deep_view() =~= before.push(v.deep_view()[i as int]));
            assert(r.deep_view() =~= v.deep_view().subrange(0, i + 1 as int));
        }
        i += 1;
    }
    proof {
        assert(r.deep_view() =~= v.deep_view());
    }
    r
}

/// Merged declaration-level options of one interface.
#[derive(Clone, Debug, PartialEq, Eq)]
pub struct InterfaceMeta {
    /// Explicit exposed name; the declaration identifier is used if absent.
    pub name: Option<Spanned<String>>,
    /// Explicit description; the doc comment is used if absent.
    pub description: Option<Spanned<String>>,
    /// Requested tagged-union alias name.
    pub as_enum: Option<Spanned<String>>,
    /// Requested dynamic-dispatch alias name; mutually exclusive with
    /// `as_enum`.
    pub as_dyn: Option<Spanned<String>>,
    /// Named implementer types, in declaration order, no duplicates.
    pub implementers: Vec<Spanned<String>>,
    /// Context type injected into resolution calls.
    pub context: Option<Spanned<String>>,
    /// Concrete value-domain (scalar) type.
    pub scalar: Option<Spanned<String>>,
    /// Span of the `async` marker, when present.
    pub asyncness: Option<u64>,
    /// External downcast functions, keyed by implementer type, unique keys.
    pub external_downcasts: Vec<DowncastHint>,
    /// Marker restricting the emitted code to in-tree use.
    pub is_internal: bool,
}

/// Ghost mirror of [`InterfaceMeta`].
#[verifier::ext_equal]
pub struct SpecInterfaceMeta {
    pub name: Option<SpecSpanned<Seq<char>>>,
    pub description: Option<SpecSpanned<Seq<char>>>,
    pub as_enum: Option<SpecSpanned<Seq<char>>>,
    pub as_dyn: Option<SpecSpanned<Seq<char>>>,
    pub implementers: Seq<SpecSpanned<Seq<char>>>,
    pub context: Option<SpecSpanned<Seq<char>>>,
    pub scalar: Option<SpecSpanned<Seq<char>>>,
    pub asyncness: Option<u64>,
    pub external_downcasts: Seq<SpecDowncastHint>,
    pub is_internal: bool,
}

impl DeepView for InterfaceMeta {
    type V = SpecInterfaceMeta;

    open spec fn deep_view(&self) -> SpecInterfaceMeta {
        SpecInterfaceMeta {
            name: self.name.deep_view(),
            description: self.description.deep_view(),
            as_enum: self.as_enum.deep_view(),
            as_dyn: self.as_dyn.deep_view(),
            implementers: self.implementers.deep_view(),
            context: self.context.deep_view(),
            scalar: self.scalar.deep_view(),
            asyncness: self.asyncness,
            external_downcasts: self.external_downcasts.deep_view(),
            is_internal: self.is_internal,
        }
    }
}

pub open spec fn spec_empty_interface_meta() -> SpecInterfaceMeta {
    SpecInterfaceMeta {
        name: None,
        description: None,
        as_enum: None,
        as_dyn: None,
        implementers: Seq::empty(),
        context: None,
        scalar: None,
        asyncness: None,
        external_downcasts: Seq::empty(),
        is_internal: false,
    }
}

/// Inserts listed implementers one by one, with set semantics: a value
/// already present is a duplicate error at that value's span.
pub open spec fn spec_insert_implementers(
    cur: Seq<SpecSpanned<Seq<char>>>,
    vs: Seq<SpecSpanned<Seq<char>>>,
    i: int,
) -> Result<Seq<SpecSpanned<Seq<char>>>, SpecBuildError>
    decreases vs.len() - i,
{
    if i < 0 || i >= vs.len() {
        Ok(cur)
    } else if exists|j: int| 0 <= j < cur.len() && cur[j].item == vs[i].item {
        Err(spec_dup_err(vs[i].item, vs[i].span))
    } else {
        spec_insert_implementers(cur.push(vs[i]), vs, i + 1)
    }
}

/// Inserts externally supplied downcast hints one by one; a type already
/// keyed is a duplicate error.
pub open spec fn spec_insert_hints(
    cur: Seq<SpecDowncastHint>,
    vs: Seq<SpecDowncastHint>,
    i: int,
) -> Result<Seq<SpecDowncastHint>, SpecBuildError>
    decreases vs.len() - i,
{
    if i < 0 || i >= vs.len() {
        Ok(cur)
    } else if exists|j: int| 0 <= j < cur.len() && cur[j].ty == vs[i].ty {
        Err(spec_dup_err(vs[i].ty, vs[i].span))
    } else {
        spec_insert_hints(cur.push(vs[i]), vs, i + 1)
    }
}

/// Folds one raw option into the record.
pub open spec fn spec_interface_step(m: SpecInterfaceMeta, o: SpecRawOption) -> Result<
    SpecInterfaceMeta,
    SpecBuildError,
> {
    if o.key == "name"@ {
        match o.value {
            SpecOptionValue::Single(v) => if m.name is Some {
                Err(spec_dup_err(o.key, o.span))
            } else {
                Ok(SpecInterfaceMeta { name: Some(SpecSpanned { span: o.span, item: v }), ..m })
            },
            _ => Err(spec_shape_err(o.key, o.span)),
        }
    } else if o.key == "desc"@ || o.key == "description"@ {
        match o.value {
            SpecOptionValue::Single(v) => if m.description is Some {
                Err(spec_dup_err(o.key, o.span))
            } else {
                Ok(
                    SpecInterfaceMeta {
                        description: Some(SpecSpanned { span: o.span, item: v }),
                        ..m
                    },
                )
            },
            _ => Err(spec_shape_err(o.key, o.span)),
        }
    } else if o.key == "ctx"@ || o.key == "context"@ || o.key == "Context"@ {
        match o.value {
            SpecOptionValue::Single(v) => if m.context is Some {
                Err(spec_dup_err(o.key, o.span))
            } else {
                Ok(SpecInterfaceMeta { context: Some(SpecSpanned { span: o.span, item: v }), ..m })
            },
            _ => Err(spec_shape_err(o.key, o.span)),
        }
    } else if o.key == "scalar"@ || o.key == "Scalar"@ || o.key == "ScalarValue"@ {
        match o.value {
            SpecOptionValue::Single(v) => if m.scalar is Some {
                Err(spec_dup_err(o.key, o.span))
            } else {
                Ok(SpecInterfaceMeta { scalar: Some(SpecSpanned { span: o.span, item: v }), ..m })
            },
            _ => Err(spec_shape_err(o.key, o.span)),
        }
    } else if o.key == "for"@ || o.key == "implementers"@ {
        match o.value {
            SpecOptionValue::ValueList(vs) => match spec_insert_implementers(
                m.implementers,
                vs,
                0,
            ) {
                Ok(im) => Ok(SpecInterfaceMeta { implementers: im, ..m }),
                Err(e) => Err(e),
            },
            SpecOptionValue::Single(v) => match spec_insert_implementers(
                m.implementers,
                seq![SpecSpanned { span: o.span, item: v }],
                0,
            ) {
                Ok(im) => Ok(SpecInterfaceMeta { implementers: im, ..m }),
                Err(e) => Err(e),
            },
            _ => Err(spec_shape_err(o.key, o.span)),
        }
    } else if o.key == "dyn"@ {
        match o.value {
            SpecOptionValue::Single(v) => if m.as_dyn is Some {
                Err(spec_dup_err(o.key, o.span))
            } else {
                Ok(SpecInterfaceMeta { as_dyn: Some(SpecSpanned { span: o.span, item: v }), ..m })
            },
            _ => Err(spec_shape_err(o.key, o.span)),
        }
    } else if o.key == "enum"@ {
        match o.value {
            SpecOptionValue::Single(v) => if m.as_enum is Some {
                Err(spec_dup_err(o.key, o.span))
            } else {
                Ok(SpecInterfaceMeta { as_enum: Some(SpecSpanned { span: o.span, item: v }), ..m })
            },
            _ => Err(spec_shape_err(o.key, o.span)),
        }
    } else if o.key == "async"@ {
        match o.value {
            SpecOptionValue::Flag => if m.asyncness is Some {
                Err(spec_dup_err(o.key, o.span))
            } else {
                Ok(SpecInterfaceMeta { asyncness: Some(o.span), ..m })
            },
            _ => Err(spec_shape_err(o.key, o.span)),
        }
    } else if o.key == "on"@ {
        match o.value {
            SpecOptionValue::Pair(ty, path) => match spec_insert_hints(
                m.external_downcasts,
                seq![SpecDowncastHint { ty, path, span: o.span }],
                0,
            ) {
                Ok(ds) => Ok(SpecInterfaceMeta { external_downcasts: ds, ..m }),
                Err(e) => Err(e),
            },
            _ => Err(spec_shape_err(o.key, o.span)),
        }
    } else if o.key == "internal"@ {
        match o.value {
            SpecOptionValue::Flag => Ok(SpecInterfaceMeta { is_internal: true, ..m }),
            _ => Err(spec_shape_err(o.key, o.span)),
        }
    } else {
        Err(spec_unknown_err(o.key, o.span))
    }
}

/// Folds the options of one site, left to right, stopping at the first
/// fault.
pub open spec fn spec_interface_fold(
    m: SpecInterfaceMeta,
    opts: Seq<SpecRawOption>,
    i: int,
) -> Result<SpecInterfaceMeta, SpecBuildError>
    decreases opts.len() - i,
{
    if i < 0 || i >= opts.len() {
        Ok(m)
    } else {
        match spec_interface_step(m, opts[i]) {
            Ok(m2) => spec_interface_fold(m2, opts, i + 1),
            Err(e) => Err(e),
        }
    }
}

/// What parsing one annotation site yields.
pub open spec fn spec_parse_interface_meta(opts: Seq<SpecRawOption>) -> Result<
    SpecInterfaceMeta,
    SpecBuildError,
> {
    spec_interface_fold(spec_empty_interface_meta(), opts, 0)
}

/// The side that set the option supplies it; the first record wins,
/// though merging errors before this matters when both sides set it.
pub open spec fn spec_or_opt(
    a: Option<SpecSpanned<Seq<char>>>,
    b: Option<SpecSpanned<Seq<char>>>,
) -> Option<SpecSpanned<Seq<char>>> {
    if a is Some {
        a
    } else {
        b
    }
}

/// Merging two interface records: every option set in both is a
/// duplicate; implementer and downcast lists unite under set semantics.
pub open spec fn spec_merge_interface(a: SpecInterfaceMeta, b: SpecInterfaceMeta) -> Result<
    SpecInterfaceMeta,
    SpecBuildError,
> {
    if a.name is Some && b.name is Some {
        Err(spec_dup_err("name"@, b.name->Some_0.span))
    } else if a.description is Some && b.description is Some {
        Err(spec_dup_err("description"@, b.description->Some_0.span))
    } else if a.context is Some && b.context is Some {
        Err(spec_dup_err("context"@, b.context->Some_0.span))
    } else if a.scalar is Some && b.scalar is Some {
        Err(spec_dup_err("scalar"@, b.scalar->Some_0.span))
    } else {
        match spec_insert_implementers(a.implementers, b.implementers, 0) {
            Err(e) => Err(e),
            Ok(im) => if a.as_dyn is Some && b.as_dyn is Some {
                Err(spec_dup_err("dyn"@, b.as_dyn->Some_0.span))
            } else if a.as_enum is Some && b.as_enum is Some {
                Err(spec_dup_err("enum"@, b.as_enum->Some_0.span))
            } else if a.asyncness is Some && b.asyncness is Some {
                Err(spec_dup_err("async"@, b.asyncness->Some_0))
            } else {
                match spec_insert_hints(a.external_downcasts, b.external_downcasts, 0) {
                    Err(e) => Err(e),
                    Ok(ds) => Ok(
                        SpecInterfaceMeta {
                            name: spec_or_opt(a.name, b.name),
                            description: spec_or_opt(a.description, b.description),
                            as_enum: spec_or_opt(a.as_enum, b.as_enum),
                            as_dyn: spec_or_opt(a.as_dyn, b.as_dyn),
                            implementers: im,
                            context: spec_or_opt(a.context, b.context),
                            scalar: spec_or_opt(a.scalar, b.scalar),
                            asyncness: if a.asyncness is Some {
                                a.asyncness
                            } else {
                                b.asyncness
                            },
                            external_downcasts: ds,
                            is_internal: a.is_internal || b.is_internal,
                        },
                    ),
                }
            },
        }
    }
}

/// Parsing every site and merging the records left to right.
pub open spec fn spec_interface_sites_fold(
    acc: SpecInterfaceMeta,
    sites: Seq<Seq<SpecRawOption>>,
    i: int,
) -> Result<SpecInterfaceMeta, SpecBuildError>
    decreases sites.len() - i,
{
    if i < 0 || i >= sites.len() {
        Ok(acc)
    } else {
        match spec_parse_interface_meta(sites[i]) {
            Err(e) => Err(e),
            Ok(p) => match spec_merge_interface(acc, p) {
                Err(e) => Err(e),
                Ok(m2) => spec_interface_sites_fold(m2, sites, i + 1),
            },
        }
    }
}

/// The merged record of a whole declaration: all sites parsed and merged,
/// the two alias options checked for mutual exclusion, and the
/// description defaulted to the doc comment.
pub open spec fn spec_interface_from_attrs(
    sites: Seq<Seq<SpecRawOption>>,
    doc: Option<SpecSpanned<Seq<char>>>,
) -> Result<SpecInterfaceMeta, SpecBuildError> {
    match spec_interface_sites_fold(spec_empty_interface_meta(), sites, 0) {
        Err(e) => Err(e),
        Ok(m) => if m.as_dyn is Some && m.as_enum is Some {
            Err(
                SpecBuildError {
                    kind: SpecErrorKind::BackendConflict,
                    span: m.as_dyn->Some_0.span,
                },
            )
        } else if m.description is None {
            Ok(SpecInterfaceMeta { description: doc, ..m })
        } else {
            Ok(m)
        },
    }
}

/// Checks whether an implementer type is already listed.
fn implers_contain(cur: &Vec<Spanned<String>>, v: &str) -> (r: bool)
    ensures
        r == exists|j: int| 0 <= j < cur.deep_view().len() && cur.deep_view()[j].item == v@,
{
    let n = cur.len();
    let mut i: usize = 0;
    while i < n
        invariant
            n == cur.len(),
            i <= n,
            forall|j: int| 0 <= j < i ==> cur.deep_view()[j].item != v@,
        decreases n - i,
    {
        assert(cur.deep_view()[i as int].item == cur[i as int].item.deep_view());
        if str_eq(cur[i].item.as_str(), v) {
            return true;
        }
        i += 1;
    }
    false
}

/// Checks whether a downcast hint for this type is already present.
fn hints_contain(cur: &Vec<DowncastHint>, ty: &str) -> (r: bool)
    ensures
        r == exists|j: int| 0 <= j < cur.deep_view().len() && cur.deep_view()[j].ty == ty@,
{
    let n = cur.len();
    let mut i: usize = 0;
    while i < n
        invariant
            n == cur.len(),
            i <= n,
            forall|j: int| 0 <= j < i ==> cur.deep_view()[j].ty != ty@,
        decreases n - i,
    {
        assert(cur.deep_view()[i as int].ty == cur[i as int].ty.deep_view());
        if str_eq(cur[i].ty.as_str(), ty) {
            return true;
        }
        i += 1;
    }
    false
}

/// Unites an implementer list with newly listed values, under set
/// semantics.
fn insert_implementers(cur: &Vec<Spanned<String>>, vs: &Vec<Spanned<String>>) -> (r: Result<
    Vec<Spanned<String>>,
    BuildError,
>)
    ensures
        res_view(r) == spec_insert_implementers(cur.deep_view(), vs.deep_view(), 0),
{
    let ghost vsd = vs.deep_view();
    let mut acc = copy_str_list(cur);
    let n = vs.len();
    let mut i: usize = 0;
    while i < n
        invariant
            n == vs.len(),
            vsd == vs.deep_view(),
            i <= n,
            spec_insert_implementers(cur.deep_view(), vsd, 0) == spec_insert_implementers(
                acc.deep_view(),
                vsd,
                i as int,
            ),
        decreases n - i,
    {
        assert(vsd[i as int] == vs[i as int].deep_view());
        if implers_contain(&acc, vs[i].item.as_str()) {
            let e = BuildError {
                kind: ErrorKind::DuplicateOption { key: vs[i].item.clone() },
                span: vs[i].span,
            };
            proof {
                let cur_item = vsd[i as int].item;
                assert(exists|j: int|
                    0 <= j < acc.deep_view().len() && acc.deep_view()[j].item == cur_item);
                assert(e.deep_view() =~= spec_dup_err(vsd[i as int].item, vsd[i as int].span));
            }
            return Err(e);
        }
        let ghost before = acc.deep_view();
        acc.push(Spanned { span: vs[i].span, item: vs[i].item.clone() });
        proof {
            assert(acc.deep_view() =~= before.push(vsd[i as int]));
        }
        i += 1;
    }
    Ok(acc)
}

/// Unites a downcast-hint list with newly given hints; a type keyed twice
/// is a duplicate.
fn insert_hints(cur: &Vec<DowncastHint>, vs: &Vec<DowncastHint>) -> (r: Result<
    Vec<DowncastHint>,
    BuildError,
>)
    ensures
        res_view(r) == spec_insert_hints(cur.deep_view(), vs.deep_view(), 0),
{
    let ghost vsd = vs.deep_view();
    let mut acc = copy_hint_list(cur);
    let n = vs.len();
    let mut i: usize = 0;
    while i < n
        invariant
            n == vs.len(),
            vsd == vs.deep_view(),
            i <= n,
            spec_insert_hints(cur.deep_view(), vsd, 0) == spec_insert_hints(
                acc.deep_view(),
                vsd,
                i as int,
            ),
        decreases n - i,
    {
        assert(vsd[i as int] == vs[i as int].deep_view());
        if hints_contain(&acc, vs[i].ty.as_str()) {
            let e = BuildError {
                kind: ErrorKind::DuplicateOption { key: vs[i].ty.clone() },
                span: vs[i].span,
            };
            proof {
                let cur_ty = vsd[i as int].ty;
                assert(exists|j: int|
                    0 <= j < acc.deep_view().len() && acc.deep_view()[j].ty == cur_ty);
                assert(e.deep_view() =~= spec_dup_err(vsd[i as int].ty, vsd[i as int].span));
            }
            return Err(e);
        }
        let ghost before = acc.deep_view();
        acc.push(DowncastHint { ty: vs[i].ty.clone(), path: vs[i].path.clone(), span: vs[i].span });
        proof {
            assert(acc.deep_view() =~= before.push(vsd[i as int]));
        }
        i += 1;
    }
    Ok(acc)
}

/// Merges one optional spanned-string field of two records; both set is a
/// duplicate of the given key, reported at the second record's span.
pub(crate) fn merge_opt_str(a: &Option<Spanned<String>>, b: &Option<Spanned<String>>, key: &str) -> (r:
    Result<Option<Spanned<String>>, BuildError>)
    ensures
        a.deep_view() is Some && b.deep_view() is Some ==> r is Err && r->Err_0.deep_view()
            == spec_dup_err(key@, b.deep_view()->Some_0.span),
        !(a.deep_view() is Some && b.deep_view() is Some) ==> res_view(r) == Ok::<
            Option<SpecSpanned<Seq<char>>>,
            SpecBuildError,
        >(spec_or_opt(a.deep_view(), b.deep_view())),
{
    match (a, b) {
        (Some(x), Some(y)) => Err(
            BuildError {
                kind: ErrorKind::DuplicateOption { key: String::from_str(key) },
                span: y.span,
            },
        ),
        (Some(x), None) => Ok(Some(Spanned { span: x.span, item: x.item.clone() })),
        (None, Some(y)) => Ok(Some(Spanned { span: y.span, item: y.item.clone() })),
        (None, None) => Ok(None),
    }
}

impl InterfaceMeta {
    /// The record with nothing set.
    pub fn new() -> (m: InterfaceMeta)
        ensures
            m.deep_view() == spec_empty_interface_meta(),
    {
        let m = InterfaceMeta {
            name: None,
            description: None,
            as_enum: None,
            as_dyn: None,
            implementers: Vec::new(),
            context: None,
            scalar: None,
            asyncness: None,
            external_downcasts: Vec::new(),
            is_internal: false,
        };
        proof {
            assert(m.deep_view() =~= spec_empty_interface_meta());
        }
        m
    }

    /// Copies the record.
    pub fn duplicate(&self) -> (r: InterfaceMeta)
        ensures
            r.deep_view() == self.deep_view(),
    {
        let r = InterfaceMeta {
            name: copy_opt_str(&self.name),
            description: copy_opt_str(&self.description),
            as_enum: copy_opt_str(&self.as_enum),
            as_dyn: copy_opt_str(&self.as_dyn),
            implementers: copy_str_list(&self.implementers),
            context: copy_opt_str(&self.context),
            scalar: copy_opt_str(&self.scalar),
            asyncness: self.asyncness,
            external_downcasts: copy_hint_list(&self.external_downcasts),
            is_internal: self.is_internal,
        };
        proof {
            assert(r.deep_view() =~= self.deep_view());
        }
        r
    }

    /// Folds one raw option into the record.
    fn step(&self, o: &RawOption) -> (r: Result<InterfaceMeta, BuildError>)
        ensures
            res_view(r) == spec_interface_step(self.deep_view(), o.deep_view()),
    {
        let key = o.key.as_str();
        if str_eq(key, "name") {
            match &o.value {
                OptionValue::Single(v) => {
                    if self.name.is_some() {
                        Err(
                            BuildError {
                                kind: ErrorKind::DuplicateOption { key: o.key.clone() },
                                span: o.span,
                            },
                        )
                    } else {
                        let mut m = self.duplicate();
                        m.name = Some(Spanned { span: o.span, item: v.clone() });
                        Ok(m)
                    }
                },
                _ => Err(
                    BuildError {
                        kind: ErrorKind::BadOptionShape { key: o.key.clone() },
                        span: o.span,
                    },
                ),
            }
        } else if str_eq(key, "desc") || str_eq(key, "description") {
            match &o.value {
                OptionValue::Single(v) => {
                    if self.description.is_some() {
                        Err(
                            BuildError {
                                kind: ErrorKind::DuplicateOption { key: o.key.clone() },
                                span: o.span,
                            },
                        )
                    } else {
                        let mut m = self.duplicate();
                        m.description = Some(Spanned { span: o.span, item: v.clone() });
                        Ok(m)
                    }
                },
                _ => Err(
                    BuildError {
                        kind: ErrorKind::BadOptionShape { key: o.key.clone() },
                        span: o.span,
                    },
                ),
            }
        } else if str_eq(key, "ctx") || str_eq(key, "context") || str_eq(key, "Context") {
            match &o.value {
                OptionValue::Single(v) => {
                    if self.context.is_some() {
                        Err(
                            BuildError {
                                kind: ErrorKind::DuplicateOption { key: o.key.clone() },
                                span: o.span,
                            },
                        )
                    } else {
                        let mut m = self.duplicate();
                        m.context = Some(Spanned { span: o.span, item: v.clone() });
                        Ok(m)
                    }
                },
                _ => Err(
                    BuildError {
                        kind: ErrorKind::BadOptionShape { key: o.key.clone() },
                        span: o.span,
                    },
                ),
            }
        } else if str_eq(key, "scalar") || str_eq(key, "Scalar") || str_eq(key, "ScalarValue") {
            match &o.value {
                OptionValue::Single(v) => {
                    if self.scalar.is_some() {
                        Err(
                            BuildError {
                                kind: ErrorKind::DuplicateOption { key: o.key.clone() },
                                span: o.span,
                            },
                        )
                    } else {
                        let mut m = self.duplicate();
                        m.scalar = Some(Spanned { span: o.span, item: v.clone() });
                        Ok(m)
                    }
                },
                _ => Err(
                    BuildError {
                        kind: ErrorKind::BadOptionShape { key: o.key.clone() },
                        span: o.span,
                    },
                ),
            }
        } else if str_eq(key, "for") || str_eq(key, "implementers") {
            match &o.value {
                OptionValue::ValueList(vs) => {
                    match insert_implementers(&self.implementers, vs) {
                        Ok(im) => {
                            let mut m = self.duplicate();
                            m.implementers = im;
                            Ok(m)
                        },
                        Err(e) => Err(e),
                    }
                },
                OptionValue::Single(v) => {
                    let mut single: Vec<Spanned<String>> = Vec::new();
                    single.push(Spanned { span: o.span, item: v.clone() });
                    proof {
                        assert(single.deep_view() =~= seq![
                            SpecSpanned { span: o.span, item: v.deep_view() },
                        ]);
                    }
                    match insert_implementers(&self.implementers, &single) {
                        Ok(im) => {
                            let mut m = self.duplicate();
                            m.implementers = im;
                            Ok(m)
                        },
                        Err(e) => Err(e),
                    }
                },
                _ => Err(
                    BuildError {
                        kind: ErrorKind::BadOptionShape { key: o.key.clone() },
                        span: o.span,
                    },
                ),
            }
        } else if str_eq(key, "dyn") {
            match &o.value {
                OptionValue::Single(v) => {
                    if self.as_dyn.is_some() {
                        Err(
                            BuildError {
                                kind: ErrorKind::DuplicateOption { key: o.key.clone() },
                                span: o.span,
                            },
                        )
                    } else {
                        let mut m = self.duplicate();
                        m.as_dyn = Some(Spanned { span: o.span, item: v.clone() });
                        Ok(m)
                    }
                },
                _ => Err(
                    BuildError {
                        kind: ErrorKind::BadOptionShape { key: o.key.clone() },
                        span: o.span,
                    },
                ),
            }
        } else if str_eq(key, "enum") {
            match &o.value {
                OptionValue::Single(v) => {
                    if self.as_enum.is_some() {
                        Err(
                            BuildError {
                                kind: ErrorKind::DuplicateOption { key: o.key.clone() },
                                span: o.span,
                            },
                        )
                    } else {
                        let mut m = self.duplicate();
                        m.as_enum = Some(Spanned { span: o.span, item: v.clone() });
                        Ok(m)
                    }
                },
                _ => Err(
                    BuildError {
                        kind: ErrorKind::BadOptionShape { key: o.key.clone() },
                        span: o.span,
                    },
                ),
            }
        } else if str_eq(key, "async") {
            match &o.value {
                OptionValue::Flag => {
                    if self.asyncness.is_some() {
                        Err(
                            BuildError {
                                kind: ErrorKind::DuplicateOption { key: o.key.clone() },
                                span: o.span,
                            },
                        )
                    } else {
                        let mut m = self.duplicate();
                        m.asyncness = Some(o.span);
                        Ok(m)
                    }
                },
                _ => Err(
                    BuildError {
                        kind: ErrorKind::BadOptionShape { key: o.key.clone() },
                        span: o.span,
                    },
                ),
            }
        } else if str_eq(key, "on") {
            match &o.value {
                OptionValue::Pair(ty, path) => {
                    let mut single: Vec<DowncastHint> = Vec::new();
                    single.push(DowncastHint { ty: ty.clone(), path: path.clone(), span: o.span });
                    proof {
                        assert(single.deep_view() =~= seq![
                            SpecDowncastHint {
                                ty: ty.deep_view(),
                                path: path.deep_view(),
                                span: o.span,
                            },
                        ]);
                    }
                    match insert_hints(&self.external_downcasts, &single) {
                        Ok(ds) => {
                            let mut m = self.duplicate();
                            m.external_downcasts = ds;
                            Ok(m)
                        },
                        Err(e) => Err(e),
                    }
                },
                _ => Err(
                    BuildError {
                        kind: ErrorKind::BadOptionShape { key: o.key.clone() },
                        span: o.span,
                    },
                ),
            }
        } else if str_eq(key, "internal") {
            match &o.value {
                OptionValue::Flag => {
                    let mut m = self.duplicate();
                    m.is_internal = true;
                    Ok(m)
                },
                _ => Err(
                    BuildError {
                        kind: ErrorKind::BadOptionShape { key: o.key.clone() },
                        span: o.span,
                    },
                ),
            }
        } else {
            Err(
                BuildError {
                    kind: ErrorKind::UnknownOption { key: o.key.clone() },
                    span: o.span,
                },
            )
        }
    }

    /// Parses one annotation site into a typed option record, enforcing
    /// per-key arity and token shape, set-at-most-once, and set semantics
    /// of the implementer list.
    pub fn parse(site: &Vec<RawOption>) -> (r: Result<InterfaceMeta, BuildError>)
        ensures
            res_view(r) == spec_parse_interface_meta(site.deep_view()),
    {
        let ghost sited = site.deep_view();
        let mut m = InterfaceMeta::new();
        let n = site.len();
        let mut i: usize = 0;
        while i < n
            invariant
                n == site.len(),
                sited == site.deep_view(),
                i <= n,
                spec_interface_fold(spec_empty_interface_meta(), sited, 0) == spec_interface_fold(
                    m.deep_view(),
                    sited,
                    i as int,
                ),
            decreases n - i,
        {
            assert(sited[i as int] == site[i as int].deep_view());
            match m.step(&site[i]) {
                Ok(m2) => {
                    m = m2;
                },
                Err(e) => {
                    return Err(e);
                },
            }
            i += 1;
        }
        Ok(m)
    }

    /// Merges two records parsed from two annotation sites on the same
    /// declaration, reporting duplicates.
    pub fn try_merge(&self, another: &InterfaceMeta) -> (r: Result<InterfaceMeta, BuildError>)
        ensures
            res_view(r) == spec_merge_interface(self.deep_view(), another.deep_view()),
    {
        let name = match merge_opt_str(&self.name, &another.name, "name") {
            Ok(v) => v,
            Err(e) => {
                return Err(e);
            },
        };
        let description = match merge_opt_str(&self.description, &another.description,
            "description") {
            Ok(v) => v,
            Err(e) => {
                return Err(e);
            },
        };
        let context = match merge_opt_str(&self.context, &another.context, "context") {
            Ok(v) => v,
            Err(e) => {
                return Err(e);
            },
        };
        let scalar = match merge_opt_str(&self.scalar, &another.scalar, "scalar") {
            Ok(v) => v,
            Err(e) => {
                return Err(e);
            },
        };
        let implementers = match insert_implementers(&self.implementers, &another.implementers) {
            Ok(v) => v,
            Err(e) => {
                return Err(e);
            },
        };
        let as_dyn = match merge_opt_str(&self.as_dyn, &another.as_dyn, "dyn") {
            Ok(v) => v,
            Err(e) => {
                return Err(e);
            },
        };
        let as_enum = match merge_opt_str(&self.as_enum, &another.as_enum, "enum") {
            Ok(v) => v,
            Err(e) => {
                return Err(e);
            },
        };
        if self.asyncness.is_some() && another.asyncness.is_some() {
            return Err(
                BuildError {
                    kind: ErrorKind::DuplicateOption { key: String::from_str("async") },
                    span: match another.asyncness {
                        Some(s) => s,
                        None => 0,
                    },
                },
            );
        }
        let asyncness = if self.asyncness.is_some() {
            self.asyncness
        } else {
            another.asyncness
        };
        let external_downcasts = match insert_hints(
            &self.external_downcasts,
            &another.external_downcasts,
        ) {
            Ok(v) => v,
            Err(e) => {
                return Err(e);
            },
        };
        let r = InterfaceMeta {
            name,
            description,
            as_enum,
            as_dyn,
            implementers,
            context,
            scalar,
            asyncness,
            external_downcasts,
            is_internal: self.is_internal || another.is_internal,
        };
        proof {
            assert(Ok::<SpecInterfaceMeta, SpecBuildError>(r.deep_view())
                =~= spec_merge_interface(self.deep_view(), another.deep_view()));
        }
        Ok(r)
    }

    /// Parses the annotation sites of one interface declaration and merges
    /// them into a single record. The dynamic-dispatch alias and the
    /// tagged-union alias are mutually exclusive; an absent description
    /// falls back to the doc comment handed in by the extractor.
    pub fn from_attrs(sites: &Vec<Vec<RawOption>>, doc: &Option<Spanned<String>>) -> (r: Result<
        InterfaceMeta,
        BuildError,
    >)
        ensures
            res_view(r) == spec_interface_from_attrs(sites.deep_view(), doc.deep_view()),
    {
        let ghost sitesd = sites.deep_view();
        let mut m = InterfaceMeta::new();
        let n = sites.len();
        let mut i: usize = 0;
        while i < n
            invariant
                n == sites.len(),
                sitesd == sites.deep_view(),
                i <= n,
                spec_interface_sites_fold(spec_empty_interface_meta(), sitesd, 0)
                    == spec_interface_sites_fold(m.deep_view(), sitesd, i as int),
            decreases n - i,
        {
            assert(sitesd[i as int] == sites[i as int].deep_view());
            let p = match InterfaceMeta::parse(&sites[i]) {
                Ok(p) => p,
                Err(e) => {
                    return Err(e);
                },
            };
            match m.try_merge(&p) {
                Ok(m2) => {
                    m = m2;
                },
                Err(e) => {
                    return Err(e);
                },
            }
            i += 1;
        }
        if m.as_dyn.is_some() && m.as_enum.is_some() {
            let sp = match &m.as_dyn {
                Some(d) => d.span,
                None => 0,
            };
            return Err(BuildError { kind: ErrorKind::BackendConflict, span: sp });
        }
        if m.description.is_none() {
            m.description = copy_opt_str(doc);
        }
        Ok(m)
    }
}

} // verus!
