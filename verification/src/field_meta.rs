//! Options behind the annotations placed on capability methods and on
//! their parameters.
//!
//! The `ignore` and `downcast` markers of a method are not composable
//! with any naming, description or deprecation option; the `context` and
//! `executor` markers of a parameter are not composable with any other
//! parameter option. Violations are build-time errors, never degraded
//! output.

use vstd::prelude::*;

use crate::annot::{
    DeprecationAttr, OptionValue, RawOption, SpecOptionValue, SpecRawOption, SpecSpanned, Spanned,
};
use crate::errors::{BuildError, ErrorKind, SpecBuildError, SpecErrorKind};
use crate::meta::{
    copy_opt_str, merge_opt_str, res_view, spec_dup_err, spec_or_opt, spec_shape_err,
    spec_unknown_err,
};
use crate::strutil::str_eq;

verus! {

pub open spec fn spec_not_composable_err(key: Seq<char>, span: u64) -> SpecBuildError {
    SpecBuildError { kind: SpecErrorKind::NotComposable { key }, span }
}

/// Copies an optional spanned optional string (a deprecation with its
/// optional reason, or a default with its optional expression).
pub fn copy_opt_opt_str(o: &Option<Spanned<Option<String>>>) -> (r: Option<Spanned<Option<String>>>)
    ensures
        r.deep_view() == o.deep_view(),
{
    match o {
        Some(sp) => Some(
            Spanned {
                span: sp.span,
                item: match &sp.item {
                    Some(s) => Some(s.clone()),
                    None => None,
                },
            },
        ),
        None => None,
    }
}

/// First record wins; both set is a duplicate at the second's span.
pub open spec fn spec_or_opt_opt(
    a: Option<SpecSpanned<Option<Seq<char>>>>,
    b: Option<SpecSpanned<Option<Seq<char>>>>,
) -> Option<SpecSpanned<Option<Seq<char>>>> {
    if a is Some {
        a
    } else {
        b
    }
}

/// Merges one optional spanned-optional-string field of two records.
pub(crate) fn merge_opt_opt_str(
    a: &Option<Spanned<Option<String>>>,
    b: &Option<Spanned<Option<String>>>,
    key: &str,
) -> (r: Result<Option<Spanned<Option<String>>>, BuildError>)
    ensures
        a.deep_view() is Some && b.deep_view() is Some ==> r is Err
            && r->Err_0.deep_view() == spec_dup_err(key@, b.deep_view()->Some_0.span),
        !(a.deep_view() is Some && b.deep_view() is Some) ==> res_view(r) == Ok::<
            Option<SpecSpanned<Option<Seq<char>>>>,
            SpecBuildError,
        >(spec_or_opt_opt(a.deep_view(), b.deep_view())),
{
    match (a, b) {
        (Some(x), Some(y)) => Err(
            BuildError {
                kind: ErrorKind::DuplicateOption { key: String::from_str(key) },
                span: y.span,
            },
        ),
        (Some(x), None) => Ok(copy_opt_opt_str(a)),
        (None, Some(y)) => Ok(copy_opt_opt_str(b)),
        (None, None) => Ok(None),
    }
}

/// Merged options of one capability method.
#[derive(Clone, Debug, PartialEq, Eq)]
pub struct TraitMethodMeta {
    /// Explicit exposed field name.
    pub name: Option<Spanned<String>>,
    /// Explicit description; the doc comment is used if absent.
    pub description: Option<Spanned<String>>,
    /// Deprecation, with its optional reason; the deprecation attribute
    /// extracted from the declaration is used if absent.
    pub deprecated: Option<Spanned<Option<String>>>,
    /// Span of the `ignore` marker: the method yields no field.
    pub ignore: Option<u64>,
    /// Span of the `downcast` marker: the method feeds implementer
    /// downcast resolution instead of field generation.
    pub downcast: Option<u64>,
}

/// Ghost mirror of [`TraitMethodMeta`].
#[verifier::ext_equal]
pub struct SpecTraitMethodMeta {
    pub name: Option<SpecSpanned<Seq<char>>>,
    pub description: Option<SpecSpanned<Seq<char>>>,
    pub deprecated: Option<SpecSpanned<Option<Seq<char>>>>,
    pub ignore: Option<u64>,
    pub downcast: Option<u64>,
}

impl DeepView for TraitMethodMeta {
    type V = SpecTraitMethodMeta;

    open spec fn deep_view(&self) -> SpecTraitMethodMeta {
        SpecTraitMethodMeta {
            name: self.name.deep_view(),
            description: self.description.deep_view(),
            deprecated: self.deprecated.deep_view(),
            ignore: self.ignore,
            downcast: self.downcast,
        }
    }
}

pub open spec fn spec_empty_method_meta() -> SpecTraitMethodMeta {
    SpecTraitMethodMeta { name: None, description: None, deprecated: None, ignore: None, downcast: None }
}

/// Folds one raw option into the record.
pub open spec fn spec_method_step(m: SpecTraitMethodMeta, o: SpecRawOption) -> Result<
    SpecTraitMethodMeta,
    SpecBuildError,
> {
    if o.key == "name"@ {
        match o.value {
            SpecOptionValue::Single(v) => if m.name is Some {
                Err(spec_dup_err(o.key, o.span))
            } else {
                Ok(SpecTraitMethodMeta { name: Some(SpecSpanned { span: o.span, item: v }), ..m })
            },
            _ => Err(spec_shape_err(o.key, o.span)),
        }
    } else if o.key == "desc"@ || o.key == "description"@ {
        match o.value {
            SpecOptionValue::Single(v) => if m.description is Some {
                Err(spec_dup_err(o.key, o.span))
            } else {
                Ok(
                    SpecTraitMethodMeta {
                        description: Some(SpecSpanned { span: o.span, item: v }),
                        ..m
                    },
                )
            },
            _ => Err(spec_shape_err(o.key, o.span)),
        }
    } else if o.key == "deprecated"@ {
        match o.value {
            SpecOptionValue::Flag => if m.deprecated is Some {
                Err(spec_dup_err(o.key, o.span))
            } else {
                Ok(
                    SpecTraitMethodMeta {
                        deprecated: Some(SpecSpanned { span: o.span, item: None }),
                        ..m
                    },
                )
            },
            SpecOptionValue::Single(v) => if m.deprecated is Some {
                Err(spec_dup_err(o.key, o.span))
            } else {
                Ok(
                    SpecTraitMethodMeta {
                        deprecated: Some(SpecSpanned { span: o.span, item: Some(v) }),
                        ..m
                    },
                )
            },
            _ => Err(spec_shape_err(o.key, o.span)),
        }
    } else if o.key == "ignore"@ || o.key == "skip"@ {
        match o.value {
            SpecOptionValue::Flag => if m.ignore is Some {
                Err(spec_dup_err(o.key, o.span))
            } else {
                Ok(SpecTraitMethodMeta { ignore: Some(o.span), ..m })
            },
            _ => Err(spec_shape_err(o.key, o.span)),
        }
    } else if o.key == "downcast"@ {
        match o.value {
            SpecOptionValue::Flag => if m.downcast is Some {
                Err(spec_dup_err(o.key, o.span))
            } else {
                Ok(SpecTraitMethodMeta { downcast: Some(o.span), ..m })
            },
            _ => Err(spec_shape_err(o.key, o.span)),
        }
    } else {
        Err(spec_unknown_err(o.key, o.span))
    }
}

/// Folds the options of one site, left to right.
pub open spec fn spec_method_fold(
    m: SpecTraitMethodMeta,
    opts: Seq<SpecRawOption>,
    i: int,
) -> Result<SpecTraitMethodMeta, SpecBuildError>
    decreases opts.len() - i,
{
    if i < 0 || i >= opts.len() {
        Ok(m)
    } else {
        match spec_method_step(m, opts[i]) {
            Ok(m2) => spec_method_fold(m2, opts, i + 1),
            Err(e) => Err(e),
        }
    }
}

/// What parsing one annotation site yields.
pub open spec fn spec_parse_method_meta(opts: Seq<SpecRawOption>) -> Result<
    SpecTraitMethodMeta,
    SpecBuildError,
> {
    spec_method_fold(spec_empty_method_meta(), opts, 0)
}

/// Merging two capability-method records.
pub open spec fn spec_merge_method(a: SpecTraitMethodMeta, b: SpecTraitMethodMeta) -> Result<
    SpecTraitMethodMeta,
    SpecBuildError,
> {
    if a.name is Some && b.name is Some {
        Err(spec_dup_err("name"@, b.name->Some_0.span))
    } else if a.description is Some && b.description is Some {
        Err(spec_dup_err("description"@, b.description->Some_0.span))
    } else if a.deprecated is Some && b.deprecated is Some {
        Err(spec_dup_err("deprecated"@, b.deprecated->Some_0.span))
    } else if a.ignore is Some && b.ignore is Some {
        Err(spec_dup_err("ignore"@, b.ignore->Some_0))
    } else if a.downcast is Some && b.downcast is Some {
        Err(spec_dup_err("downcast"@, b.downcast->Some_0))
    } else {
        Ok(
            SpecTraitMethodMeta {
                name: spec_or_opt(a.name, b.name),
                description: spec_or_opt(a.description, b.description),
                deprecated: spec_or_opt_opt(a.deprecated, b.deprecated),
                ignore: if a.ignore is Some {
                    a.ignore
                } else {
                    b.ignore
                },
                downcast: if a.downcast is Some {
                    a.downcast
                } else {
                    b.downcast
                },
            },
        )
    }
}

/// Parsing every site and merging the records left to right.
pub open spec fn spec_method_sites_fold(
    acc: SpecTraitMethodMeta,
    sites: Seq<Seq<SpecRawOption>>,
    i: int,
) -> Result<SpecTraitMethodMeta, SpecBuildError>
    decreases sites.len() - i,
{
    if i < 0 || i >= sites.len() {
        Ok(acc)
    } else {
        match spec_parse_method_meta(sites[i]) {
            Err(e) => Err(e),
            Ok(p) => match spec_merge_method(acc, p) {
                Err(e) => Err(e),
                Ok(m2) => spec_method_sites_fold(m2, sites, i + 1),
            },
        }
    }
}

/// Whether the record sets any naming, description or deprecation option.
pub open spec fn spec_method_sets_field_options(m: SpecTraitMethodMeta) -> bool {
    m.name is Some || m.description is Some || m.deprecated is Some
}

/// The merged record of one capability method: all sites parsed and
/// merged, composability checked, description and deprecation defaulted
/// from what the doc-comment extractor handed in.
pub open spec fn spec_method_from_attrs(
    sites: Seq<Seq<SpecRawOption>>,
    doc: Option<SpecSpanned<Seq<char>>>,
    depr: Option<crate::annot::SpecDeprecationAttr>,
) -> Result<SpecTraitMethodMeta, SpecBuildError> {
    match spec_method_sites_fold(spec_empty_method_meta(), sites, 0) {
        Err(e) => Err(e),
        Ok(m) => if m.ignore is Some && (spec_method_sets_field_options(m) || m.downcast is Some) {
            Err(spec_not_composable_err("ignore"@, m.ignore->Some_0))
        } else if m.downcast is Some && (spec_method_sets_field_options(m) || m.ignore is Some) {
            Err(spec_not_composable_err("downcast"@, m.downcast->Some_0))
        } else {
            let m1 = if m.description is None {
                SpecTraitMethodMeta { description: doc, ..m }
            } else {
                m
            };
            let m2 = if m1.deprecated is Some {
                m1
            } else {
                match depr {
                    Some(d) => SpecTraitMethodMeta {
                        deprecated: Some(SpecSpanned { span: d.span, item: d.reason }),
                        ..m1
                    },
                    None => m1,
                }
            };
            Ok(m2)
        },
    }
}

impl TraitMethodMeta {
    /// The record with nothing set.
    pub fn new() -> (m: TraitMethodMeta)
        ensures
            m.deep_view() == spec_empty_method_meta(),
    {
        TraitMethodMeta { name: None, description: None, deprecated: None, ignore: None, downcast: None }
    }

    /// Folds one raw option into the record.
    fn step(&self, o: &RawOption) -> (r: Result<TraitMethodMeta, BuildError>)
        ensures
            res_view(r) == spec_method_step(self.deep_view(), o.deep_view()),
    {
        let key = o.key.as_str();
        if str_eq(key, "name") {
            match &o.value {
                OptionValue::Single(v) => {
                    if self.name.is_some() {
                        Err(
                            BuildError {
                                kind: ErrorKind::DuplicateOption { key: o.key.clone() },
                                span: o.span,
                            },
                        )
                    } else {
                        let mut m = self.duplicate();
                        m.name = Some(Spanned { span: o.span, item: v.clone() });
                        Ok(m)
                    }
                },
                _ => Err(
                    BuildError {
                        kind: ErrorKind::BadOptionShape { key: o.key.clone() },
                        span: o.span,
                    },
                ),
            }
        } else if str_eq(key, "desc") || str_eq(key, "description") {
            match &o.value {
                OptionValue::Single(v) => {
                    if self.description.is_some() {
                        Err(
                            BuildError {
                                kind: ErrorKind::DuplicateOption { key: o.key.clone() },
                                span: o.span,
                            },
                        )
                    } else {
                        let mut m = self.duplicate();
                        m.description = Some(Spanned { span: o.span, item: v.clone() });
                        Ok(m)
                    }
                },
                _ => Err(
                    BuildError {
                        kind: ErrorKind::BadOptionShape { key: o.key.clone() },
                        span: o.span,
                    },
                ),
            }
        } else if str_eq(key, "deprecated") {
            match &o.value {
                OptionValue::Flag => {
                    if self.deprecated.is_some() {
                        Err(
                            BuildError {
                                kind: ErrorKind::DuplicateOption { key: o.key.clone() },
                                span: o.span,
                            },
                        )
                    } else {
                        let mut m = self.duplicate();
                        m.deprecated = Some(Spanned { span: o.span, item: None });
                        Ok(m)
                    }
                },
                OptionValue::Single(v) => {
                    if self.deprecated.is_some() {
                        Err(
                            BuildError {
                                kind: ErrorKind::DuplicateOption { key: o.key.clone() },
                                span: o.span,
                            },
                        )
                    } else {
                        let mut m = self.duplicate();
                        m.deprecated = Some(Spanned { span: o.span, item: Some(v.clone()) });
                        Ok(m)
                    }
                },
                _ => Err(
                    BuildError {
                        kind: ErrorKind::BadOptionShape { key: o.key.clone() },
                        span: o.span,
                    },
                ),
            }
        } else if str_eq(key, "ignore") || str_eq(key, "skip") {
            match &o.value {
                OptionValue::Flag => {
                    if self.ignore.is_some() {
                        Err(
                            BuildError {
                                kind: ErrorKind::DuplicateOption { key: o.key.clone() },
                                span: o.span,
                            },
                        )
                    } else {
                        let mut m = self.duplicate();
                        m.ignore = Some(o.span);
                        Ok(m)
                    }
                },
                _ => Err(
                    BuildError {
                        kind: ErrorKind::BadOptionShape { key: o.key.clone() },
                        span: o.span,
                    },
                ),
            }
        } else if str_eq(key, "downcast") {
            match &o.value {
                OptionValue::Flag => {
                    if self.downcast.is_some() {
                        Err(
                            BuildError {
                                kind: ErrorKind::DuplicateOption { key: o.key.clone() },
                                span: o.span,
                            },
                        )
                    } else {
                        let mut m = self.duplicate();
                        m.downcast = Some(o.span);
                        Ok(m)
                    }
                },
                _ => Err(
                    BuildError {
                        kind: ErrorKind::BadOptionShape { key: o.key.clone() },
                        span: o.span,
                    },
                ),
            }
        } else {
            Err(
                BuildError {
                    kind: ErrorKind::UnknownOption { key: o.key.clone() },
                    span: o.span,
                },
            )
        }
    }

    /// Copies the record.
    pub fn duplicate(&self) -> (r: TraitMethodMeta)
        ensures
            r.deep_view() == self.deep_view(),
    {
        let r = TraitMethodMeta {
            name: copy_opt_str(&self.name),
            description: copy_opt_str(&self.description),
            deprecated: copy_opt_opt_str(&self.deprecated),
            ignore: self.ignore,
            downcast: self.downcast,
        };
        proof {
            assert(r.deep_view() =~= self.deep_view());
        }
        r
    }

    /// Parses one annotation site into a typed option record.
    pub fn parse(site: &Vec<RawOption>) -> (r: Result<TraitMethodMeta, BuildError>)
        ensures
            res_view(r) == spec_parse_method_meta(site.deep_view()),
    {
        let ghost sited = site.deep_view();
        let mut m = TraitMethodMeta::new();
        let n = site.len();
        let mut i: usize = 0;
        while i < n
            invariant
                n == site.len(),
                sited == site.deep_view(),
                i <= n,
                spec_method_fold(spec_empty_method_meta(), sited, 0) == spec_method_fold(
                    m.deep_view(),
                    sited,
                    i as int,
                ),
            decreases n - i,
        {
            assert(sited[i as int] == site[i as int].deep_view());
            match m.step(&site[i]) {
                Ok(m2) => {
                    m = m2;
                },
                Err(e) => {
                    return Err(e);
                },
            }
            i += 1;
        }
        Ok(m)
    }

    /// Merges two records parsed from two annotation sites on the same
    /// method, reporting duplicates.
    pub fn try_merge(&self, another: &TraitMethodMeta) -> (r: Result<TraitMethodMeta, BuildError>)
        ensures
            res_view(r) == spec_merge_method(self.deep_view(), another.deep_view()),
    {
        let name = match merge_opt_str(&self.name, &another.name, "name") {
            Ok(v) => v,
            Err(e) => {
                return Err(e);
            },
        };
        let description = match merge_opt_str(&self.description, &another.description,
            "description") {
            Ok(v) => v,
            Err(e) => {
                return Err(e);
            },
        };
        let deprecated = match merge_opt_opt_str(&self.deprecated, &another.deprecated,
            "deprecated") {
            Ok(v) => v,
            Err(e) => {
                return Err(e);
            },
        };
        if self.ignore.is_some() && another.ignore.is_some() {
            return Err(
                BuildError {
                    kind: ErrorKind::DuplicateOption { key: String::from_str("ignore") },
                    span: match another.ignore {
                        Some(s) => s,
                        None => 0,
                    },
                },
            );
        }
        if self.downcast.is_some() && another.downcast.is_some() {
            return Err(
                BuildError {
                    kind: ErrorKind::DuplicateOption { key: String::from_str("downcast") },
                    span: match another.downcast {
                        Some(s) => s,
                        None => 0,
                    },
                },
            );
        }
        Ok(
            TraitMethodMeta {
                name,
                description,
                deprecated,
                ignore: if self.ignore.is_some() {
                    self.ignore
                } else {
                    another.ignore
                },
                downcast: if self.downcast.is_some() {
                    self.downcast
                } else {
                    another.downcast
                },
            },
        )
    }

    /// Parses the annotation sites of one capability method and merges
    /// them, checking that `ignore` and `downcast` stand alone.
    pub fn from_attrs(
        sites: &Vec<Vec<RawOption>>,
        doc: &Option<Spanned<String>>,
        depr: &Option<DeprecationAttr>,
    ) -> (r: Result<TraitMethodMeta, BuildError>)
        ensures
            res_view(r) == spec_method_from_attrs(
                sites.deep_view(),
                doc.deep_view(),
                depr.deep_view(),
            ),
    {
        let ghost sitesd = sites.deep_view();
        let mut m = TraitMethodMeta::new();
        let n = sites.len();
        let mut i: usize = 0;
        while i < n
            invariant
                n == sites.len(),
                sitesd == sites.deep_view(),
                i <= n,
                spec_method_sites_fold(spec_empty_method_meta(), sitesd, 0)
                    == spec_method_sites_fold(m.deep_view(), sitesd, i as int),
            decreases n - i,
        {
            assert(sitesd[i as int] == sites[i as int].deep_view());
            let p = match TraitMethodMeta::parse(&sites[i]) {
                Ok(p) => p,
                Err(e) => {
                    return Err(e);
                },
            };
            match m.try_merge(&p) {
                Ok(m2) => {
                    m = m2;
                },
                Err(e) => {
                    return Err(e);
                },
            }
            i += 1;
        }
        let sets_field_options = m.name.is_some() || m.description.is_some()
            || m.deprecated.is_some();
        if let Some(sp) = m.ignore {
            if sets_field_options || m.downcast.is_some() {
                return Err(
                    BuildError {
                        kind: ErrorKind::NotComposable { key: String::from_str("ignore") },
                        span: sp,
                    },
                );
            }
        }
        if let Some(sp) = m.downcast {
            if sets_field_options || m.ignore.is_some() {
                return Err(
                    BuildError {
                        kind: ErrorKind::NotComposable { key: String::from_str("downcast") },
                        span: sp,
                    },
                );
            }
        }
        if m.description.is_none() {
            m.description = copy_opt_str(doc);
        }
        if m.deprecated.is_none() {
            m.deprecated = match depr {
                Some(d) => Some(
                    Spanned {
                        span: d.span,
                        item: match &d.reason {
                            Some(s) => Some(s.clone()),
                            None => None,
                        },
                    },
                ),
                None => None,
            };
        }
        Ok(m)
    }
}

/// Merged options of one method parameter.
#[derive(Clone, Debug, PartialEq, Eq)]
pub struct ArgumentMeta {
    /// Explicit exposed argument name.
    pub name: Option<Spanned<String>>,
    /// Explicit description.
    pub description: Option<Spanned<String>>,
    /// Default value: present with an expression, or present relying on
    /// the argument type's own default.
    pub default: Option<Spanned<Option<String>>>,
    /// Span of the `context` marker: the parameter receives the context.
    pub context: Option<u64>,
    /// Span of the `executor` marker: the parameter receives the
    /// execution handle.
    pub executor: Option<u64>,
}

/// Ghost mirror of [`ArgumentMeta`].
#[verifier::ext_equal]
pub struct SpecArgumentMeta {
    pub name: Option<SpecSpanned<Seq<char>>>,
    pub description: Option<SpecSpanned<Seq<char>>>,
    pub default: Option<SpecSpanned<Option<Seq<char>>>>,
    pub context: Option<u64>,
    pub executor: Option<u64>,
}

impl DeepView for ArgumentMeta {
    type V = SpecArgumentMeta;

    open spec fn deep_view(&self) -> SpecArgumentMeta {
        SpecArgumentMeta {
            name: self.name.deep_view(),
            description: self.description.deep_view(),
            default: self.default.deep_view(),
            context: self.context,
            executor: self.executor,
        }
    }
}

pub open spec fn spec_empty_argument_meta() -> SpecArgumentMeta {
    SpecArgumentMeta { name: None, description: None, default: None, context: None, executor: None }
}

/// Folds one raw option into the record.
pub open spec fn spec_argument_step(m: SpecArgumentMeta, o: SpecRawOption) -> Result<
    SpecArgumentMeta,
    SpecBuildError,
> {
    if o.key == "name"@ {
        match o.value {
            SpecOptionValue::Single(v) => if m.name is Some {
                Err(spec_dup_err(o.key, o.span))
            } else {
                Ok(SpecArgumentMeta { name: Some(SpecSpanned { span: o.span, item: v }), ..m })
            },
            _ => Err(spec_shape_err(o.key, o.span)),
        }
    } else if o.key == "desc"@ || o.key == "description"@ {
        match o.value {
            SpecOptionValue::Single(v) => if m.description is Some {
                Err(spec_dup_err(o.key, o.span))
            } else {
                Ok(
                    SpecArgumentMeta {
                        description: Some(SpecSpanned { span: o.span, item: v }),
                        ..m
                    },
                )
            },
            _ => Err(spec_shape_err(o.key, o.span)),
        }
    } else if o.key == "default"@ {
        match o.value {
            SpecOptionValue::Flag => if m.default is Some {
                Err(spec_dup_err(o.key, o.span))
            } else {
                Ok(
                    SpecArgumentMeta {
                        default: Some(SpecSpanned { span: o.span, item: None }),
                        ..m
                    },
                )
            },
            SpecOptionValue::Single(v) => if m.default is Some {
                Err(spec_dup_err(o.key, o.span))
            } else {
                Ok(
                    SpecArgumentMeta {
                        default: Some(SpecSpanned { span: o.span, item: Some(v) }),
                        ..m
                    },
                )
            },
            _ => Err(spec_shape_err(o.key, o.span)),
        }
    } else if o.key == "ctx"@ || o.key == "context"@ || o.key == "Context"@ {
        match o.value {
            SpecOptionValue::Flag => if m.context is Some {
                Err(spec_dup_err(o.key, o.span))
            } else {
                Ok(SpecArgumentMeta { context: Some(o.span), ..m })
            },
            _ => Err(spec_shape_err(o.key, o.span)),
        }
    } else if o.key == "exec"@ || o.key == "executor"@ {
        match o.value {
            SpecOptionValue::Flag => if m.executor is Some {
                Err(spec_dup_err(o.key, o.span))
            } else {
                Ok(SpecArgumentMeta { executor: Some(o.span), ..m })
            },
            _ => Err(spec_shape_err(o.key, o.span)),
        }
    } else {
        Err(spec_unknown_err(o.key, o.span))
    }
}

/// Folds the options of one site, left to right.
pub open spec fn spec_argument_fold(
    m: SpecArgumentMeta,
    opts: Seq<SpecRawOption>,
    i: int,
) -> Result<SpecArgumentMeta, SpecBuildError>
    decreases opts.len() - i,
{
    if i < 0 || i >= opts.len() {
        Ok(m)
    } else {
        match spec_argument_step(m, opts[i]) {
            Ok(m2) => spec_argument_fold(m2, opts, i + 1),
            Err(e) => Err(e),
        }
    }
}

/// What parsing one annotation site yields.
pub open spec fn spec_parse_argument_meta(opts: Seq<SpecRawOption>) -> Result<
    SpecArgumentMeta,
    SpecBuildError,
> {
    spec_argument_fold(spec_empty_argument_meta(), opts, 0)
}

/// Merging two parameter records.
pub open spec fn spec_merge_argument(a: SpecArgumentMeta, b: SpecArgumentMeta) -> Result<
    SpecArgumentMeta,
    SpecBuildError,
> {
    if a.name is Some && b.name is Some {
        Err(spec_dup_err("name"@, b.name->Some_0.span))
    } else if a.description is Some && b.description is Some {
        Err(spec_dup_err("description"@, b.description->Some_0.span))
    } else if a.default is Some && b.default is Some {
        Err(spec_dup_err("default"@, b.default->Some_0.span))
    } else if a.context is Some && b.context is Some {
        Err(spec_dup_err("context"@, b.context->Some_0))
    } else if a.executor is Some && b.executor is Some {
        Err(spec_dup_err("executor"@, b.executor->Some_0))
    } else {
        Ok(
            SpecArgumentMeta {
                name: spec_or_opt(a.name, b.name),
                description: spec_or_opt(a.description, b.description),
                default: spec_or_opt_opt(a.default, b.default),
                context: if a.context is Some {
                    a.context
                } else {
                    b.context
                },
                executor: if a.executor is Some {
                    a.executor
                } else {
                    b.executor
                },
            },
        )
    }
}

/// Parsing every site and merging the records left to right.
pub open spec fn spec_argument_sites_fold(
    acc: SpecArgumentMeta,
    sites: Seq<Seq<SpecRawOption>>,
    i: int,
) -> Result<SpecArgumentMeta, SpecBuildError>
    decreases sites.len() - i,
{
    if i < 0 || i >= sites.len() {
        Ok(acc)
    } else {
        match spec_parse_argument_meta(sites[i]) {
            Err(e) => Err(e),
            Ok(p) => match spec_merge_argument(acc, p) {
                Err(e) => Err(e),
                Ok(m2) => spec_argument_sites_fold(m2, sites, i + 1),
            },
        }
    }
}

/// Whether the record sets any option other than the two markers.
pub open spec fn spec_argument_sets_value_options(m: SpecArgumentMeta) -> bool {
    m.name is Some || m.description is Some || m.default is Some
}

/// The merged record of one method parameter: all sites parsed and
/// merged, and the `context` and `executor` markers checked to stand
/// alone.
pub open spec fn spec_argument_from_attrs(sites: Seq<Seq<SpecRawOption>>) -> Result<
    SpecArgumentMeta,
    SpecBuildError,
> {
    match spec_argument_sites_fold(spec_empty_argument_meta(), sites, 0) {
        Err(e) => Err(e),
        Ok(m) => if m.context is Some && (spec_argument_sets_value_options(m)
            || m.executor is Some) {
            Err(spec_not_composable_err("context"@, m.context->Some_0))
        } else if m.executor is Some && (spec_argument_sets_value_options(m)
            || m.context is Some) {
            Err(spec_not_composable_err("executor"@, m.executor->Some_0))
        } else {
            Ok(m)
        },
    }
}

impl ArgumentMeta {
    /// The record with nothing set.
    pub fn new() -> (m: ArgumentMeta)
        ensures
            m.deep_view() == spec_empty_argument_meta(),
    {
        ArgumentMeta { name: None, description: None, default: None, context: None, executor: None }
    }

    /// Copies the record.
    pub fn duplicate(&self) -> (r: ArgumentMeta)
        ensures
            r.deep_view() == self.deep_view(),
    {
        let r = ArgumentMeta {
            name: copy_opt_str(&self.name),
            description: copy_opt_str(&self.description),
            default: copy_opt_opt_str(&self.default),
            context: self.context,
            executor: self.executor,
        };
        proof {
            assert(r.deep_view() =~= self.deep_view());
        }
        r
    }

    /// Folds one raw option into the record.
    fn step(&self, o: &RawOption) -> (r: Result<ArgumentMeta, BuildError>)
        ensures
            res_view(r) == spec_argument_step(self.deep_view(), o.deep_view()),
    {
        let key = o.key.as_str();
        if str_eq(key, "name") {
            match &o.value {
                OptionValue::Single(v) => {
                    if self.name.is_some() {
                        Err(
                            BuildError {
                                kind: ErrorKind::DuplicateOption { key: o.key.clone() },
                                span: o.span,
                            },
                        )
                    } else {
                        let mut m = self.duplicate();
                        m.name = Some(Spanned { span: o.span, item: v.clone() });
                        Ok(m)
                    }
                },
                _ => Err(
                    BuildError {
                        kind: ErrorKind::BadOptionShape { key: o.key.clone() },
                        span: o.span,
                    },
                ),
            }
        } else if str_eq(key, "desc") || str_eq(key, "description") {
            match &o.value {
                OptionValue::Single(v) => {
                    if self.description.is_some() {
                        Err(
                            BuildError {
                                kind: ErrorKind::DuplicateOption { key: o.key.clone() },
                                span: o.span,
                            },
                        )
                    } else {
                        let mut m = self.duplicate();
                        m.description = Some(Spanned { span: o.span, item: v.clone() });
                        Ok(m)
                    }
                },
                _ => Err(
                    BuildError {
                        kind: ErrorKind::BadOptionShape { key: o.key.clone() },
                        span: o.span,
                    },
                ),
            }
        } else if str_eq(key, "default") {
            match &o.value {
                OptionValue::Flag => {
                    if self.default.is_some() {
                        Err(
                            BuildError {
                                kind: ErrorKind::DuplicateOption { key: o.key.clone() },
                                span: o.span,
                            },
                        )
                    } else {
                        let mut m = self.duplicate();
                        m.default = Some(Spanned { span: o.span, item: None });
                        Ok(m)
                    }
                },
                OptionValue::Single(v) => {
                    if self.default.is_some() {
                        Err(
                            BuildError {
                                kind: ErrorKind::DuplicateOption { key: o.key.clone() },
                                span: o.span,
                            },
                        )
                    } else {
                        let mut m = self.duplicate();
                        m.default = Some(Spanned { span: o.span, item: Some(v.clone()) });
                        Ok(m)
                    }
                },
                _ => Err(
                    BuildError {
                        kind: ErrorKind::BadOptionShape { key: o.key.clone() },
                        span: o.span,
                    },
                ),
            }
        } else if str_eq(key, "ctx") || str_eq(key, "context") || str_eq(key, "Context") {
            match &o.value {
                OptionValue::Flag => {
                    if self.context.is_some() {
                        Err(
                            BuildError {
                                kind: ErrorKind::DuplicateOption { key: o.key.clone() },
                                span: o.span,
                            },
                        )
                    } else {
                        let mut m = self.duplicate();
                        m.context = Some(o.span);
                        Ok(m)
                    }
                },
                _ => Err(
                    BuildError {
                        kind: ErrorKind::BadOptionShape { key: o.key.clone() },
                        span: o.span,
                    },
                ),
            }
        } else if str_eq(key, "exec") || str_eq(key, "executor") {
            match &o.value {
                OptionValue::Flag => {
                    if self.executor.is_some() {
                        Err(
                            BuildError {
                                kind: ErrorKind::DuplicateOption { key: o.key.clone() },
                                span: o.span,
                            },
                        )
                    } else {
                        let mut m = self.duplicate();
                        m.executor = Some(o.span);
                        Ok(m)
                    }
                },
                _ => Err(
                    BuildError {
                        kind: ErrorKind::BadOptionShape { key: o.key.clone() },
                        span: o.span,
                    },
                ),
            }
        } else {
            Err(
                BuildError {
                    kind: ErrorKind::UnknownOption { key: o.key.clone() },
                    span: o.span,
                },
            )
        }
    }

    /// Parses one annotation site into a typed option record.
    pub fn parse(site: &Vec<RawOption>) -> (r: Result<ArgumentMeta, BuildError>)
        ensures
            res_view(r) == spec_parse_argument_meta(site.deep_view()),
    {
        let ghost sited = site.deep_view();
        let mut m = ArgumentMeta::new();
        let n = site.len();
        let mut i: usize = 0;
        while i < n
            invariant
                n == site.len(),
                sited == site.deep_view(),
                i <= n,
                spec_argument_fold(spec_empty_argument_meta(), sited, 0) == spec_argument_fold(
                    m.deep_view(),
                    sited,
                    i as int,
                ),
            decreases n - i,
        {
            assert(sited[i as int] == site[i as int].deep_view());
            match m.step(&site[i]) {
                Ok(m2) => {
                    m = m2;
                },
                Err(e) => {
                    return Err(e);
                },
            }
            i += 1;
        }
        Ok(m)
    }

    /// Merges two records parsed from two annotation sites on the same
    /// parameter, reporting duplicates.
    pub fn try_merge(&self, another: &ArgumentMeta) -> (r: Result<ArgumentMeta, BuildError>)
        ensures
            res_view(r) == spec_merge_argument(self.deep_view(), another.deep_view()),
    {
        let name = match merge_opt_str(&self.name, &another.name, "name") {
            Ok(v) => v,
            Err(e) => {
                return Err(e);
            },
        };
        let description = match merge_opt_str(&self.description, &another.description,
            "description") {
            Ok(v) => v,
            Err(e) => {
                return Err(e);
            },
        };
        let default = match merge_opt_opt_str(&self.default, &another.default, "default") {
            Ok(v) => v,
            Err(e) => {
                return Err(e);
            },
        };
        if self.context.is_some() && another.context.is_some() {
            return Err(
                BuildError {
                    kind: ErrorKind::DuplicateOption { key: String::from_str("context") },
                    span: match another.context {
                        Some(s) => s,
                        None => 0,
                    },
                },
            );
        }
        if self.executor.is_some() && another.executor.is_some() {
            return Err(
                BuildError {
                    kind: ErrorKind::DuplicateOption { key: String::from_str("executor") },
                    span: match another.executor {
                        Some(s) => s,
                        None => 0,
                    },
                },
            );
        }
        Ok(
            ArgumentMeta {
                name,
                description,
                default,
                context: if self.context.is_some() {
                    self.context
                } else {
                    another.context
                },
                executor: if self.executor.is_some() {
                    self.executor
                } else {
                    another.executor
                },
            },
        )
    }

    /// Parses the annotation sites of one method parameter and merges
    /// them, checking that `context` and `executor` stand alone.
    pub fn from_attrs(sites: &Vec<Vec<RawOption>>) -> (r: Result<ArgumentMeta, BuildError>)
        ensures
            res_view(r) == spec_argument_from_attrs(sites.deep_view()),
    {
        let ghost sitesd = sites.deep_view();
        let mut m = ArgumentMeta::new();
        let n = sites.len();
        let mut i: usize = 0;
        while i < n
            invariant
                n == sites.len(),
                sitesd == sites.deep_view(),
                i <= n,
                spec_argument_sites_fold(spec_empty_argument_meta(), sitesd, 0)
                    == spec_argument_sites_fold(m.deep_view(), sitesd, i as int),
            decreases n - i,
        {
            assert(sitesd[i as int] == sites[i as int].deep_view());
            let p = match ArgumentMeta::parse(&sites[i]) {
                Ok(p) => p,
                Err(e) => {
                    return Err(e);
                },
            };
            match m.try_merge(&p) {
                Ok(m2) => {
                    m = m2;
                },
                Err(e) => {
                    return Err(e);
                },
            }
            i += 1;
        }
        let sets_value_options = m.name.is_some() || m.description.is_some()
            || m.default.is_some();
        if let Some(sp) = m.context {
            if sets_value_options || m.executor.is_some() {
                return Err(
                    BuildError {
                        kind: ErrorKind::NotComposable { key: String::from_str("context") },
                        span: sp,
                    },
                );
            }
        }
        if let Some(sp) = m.executor {
            if sets_value_options || m.context.is_some() {
                return Err(
                    BuildError {
                        kind: ErrorKind::NotComposable { key: String::from_str("executor") },
                        span: sp,
                    },
                );
            }
        }
        Ok(m)
    }
}

} // verus!
