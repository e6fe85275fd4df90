//! Options behind the annotation placed on one implementation block.

use vstd::prelude::*;

use crate::annot::{OptionValue, RawOption, SpecOptionValue, SpecRawOption, SpecSpanned, Spanned};
use crate::errors::{BuildError, ErrorKind, SpecBuildError, SpecErrorKind};
use crate::meta::{
    copy_opt_str, merge_opt_str, res_view, spec_dup_err, spec_or_opt, spec_shape_err,
    spec_unknown_err,
};
use crate::strutil::str_eq;

verus! {

/// Merged options of one implementation block: a value-domain override,
/// an async marker, and a dynamic-dispatch opt-in.
#[derive(Clone, Debug, PartialEq, Eq)]
pub struct ImplementerMeta {
    pub scalar: Option<Spanned<String>>,
    /// Span of the `async` marker, when present.
    pub asyncness: Option<u64>,
    /// Span of the `dyn` marker, when present.
    pub as_dyn: Option<u64>,
}

/// Ghost mirror of [`ImplementerMeta`].
#[verifier::ext_equal]
pub struct SpecImplementerMeta {
    pub scalar: Option<SpecSpanned<Seq<char>>>,
    pub asyncness: Option<u64>,
    pub as_dyn: Option<u64>,
}

impl DeepView for ImplementerMeta {
    type V = SpecImplementerMeta;

    open spec fn deep_view(&self) -> SpecImplementerMeta {
        SpecImplementerMeta {
            scalar: self.scalar.deep_view(),
            asyncness: self.asyncness,
            as_dyn: self.as_dyn,
        }
    }
}

pub open spec fn spec_empty_implementer_meta() -> SpecImplementerMeta {
    SpecImplementerMeta { scalar: None, asyncness: None, as_dyn: None }
}

/// Folds one raw option into the record.
pub open spec fn spec_implementer_step(m: SpecImplementerMeta, o: SpecRawOption) -> Result<
    SpecImplementerMeta,
    SpecBuildError,
> {
    if o.key == "scalar"@ || o.key == "Scalar"@ || o.key == "ScalarValue"@ {
        match o.value {
            SpecOptionValue::Single(v) => if m.scalar is Some {
                Err(spec_dup_err(o.key, o.span))
            } else {
                Ok(
                    SpecImplementerMeta {
                        scalar: Some(SpecSpanned { span: o.span, item: v }),
                        ..m
                    },
                )
            },
            _ => Err(spec_shape_err(o.key, o.span)),
        }
    } else if o.key == "dyn"@ {
        match o.value {
            SpecOptionValue::Flag => if m.as_dyn is Some {
                Err(spec_dup_err(o.key, o.span))
            } else {
                Ok(SpecImplementerMeta { as_dyn: Some(o.span), ..m })
            },
            _ => Err(spec_shape_err(o.key, o.span)),
        }
    } else if o.key == "async"@ {
        match o.value {
            SpecOptionValue::Flag => if m.asyncness is Some {
                Err(spec_dup_err(o.key, o.span))
            } else {
                Ok(SpecImplementerMeta { asyncness: Some(o.span), ..m })
            },
            _ => Err(spec_shape_err(o.key, o.span)),
        }
    } else {
        Err(spec_unknown_err(o.key, o.span))
    }
}

/// Folds the options of one site, left to right.
pub open spec fn spec_implementer_fold(
    m: SpecImplementerMeta,
    opts: Seq<SpecRawOption>,
    i: int,
) -> Result<SpecImplementerMeta, SpecBuildError>
    decreases opts.len() - i,
{
    if i < 0 || i >= opts.len() {
        Ok(m)
    } else {
        match spec_implementer_step(m, opts[i]) {
            Ok(m2) => spec_implementer_fold(m2, opts, i + 1),
            Err(e) => Err(e),
        }
    }
}

/// What parsing one annotation site yields.
pub open spec fn spec_parse_implementer_meta(opts: Seq<SpecRawOption>) -> Result<
    SpecImplementerMeta,
    SpecBuildError,
> {
    spec_implementer_fold(spec_empty_implementer_meta(), opts, 0)
}

/// Merging two implementation-block records.
pub open spec fn spec_merge_implementer(a: SpecImplementerMeta, b: SpecImplementerMeta) -> Result<
    SpecImplementerMeta,
    SpecBuildError,
> {
    if a.scalar is Some && b.scalar is Some {
        Err(spec_dup_err("scalar"@, b.scalar->Some_0.span))
    } else if a.as_dyn is Some && b.as_dyn is Some {
        Err(spec_dup_err("dyn"@, b.as_dyn->Some_0))
    } else if a.asyncness is Some && b.asyncness is Some {
        Err(spec_dup_err("async"@, b.asyncness->Some_0))
    } else {
        Ok(
            SpecImplementerMeta {
                scalar: spec_or_opt(a.scalar, b.scalar),
                asyncness: if a.asyncness is Some {
                    a.asyncness
                } else {
                    b.asyncness
                },
                as_dyn: if a.as_dyn is Some {
                    a.as_dyn
                } else {
                    b.as_dyn
                },
            },
        )
    }
}

/// Parsing every site and merging the records left to right.
pub open spec fn spec_implementer_sites_fold(
    acc: SpecImplementerMeta,
    sites: Seq<Seq<SpecRawOption>>,
    i: int,
) -> Result<SpecImplementerMeta, SpecBuildError>
    decreases sites.len() - i,
{
    if i < 0 || i >= sites.len() {
        Ok(acc)
    } else {
        match spec_parse_implementer_meta(sites[i]) {
            Err(e) => Err(e),
            Ok(p) => match spec_merge_implementer(acc, p) {
                Err(e) => Err(e),
                Ok(m2) => spec_implementer_sites_fold(m2, sites, i + 1),
            },
        }
    }
}

/// The merged record of a whole implementation block.
pub open spec fn spec_implementer_from_attrs(sites: Seq<Seq<SpecRawOption>>) -> Result<
    SpecImplementerMeta,
    SpecBuildError,
> {
    spec_implementer_sites_fold(spec_empty_implementer_meta(), sites, 0)
}

impl ImplementerMeta {
    /// The record with nothing set.
    pub fn new() -> (m: ImplementerMeta)
        ensures
            m.deep_view() == spec_empty_implementer_meta(),
    {
        ImplementerMeta { scalar: None, asyncness: None, as_dyn: None }
    }

    /// Folds one raw option into the record.
    fn step(&self, o: &RawOption) -> (r: Result<ImplementerMeta, BuildError>)
        ensures
            res_view(r) == spec_implementer_step(self.deep_view(), o.deep_view()),
    {
        let key = o.key.as_str();
        if str_eq(key, "scalar") || str_eq(key, "Scalar") || str_eq(key, "ScalarValue") {
            match &o.value {
                OptionValue::Single(v) => {
                    if self.scalar.is_some() {
                        Err(
                            BuildError {
                                kind: ErrorKind::DuplicateOption { key: o.key.clone() },
                                span: o.span,
                            },
                        )
                    } else {
                        Ok(
                            ImplementerMeta {
                                scalar: Some(Spanned { span: o.span, item: v.clone() }),
                                asyncness: self.asyncness,
                                as_dyn: self.as_dyn,
                            },
                        )
                    }
                },
                _ => Err(
                    BuildError {
                        kind: ErrorKind::BadOptionShape { key: o.key.clone() },
                        span: o.span,
                    },
                ),
            }
        } else if str_eq(key, "dyn") {
            match &o.value {
                OptionValue::Flag => {
                    if self.as_dyn.is_some() {
                        Err(
                            BuildError {
                                kind: ErrorKind::DuplicateOption { key: o.key.clone() },
                                span: o.span,
                            },
                        )
                    } else {
                        Ok(
                            ImplementerMeta {
                                scalar: copy_opt_str(&self.scalar),
                                asyncness: self.asyncness,
                                as_dyn: Some(o.span),
                            },
                        )
                    }
                },
                _ => Err(
                    BuildError {
                        kind: ErrorKind::BadOptionShape { key: o.key.clone() },
                        span: o.span,
                    },
                ),
            }
        } else if str_eq(key, "async") {
            match &o.value {
                OptionValue::Flag => {
                    if self.asyncness.is_some() {
                        Err(
                            BuildError {
                                kind: ErrorKind::DuplicateOption { key: o.key.clone() },
                                span: o.span,
                            },
                        )
                    } else {
                        Ok(
                            ImplementerMeta {
                                scalar: copy_opt_str(&self.scalar),
                                asyncness: Some(o.span),
                                as_dyn: self.as_dyn,
                            },
                        )
                    }
                },
                _ => Err(
                    BuildError {
                        kind: ErrorKind::BadOptionShape { key: o.key.clone() },
                        span: o.span,
                    },
                ),
            }
        } else {
            Err(
                BuildError {
                    kind: ErrorKind::UnknownOption { key: o.key.clone() },
                    span: o.span,
                },
            )
        }
    }

    /// Parses one annotation site into a typed option record.
    pub fn parse(site: &Vec<RawOption>) -> (r: Result<ImplementerMeta, BuildError>)
        ensures
            res_view(r) == spec_parse_implementer_meta(site.deep_view()),
    {
        let ghost sited = site.deep_view();
        let mut m = ImplementerMeta::new();
        let n = site.len();
        let mut i: usize = 0;
        while i < n
            invariant
                n == site.len(),
                sited == site.deep_view(),
                i <= n,
                spec_implementer_fold(spec_empty_implementer_meta(), sited, 0)
                    == spec_implementer_fold(m.deep_view(), sited, i as int),
            decreases n - i,
        {
            assert(sited[i as int] == site[i as int].deep_view());
            match m.step(&site[i]) {
                Ok(m2) => {
                    m = m2;
                },
                Err(e) => {
                    return Err(e);
                },
            }
            i += 1;
        }
        Ok(m)
    }

    /// Merges two records parsed from two annotation sites on the same
    /// implementation block, reporting duplicates.
    pub fn try_merge(&self, another: &ImplementerMeta) -> (r: Result<ImplementerMeta, BuildError>)
        ensures
            res_view(r) == spec_merge_implementer(self.deep_view(), another.deep_view()),
    {
        let scalar = match merge_opt_str(&self.scalar, &another.scalar, "scalar") {
            Ok(v) => v,
            Err(e) => {
                return Err(e);
            },
        };
        if self.as_dyn.is_some() && another.as_dyn.is_some() {
            return Err(
                BuildError {
                    kind: ErrorKind::DuplicateOption { key: String::from_str("dyn") },
                    span: match another.as_dyn {
                        Some(s) => s,
                        None => 0,
                    },
                },
            );
        }
        if self.asyncness.is_some() && another.asyncness.is_some() {
            return Err(
                BuildError {
                    kind: ErrorKind::DuplicateOption { key: String::from_str("async") },
                    span: match another.asyncness {
                        Some(s) => s,
                        None => 0,
                    },
                },
            );
        }
        Ok(
            ImplementerMeta {
                scalar,
                asyncness: if self.asyncness.is_some() {
                    self.asyncness
                } else {
                    another.asyncness
                },
                as_dyn: if self.as_dyn.is_some() {
                    self.as_dyn
                } else {
                    another.as_dyn
                },
            },
        )
    }

    /// Parses the annotation sites of one implementation block and merges
    /// them into a single record.
    pub fn from_attrs(sites: &Vec<Vec<RawOption>>) -> (r: Result<ImplementerMeta, BuildError>)
        ensures
            res_view(r) == spec_implementer_from_attrs(sites.deep_view()),
    {
        let ghost sitesd = sites.deep_view();
        let mut m = ImplementerMeta::new();
        let n = sites.len();
        let mut i: usize = 0;
        while i < n
            invariant
                n == sites.len(),
                sitesd == sites.deep_view(),
                i <= n,
                spec_implementer_sites_fold(spec_empty_implementer_meta(), sitesd, 0)
                    == spec_implementer_sites_fold(m.deep_view(), sitesd, i as int),
            decreases n - i,
        {
            assert(sitesd[i as int] == sites[i as int].deep_view());
            let p = match ImplementerMeta::parse(&sites[i]) {
                Ok(p) => p,
                Err(e) => {
                    return Err(e);
                },
            };
            match m.try_merge(&p) {
                Ok(m2) => {
                    m = m2;
                },
                Err(e) => {
                    return Err(e);
                },
            }
            i += 1;
        }
        Ok(m)
    }
}

} // verus!
