//! Build-time diagnostics.
//!
//! Every fault found while parsing annotation metadata or while building a
//! `Definition` is fatal to that interface's compilation: no partial
//! artifact is emitted. Each error carries the most specific source span
//! available.

use vstd::prelude::*;

verus! {

/// What went wrong.
#[derive(Clone, Debug, PartialEq, Eq)]
pub enum ErrorKind {
    /// The same option was set twice across the merged annotation sites.
    DuplicateOption { key: String },
    /// An option key that no rule recognizes.
    UnknownOption { key: String },
    /// A recognized key written with the wrong token shape.
    BadOptionShape { key: String },
    /// Two mutually exclusive options were both present.
    NotComposable { key: String },
    /// Both the dynamic-dispatch alias and the tagged-union alias were
    /// requested.
    BackendConflict,
    /// The tagged-union backend needs at least one implementer.
    NoImplementers,
    /// A method declared more than one context-classified parameter.
    ExtraContextParameter,
    /// A method declared more than one executor-classified parameter.
    ExtraExecutorParameter,
    /// More than one method marked `downcast` narrows to the same
    /// implementer type.
    DuplicateDowncast { ty: String },
    /// An implementer has no downcast strategy where the backend needs one.
    UnresolvableImplementer { ty: String },
}

/// Ghost mirror of [`ErrorKind`].
#[verifier::ext_equal]
pub enum SpecErrorKind {
    DuplicateOption { key: Seq<char> },
    UnknownOption { key: Seq<char> },
    BadOptionShape { key: Seq<char> },
    NotComposable { key: Seq<char> },
    BackendConflict,
    NoImplementers,
    ExtraContextParameter,
    ExtraExecutorParameter,
    DuplicateDowncast { ty: Seq<char> },
    UnresolvableImplementer { ty: Seq<char> },
}

impl DeepView for ErrorKind {
    type V = SpecErrorKind;

    open spec fn deep_view(&self) -> SpecErrorKind {
        match self {
            ErrorKind::DuplicateOption { key } => SpecErrorKind::DuplicateOption {
                key: key.deep_view(),
            },
            ErrorKind::UnknownOption { key } => SpecErrorKind::UnknownOption {
                key: key.deep_view(),
            },
            ErrorKind::BadOptionShape { key } => SpecErrorKind::BadOptionShape {
                key: key.deep_view(),
            },
            ErrorKind::NotComposable { key } => SpecErrorKind::NotComposable {
                key: key.deep_view(),
            },
            ErrorKind::BackendConflict => SpecErrorKind::BackendConflict,
            ErrorKind::NoImplementers => SpecErrorKind::NoImplementers,
            ErrorKind::ExtraContextParameter => SpecErrorKind::ExtraContextParameter,
            ErrorKind::ExtraExecutorParameter => SpecErrorKind::ExtraExecutorParameter,
            ErrorKind::DuplicateDowncast { ty } => SpecErrorKind::DuplicateDowncast {
                ty: ty.deep_view(),
            },
            ErrorKind::UnresolvableImplementer { ty } => SpecErrorKind::UnresolvableImplementer {
                ty: ty.deep_view(),
            },
        }
    }
}

/// A fatal build-time error, attributed to a source span.
#[derive(Clone, Debug, PartialEq, Eq)]
pub struct BuildError {
    pub kind: ErrorKind,
    pub span: u64,
}

/// Ghost mirror of [`BuildError`].
#[verifier::ext_equal]
pub struct SpecBuildError {
    pub kind: SpecErrorKind,
    pub span: u64,
}

impl DeepView for BuildError {
    type V = SpecBuildError;

    open spec fn deep_view(&self) -> SpecBuildError {
        SpecBuildError { kind: self.kind.deep_view(), span: self.span }
    }
}

} // verus!
