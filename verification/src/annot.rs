//! Input model for structured annotations.
//!
//! An annotation site is a list of raw options, each a key with a fixed
//! token shape: a bare flag, `key = value`, `key = [v1, v2, ...]`, or the
//! two-value form `key T = path`. Values are carried as plain text; every
//! option and every listed value carries an opaque source span for
//! diagnostics.

use vstd::prelude::*;

verus! {

/// A value together with the source span it was written at.
#[derive(Clone, Debug, PartialEq, Eq)]
pub struct Spanned<T> {
    pub span: u64,
    pub item: T,
}

/// Ghost mirror of [`Spanned`].
#[verifier::ext_equal]
pub struct SpecSpanned<T> {
    pub span: u64,
    pub item: T,
}

impl<T: DeepView> DeepView for Spanned<T> {
    type V = SpecSpanned<<T as DeepView>::V>;

    open spec fn deep_view(&self) -> Self::V {
        SpecSpanned { span: self.span, item: self.item.deep_view() }
    }
}

/// The token shape an option was written with.
#[derive(Clone, Debug, PartialEq, Eq)]
pub enum OptionValue {
    /// A bare `key`.
    Flag,
    /// `key = value`.
    Single(String),
    /// `key = [v1, v2, ...]`, or `key = v` meaning a list of one.
    ValueList(Vec<Spanned<String>>),
    /// `key T = path`: a type keyed to a function reference.
    Pair(String, String),
}

/// Ghost mirror of [`OptionValue`].
#[verifier::ext_equal]
pub enum SpecOptionValue {
    Flag,
    Single(Seq<char>),
    ValueList(Seq<SpecSpanned<Seq<char>>>),
    Pair(Seq<char>, Seq<char>),
}

impl DeepView for OptionValue {
    type V = SpecOptionValue;

    open spec fn deep_view(&self) -> SpecOptionValue {
        match self {
            OptionValue::Flag => SpecOptionValue::Flag,
            OptionValue::Single(v) => SpecOptionValue::Single(v.deep_view()),
            OptionValue::ValueList(vs) => SpecOptionValue::ValueList(vs.deep_view()),
            OptionValue::Pair(a, b) => SpecOptionValue::Pair(a.deep_view(), b.deep_view()),
        }
    }
}

/// One raw option of an annotation site.
#[derive(Clone, Debug, PartialEq, Eq)]
pub struct RawOption {
    pub key: String,
    pub value: OptionValue,
    pub span: u64,
}

/// Ghost mirror of [`RawOption`].
#[verifier::ext_equal]
pub struct SpecRawOption {
    pub key: Seq<char>,
    pub value: SpecOptionValue,
    pub span: u64,
}

impl DeepView for RawOption {
    type V = SpecRawOption;

    open spec fn deep_view(&self) -> SpecRawOption {
        SpecRawOption {
            key: self.key.deep_view(),
            value: self.value.deep_view(),
            span: self.span,
        }
    }
}

/// A deprecation notice extracted from a declaration's documentation
/// attributes by an outside collaborator and handed in as plain values.
#[derive(Clone, Debug, PartialEq, Eq)]
pub struct DeprecationAttr {
    pub reason: Option<String>,
    pub span: u64,
}

/// Ghost mirror of [`DeprecationAttr`].
#[verifier::ext_equal]
pub struct SpecDeprecationAttr {
    pub reason: Option<Seq<char>>,
    pub span: u64,
}

impl DeepView for DeprecationAttr {
    type V = SpecDeprecationAttr;

    open spec fn deep_view(&self) -> SpecDeprecationAttr {
        SpecDeprecationAttr { reason: self.reason.deep_view(), span: self.span }
    }
}

} // verus!
