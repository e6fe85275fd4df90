//! The validated semantic model of one interface.
//!
//! The builder turns the declaration and its merged metadata into these
//! records; the emitter consumes them. A `Definition` is immutable once
//! constructed: data flows strictly forward.

use vstd::prelude::*;

use crate::ast::{GenericsModel, SpecGenericsModel, SpecTyExpr, TyExpr};

verus! {

/// One exposed argument of a schema field.
#[derive(Debug)]
pub struct InterfaceFieldArgumentDefinition {
    /// Exposed argument name.
    pub name: String,
    /// Declared Rust type.
    pub ty: TyExpr,
    pub description: Option<String>,
    /// A default value: an expression, or reliance on the type's own
    /// default when no expression was given.
    pub default: Option<Option<String>>,
}

/// Ghost mirror of [`InterfaceFieldArgumentDefinition`].
#[verifier::ext_equal]
pub struct SpecInterfaceFieldArgumentDefinition {
    pub name: Seq<char>,
    pub ty: SpecTyExpr,
    pub description: Option<Seq<char>>,
    pub default: Option<Option<Seq<char>>>,
}

impl DeepView for InterfaceFieldArgumentDefinition {
    type V = SpecInterfaceFieldArgumentDefinition;

    open spec fn deep_view(&self) -> SpecInterfaceFieldArgumentDefinition {
        SpecInterfaceFieldArgumentDefinition {
            name: self.name.deep_view(),
            ty: self.ty.deep_view(),
            description: self.description.deep_view(),
            default: self.default.deep_view(),
        }
    }
}

/// A classified method parameter: an exposed argument, the injected
/// context, or the injected execution handle.
#[derive(Debug)]
pub enum MethodArgument {
    Regular(InterfaceFieldArgumentDefinition),
    /// Carries the context type to inject (the unreferenced parameter
    /// type).
    Context(TyExpr),
    Executor,
}

/// Ghost mirror of [`MethodArgument`].
#[verifier::ext_equal]
pub enum SpecMethodArgument {
    Regular(SpecInterfaceFieldArgumentDefinition),
    Context(SpecTyExpr),
    Executor,
}

impl DeepView for MethodArgument {
    type V = SpecMethodArgument;

    open spec fn deep_view(&self) -> SpecMethodArgument {
        match self {
            MethodArgument::Regular(a) => SpecMethodArgument::Regular(a.deep_view()),
            MethodArgument::Context(t) => SpecMethodArgument::Context(t.deep_view()),
            MethodArgument::Executor => SpecMethodArgument::Executor,
        }
    }
}

impl MethodArgument {
    /// The exposed argument behind this parameter, when it is one.
    pub fn as_regular(&self) -> (r: Option<&InterfaceFieldArgumentDefinition>)
        ensures
            match r {
                Some(a) => self.deep_view() == SpecMethodArgument::Regular(a.deep_view()),
                None => !(self.deep_view() is Regular),
            },
    {
        if let MethodArgument::Regular(arg) = self {
            Some(arg)
        } else {
            None
        }
    }

    /// The context type behind this parameter, when it is the context.
    pub fn context_ty(&self) -> (r: Option<&TyExpr>)
        ensures
            match r {
                Some(t) => self.deep_view() == SpecMethodArgument::Context(t.deep_view()),
                None => !(self.deep_view() is Context),
            },
    {
        if let MethodArgument::Context(ty) = self {
            Some(ty)
        } else {
            None
        }
    }
}

/// One schema field, derived from one capability method. Field order is
/// declaration order and is preserved verbatim into emission.
#[derive(Debug)]
pub struct InterfaceFieldDefinition {
    /// Exposed field name.
    pub name: String,
    /// Declared result type.
    pub ty: TyExpr,
    pub description: Option<String>,
    /// Deprecation, with its optional reason.
    pub deprecated: Option<Option<String>>,
    /// The originating capability-method identifier.
    pub method: String,
    /// Classified parameters, in declaration order.
    pub arguments: Vec<MethodArgument>,
    /// Whether resolution of this field suspends.
    pub is_async: bool,
}

/// Ghost mirror of [`InterfaceFieldDefinition`].
#[verifier::ext_equal]
pub struct SpecInterfaceFieldDefinition {
    pub name: Seq<char>,
    pub ty: SpecTyExpr,
    pub description: Option<Seq<char>>,
    pub deprecated: Option<Option<Seq<char>>>,
    pub method: Seq<char>,
    pub arguments: Seq<SpecMethodArgument>,
    pub is_async: bool,
}

impl DeepView for InterfaceFieldDefinition {
    type V = SpecInterfaceFieldDefinition;

    open spec fn deep_view(&self) -> SpecInterfaceFieldDefinition {
        SpecInterfaceFieldDefinition {
            name: self.name.deep_view(),
            ty: self.ty.deep_view(),
            description: self.description.deep_view(),
            deprecated: self.deprecated.deep_view(),
            method: self.method.deep_view(),
            arguments: self.arguments.deep_view(),
            is_async: self.is_async,
        }
    }
}

/// How a polymorphic interface value narrows to one implementer: an
/// instance method (with or without the context), or an externally
/// supplied function reference.
#[derive(Clone, Debug, PartialEq, Eq)]
pub enum ImplementerDowncastDefinition {
    Method { name: String, with_context: bool },
    External { path: String },
}

/// Ghost mirror of [`ImplementerDowncastDefinition`].
#[verifier::ext_equal]
pub enum SpecImplementerDowncastDefinition {
    Method { name: Seq<char>, with_context: bool },
    External { path: Seq<char> },
}

impl DeepView for ImplementerDowncastDefinition {
    type V = SpecImplementerDowncastDefinition;

    open spec fn deep_view(&self) -> SpecImplementerDowncastDefinition {
        match self {
            ImplementerDowncastDefinition::Method { name, with_context } =>
                SpecImplementerDowncastDefinition::Method {
                name: name.deep_view(),
                with_context: *with_context,
            },
            ImplementerDowncastDefinition::External { path } =>
                SpecImplementerDowncastDefinition::External { path: path.deep_view() },
        }
    }
}

/// The value-domain (scalar) type the emitted code resolves with:
/// concrete, one of the declaration's own generic parameters, or left
/// generic over any scalar.
#[derive(Clone, Debug, PartialEq, Eq)]
pub enum ScalarTy {
    Concrete(String),
    ExplicitGeneric(String),
    ImplicitGeneric,
}

/// Ghost mirror of [`ScalarTy`].
#[verifier::ext_equal]
pub enum SpecScalarTy {
    Concrete(Seq<char>),
    ExplicitGeneric(Seq<char>),
    ImplicitGeneric,
}

impl DeepView for ScalarTy {
    type V = SpecScalarTy;

    open spec fn deep_view(&self) -> SpecScalarTy {
        match self {
            ScalarTy::Concrete(s) => SpecScalarTy::Concrete(s.deep_view()),
            ScalarTy::ExplicitGeneric(s) => SpecScalarTy::ExplicitGeneric(s.deep_view()),
            ScalarTy::ImplicitGeneric => SpecScalarTy::ImplicitGeneric,
        }
    }
}

/// Whether the emitted code is generic over the scalar type.
pub open spec fn spec_scalar_is_generic(s: SpecScalarTy) -> bool {
    !(s is Concrete)
}

/// The identifier the scalar type stands under in the emitted code: the
/// concrete type, the explicit parameter, or the synthesized parameter
/// for the implicit case.
pub open spec fn spec_scalar_ident(s: SpecScalarTy) -> Seq<char> {
    match s {
        SpecScalarTy::Concrete(t) => t,
        SpecScalarTy::ExplicitGeneric(t) => t,
        SpecScalarTy::ImplicitGeneric => "__S"@,
    }
}

impl ScalarTy {
    /// Whether the emitted code is generic over the scalar type.
    pub fn is_generic(&self) -> (r: bool)
        ensures
            r == spec_scalar_is_generic(self.deep_view()),
    {
        !matches!(self, ScalarTy::Concrete(_))
    }

    /// The identifier the scalar type stands under in the emitted code.
    pub fn ident_or_default(&self) -> (r: String)
        ensures
            r.deep_view() == spec_scalar_ident(self.deep_view()),
    {
        match self {
            ScalarTy::Concrete(t) => t.clone(),
            ScalarTy::ExplicitGeneric(t) => t.clone(),
            ScalarTy::ImplicitGeneric => String::from_str("__S"),
        }
    }

    /// Copies the scalar type.
    pub fn duplicate(&self) -> (r: ScalarTy)
        ensures
            r.deep_view() == self.deep_view(),
    {
        match self {
            ScalarTy::Concrete(t) => ScalarTy::Concrete(t.clone()),
            ScalarTy::ExplicitGeneric(t) => ScalarTy::ExplicitGeneric(t.clone()),
            ScalarTy::ImplicitGeneric => ScalarTy::ImplicitGeneric,
        }
    }
}

/// One concrete type permitted to satisfy the interface.
#[derive(Debug)]
pub struct ImplementerDefinition {
    /// The implementer's Rust type, as named in the metadata.
    pub ty: String,
    /// The chosen downcast strategy, or none where the backend makes
    /// narrowing structurally unnecessary.
    pub downcast: Option<ImplementerDowncastDefinition>,
    /// The context type the downcast method requires, when it takes one.
    pub context_ty: Option<TyExpr>,
    /// The value-domain type this implementer resolves with.
    pub scalar: ScalarTy,
}

/// Ghost mirror of [`ImplementerDefinition`].
#[verifier::ext_equal]
pub struct SpecImplementerDefinition {
    pub ty: Seq<char>,
    pub downcast: Option<SpecImplementerDowncastDefinition>,
    pub context_ty: Option<SpecTyExpr>,
    pub scalar: SpecScalarTy,
}

impl DeepView for ImplementerDefinition {
    type V = SpecImplementerDefinition;

    open spec fn deep_view(&self) -> SpecImplementerDefinition {
        SpecImplementerDefinition {
            ty: self.ty.deep_view(),
            downcast: self.downcast.deep_view(),
            context_ty: self.context_ty.deep_view(),
            scalar: self.scalar.deep_view(),
        }
    }
}

/// The fully validated interface: the one artifact handed to the
/// emitter, immutable once constructed.
#[derive(Debug)]
pub struct Definition {
    /// The chosen backend representation.
    pub repr: crate::repr::Representation,
    /// The originating declaration's identity and generic parameters.
    pub trait_ident: String,
    pub trait_generics: GenericsModel,
    /// The exposed schema name.
    pub name: String,
    pub description: Option<String>,
    /// The context type; the unit context is assumed when absent.
    pub context: Option<String>,
    /// The value-domain type, concrete or left generic.
    pub scalar: ScalarTy,
    /// Ordered fields: declaration order, preserved verbatim into
    /// emission.
    pub fields: Vec<InterfaceFieldDefinition>,
    /// The implementer list, in declaration order.
    pub implementers: Vec<ImplementerDefinition>,
}

/// Ghost mirror of [`Definition`].
#[verifier::ext_equal]
pub struct SpecDefinition {
    pub repr: crate::repr::SpecRepresentation,
    pub trait_ident: Seq<char>,
    pub trait_generics: SpecGenericsModel,
    pub name: Seq<char>,
    pub description: Option<Seq<char>>,
    pub context: Option<Seq<char>>,
    pub scalar: SpecScalarTy,
    pub fields: Seq<SpecInterfaceFieldDefinition>,
    pub implementers: Seq<SpecImplementerDefinition>,
}

impl DeepView for Definition {
    type V = SpecDefinition;

    open spec fn deep_view(&self) -> SpecDefinition {
        SpecDefinition {
            repr: self.repr.deep_view(),
            trait_ident: self.trait_ident.deep_view(),
            trait_generics: self.trait_generics.deep_view(),
            name: self.name.deep_view(),
            description: self.description.deep_view(),
            context: self.context.deep_view(),
            scalar: self.scalar.deep_view(),
            fields: self.fields.deep_view(),
            implementers: self.implementers.deep_view(),
        }
    }
}

} // verus!
